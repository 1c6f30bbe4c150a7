//! The transformation pipeline: extract-validate-synthesize as one linear
//! pass with two terminal outcomes. The original definition is always
//! kept; on success a synthesized sibling is emitted beside it, on
//! failure a single diagnostic anchored to the original shape is emitted
//! instead and nothing is synthesized.

use vstd::prelude::*;
use crate::diagnostic::Diagnostic;
use crate::diagnostic::first_failure;
use crate::diagnostic::validate;
use crate::shape::FunctionShape;
use crate::shape::eligible;
use crate::synthesize::GeneratedFunction;
use crate::synthesize::synthesized_from;
use crate::synthesize::synthesize;

verus! {

/// The two terminal outcomes of one transformation run.
pub enum Emission {
    Emitted { original: FunctionShape, generated: GeneratedFunction },
    Rejected { diagnostic: Diagnostic },
}

/// Runs the whole transformation on one extracted shape. An eligible
/// shape yields the original back together with its synthesized
/// vectorized sibling; an ineligible one yields the diagnostic of the
/// first failing eligibility check, carrying its literal message and the
/// original shape as anchor, and no function is synthesized.
pub fn auto_vec(shape: FunctionShape) -> (out: Emission)
    ensures
        eligible(shape) ==> (out matches Emission::Emitted { original, generated }
            && original == shape && synthesized_from(generated, shape)),
        !eligible(shape) ==> (out matches Emission::Rejected { diagnostic }
            && diagnostic.message@ == first_failure(shape).message_spec()
            && diagnostic.anchor == shape),
{
    match validate(&shape) {
        Some(error) => {
            let message = error.message();
            Emission::Rejected { diagnostic: Diagnostic { message, anchor: shape } }
        },
        None => {
            let generated = synthesize(&shape);
            Emission::Emitted { original: shape, generated }
        },
    }
}

} // verus!
