//! Eligibility validation: the three static rejection conditions, their
//! literal diagnostic texts, and the diagnostic record that is emitted in
//! place of a synthesized function.

use vstd::prelude::*;
use crate::shape::FunctionShape;
use crate::shape::Parameter;
use crate::shape::eligible;
use crate::shape::lacks_parameters;
use crate::shape::lacks_return_type;
use crate::shape::lacks_typed_parameters;
use crate::shape::typed_patterns;
use crate::shape::lemma_typed_patterns_push;

verus! {

/// The three static reasons a shape may be refused, in the order in which
/// they are checked. The first failing check wins; they never accumulate.
#[derive(Clone, Copy, PartialEq, Eq, Structural, Debug)]
pub enum EligibilityError {
    ArgumentsMissing,
    ReturnTypeMissing,
    NoTypedArguments,
}

impl EligibilityError {
    /// The literal diagnostic text of this error. The exact wording is
    /// part of the external contract and must not drift.
    pub open spec fn message_spec(self) -> Seq<char> {
        match self {
            EligibilityError::ArgumentsMissing => "Auto_vec: Expected one or more arguments, Found None"@,
            EligibilityError::ReturnTypeMissing => "Auto_vec: Expected a return type, Found None"@,
            EligibilityError::NoTypedArguments => "Auto_vec: Expected one or more Typed arguments, Found None"@,
        }
    }

    pub fn message(&self) -> (m: String)
        ensures
            m@ == self.message_spec(),
    {
        match self {
            EligibilityError::ArgumentsMissing => "Auto_vec: Expected one or more arguments, Found None".to_owned(),
            EligibilityError::ReturnTypeMissing => "Auto_vec: Expected a return type, Found None".to_owned(),
            EligibilityError::NoTypedArguments => "Auto_vec: Expected one or more Typed arguments, Found None".to_owned(),
        }
    }
}

/// The first rejection condition that an ineligible shape trips, in
/// check order: missing parameters, then missing return type, then no
/// typed parameter.
pub open spec fn first_failure(s: FunctionShape) -> EligibilityError {
    if lacks_parameters(s) {
        EligibilityError::ArgumentsMissing
    } else if lacks_return_type(s) {
        EligibilityError::ReturnTypeMissing
    } else {
        EligibilityError::NoTypedArguments
    }
}

/// A diagnostic produced instead of a synthesized function: the literal
/// message, anchored to the original shape. Terminal for the run.
pub struct Diagnostic {
    pub message: String,
    pub anchor: FunctionShape,
}

/// True when at least one parameter is typed (not a receiver).
fn has_typed_parameter(params: &Vec<Parameter>) -> (b: bool)
    ensures
        b == (typed_patterns(params@).len() > 0),
{
    let n = params.len();
    let mut i: usize = 0;
    while i < n
        invariant
            n == params@.len(),
            0 <= i <= n,
            typed_patterns(params@.take(i as int)).len() == 0,
        decreases n - i,
    {
        let typed = match &params[i] {
            Parameter::Receiver => false,
            Parameter::Typed { pattern, ty } => true,
        };
        proof {
            assert(params@.take(i + 1 as int) =~= params@.take(i as int).push(params@[i as int]));
            lemma_typed_patterns_push(params@.take(i as int), params@[i as int]);
        }
        if typed {
            proof {
                crate::shape::lemma_typed_patterns_add(
                    params@.take(i + 1 as int),
                    params@.skip(i + 1 as int),
                );
                assert(params@.take(i + 1 as int) + params@.skip(i + 1 as int) =~= params@);
            }
            return true;
        }
        i += 1;
    }
    proof {
        assert(params@.take(n as int) =~= params@);
    }
    false
}

/// Checks a shape against the three eligibility rules, in order, and
/// returns the first failure, or `None` when the shape is eligible.
pub fn validate(shape: &FunctionShape) -> (r: Option<EligibilityError>)
    ensures
        r is None <==> eligible(*shape),
        !eligible(*shape) ==> r == Some(first_failure(*shape)),
{
    if shape.parameters.len() == 0 {
        Some(EligibilityError::ArgumentsMissing)
    } else if shape.return_type.is_none() {
        Some(EligibilityError::ReturnTypeMissing)
    } else if !has_typed_parameter(&shape.parameters) {
        Some(EligibilityError::NoTypedArguments)
    } else {
        None
    }
}

} // verus!
