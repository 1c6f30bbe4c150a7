//! Synthesis of the vectorized sibling function: its derived name, its
//! signature (every typed parameter's type wrapped in `Vec<..>`, the
//! receiver and the generics passed through untouched), and the
//! description of its body (adjacent-pair length checks, the literal
//! mismatch text, the dispatch target and the call arguments in order).

use vstd::prelude::*;
use vstd::string::StringExecFns;
use crate::shape::FunctionShape;
use crate::shape::GenericParam;
use crate::shape::Parameter;
use crate::shape::dispatches_through_receiver;
use crate::shape::eligible;
use crate::shape::typed_patterns;
use crate::shape::typed_pattern_idents;

verus! {

/// The name of the synthesized function: the original name with the
/// `_vec` suffix appended.
pub open spec fn vec_name_spec(name: Seq<char>) -> Seq<char> {
    name + "_vec"@
}

/// A type wrapped in "sequence of": the token text `Vec<..>` around the
/// original type's token text.
pub open spec fn wrap_type_spec(ty: Seq<char>) -> Seq<char> {
    "Vec<"@ + ty + ">"@
}

/// The literal text the synthesized function aborts with when two input
/// sequences differ in length.
pub open spec fn mismatch_message_spec(generated_name: Seq<char>) -> Seq<char> {
    "Input vectors of not the same length to vectorized function "@ + generated_name
}

pub fn vec_name(name: &str) -> (r: String)
    ensures
        r@ == vec_name_spec(name@),
{
    let mut r = name.to_owned();
    r.append("_vec");
    r
}

pub fn wrap_type(ty: &str) -> (r: String)
    ensures
        r@ == wrap_type_spec(ty@),
{
    let mut r = "Vec<".to_owned();
    r.append(ty);
    r.append(">");
    r
}

pub fn mismatch_message(generated_name: &str) -> (r: String)
    ensures
        r@ == mismatch_message_spec(generated_name@),
{
    let mut r = "Input vectors of not the same length to vectorized function ".to_owned();
    r.append(generated_name);
    r
}

/// How `q` must relate to the original parameter `p` in the synthesized
/// signature: a receiver is passed through unchanged; a typed parameter
/// keeps its pattern and has its type wrapped in `Vec<..>`.
pub open spec fn wrapped_param(p: Parameter, q: Parameter) -> bool {
    match p {
        Parameter::Receiver => q is Receiver,
        Parameter::Typed { pattern, ty } => match q {
            Parameter::Typed { pattern: wrapped_pattern, ty: wrapped_ty } => {
                wrapped_pattern@ == pattern@ && wrapped_ty@ == wrap_type_spec(ty@)
            },
            Parameter::Receiver => false,
        },
    }
}

/// One runtime length assertion of the synthesized body: the lengths of
/// the sequences bound to `left` and `right` must be equal.
pub struct LengthCheck {
    pub left: String,
    pub right: String,
}

/// The call target of the synthesized body: the free function named
/// `name`, or the member `name` of the receiver.
pub enum CallTarget {
    Free { name: String },
    Method { name: String },
}

/// The body of the synthesized function, by its semantic content: the
/// adjacent-pair length checks, the literal abort text, the parameter
/// whose length drives the capacity hint and the loop bound, the
/// dispatch target, and the call arguments in original order.
pub struct GeneratedBody {
    pub length_checks: Vec<LengthCheck>,
    pub mismatch_message: String,
    pub length_source: String,
    pub target: CallTarget,
    pub call_arguments: Vec<String>,
}

/// The synthesized sibling function, emitted alongside — never in place
/// of — the original definition.
pub struct GeneratedFunction {
    pub name: String,
    pub visibility: String,
    pub generics: Vec<GenericParam>,
    pub parameters: Vec<Parameter>,
    pub return_type: String,
    pub body: GeneratedBody,
}

/// A generic parameter carried over unchanged: same name, same bounds,
/// in the same order.
pub open spec fn generic_param_matches(a: GenericParam, b: GenericParam) -> bool {
    &&& a.name@ == b.name@
    &&& a.bounds@.map_values(|s: String| s@) == b.bounds@.map_values(|s: String| s@)
}

/// Everything the synthesized function owes to the shape it was derived
/// from: derived name, visibility and generics verbatim, parameters in
/// the original order with typed ones wrapped, wrapped return type, and
/// a body that checks adjacent lengths, aborts with the literal text,
/// dispatches to the original target, and passes the typed arguments in
/// their original order.
pub open spec fn synthesized_from(g: GeneratedFunction, s: FunctionShape) -> bool {
    let pats = typed_patterns(s.parameters@);
    &&& g.name@ == vec_name_spec(s.name@)
    &&& g.visibility@ == s.visibility@
    &&& g.generics@.len() == s.generics@.len()
    &&& forall|i: int|
        0 <= i < s.generics@.len() ==> generic_param_matches(s.generics@[i], #[trigger] g.generics@[i])
    &&& g.parameters@.len() == s.parameters@.len()
    &&& forall|i: int|
        0 <= i < s.parameters@.len() ==> wrapped_param(s.parameters@[i], #[trigger] g.parameters@[i])
    &&& (s.return_type matches Some(rt) && g.return_type@ == wrap_type_spec(rt@))
    &&& g.body.length_checks@.len() == pats.len() - 1
    &&& forall|i: int|
        0 <= i < pats.len() - 1 ==> (#[trigger] g.body.length_checks@[i]).left@ == pats[i]
            && g.body.length_checks@[i].right@ == pats[i + 1]
    &&& g.body.mismatch_message@ == mismatch_message_spec(vec_name_spec(s.name@))
    &&& pats.len() > 0 && g.body.length_source@ == pats[0]
    &&& (if dispatches_through_receiver(s) {
        g.body.target matches CallTarget::Method { name } && name@ == s.name@
    } else {
        g.body.target matches CallTarget::Free { name } && name@ == s.name@
    })
    &&& g.body.call_arguments@.map_values(|x: String| x@) == pats
}

/// Why the adjacent-pair chain suffices: when each length equals the
/// next, every pair of lengths is equal, so all input sequences share
/// one common length.
pub proof fn lemma_adjacent_length_chain(lens: Seq<int>)
    requires
        forall|k: int| 0 <= k < lens.len() - 1 ==> #[trigger] lens[k] == lens[k + 1],
    ensures
        forall|i: int, j: int|
            0 <= i < lens.len() && 0 <= j < lens.len() ==> lens[i] == lens[j],
{
    assert forall|i: int| 0 <= i < lens.len() implies #[trigger] lens[i] == lens[0] by {
        lemma_chain_reaches_first(lens, i);
    }
}

proof fn lemma_chain_reaches_first(lens: Seq<int>, i: int)
    requires
        forall|k: int| 0 <= k < lens.len() - 1 ==> #[trigger] lens[k] == lens[k + 1],
        0 <= i < lens.len(),
    ensures
        lens[i] == lens[0],
    decreases i,
{
    if i > 0 {
        lemma_chain_reaches_first(lens, i - 1);
    }
}

/// Builds the adjacent-pair length checks: one per consecutive pair of
/// typed-parameter identifiers. Length equality being transitive, the
/// chain makes all sequences share one common length.
fn length_checks(idents: &Vec<String>) -> (out: Vec<LengthCheck>)
    requires
        idents@.len() >= 1,
    ensures
        out@.len() == idents@.len() - 1,
        forall|i: int|
            0 <= i < out@.len() ==> (#[trigger] out@[i]).left@ == idents@[i]@ && out@[i].right@
                == idents@[i + 1]@,
{
    let mut out: Vec<LengthCheck> = Vec::new();
    let n = idents.len();
    let mut i: usize = 0;
    while i + 1 < n
        invariant
            n == idents@.len(),
            0 <= i <= n - 1,
            out@.len() == i,
            forall|j: int|
                0 <= j < i ==> (#[trigger] out@[j]).left@ == idents@[j]@ && out@[j].right@
                    == idents@[j + 1]@,
        decreases n - i,
    {
        out.push(
            LengthCheck { left: idents[i].clone(), right: idents[i + 1].clone() },
        );
        i += 1;
    }
    out
}

/// Builds the synthesized parameter list: receivers unchanged, typed
/// parameters with the same pattern and the type wrapped in `Vec<..>`.
fn wrap_parameters(params: &Vec<Parameter>) -> (out: Vec<Parameter>)
    ensures
        out@.len() == params@.len(),
        forall|i: int|
            0 <= i < params@.len() ==> wrapped_param(params@[i], #[trigger] out@[i]),
{
    let mut out: Vec<Parameter> = Vec::new();
    let n = params.len();
    let mut i: usize = 0;
    while i < n
        invariant
            n == params@.len(),
            0 <= i <= n,
            out@.len() == i,
            forall|j: int| 0 <= j < i ==> wrapped_param(params@[j], #[trigger] out@[j]),
        decreases n - i,
    {
        let wrapped = match &params[i] {
            Parameter::Receiver => Parameter::Receiver,
            Parameter::Typed { pattern, ty } => Parameter::Typed {
                pattern: pattern.clone(),
                ty: wrap_type(ty.as_str()),
            },
        };
        out.push(wrapped);
        i += 1;
    }
    out
}

/// Clones a list of bound or argument strings, keeping content and order.
fn clone_strings(v: &Vec<String>) -> (out: Vec<String>)
    ensures
        out@.len() == v@.len(),
        forall|i: int| 0 <= i < v@.len() ==> (#[trigger] out@[i])@ == v@[i]@,
{
    let mut out: Vec<String> = Vec::new();
    let n = v.len();
    let mut i: usize = 0;
    while i < n
        invariant
            n == v@.len(),
            0 <= i <= n,
            out@.len() == i,
            forall|j: int| 0 <= j < i ==> (#[trigger] out@[j])@ == v@[j]@,
        decreases n - i,
    {
        out.push(v[i].clone());
        i += 1;
    }
    out
}

/// Copies the generic parameter list verbatim: same names, same bounds,
/// same order.
fn copy_generics(v: &Vec<GenericParam>) -> (out: Vec<GenericParam>)
    ensures
        out@.len() == v@.len(),
        forall|i: int|
            0 <= i < v@.len() ==> generic_param_matches(v@[i], #[trigger] out@[i]),
{
    let mut out: Vec<GenericParam> = Vec::new();
    let n = v.len();
    let mut i: usize = 0;
    while i < n
        invariant
            n == v@.len(),
            0 <= i <= n,
            out@.len() == i,
            forall|j: int| 0 <= j < i ==> generic_param_matches(v@[j], #[trigger] out@[j]),
        decreases n - i,
    {
        let bounds = clone_strings(&v[i].bounds);
        proof {
            assert(bounds@.map_values(|s: String| s@) =~= v@[i as int].bounds@.map_values(
                |s: String| s@,
            ));
        }
        out.push(GenericParam { name: v[i].name.clone(), bounds });
        i += 1;
    }
    out
}

/// Synthesizes the vectorized sibling of an eligible shape, leaving the
/// original shape untouched beside it.
pub fn synthesize(shape: &FunctionShape) -> (g: GeneratedFunction)
    requires
        eligible(*shape),
    ensures
        synthesized_from(g, *shape),
{
    let idents = typed_pattern_idents(&shape.parameters);
    proof {
        assert(idents@.map_values(|x: String| x@).len() == typed_patterns(shape.parameters@).len());
    }
    let generated_name = vec_name(shape.name.as_str());
    let message = mismatch_message(generated_name.as_str());
    let checks = length_checks(&idents);
    let length_source = idents[0].clone();
    let parameters = wrap_parameters(&shape.parameters);
    let is_method = match &shape.parameters[0] {
        Parameter::Receiver => true,
        Parameter::Typed { pattern, ty } => false,
    };
    let target = if is_method {
        CallTarget::Method { name: shape.name.clone() }
    } else {
        CallTarget::Free { name: shape.name.clone() }
    };
    let return_type = match &shape.return_type {
        Some(rt) => wrap_type(rt.as_str()),
        None => vstd::pervasive::unreached(),
    };
    proof {
        let pats = typed_patterns(shape.parameters@);
        assert(idents@.map_values(|x: String| x@) == pats);
        assert(length_source@ == pats[0]);
        assert(forall|i: int|
            0 <= i < pats.len() - 1 ==> (#[trigger] checks@[i]).left@ == pats[i]
                && checks@[i].right@ == pats[i + 1]);
    }
    GeneratedFunction {
        name: generated_name,
        visibility: shape.visibility.clone(),
        generics: copy_generics(&shape.generics),
        parameters,
        return_type,
        body: GeneratedBody {
            length_checks: checks,
            mismatch_message: message,
            length_source,
            target,
            call_arguments: idents,
        },
    }
}

} // verus!
