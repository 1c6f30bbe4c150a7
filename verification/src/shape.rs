//! The structured representation of a scalar function's signature, as
//! handed over by the parsing front end, together with the spec-level
//! notions the rest of the pipeline is stated in terms of.

use vstd::prelude::*;

verus! {

/// One parameter of a scalar function: either the implicit receiver of a
/// method (never vectorized), or a typed parameter with its pattern
/// (binding identifier) and the token text of its type.
pub enum Parameter {
    Receiver,
    Typed { pattern: String, ty: String },
}

/// A generic parameter of the scalar function: its name and the ordered
/// token texts of its trait bounds. Passed through to the synthesized
/// function unchanged.
pub struct GenericParam {
    pub name: String,
    pub bounds: Vec<String>,
}

/// The extracted shape of a scalar function or method definition.
/// Built once per transformation run and immutable afterwards.
pub struct FunctionShape {
    pub name: String,
    pub visibility: String,
    pub generics: Vec<GenericParam>,
    pub parameters: Vec<Parameter>,
    pub return_type: Option<String>,
}

/// The patterns (binding identifiers) of the typed parameters, in their
/// original order, with receivers left out.
pub open spec fn typed_patterns(params: Seq<Parameter>) -> Seq<Seq<char>>
    decreases params.len(),
{
    if params.len() == 0 {
        Seq::empty()
    } else {
        typed_patterns(params.drop_last()) + (match params.last() {
            Parameter::Receiver => Seq::<Seq<char>>::empty(),
            Parameter::Typed { pattern, ty } => seq![pattern@],
        })
    }
}

pub proof fn lemma_typed_patterns_add(a: Seq<Parameter>, b: Seq<Parameter>)
    ensures
        typed_patterns(a + b) == typed_patterns(a) + typed_patterns(b),
    decreases b.len(),
{
    if b.len() == 0 {
        assert(a + b =~= a);
        assert(typed_patterns(a) + typed_patterns(b) =~= typed_patterns(a));
    } else {
        lemma_typed_patterns_add(a, b.drop_last());
        assert((a + b).drop_last() =~= a + b.drop_last());
        assert((a + b).last() == b.last());
        assert(typed_patterns(a + b) =~= typed_patterns(a) + typed_patterns(b));
    }
}

pub proof fn lemma_typed_patterns_push(s: Seq<Parameter>, p: Parameter)
    ensures
        typed_patterns(s.push(p)) == typed_patterns(s) + (match p {
            Parameter::Receiver => Seq::<Seq<char>>::empty(),
            Parameter::Typed { pattern, ty } => seq![pattern@],
        }),
{
    assert(s.push(p).drop_last() =~= s);
    assert(s.push(p).last() == p);
}

/// The shape has no parameters at all (first rejection condition).
pub open spec fn lacks_parameters(s: FunctionShape) -> bool {
    s.parameters@.len() == 0
}

/// The shape has no return type (second rejection condition).
pub open spec fn lacks_return_type(s: FunctionShape) -> bool {
    s.return_type is None
}

/// The shape has no typed parameter: every parameter, if any, is a
/// receiver (third rejection condition).
pub open spec fn lacks_typed_parameters(s: FunctionShape) -> bool {
    typed_patterns(s.parameters@).len() == 0
}

/// A shape may be vectorized exactly when it has at least one parameter,
/// a return type, and at least one typed (non-receiver) parameter.
pub open spec fn eligible(s: FunctionShape) -> bool {
    &&& !lacks_parameters(s)
    &&& !lacks_return_type(s)
    &&& !lacks_typed_parameters(s)
}

/// The synthesized call dispatches through the receiver exactly when the
/// first parameter of the original is a receiver.
pub open spec fn dispatches_through_receiver(s: FunctionShape) -> bool {
    s.parameters@.len() > 0 && s.parameters@[0] is Receiver
}

/// Collects the patterns of the typed parameters, in order, as owned
/// strings, leaving the parameter list untouched.
pub fn typed_pattern_idents(params: &Vec<Parameter>) -> (idents: Vec<String>)
    ensures
        idents@.map_values(|s: String| s@) == typed_patterns(params@),
{
    let mut idents: Vec<String> = Vec::new();
    let n = params.len();
    let mut i: usize = 0;
    while i < n
        invariant
            n == params@.len(),
            0 <= i <= n,
            idents@.map_values(|s: String| s@) == typed_patterns(params@.take(i as int)),
        decreases n - i,
    {
        match &params[i] {
            Parameter::Receiver => {
                proof {
                    assert(params@.take(i + 1 as int) =~= params@.take(i as int).push(
                        params@[i as int],
                    ));
                    lemma_typed_patterns_push(params@.take(i as int), params@[i as int]);
                    assert(idents@.map_values(|s: String| s@) =~= typed_patterns(
                        params@.take(i + 1 as int),
                    ));
                }
            },
            Parameter::Typed { pattern, ty } => {
                let owned = pattern.clone();
                idents.push(owned);
                proof {
                    assert(params@.take(i + 1 as int) =~= params@.take(i as int).push(
                        params@[i as int],
                    ));
                    lemma_typed_patterns_push(params@.take(i as int), params@[i as int]);
                    assert(idents@.map_values(|s: String| s@) =~= typed_patterns(
                        params@.take(i + 1 as int),
                    ));
                }
            },
        }
        i += 1;
    }
    proof {
        assert(params@.take(n as int) =~= params@);
    }
    idents
}

} // verus!
