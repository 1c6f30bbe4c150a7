//! The runtime behaviour of a synthesized function, one routine per
//! arity: length-checked, order-preserving elementwise dispatch of a
//! scalar function over equal-length input sequences, consuming each
//! sequence from the front exactly as the synthesized body does.
//!
//! The unchecked routines demand equal lengths up front and return the
//! elementwise results; the checked routines realize the synthesized
//! length assertions, reporting the literal mismatch text instead of
//! computing any element when two inputs differ in length.

use vstd::prelude::*;
use crate::synthesize::mismatch_message;
use crate::synthesize::mismatch_message_spec;

verus! {

/// Applies `f` to each element of `xs`, in index order, returning one
/// result per element.
pub fn vectorized_call1<A, R, F: Fn(A) -> R>(f: F, xs: Vec<A>) -> (out: Vec<R>)
    requires
        forall|i: int| 0 <= i < xs@.len() ==> call_requires(f, (xs@[i],)),
    ensures
        out@.len() == xs@.len(),
        forall|i: int| 0 <= i < xs@.len() ==> call_ensures(f, (xs@[i],), #[trigger] out@[i]),
{
    let ghost oxs = xs@;
    let mut xs = xs;
    let n = xs.len();
    let mut out: Vec<R> = Vec::with_capacity(n);
    let mut i: usize = 0;
    while i < n
        invariant
            n == oxs.len(),
            0 <= i <= n,
            xs@ == oxs.skip(i as int),
            out@.len() == i,
            forall|j: int| 0 <= j < i ==> call_ensures(f, (oxs[j],), #[trigger] out@[j]),
            forall|j: int| 0 <= j < n ==> call_requires(f, (oxs[j],)),
        decreases n - i,
    {
        let a = xs.remove(0);
        proof {
            assert(a == oxs[i as int]);
            assert(oxs.skip(i as int).remove(0) =~= oxs.skip(i + 1 as int));
        }
        out.push(f(a));
        i += 1;
    }
    out
}

/// Applies `f` pairwise to the elements of `xs` and `ys`, in index
/// order, returning one result per index.
pub fn vectorized_call2<A, B, R, F: Fn(A, B) -> R>(f: F, xs: Vec<A>, ys: Vec<B>) -> (out: Vec<R>)
    requires
        xs@.len() == ys@.len(),
        forall|i: int| 0 <= i < xs@.len() ==> call_requires(f, (xs@[i], ys@[i])),
    ensures
        out@.len() == xs@.len(),
        forall|i: int|
            0 <= i < xs@.len() ==> call_ensures(f, (xs@[i], ys@[i]), #[trigger] out@[i]),
{
    let ghost oxs = xs@;
    let ghost oys = ys@;
    let mut xs = xs;
    let mut ys = ys;
    let n = xs.len();
    let mut out: Vec<R> = Vec::with_capacity(n);
    let mut i: usize = 0;
    while i < n
        invariant
            n == oxs.len(),
            oys.len() == oxs.len(),
            0 <= i <= n,
            xs@ == oxs.skip(i as int),
            ys@ == oys.skip(i as int),
            out@.len() == i,
            forall|j: int| 0 <= j < i ==> call_ensures(f, (oxs[j], oys[j]), #[trigger] out@[j]),
            forall|j: int| 0 <= j < n ==> call_requires(f, (oxs[j], oys[j])),
        decreases n - i,
    {
        let a = xs.remove(0);
        let b = ys.remove(0);
        proof {
            assert(a == oxs[i as int]);
            assert(b == oys[i as int]);
            assert(oxs.skip(i as int).remove(0) =~= oxs.skip(i + 1 as int));
            assert(oys.skip(i as int).remove(0) =~= oys.skip(i + 1 as int));
        }
        out.push(f(a, b));
        i += 1;
    }
    out
}

/// Applies `f` to corresponding elements of `xs`, `ys` and `zs`, in
/// index order, returning one result per index.
pub fn vectorized_call3<A, B, C, R, F: Fn(A, B, C) -> R>(
    f: F,
    xs: Vec<A>,
    ys: Vec<B>,
    zs: Vec<C>,
) -> (out: Vec<R>)
    requires
        xs@.len() == ys@.len(),
        ys@.len() == zs@.len(),
        forall|i: int| 0 <= i < xs@.len() ==> call_requires(f, (xs@[i], ys@[i], zs@[i])),
    ensures
        out@.len() == xs@.len(),
        forall|i: int|
            0 <= i < xs@.len() ==> call_ensures(f, (xs@[i], ys@[i], zs@[i]), #[trigger] out@[i]),
{
    let ghost oxs = xs@;
    let ghost oys = ys@;
    let ghost ozs = zs@;
    let mut xs = xs;
    let mut ys = ys;
    let mut zs = zs;
    let n = xs.len();
    let mut out: Vec<R> = Vec::with_capacity(n);
    let mut i: usize = 0;
    while i < n
        invariant
            n == oxs.len(),
            oys.len() == oxs.len(),
            ozs.len() == oxs.len(),
            0 <= i <= n,
            xs@ == oxs.skip(i as int),
            ys@ == oys.skip(i as int),
            zs@ == ozs.skip(i as int),
            out@.len() == i,
            forall|j: int|
                0 <= j < i ==> call_ensures(f, (oxs[j], oys[j], ozs[j]), #[trigger] out@[j]),
            forall|j: int| 0 <= j < n ==> call_requires(f, (oxs[j], oys[j], ozs[j])),
        decreases n - i,
    {
        let a = xs.remove(0);
        let b = ys.remove(0);
        let c = zs.remove(0);
        proof {
            assert(a == oxs[i as int]);
            assert(b == oys[i as int]);
            assert(c == ozs[i as int]);
            assert(oxs.skip(i as int).remove(0) =~= oxs.skip(i + 1 as int));
            assert(oys.skip(i as int).remove(0) =~= oys.skip(i + 1 as int));
            assert(ozs.skip(i as int).remove(0) =~= ozs.skip(i + 1 as int));
        }
        out.push(f(a, b, c));
        i += 1;
    }
    out
}

/// Length-checked dispatch at arity two: when the inputs' lengths
/// differ, no element is computed and the literal mismatch text for
/// `generated_name` is returned; otherwise the elementwise results.
pub fn vectorized_call2_checked<A, B, R, F: Fn(A, B) -> R>(
    generated_name: &str,
    f: F,
    xs: Vec<A>,
    ys: Vec<B>,
) -> (out: Result<Vec<R>, String>)
    requires
        xs@.len() == ys@.len() ==> forall|i: int|
            0 <= i < xs@.len() ==> call_requires(f, (xs@[i], ys@[i])),
    ensures
        xs@.len() != ys@.len() ==> (out matches Err(m) && m@ == mismatch_message_spec(
            generated_name@,
        )),
        xs@.len() == ys@.len() ==> (out matches Ok(r) && r@.len() == xs@.len() && forall|i: int|
            0 <= i < xs@.len() ==> call_ensures(f, (xs@[i], ys@[i]), #[trigger] r@[i])),
{
    if xs.len() != ys.len() {
        Err(mismatch_message(generated_name))
    } else {
        Ok(vectorized_call2(f, xs, ys))
    }
}

/// Length-checked dispatch at arity three: the adjacent-pair checks of
/// the synthesized body, then elementwise dispatch. Length equality
/// being transitive, the two checks cover every pair.
pub fn vectorized_call3_checked<A, B, C, R, F: Fn(A, B, C) -> R>(
    generated_name: &str,
    f: F,
    xs: Vec<A>,
    ys: Vec<B>,
    zs: Vec<C>,
) -> (out: Result<Vec<R>, String>)
    requires
        xs@.len() == ys@.len() && ys@.len() == zs@.len() ==> forall|i: int|
            0 <= i < xs@.len() ==> call_requires(f, (xs@[i], ys@[i], zs@[i])),
    ensures
        !(xs@.len() == ys@.len() && ys@.len() == zs@.len()) ==> (out matches Err(m) && m@
            == mismatch_message_spec(generated_name@)),
        xs@.len() == ys@.len() && ys@.len() == zs@.len() ==> (out matches Ok(r) && r@.len()
            == xs@.len() && forall|i: int|
            0 <= i < xs@.len() ==> call_ensures(f, (xs@[i], ys@[i], zs@[i]), #[trigger] r@[i])),
{
    if xs.len() != ys.len() {
        Err(mismatch_message(generated_name))
    } else if ys.len() != zs.len() {
        Err(mismatch_message(generated_name))
    } else {
        Ok(vectorized_call3(f, xs, ys, zs))
    }
}

/// Elementwise correctness and order preservation, arity one: when the
/// scalar function's contract determines its result — `g` gives the one
/// value its postcondition admits — any output meeting the dispatch
/// contract is exactly the input mapped by `g` in index order: no
/// reordering, no filtering, no duplication.
pub proof fn lemma_order_preserved1<A, R, F: Fn(A) -> R>(
    f: F,
    xs: Seq<A>,
    out: Seq<R>,
    g: spec_fn(A) -> R,
)
    requires
        out.len() == xs.len(),
        forall|i: int| 0 <= i < xs.len() ==> call_ensures(f, (xs[i],), #[trigger] out[i]),
        forall|a: A, r: R| call_ensures(f, (a,), r) ==> r == g(a),
    ensures
        out == Seq::new(xs.len(), |i: int| g(xs[i])),
{
    assert(out =~= Seq::new(xs.len(), |i: int| g(xs[i])));
}

/// Elementwise correctness and order preservation, arity two: the `i`-th
/// output element is the scalar result of the `i`-th elements of both
/// inputs, for every index in order.
pub proof fn lemma_order_preserved2<A, B, R, F: Fn(A, B) -> R>(
    f: F,
    xs: Seq<A>,
    ys: Seq<B>,
    out: Seq<R>,
    g: spec_fn(A, B) -> R,
)
    requires
        ys.len() == xs.len(),
        out.len() == xs.len(),
        forall|i: int| 0 <= i < xs.len() ==> call_ensures(f, (xs[i], ys[i]), #[trigger] out[i]),
        forall|a: A, b: B, r: R| call_ensures(f, (a, b), r) ==> r == g(a, b),
    ensures
        out == Seq::new(xs.len(), |i: int| g(xs[i], ys[i])),
{
    assert(out =~= Seq::new(xs.len(), |i: int| g(xs[i], ys[i])));
}

/// Elementwise correctness and order preservation, arity three.
pub proof fn lemma_order_preserved3<A, B, C, R, F: Fn(A, B, C) -> R>(
    f: F,
    xs: Seq<A>,
    ys: Seq<B>,
    zs: Seq<C>,
    out: Seq<R>,
    g: spec_fn(A, B, C) -> R,
)
    requires
        ys.len() == xs.len(),
        zs.len() == xs.len(),
        out.len() == xs.len(),
        forall|i: int|
            0 <= i < xs.len() ==> call_ensures(f, (xs[i], ys[i], zs[i]), #[trigger] out[i]),
        forall|a: A, b: B, c: C, r: R| call_ensures(f, (a, b, c), r) ==> r == g(a, b, c),
    ensures
        out == Seq::new(xs.len(), |i: int| g(xs[i], ys[i], zs[i])),
{
    assert(out =~= Seq::new(xs.len(), |i: int| g(xs[i], ys[i], zs[i])));
}

} // verus!
