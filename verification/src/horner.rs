//! The two evaluators: one for a coefficient count fixed at the call site,
//! one for a coefficient sequence whose length is known only at run time.

use vstd::prelude::*;
use crate::fused::{muladd, FusedMulAdd};

verus! {

/// The value of the polynomial with coefficients `c`, in ascending order of
/// power, at `x`: the nest `(...(c[n-1] * x + c[n-2]) * x + ... + c[1]) * x + c[0]`.
/// A single coefficient is its own value.
pub open spec fn nested<T: FusedMulAdd>(x: T, c: Seq<T>) -> T
    recommends
        c.len() >= 1,
    decreases c.len(),
{
    if c.len() <= 1 {
        c[0]
    } else {
        nested(x, c.skip(1)).mul_add_spec(x, c[0])
    }
}

/// Whether every fused multiply-add of the nest can be formed. It cannot for
/// an empty sequence, which has no value.
pub open spec fn nested_defined<T: FusedMulAdd>(x: T, c: Seq<T>) -> bool
    decreases c.len(),
{
    c.len() >= 1 && (c.len() == 1 || (nested_defined(x, c.skip(1)) && nested(
        x,
        c.skip(1),
    ).mul_add_defined(x, c[0])))
}

/// The accumulator of the right-to-left reduction after `k` steps: it starts
/// as the leading coefficient, and each step multiplies it by `x` and adds
/// the next coefficient below.
pub open spec fn folded<T: FusedMulAdd>(x: T, c: Seq<T>, k: nat) -> T
    recommends
        k < c.len(),
    decreases k,
{
    if k == 0 {
        c.last()
    } else {
        folded(x, c, (k - 1) as nat).mul_add_spec(x, c[c.len() - 1 - k])
    }
}

/// Where the nest over `c` can be formed, so can the nest over each of its
/// non-empty tails.
pub proof fn lemma_tail_defined<T: FusedMulAdd>(x: T, c: Seq<T>, i: int)
    requires
        nested_defined(x, c),
        0 <= i < c.len(),
    ensures
        nested_defined(x, c.skip(i)),
    decreases i,
{
    if i == 0 {
        assert(c.skip(0) =~= c);
    } else {
        lemma_tail_defined(x, c, i - 1);
        assert(c.skip(i - 1).skip(1) =~= c.skip(i));
    }
}

/// After `k` steps the reduction holds the value of the nest over the last
/// `k + 1` coefficients.
pub proof fn lemma_folded_is_nested_tail<T: FusedMulAdd>(x: T, c: Seq<T>, k: nat)
    requires
        k < c.len(),
    ensures
        folded(x, c, k) == nested(x, c.skip(c.len() - 1 - k)),
    decreases k,
{
    let i = c.len() - 1 - k;
    if k > 0 {
        lemma_folded_is_nested_tail(x, c, (k - 1) as nat);
        assert(c.skip(i).skip(1) =~= c.skip(i + 1));
    }
}

/// The right-to-left reduction and the nested expansion agree: on every
/// non-empty coefficient sequence and at every point they are the same value.
pub proof fn lemma_folded_is_nested<T: FusedMulAdd>(x: T, c: Seq<T>)
    requires
        c.len() >= 1,
    ensures
        folded(x, c, (c.len() - 1) as nat) == nested(x, c),
{
    lemma_folded_is_nested_tail(x, c, (c.len() - 1) as nat);
    assert(c.skip(0) =~= c);
}

/// A polynomial of a single coefficient is that coefficient at every point:
/// its value is always defined, and no multiplication enters it.
pub proof fn lemma_single_coefficient<T: FusedMulAdd>(x: T, a0: T)
    ensures
        nested_defined(x, seq![a0]),
        nested(x, seq![a0]) == a0,
        folded(x, seq![a0], 0) == a0,
{
}

/// A polynomial of two coefficients is one fused multiply-add: the leading
/// coefficient times the point, plus the constant term.
pub proof fn lemma_two_coefficients<T: FusedMulAdd>(x: T, a0: T, a1: T)
    ensures
        nested_defined(x, seq![a0, a1]) <==> a1.mul_add_defined(x, a0),
        nested(x, seq![a0, a1]) == a1.mul_add_spec(x, a0),
{
    let c = seq![a0, a1];
    assert(c.skip(1) =~= seq![a1]);
    assert(nested(x, c.skip(1)) == a1);
    assert(nested_defined(x, c.skip(1)));
}

/// Evaluates the nest over the coefficients from index `i` on.
fn horner_from<T: FusedMulAdd + Copy, const N: usize>(x: T, coefficients: &[T; N], i: usize) -> (r:
    T)
    requires
        i < N,
        nested_defined(x, coefficients@.skip(i as int)),
    ensures
        r == nested(x, coefficients@.skip(i as int)),
    decreases N - i,
{
    let ghost tail = coefficients@.skip(i as int);
    if i + 1 == N {
        coefficients[i]
    } else {
        proof {
            assert(tail.skip(1) =~= coefficients@.skip(i + 1));
        }
        let high = horner_from(x, coefficients, i + 1);
        muladd(high, x, coefficients[i])
    }
}

/// Evaluates at `x` the polynomial whose `N` coefficients, in ascending order
/// of power, are fixed at the call site, as a nest of fused multiply-adds.
/// `x` is evaluated once. A single coefficient is returned unchanged.
pub fn horner<T: FusedMulAdd + Copy, const N: usize>(x: T, coefficients: [T; N]) -> (r: T)
    requires
        N >= 1,
        nested_defined(x, coefficients@),
    ensures
        r == nested(x, coefficients@),
        N == 1 ==> r == coefficients@[0],
        N == 2 ==> r == coefficients@[1].mul_add_spec(x, coefficients@[0]),
{
    proof {
        assert(coefficients@.skip(0) =~= coefficients@);
        if N == 2 {
            lemma_two_coefficients(x, coefficients@[0], coefficients@[1]);
            assert(coefficients@ =~= seq![coefficients@[0], coefficients@[1]]);
        }
    }
    horner_from(x, &coefficients, 0)
}

/// Evaluates at `x` the polynomial whose coefficients, in ascending order of
/// power, are given as a sequence of run-time length, by one pass from the
/// leading coefficient down. The sequence must not be empty. A single
/// coefficient is returned unchanged, whatever `x` is.
pub fn horner_loop<T: FusedMulAdd + Copy>(x: T, coefficients: &[T]) -> (r: T)
    requires
        coefficients@.len() >= 1,
        nested_defined(x, coefficients@),
    ensures
        r == folded(x, coefficients@, (coefficients@.len() - 1) as nat),
        r == nested(x, coefficients@),
        coefficients@.len() == 1 ==> r == coefficients@[0],
{
    let n = coefficients.len();
    let mut result = coefficients[n - 1];
    let mut i: usize = n - 1;
    while i > 0
        invariant
            i < n,
            n == coefficients@.len(),
            nested_defined(x, coefficients@),
            result == nested(x, coefficients@.skip(i as int)),
        decreases i,
    {
        i = i - 1;
        proof {
            lemma_tail_defined(x, coefficients@, i as int);
            assert(coefficients@.skip(i as int).skip(1) =~= coefficients@.skip(i + 1));
        }
        result = muladd(result, x, coefficients[i]);
    }
    proof {
        assert(coefficients@.skip(0) =~= coefficients@);
        lemma_folded_is_nested(x, coefficients@);
    }
    result
}

} // verus!
