//! Other forms of the run-time evaluator: two that start the accumulation
//! from zero, and so accept an empty coefficient sequence, and one that
//! starts from the leading coefficient and counts its steps upwards.

use vstd::prelude::*;
use crate::fused::{muladd, AdditiveZero, FusedMulAdd};
use crate::horner::{
    folded, lemma_folded_is_nested, lemma_folded_is_nested_tail, lemma_tail_defined, nested,
    nested_defined,
};

verus! {

/// The value of the reduction over all of `c` that starts from zero: the
/// zero itself for an empty sequence, and otherwise the value over the tail,
/// times `x`, plus the first coefficient.
pub open spec fn seeded<T: FusedMulAdd + AdditiveZero>(x: T, c: Seq<T>) -> T
    decreases c.len(),
{
    if c.len() == 0 {
        T::zero_spec()
    } else {
        seeded(x, c.skip(1)).mul_add_spec(x, c[0])
    }
}

/// Whether every fused multiply-add of the reduction from zero can be formed.
pub open spec fn seeded_defined<T: FusedMulAdd + AdditiveZero>(x: T, c: Seq<T>) -> bool
    decreases c.len(),
{
    c.len() == 0 || (seeded_defined(x, c.skip(1)) && seeded(x, c.skip(1)).mul_add_defined(
        x,
        c[0],
    ))
}

/// Where the reduction from zero over `c` can be formed, so can the one over
/// each of its tails.
pub proof fn lemma_seeded_tail_defined<T: FusedMulAdd + AdditiveZero>(x: T, c: Seq<T>, i: int)
    requires
        seeded_defined(x, c),
        0 <= i <= c.len(),
    ensures
        seeded_defined(x, c.skip(i)),
    decreases i,
{
    if i == 0 {
        assert(c.skip(0) =~= c);
    } else {
        lemma_seeded_tail_defined(x, c, i - 1);
        assert(c.skip(i - 1).skip(1) =~= c.skip(i));
    }
}

/// Evaluates the polynomial with coefficients in ascending order of power at
/// `x`, starting from zero and counting the steps upwards. An empty sequence
/// evaluates to zero.
pub fn horner_eval<T: FusedMulAdd + AdditiveZero + Copy>(x: T, coefficients: &[T]) -> (r: T)
    requires
        seeded_defined(x, coefficients@),
    ensures
        r == seeded(x, coefficients@),
        coefficients@.len() == 0 ==> r == T::zero_spec(),
{
    let mut result = T::zero();
    let n = coefficients.len();
    let mut i: usize = 0;
    while i < n
        invariant
            i <= n,
            n == coefficients@.len(),
            seeded_defined(x, coefficients@),
            result == seeded(x, coefficients@.skip(n - i)),
        decreases n - i,
    {
        proof {
            lemma_seeded_tail_defined(x, coefficients@, n - i - 1);
            assert(coefficients@.skip(n - i - 1).skip(1) =~= coefficients@.skip(n - i));
        }
        result = muladd(result, x, coefficients[n - i - 1]);
        i = i + 1;
    }
    proof {
        assert(coefficients@.skip(0) =~= coefficients@);
    }
    result
}

/// Evaluates the polynomial with coefficients in ascending order of power at
/// `x`, starting from zero and walking the coefficients from the last to the
/// first. An empty sequence evaluates to zero.
pub fn horner_eval2<T: FusedMulAdd + AdditiveZero + Copy>(x: T, coefficients: &[T]) -> (r: T)
    requires
        seeded_defined(x, coefficients@),
    ensures
        r == seeded(x, coefficients@),
        coefficients@.len() == 0 ==> r == T::zero_spec(),
{
    let mut result = T::zero();
    let mut i: usize = coefficients.len();
    while i > 0
        invariant
            i <= coefficients@.len(),
            seeded_defined(x, coefficients@),
            result == seeded(x, coefficients@.skip(i as int)),
        decreases i,
    {
        i = i - 1;
        proof {
            lemma_seeded_tail_defined(x, coefficients@, i as int);
            assert(coefficients@.skip(i as int).skip(1) =~= coefficients@.skip(i + 1));
        }
        result = muladd(result, x, coefficients[i]);
    }
    proof {
        assert(coefficients@.skip(0) =~= coefficients@);
    }
    result
}

/// Where the nest over `c` can be formed, so can each step of the reduction
/// from the leading coefficient.
pub proof fn lemma_folded_defined<T: FusedMulAdd>(x: T, c: Seq<T>, k: nat)
    requires
        nested_defined(x, c),
        1 <= k < c.len(),
    ensures
        folded(x, c, (k - 1) as nat).mul_add_defined(x, c[c.len() - 1 - k]),
{
    let i = c.len() - 1 - k;
    lemma_tail_defined(x, c, i);
    lemma_folded_is_nested_tail(x, c, (k - 1) as nat);
    assert(c.skip(i).skip(1) =~= c.skip(i + 1));
}

/// Evaluates the polynomial with coefficients in ascending order of power at
/// `x`, starting from the leading coefficient and counting the steps
/// upwards. The sequence must not be empty.
pub fn horner_eval3<T: FusedMulAdd + Copy>(x: T, coefficients: &[T]) -> (r: T)
    requires
        coefficients@.len() >= 1,
        nested_defined(x, coefficients@),
    ensures
        r == folded(x, coefficients@, (coefficients@.len() - 1) as nat),
        r == nested(x, coefficients@),
{
    let n = coefficients.len();
    let mut result = coefficients[n - 1];
    let mut k: usize = 0;
    while k < n - 1
        invariant
            k <= n - 1,
            n == coefficients@.len(),
            nested_defined(x, coefficients@),
            result == folded(x, coefficients@, k as nat),
        decreases n - 1 - k,
    {
        k = k + 1;
        proof {
            lemma_folded_defined(x, coefficients@, k as nat);
        }
        result = muladd(result, x, coefficients[n - 1 - k]);
    }
    proof {
        lemma_folded_is_nested(x, coefficients@);
    }
    result
}

} // verus!
