//! What the evaluators compute on types whose fused multiply-add is exact:
//! the sum of the coefficients times the powers of the point.

use vstd::prelude::*;
use vstd::arithmetic::power::pow;
use crate::fused::ExactMulAdd;
use crate::horner::{nested, nested_defined};
use crate::variants::{seeded, seeded_defined};

verus! {

/// The sum of `c[i] * x^i` over the indices of `c`.
pub open spec fn power_sum(x: int, c: Seq<int>) -> int
    decreases c.len(),
{
    if c.len() == 0 {
        0
    } else {
        power_sum(x, c.drop_last()) + c.last() * pow(x, (c.len() - 1) as nat)
    }
}

/// The integers that the values of `c` stand for.
pub open spec fn ints<T: ExactMulAdd>(c: Seq<T>) -> Seq<int> {
    Seq::new(c.len(), |i: int| c[i].as_int())
}

/// Whether step `i` of the evaluation stays within the type: the value over
/// the coefficients above index `i`, times `x`, is representable, and so is
/// that product plus coefficient `i`.
pub open spec fn step_fits<T: ExactMulAdd>(x: T, c: Seq<T>, i: int) -> bool {
    T::representable(power_sum(x.as_int(), ints(c.skip(i + 1))) * x.as_int()) && T::representable(
        power_sum(x.as_int(), ints(c.skip(i))),
    )
}

/// Whether the polynomial can be evaluated within the type: there is a
/// coefficient, and every step below the leading one stays within the type.
pub open spec fn fits<T: ExactMulAdd>(x: T, c: Seq<T>) -> bool {
    c.len() >= 1 && forall|i: int| 0 <= i < c.len() - 1 ==> #[trigger] step_fits(x, c, i)
}

/// Horner's rearrangement: the sum of powers is the first coefficient plus
/// `x` times the sum of powers over the rest.
pub proof fn lemma_power_sum_unfold(x: int, c: Seq<int>)
    requires
        c.len() >= 1,
    ensures
        power_sum(x, c) == c[0] + x * power_sum(x, c.skip(1)),
    decreases c.len(),
{
    let n = c.len();
    assert(pow(x, 0) == 1) by {
        reveal(pow);
    }
    if n == 1 {
        assert(c.drop_last().len() == 0);
        assert(c.skip(1).len() == 0);
        assert(power_sum(x, c.drop_last()) == 0);
        assert(power_sum(x, c.skip(1)) == 0);
        assert(c.last() == c[0]);
    } else {
        let front = c.drop_last();
        let rest = c.skip(1);
        lemma_power_sum_unfold(x, front);
        assert(front.skip(1) =~= rest.drop_last());
        assert(front[0] == c[0]);
        assert(rest.last() == c.last());
        let inner = power_sum(x, rest.drop_last());
        let p = pow(x, (n - 2) as nat);
        assert(pow(x, (n - 1) as nat) == x * p) by {
            reveal(pow);
        }
        assert(power_sum(x, rest) == inner + c.last() * p);
        assert(power_sum(x, front) == c[0] + x * inner);
        assert(power_sum(x, c) == power_sum(x, front) + c.last() * pow(x, (n - 1) as nat));
        assert(x * (inner + c.last() * p) == x * inner + c.last() * (x * p))
            by (nonlinear_arith);
    }
}

/// On an exact type, the nest that the evaluators compute stands for the sum
/// of the coefficients times the powers of the point.
pub proof fn lemma_nested_is_power_sum<T: ExactMulAdd>(x: T, c: Seq<T>)
    requires
        nested_defined(x, c),
    ensures
        nested(x, c).as_int() == power_sum(x.as_int(), ints(c)),
    decreases c.len(),
{
    lemma_power_sum_unfold(x.as_int(), ints(c));
    assert(ints(c).skip(1) =~= ints(c.skip(1)));
    if c.len() == 1 {
        assert(power_sum(x.as_int(), ints(c.skip(1))) == 0);
    } else {
        lemma_nested_is_power_sum(x, c.skip(1));
        T::lemma_exact(nested(x, c.skip(1)), x, c[0]);
        assert(nested(x, c.skip(1)).as_int() * x.as_int() == x.as_int() * nested(
            x,
            c.skip(1),
        ).as_int()) by (nonlinear_arith);
    }
}

/// On an exact type, one more coefficient in front can be taken in exactly
/// when the value over the rest times `x`, and the value over the whole, are
/// representable.
pub proof fn lemma_defined_step<T: ExactMulAdd>(x: T, c: Seq<T>)
    requires
        c.len() >= 2,
        nested_defined(x, c.skip(1)),
    ensures
        nested_defined(x, c) <==> T::representable(
            power_sum(x.as_int(), ints(c.skip(1))) * x.as_int(),
        ) && T::representable(power_sum(x.as_int(), ints(c))),
{
    let high = nested(x, c.skip(1));
    lemma_nested_is_power_sum(x, c.skip(1));
    T::lemma_exact(high, x, c[0]);
    lemma_power_sum_unfold(x.as_int(), ints(c));
    assert(ints(c).skip(1) =~= ints(c.skip(1)));
    assert(high.as_int() * x.as_int() == x.as_int() * high.as_int()) by (nonlinear_arith);
}

/// On an exact type, the evaluation over the coefficients from index `j` on
/// is defined exactly when every step from `j` on stays within the type.
pub proof fn lemma_tail_defined_iff_fits<T: ExactMulAdd>(x: T, c: Seq<T>, j: int)
    requires
        0 <= j < c.len(),
    ensures
        nested_defined(x, c.skip(j)) <==> (forall|i: int|
            j <= i < c.len() - 1 ==> #[trigger] step_fits(x, c, i)),
    decreases c.len() - j,
{
    let tail = c.skip(j);
    if j < c.len() - 1 {
        lemma_tail_defined_iff_fits(x, c, j + 1);
        assert(tail.skip(1) =~= c.skip(j + 1));
        if nested_defined(x, c.skip(j + 1)) {
            lemma_defined_step(x, tail);
            assert(nested_defined(x, tail) <==> step_fits(x, c, j));
        }
        if nested_defined(x, tail) {
            assert forall|i: int| j <= i < c.len() - 1 implies #[trigger] step_fits(x, c, i) by {
                if i > j {
                    assert(step_fits(x, c, i));
                }
            }
        }
    }
}

/// On an exact type, the evaluation is defined exactly when there is a
/// coefficient and every intermediate product and sum is representable.
pub proof fn lemma_defined_iff_fits<T: ExactMulAdd>(x: T, c: Seq<T>)
    ensures
        nested_defined(x, c) <==> fits(x, c),
{
    if c.len() >= 1 {
        lemma_tail_defined_iff_fits(x, c, 0);
        assert(c.skip(0) =~= c);
    }
}

/// On an exact type, starting from zero changes nothing for a non-empty
/// sequence: the reduction from zero is defined where the nest is, and has
/// the same value.
pub proof fn lemma_seeded_is_nested<T: ExactMulAdd>(x: T, c: Seq<T>)
    requires
        c.len() >= 1,
    ensures
        seeded_defined(x, c) <==> nested_defined(x, c),
        nested_defined(x, c) ==> seeded(x, c) == nested(x, c),
    decreases c.len(),
{
    let rest = c.skip(1);
    if c.len() == 1 {
        let zero = T::zero_spec();
        let sum = zero.mul_add_spec(x, c[0]);
        assert(rest.len() == 0);
        assert(seeded(x, rest) == zero);
        assert(seeded_defined(x, rest));
        assert(seeded(x, c) == sum);
        assert(nested(x, c) == c[0]);
        T::lemma_zero();
        T::lemma_exact(zero, x, c[0]);
        T::lemma_faithful(zero, zero);
        T::lemma_faithful(c[0], sum);
        assert(zero.as_int() * x.as_int() == 0) by (nonlinear_arith)
            requires
                zero.as_int() == 0,
        ;
    } else {
        lemma_seeded_is_nested(x, rest);
        assert(seeded(x, c) == seeded(x, rest).mul_add_spec(x, c[0]));
        assert(nested(x, c) == nested(x, rest).mul_add_spec(x, c[0]));
    }
}

/// On an exact type, the reduction from zero stands for the sum of the
/// coefficients times the powers of the point, which is 0 for no coefficient.
pub proof fn lemma_seeded_is_power_sum<T: ExactMulAdd>(x: T, c: Seq<T>)
    requires
        seeded_defined(x, c),
    ensures
        seeded(x, c).as_int() == power_sum(x.as_int(), ints(c)),
{
    if c.len() == 0 {
        T::lemma_zero();
    } else {
        lemma_seeded_is_nested(x, c);
        lemma_nested_is_power_sum(x, c);
    }
}

} // verus!
