//! The numeric capability that both evaluators rest on.

use vstd::prelude::*;

verus! {

/// A type with a fused multiply-add that yields a value of the same type.
///
/// The operation is a function of its three operands; what that function is
/// belongs to the implementing type.
pub trait FusedMulAdd: Sized {
    /// Whether `self * a + b` can be formed for these operands.
    spec fn mul_add_defined(self, a: Self, b: Self) -> bool;

    /// The value of `self * a + b` where it can be formed.
    spec fn mul_add_spec(self, a: Self, b: Self) -> Self;

    /// Computes `self * a + b` as one operation.
    fn fused_mul_add(self, a: Self, b: Self) -> (r: Self)
        requires
            self.mul_add_defined(a, b),
        ensures
            r == self.mul_add_spec(a, b),
    ;
}

/// A type with a zero to start an accumulation from.
pub trait AdditiveZero: Sized {
    /// The zero of the type.
    spec fn zero_spec() -> Self;

    /// Returns the zero of the type.
    fn zero() -> (r: Self)
        ensures
            r == Self::zero_spec(),
    ;
}

/// A type whose values stand for integers and whose fused multiply-add is
/// exact: it is defined when the product and the sum are both representable,
/// and then yields the value that stands for `self * a + b`.
pub trait ExactMulAdd: FusedMulAdd + AdditiveZero {
    /// The integer that a value stands for.
    spec fn as_int(self) -> int;

    /// Whether some value of the type stands for `v`.
    spec fn representable(v: int) -> bool;

    /// Two values that stand for the same integer are equal, and the integer
    /// that a value stands for is representable.
    proof fn lemma_faithful(x: Self, y: Self)
        ensures
            Self::representable(x.as_int()),
            x.as_int() == y.as_int() ==> x == y,
    ;

    /// The zero stands for 0.
    proof fn lemma_zero()
        ensures
            Self::zero_spec().as_int() == 0,
    ;

    /// The fused multiply-add is defined exactly when neither the product nor
    /// the sum leaves the type, and is then the exact integer result.
    proof fn lemma_exact(x: Self, a: Self, b: Self)
        ensures
            x.mul_add_defined(a, b) <==> Self::representable(x.as_int() * a.as_int())
                && Self::representable(x.as_int() * a.as_int() + b.as_int()),
            x.mul_add_defined(a, b) ==> x.mul_add_spec(a, b).as_int() == x.as_int() * a.as_int()
                + b.as_int(),
    ;
}

/// Multiplies `x` by `a` and adds `b`, as one operation.
#[inline]
pub fn muladd<T: FusedMulAdd>(x: T, a: T, b: T) -> (r: T)
    requires
        x.mul_add_defined(a, b),
    ensures
        r == x.mul_add_spec(a, b),
{
    x.fused_mul_add(a, b)
}

} // verus!
