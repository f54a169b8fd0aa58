//! The capability for the primitive unsigned integer types.
//!
//! Each type takes its fused multiply-add and its zero from `num_traits`.
//! On an integer type the operation is `(x * a) + b` in the type's own
//! arithmetic, so it is defined where the product and the sum both fit.

use vstd::prelude::*;
use crate::fused::{AdditiveZero, ExactMulAdd, FusedMulAdd};

verus! {

/// Calls `num_traits::MulAdd::mul_add` on `u8`, which evaluates
/// `(x * a) + b` in `u8`. Operands whose product or sum leaves the type are
/// excluded; for the others the result is the exact value.
#[verifier::external_body]
fn mul_add_u8(x: u8, a: u8, b: u8) -> (r: u8)
    requires
        x * a <= u8::MAX,
        x * a + b <= u8::MAX,
    ensures
        r == x * a + b,
{
    num_traits::MulAdd::mul_add(x, a, b)
}

/// Calls `num_traits::Zero::zero` for `u8`, which returns 0.
#[verifier::external_body]
fn zero_u8() -> (r: u8)
    ensures
        r == 0,
{
    num_traits::Zero::zero()
}

impl FusedMulAdd for u8 {
    open spec fn mul_add_defined(self, a: Self, b: Self) -> bool {
        self * a <= u8::MAX && self * a + b <= u8::MAX
    }

    open spec fn mul_add_spec(self, a: Self, b: Self) -> Self {
        (self * a + b) as u8
    }

    #[inline]
    fn fused_mul_add(self, a: Self, b: Self) -> (r: Self) {
        mul_add_u8(self, a, b)
    }
}

impl AdditiveZero for u8 {
    open spec fn zero_spec() -> Self {
        0
    }

    #[inline]
    fn zero() -> (r: Self) {
        zero_u8()
    }
}

impl ExactMulAdd for u8 {
    open spec fn as_int(self) -> int {
        self as int
    }

    open spec fn representable(v: int) -> bool {
        u8::MIN <= v <= u8::MAX
    }

    proof fn lemma_faithful(x: Self, y: Self) {
    }

    proof fn lemma_zero() {
    }

    proof fn lemma_exact(x: Self, a: Self, b: Self) {
        assert(x.as_int() * a.as_int() >= 0) by (nonlinear_arith)
            requires
                x.as_int() >= 0,
                a.as_int() >= 0,
        ;
    }
}

/// Calls `num_traits::MulAdd::mul_add` on `u16`, which evaluates
/// `(x * a) + b` in `u16`. Operands whose product or sum leaves the type are
/// excluded; for the others the result is the exact value.
#[verifier::external_body]
fn mul_add_u16(x: u16, a: u16, b: u16) -> (r: u16)
    requires
        x * a <= u16::MAX,
        x * a + b <= u16::MAX,
    ensures
        r == x * a + b,
{
    num_traits::MulAdd::mul_add(x, a, b)
}

/// Calls `num_traits::Zero::zero` for `u16`, which returns 0.
#[verifier::external_body]
fn zero_u16() -> (r: u16)
    ensures
        r == 0,
{
    num_traits::Zero::zero()
}

impl FusedMulAdd for u16 {
    open spec fn mul_add_defined(self, a: Self, b: Self) -> bool {
        self * a <= u16::MAX && self * a + b <= u16::MAX
    }

    open spec fn mul_add_spec(self, a: Self, b: Self) -> Self {
        (self * a + b) as u16
    }

    #[inline]
    fn fused_mul_add(self, a: Self, b: Self) -> (r: Self) {
        mul_add_u16(self, a, b)
    }
}

impl AdditiveZero for u16 {
    open spec fn zero_spec() -> Self {
        0
    }

    #[inline]
    fn zero() -> (r: Self) {
        zero_u16()
    }
}

impl ExactMulAdd for u16 {
    open spec fn as_int(self) -> int {
        self as int
    }

    open spec fn representable(v: int) -> bool {
        u16::MIN <= v <= u16::MAX
    }

    proof fn lemma_faithful(x: Self, y: Self) {
    }

    proof fn lemma_zero() {
    }

    proof fn lemma_exact(x: Self, a: Self, b: Self) {
        assert(x.as_int() * a.as_int() >= 0) by (nonlinear_arith)
            requires
                x.as_int() >= 0,
                a.as_int() >= 0,
        ;
    }
}

/// Calls `num_traits::MulAdd::mul_add` on `u32`, which evaluates
/// `(x * a) + b` in `u32`. Operands whose product or sum leaves the type are
/// excluded; for the others the result is the exact value.
#[verifier::external_body]
fn mul_add_u32(x: u32, a: u32, b: u32) -> (r: u32)
    requires
        x * a <= u32::MAX,
        x * a + b <= u32::MAX,
    ensures
        r == x * a + b,
{
    num_traits::MulAdd::mul_add(x, a, b)
}

/// Calls `num_traits::Zero::zero` for `u32`, which returns 0.
#[verifier::external_body]
fn zero_u32() -> (r: u32)
    ensures
        r == 0,
{
    num_traits::Zero::zero()
}

impl FusedMulAdd for u32 {
    open spec fn mul_add_defined(self, a: Self, b: Self) -> bool {
        self * a <= u32::MAX && self * a + b <= u32::MAX
    }

    open spec fn mul_add_spec(self, a: Self, b: Self) -> Self {
        (self * a + b) as u32
    }

    #[inline]
    fn fused_mul_add(self, a: Self, b: Self) -> (r: Self) {
        mul_add_u32(self, a, b)
    }
}

impl AdditiveZero for u32 {
    open spec fn zero_spec() -> Self {
        0
    }

    #[inline]
    fn zero() -> (r: Self) {
        zero_u32()
    }
}

impl ExactMulAdd for u32 {
    open spec fn as_int(self) -> int {
        self as int
    }

    open spec fn representable(v: int) -> bool {
        u32::MIN <= v <= u32::MAX
    }

    proof fn lemma_faithful(x: Self, y: Self) {
    }

    proof fn lemma_zero() {
    }

    proof fn lemma_exact(x: Self, a: Self, b: Self) {
        assert(x.as_int() * a.as_int() >= 0) by (nonlinear_arith)
            requires
                x.as_int() >= 0,
                a.as_int() >= 0,
        ;
    }
}

/// Calls `num_traits::MulAdd::mul_add` on `u64`, which evaluates
/// `(x * a) + b` in `u64`. Operands whose product or sum leaves the type are
/// excluded; for the others the result is the exact value.
#[verifier::external_body]
fn mul_add_u64(x: u64, a: u64, b: u64) -> (r: u64)
    requires
        x * a <= u64::MAX,
        x * a + b <= u64::MAX,
    ensures
        r == x * a + b,
{
    num_traits::MulAdd::mul_add(x, a, b)
}

/// Calls `num_traits::Zero::zero` for `u64`, which returns 0.
#[verifier::external_body]
fn zero_u64() -> (r: u64)
    ensures
        r == 0,
{
    num_traits::Zero::zero()
}

impl FusedMulAdd for u64 {
    open spec fn mul_add_defined(self, a: Self, b: Self) -> bool {
        self * a <= u64::MAX && self * a + b <= u64::MAX
    }

    open spec fn mul_add_spec(self, a: Self, b: Self) -> Self {
        (self * a + b) as u64
    }

    #[inline]
    fn fused_mul_add(self, a: Self, b: Self) -> (r: Self) {
        mul_add_u64(self, a, b)
    }
}

impl AdditiveZero for u64 {
    open spec fn zero_spec() -> Self {
        0
    }

    #[inline]
    fn zero() -> (r: Self) {
        zero_u64()
    }
}

impl ExactMulAdd for u64 {
    open spec fn as_int(self) -> int {
        self as int
    }

    open spec fn representable(v: int) -> bool {
        u64::MIN <= v <= u64::MAX
    }

    proof fn lemma_faithful(x: Self, y: Self) {
    }

    proof fn lemma_zero() {
    }

    proof fn lemma_exact(x: Self, a: Self, b: Self) {
        assert(x.as_int() * a.as_int() >= 0) by (nonlinear_arith)
            requires
                x.as_int() >= 0,
                a.as_int() >= 0,
        ;
    }
}

/// Calls `num_traits::MulAdd::mul_add` on `u128`, which evaluates
/// `(x * a) + b` in `u128`. Operands whose product or sum leaves the type are
/// excluded; for the others the result is the exact value.
#[verifier::external_body]
fn mul_add_u128(x: u128, a: u128, b: u128) -> (r: u128)
    requires
        x * a <= u128::MAX,
        x * a + b <= u128::MAX,
    ensures
        r == x * a + b,
{
    num_traits::MulAdd::mul_add(x, a, b)
}

/// Calls `num_traits::Zero::zero` for `u128`, which returns 0.
#[verifier::external_body]
fn zero_u128() -> (r: u128)
    ensures
        r == 0,
{
    num_traits::Zero::zero()
}

impl FusedMulAdd for u128 {
    open spec fn mul_add_defined(self, a: Self, b: Self) -> bool {
        self * a <= u128::MAX && self * a + b <= u128::MAX
    }

    open spec fn mul_add_spec(self, a: Self, b: Self) -> Self {
        (self * a + b) as u128
    }

    #[inline]
    fn fused_mul_add(self, a: Self, b: Self) -> (r: Self) {
        mul_add_u128(self, a, b)
    }
}

impl AdditiveZero for u128 {
    open spec fn zero_spec() -> Self {
        0
    }

    #[inline]
    fn zero() -> (r: Self) {
        zero_u128()
    }
}

impl ExactMulAdd for u128 {
    open spec fn as_int(self) -> int {
        self as int
    }

    open spec fn representable(v: int) -> bool {
        u128::MIN <= v <= u128::MAX
    }

    proof fn lemma_faithful(x: Self, y: Self) {
    }

    proof fn lemma_zero() {
    }

    proof fn lemma_exact(x: Self, a: Self, b: Self) {
        assert(x.as_int() * a.as_int() >= 0) by (nonlinear_arith)
            requires
                x.as_int() >= 0,
                a.as_int() >= 0,
        ;
    }
}

/// Calls `num_traits::MulAdd::mul_add` on `usize`, which evaluates
/// `(x * a) + b` in `usize`. Operands whose product or sum leaves the type are
/// excluded; for the others the result is the exact value.
#[verifier::external_body]
fn mul_add_usize(x: usize, a: usize, b: usize) -> (r: usize)
    requires
        x * a <= usize::MAX,
        x * a + b <= usize::MAX,
    ensures
        r == x * a + b,
{
    num_traits::MulAdd::mul_add(x, a, b)
}

/// Calls `num_traits::Zero::zero` for `usize`, which returns 0.
#[verifier::external_body]
fn zero_usize() -> (r: usize)
    ensures
        r == 0,
{
    num_traits::Zero::zero()
}

impl FusedMulAdd for usize {
    open spec fn mul_add_defined(self, a: Self, b: Self) -> bool {
        self * a <= usize::MAX && self * a + b <= usize::MAX
    }

    open spec fn mul_add_spec(self, a: Self, b: Self) -> Self {
        (self * a + b) as usize
    }

    #[inline]
    fn fused_mul_add(self, a: Self, b: Self) -> (r: Self) {
        mul_add_usize(self, a, b)
    }
}

impl AdditiveZero for usize {
    open spec fn zero_spec() -> Self {
        0
    }

    #[inline]
    fn zero() -> (r: Self) {
        zero_usize()
    }
}

impl ExactMulAdd for usize {
    open spec fn as_int(self) -> int {
        self as int
    }

    open spec fn representable(v: int) -> bool {
        usize::MIN <= v <= usize::MAX
    }

    proof fn lemma_faithful(x: Self, y: Self) {
    }

    proof fn lemma_zero() {
    }

    proof fn lemma_exact(x: Self, a: Self, b: Self) {
        assert(x.as_int() * a.as_int() >= 0) by (nonlinear_arith)
            requires
                x.as_int() >= 0,
                a.as_int() >= 0,
        ;
    }
}

} // verus!
