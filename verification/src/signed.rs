//! The capability for the primitive signed integer types.
//!
//! Each type takes its fused multiply-add and its zero from `num_traits`.
//! On an integer type the operation is `(x * a) + b` in the type's own
//! arithmetic, so it is defined where the product and the sum both fit.

use vstd::prelude::*;
use crate::fused::{AdditiveZero, ExactMulAdd, FusedMulAdd};

verus! {

/// Calls `num_traits::MulAdd::mul_add` on `i8`, which evaluates
/// `(x * a) + b` in `i8`. Operands whose product or sum leaves the type are
/// excluded; for the others the result is the exact value.
#[verifier::external_body]
fn mul_add_i8(x: i8, a: i8, b: i8) -> (r: i8)
    requires
        i8::MIN <= x * a <= i8::MAX,
        i8::MIN <= x * a + b <= i8::MAX,
    ensures
        r == x * a + b,
{
    num_traits::MulAdd::mul_add(x, a, b)
}

/// Calls `num_traits::Zero::zero` for `i8`, which returns 0.
#[verifier::external_body]
fn zero_i8() -> (r: i8)
    ensures
        r == 0,
{
    num_traits::Zero::zero()
}

impl FusedMulAdd for i8 {
    open spec fn mul_add_defined(self, a: Self, b: Self) -> bool {
        i8::MIN <= self * a <= i8::MAX && i8::MIN <= self * a + b <= i8::MAX
    }

    open spec fn mul_add_spec(self, a: Self, b: Self) -> Self {
        (self * a + b) as i8
    }

    #[inline]
    fn fused_mul_add(self, a: Self, b: Self) -> (r: Self) {
        mul_add_i8(self, a, b)
    }
}

impl AdditiveZero for i8 {
    open spec fn zero_spec() -> Self {
        0
    }

    #[inline]
    fn zero() -> (r: Self) {
        zero_i8()
    }
}

impl ExactMulAdd for i8 {
    open spec fn as_int(self) -> int {
        self as int
    }

    open spec fn representable(v: int) -> bool {
        i8::MIN <= v <= i8::MAX
    }

    proof fn lemma_faithful(x: Self, y: Self) {
    }

    proof fn lemma_zero() {
    }

    proof fn lemma_exact(x: Self, a: Self, b: Self) {
    }
}

/// Calls `num_traits::MulAdd::mul_add` on `i16`, which evaluates
/// `(x * a) + b` in `i16`. Operands whose product or sum leaves the type are
/// excluded; for the others the result is the exact value.
#[verifier::external_body]
fn mul_add_i16(x: i16, a: i16, b: i16) -> (r: i16)
    requires
        i16::MIN <= x * a <= i16::MAX,
        i16::MIN <= x * a + b <= i16::MAX,
    ensures
        r == x * a + b,
{
    num_traits::MulAdd::mul_add(x, a, b)
}

/// Calls `num_traits::Zero::zero` for `i16`, which returns 0.
#[verifier::external_body]
fn zero_i16() -> (r: i16)
    ensures
        r == 0,
{
    num_traits::Zero::zero()
}

impl FusedMulAdd for i16 {
    open spec fn mul_add_defined(self, a: Self, b: Self) -> bool {
        i16::MIN <= self * a <= i16::MAX && i16::MIN <= self * a + b <= i16::MAX
    }

    open spec fn mul_add_spec(self, a: Self, b: Self) -> Self {
        (self * a + b) as i16
    }

    #[inline]
    fn fused_mul_add(self, a: Self, b: Self) -> (r: Self) {
        mul_add_i16(self, a, b)
    }
}

impl AdditiveZero for i16 {
    open spec fn zero_spec() -> Self {
        0
    }

    #[inline]
    fn zero() -> (r: Self) {
        zero_i16()
    }
}

impl ExactMulAdd for i16 {
    open spec fn as_int(self) -> int {
        self as int
    }

    open spec fn representable(v: int) -> bool {
        i16::MIN <= v <= i16::MAX
    }

    proof fn lemma_faithful(x: Self, y: Self) {
    }

    proof fn lemma_zero() {
    }

    proof fn lemma_exact(x: Self, a: Self, b: Self) {
    }
}

/// Calls `num_traits::MulAdd::mul_add` on `i32`, which evaluates
/// `(x * a) + b` in `i32`. Operands whose product or sum leaves the type are
/// excluded; for the others the result is the exact value.
#[verifier::external_body]
fn mul_add_i32(x: i32, a: i32, b: i32) -> (r: i32)
    requires
        i32::MIN <= x * a <= i32::MAX,
        i32::MIN <= x * a + b <= i32::MAX,
    ensures
        r == x * a + b,
{
    num_traits::MulAdd::mul_add(x, a, b)
}

/// Calls `num_traits::Zero::zero` for `i32`, which returns 0.
#[verifier::external_body]
fn zero_i32() -> (r: i32)
    ensures
        r == 0,
{
    num_traits::Zero::zero()
}

impl FusedMulAdd for i32 {
    open spec fn mul_add_defined(self, a: Self, b: Self) -> bool {
        i32::MIN <= self * a <= i32::MAX && i32::MIN <= self * a + b <= i32::MAX
    }

    open spec fn mul_add_spec(self, a: Self, b: Self) -> Self {
        (self * a + b) as i32
    }

    #[inline]
    fn fused_mul_add(self, a: Self, b: Self) -> (r: Self) {
        mul_add_i32(self, a, b)
    }
}

impl AdditiveZero for i32 {
    open spec fn zero_spec() -> Self {
        0
    }

    #[inline]
    fn zero() -> (r: Self) {
        zero_i32()
    }
}

impl ExactMulAdd for i32 {
    open spec fn as_int(self) -> int {
        self as int
    }

    open spec fn representable(v: int) -> bool {
        i32::MIN <= v <= i32::MAX
    }

    proof fn lemma_faithful(x: Self, y: Self) {
    }

    proof fn lemma_zero() {
    }

    proof fn lemma_exact(x: Self, a: Self, b: Self) {
    }
}

/// Calls `num_traits::MulAdd::mul_add` on `i64`, which evaluates
/// `(x * a) + b` in `i64`. Operands whose product or sum leaves the type are
/// excluded; for the others the result is the exact value.
#[verifier::external_body]
fn mul_add_i64(x: i64, a: i64, b: i64) -> (r: i64)
    requires
        i64::MIN <= x * a <= i64::MAX,
        i64::MIN <= x * a + b <= i64::MAX,
    ensures
        r == x * a + b,
{
    num_traits::MulAdd::mul_add(x, a, b)
}

/// Calls `num_traits::Zero::zero` for `i64`, which returns 0.
#[verifier::external_body]
fn zero_i64() -> (r: i64)
    ensures
        r == 0,
{
    num_traits::Zero::zero()
}

impl FusedMulAdd for i64 {
    open spec fn mul_add_defined(self, a: Self, b: Self) -> bool {
        i64::MIN <= self * a <= i64::MAX && i64::MIN <= self * a + b <= i64::MAX
    }

    open spec fn mul_add_spec(self, a: Self, b: Self) -> Self {
        (self * a + b) as i64
    }

    #[inline]
    fn fused_mul_add(self, a: Self, b: Self) -> (r: Self) {
        mul_add_i64(self, a, b)
    }
}

impl AdditiveZero for i64 {
    open spec fn zero_spec() -> Self {
        0
    }

    #[inline]
    fn zero() -> (r: Self) {
        zero_i64()
    }
}

impl ExactMulAdd for i64 {
    open spec fn as_int(self) -> int {
        self as int
    }

    open spec fn representable(v: int) -> bool {
        i64::MIN <= v <= i64::MAX
    }

    proof fn lemma_faithful(x: Self, y: Self) {
    }

    proof fn lemma_zero() {
    }

    proof fn lemma_exact(x: Self, a: Self, b: Self) {
    }
}

/// Calls `num_traits::MulAdd::mul_add` on `i128`, which evaluates
/// `(x * a) + b` in `i128`. Operands whose product or sum leaves the type are
/// excluded; for the others the result is the exact value.
#[verifier::external_body]
fn mul_add_i128(x: i128, a: i128, b: i128) -> (r: i128)
    requires
        i128::MIN <= x * a <= i128::MAX,
        i128::MIN <= x * a + b <= i128::MAX,
    ensures
        r == x * a + b,
{
    num_traits::MulAdd::mul_add(x, a, b)
}

/// Calls `num_traits::Zero::zero` for `i128`, which returns 0.
#[verifier::external_body]
fn zero_i128() -> (r: i128)
    ensures
        r == 0,
{
    num_traits::Zero::zero()
}

impl FusedMulAdd for i128 {
    open spec fn mul_add_defined(self, a: Self, b: Self) -> bool {
        i128::MIN <= self * a <= i128::MAX && i128::MIN <= self * a + b <= i128::MAX
    }

    open spec fn mul_add_spec(self, a: Self, b: Self) -> Self {
        (self * a + b) as i128
    }

    #[inline]
    fn fused_mul_add(self, a: Self, b: Self) -> (r: Self) {
        mul_add_i128(self, a, b)
    }
}

impl AdditiveZero for i128 {
    open spec fn zero_spec() -> Self {
        0
    }

    #[inline]
    fn zero() -> (r: Self) {
        zero_i128()
    }
}

impl ExactMulAdd for i128 {
    open spec fn as_int(self) -> int {
        self as int
    }

    open spec fn representable(v: int) -> bool {
        i128::MIN <= v <= i128::MAX
    }

    proof fn lemma_faithful(x: Self, y: Self) {
    }

    proof fn lemma_zero() {
    }

    proof fn lemma_exact(x: Self, a: Self, b: Self) {
    }
}

/// Calls `num_traits::MulAdd::mul_add` on `isize`, which evaluates
/// `(x * a) + b` in `isize`. Operands whose product or sum leaves the type are
/// excluded; for the others the result is the exact value.
#[verifier::external_body]
fn mul_add_isize(x: isize, a: isize, b: isize) -> (r: isize)
    requires
        isize::MIN <= x * a <= isize::MAX,
        isize::MIN <= x * a + b <= isize::MAX,
    ensures
        r == x * a + b,
{
    num_traits::MulAdd::mul_add(x, a, b)
}

/// Calls `num_traits::Zero::zero` for `isize`, which returns 0.
#[verifier::external_body]
fn zero_isize() -> (r: isize)
    ensures
        r == 0,
{
    num_traits::Zero::zero()
}

impl FusedMulAdd for isize {
    open spec fn mul_add_defined(self, a: Self, b: Self) -> bool {
        isize::MIN <= self * a <= isize::MAX && isize::MIN <= self * a + b <= isize::MAX
    }

    open spec fn mul_add_spec(self, a: Self, b: Self) -> Self {
        (self * a + b) as isize
    }

    #[inline]
    fn fused_mul_add(self, a: Self, b: Self) -> (r: Self) {
        mul_add_isize(self, a, b)
    }
}

impl AdditiveZero for isize {
    open spec fn zero_spec() -> Self {
        0
    }

    #[inline]
    fn zero() -> (r: Self) {
        zero_isize()
    }
}

impl ExactMulAdd for isize {
    open spec fn as_int(self) -> int {
        self as int
    }

    open spec fn representable(v: int) -> bool {
        isize::MIN <= v <= isize::MAX
    }

    proof fn lemma_faithful(x: Self, y: Self) {
    }

    proof fn lemma_zero() {
    }

    proof fn lemma_exact(x: Self, a: Self, b: Self) {
    }
}

} // verus!
