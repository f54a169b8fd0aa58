//! Polynomial evaluation by Horner's rule.
//!
//! A polynomial is given by its coefficients in ascending order of power and
//! is evaluated at a point as `(...(a_n * x + a_(n-1)) * x + ... + a_1) * x + a_0`,
//! one fused multiply-add per coefficient below the leading one.

pub mod exact;
pub mod fused;
pub mod horner;
pub mod signed;
pub mod unsigned;
pub mod variants;

pub use fused::{muladd, AdditiveZero, ExactMulAdd, FusedMulAdd};
pub use horner::{horner, horner_loop};
pub use variants::{horner_eval, horner_eval2, horner_eval3};
