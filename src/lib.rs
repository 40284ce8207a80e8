//! Rational trigonometry: quadrance, spread, cross and the quantities built
//! from them, computed with the four arithmetic operations only.
//!
//! Every formula is written once against the [`scalar::Scalar`] capability,
//! and its contract states the result over the integers that its arguments
//! stand for ([`model`]). The laws that relate the formulas are in [`laws`].

pub mod const_trigonom;
pub mod error;
pub mod geometry;
pub mod laws;
pub mod model;
pub mod scalar;
pub mod trigonom;
pub mod validation;
