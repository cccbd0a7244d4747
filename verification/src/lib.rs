//! An exact quaternion value type.
//!
//! A quaternion is a four-component hypercomplex number (w, x, y, z) with a
//! non-commutative (Hamilton) multiplication, used to represent rotations in
//! three dimensions. Here every component is an exact rational number: each
//! value stores four integer numerators over one positive common denominator,
//! so every operation either returns the mathematically exact result or
//! reports that the result does not fit the fixed-width representation.
//!
//! The algebraic laws of the type — conjugation is an involution, the squared
//! norm is multiplicative, a value times its inverse is the multiplicative
//! identity, addition is commutative and associative, and the Hamilton
//! product commutes exactly when the imaginary parts are parallel — are
//! stated and proved in [`laws`].

pub mod laws;
pub mod quaternion;
pub mod rational;

pub use quaternion::Quaternion;
pub use rational::Rat;
