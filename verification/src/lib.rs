//! Arithmetic in the scalar field of the BN254 pairing-friendly curve, the integers modulo
//! a prime of 254 bits, with every operation proved against the mathematics of the field.
//!
//! An element is an [`Fr`]: four 64-bit limbs of an integer, which is below the modulus in
//! every element that a checking constructor or an operation gives. The contracts speak of
//! that integer, `x@`, and of the operations on residues in [`field`].
//!
//! - [`limbs`]: integers as limbs and bytes, and addition, subtraction and multiplication
//!   of single limbs with carry.
//! - [`arithmetic`]: the portable backend, with Montgomery reduction under the
//!   multiplication and a fixed exponentiation under the inversion.
//! - [`accelerated`]: the same operations on the two field instructions of a host, and the
//!   proof that both backends agree.
//! - [`fr`], [`ops`], [`random`], [`serde`]: the element type, its encoding, its operators,
//!   sampling and the raw byte image.
//! - [`constants`]: the generator, the root of unity and their kin, each proved to be what
//!   it is called.
//! - [`laws`]: the field axioms, the round trip of the encoding and the inverse.
//! - [`order`], [`certificate`]: the proof that the modulus is a prime with generator seven,
//!   on which the inverse rests.

pub mod accelerated;
pub mod arithmetic;
pub mod certificate;
pub mod constants;
mod ct;
pub mod field;
pub mod fr;
pub mod laws;
pub mod limbs;
pub mod ops;
pub mod order;
pub mod random;
pub mod serde;

pub use fr::Fr;
pub use serde::SerdeObject;
