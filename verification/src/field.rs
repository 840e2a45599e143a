//! The field as mathematics: the modulus and the operations on residues.

use vstd::prelude::*;
use vstd::arithmetic::power::pow;

verus! {

/// The field modulus, a prime of 254 bits.
#[verifier::inline]
pub open spec fn modulus() -> nat {
    21888242871839275222246405745257275088548364400416034343698204186575808495617nat
}

/// The sum of two residues.
pub open spec fn field_add(a: nat, b: nat) -> nat {
    (a + b) % modulus()
}

/// The difference of two residues.
pub open spec fn field_sub(a: nat, b: nat) -> nat {
    ((a - b) % (modulus() as int)) as nat
}

/// The additive inverse of a residue.
pub open spec fn field_neg(a: nat) -> nat {
    ((-(a as int)) % (modulus() as int)) as nat
}

/// The product of two residues.
pub open spec fn field_mul(a: nat, b: nat) -> nat {
    (a * b) % modulus()
}

/// A residue raised to a power.
pub open spec fn field_pow(a: nat, e: nat) -> nat {
    (pow(a as int, e) % (modulus() as int)) as nat
}

/// The residue that inverts a nonzero residue under multiplication: its power to the modulus
/// less two. Of zero it is zero.
pub open spec fn field_inv(a: nat) -> nat {
    field_pow(a, (modulus() - 2) as nat)
}

} // verus!
