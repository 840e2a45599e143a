//! The laws of the field, of the byte encoding and of the elements' integers, each proved of
//! the functions that the contracts of the operations are stated with.

use crate::certificate::lemma_prime_modulus;
use crate::field::{field_add, field_inv, field_mul, field_neg, modulus};
use crate::order::pow_mod;
use crate::fr::{Fr, MODULUS};
use crate::limbs::{bytes_value, lemma_limb_bytes, limb_byte, limbs_value};
use vstd::arithmetic::div_mod::{
    lemma_add_mod_noop, lemma_add_mod_noop_right, lemma_mul_mod_noop_left,
    lemma_mul_mod_noop_right, lemma_small_mod,
};
use vstd::arithmetic::mul::{
    lemma_mul_is_associative, lemma_mul_is_commutative, lemma_mul_is_distributive_add,
};
use vstd::arithmetic::power::{lemma_pow1, lemma_pow_adds, pow};
use vstd::prelude::*;

verus! {

/// Addition is commutative: a + b = b + a.
pub proof fn lemma_add_commutative(a: Fr, b: Fr)
    ensures
        a.spec_add(b) == b.spec_add(a),
{
}

/// Addition is associative: (a + b) + c = a + (b + c).
pub proof fn lemma_add_associative(a: Fr, b: Fr, c: Fr)
    ensures
        a.spec_add(b).spec_add(c) == a.spec_add(b.spec_add(c)),
{
    let m = modulus() as int;
    Fr::lemma_of_value_canonical(field_add(a@, b@));
    Fr::lemma_of_value_canonical(field_add(b@, c@));
    lemma_add_mod_noop_right(c@ as int, (a@ + b@) as int, m);
    lemma_add_mod_noop_right(a@ as int, (b@ + c@) as int, m);
}

/// Zero is the identity of addition: a + 0 = a.
pub proof fn lemma_add_zero(a: Fr)
    requires
        a.is_canonical(),
    ensures
        a.spec_add(Fr::of_value(0)) == a,
{
    Fr::lemma_of_value_canonical(0);
    lemma_small_mod(a@, modulus());
    a.lemma_of_value();
}

/// The negative of an element is its additive inverse: a + (-a) = 0.
pub proof fn lemma_add_negative(a: Fr)
    ensures
        a.spec_add(a.spec_neg()) == Fr::of_value(0),
{
    let m = modulus() as int;
    Fr::lemma_of_value_canonical(field_neg(a@));
    lemma_add_mod_noop_right(a@ as int, -(a@ as int), m);
}

/// Subtraction is the addition of the negative: a - b = a + (-b).
pub proof fn lemma_sub_is_add_negative(a: Fr, b: Fr)
    ensures
        a.spec_sub(b) == a.spec_add(b.spec_neg()),
{
    let m = modulus() as int;
    Fr::lemma_of_value_canonical(field_neg(b@));
    lemma_add_mod_noop_right(a@ as int, -(b@ as int), m);
}

/// Multiplication is commutative: a * b = b * a.
pub proof fn lemma_mul_commutative(a: Fr, b: Fr)
    ensures
        a.spec_mul(b) == b.spec_mul(a),
{
    lemma_mul_is_commutative(a@ as int, b@ as int);
}

/// Multiplication is associative: (a * b) * c = a * (b * c).
pub proof fn lemma_mul_associative(a: Fr, b: Fr, c: Fr)
    ensures
        a.spec_mul(b).spec_mul(c) == a.spec_mul(b.spec_mul(c)),
{
    let m = modulus() as int;
    Fr::lemma_of_value_canonical(field_mul(a@, b@));
    Fr::lemma_of_value_canonical(field_mul(b@, c@));
    lemma_mul_mod_noop_left((a@ * b@) as int, c@ as int, m);
    lemma_mul_mod_noop_right(a@ as int, (b@ * c@) as int, m);
    lemma_mul_is_associative(a@ as int, b@ as int, c@ as int);
}

/// One is the identity of multiplication: a * 1 = a.
pub proof fn lemma_mul_one(a: Fr)
    requires
        a.is_canonical(),
    ensures
        a.spec_mul(Fr::of_value(1)) == a,
{
    Fr::lemma_of_value_canonical(1);
    assert(a@ * 1 == a@);
    lemma_small_mod(a@, modulus());
    a.lemma_of_value();
}

/// Multiplication distributes over addition: a * (b + c) = a * b + a * c.
pub proof fn lemma_mul_distributive(a: Fr, b: Fr, c: Fr)
    ensures
        a.spec_mul(b.spec_add(c)) == a.spec_mul(b).spec_add(a.spec_mul(c)),
{
    let m = modulus() as int;
    Fr::lemma_of_value_canonical(field_add(b@, c@));
    Fr::lemma_of_value_canonical(field_mul(a@, b@));
    Fr::lemma_of_value_canonical(field_mul(a@, c@));
    lemma_mul_mod_noop_right(a@ as int, (b@ + c@) as int, m);
    lemma_mul_is_distributive_add(a@ as int, b@ as int, c@ as int);
    lemma_add_mod_noop((a@ * b@) as int, (a@ * c@) as int, m);
}

/// The inverse of a nonzero residue times the residue is one.
pub proof fn lemma_field_inverse(a: nat)
    requires
        0 < a < modulus(),
    ensures
        field_mul(a, field_inv(a)) == 1,
        0 < field_inv(a) < modulus(),
{
    let m = modulus() as int;
    let e = (modulus() - 2) as nat;
    lemma_prime_modulus();
    assert(pow_mod(a, (modulus() - 1) as nat, modulus()) == 1);
    lemma_pow_adds(a as int, 1, e);
    lemma_pow1(a as int);
    lemma_mul_mod_noop_right(a as int, pow(a as int, e), m);
    if field_inv(a) == 0 {
        assert(a * field_inv(a) == 0) by (nonlinear_arith)
            requires
                field_inv(a) == 0,
        ;
    }
}

/// A nonzero residue has one inverse only.
pub proof fn lemma_field_inverse_unique(a: nat, y: nat)
    requires
        0 < a < modulus(),
        y < modulus(),
        field_mul(a, y) == 1,
    ensures
        y == field_inv(a),
{
    let m = modulus() as int;
    let x = field_inv(a);
    lemma_field_inverse(a);
    // y = y * (a * x) = (y * a) * x = x, all modulo the modulus
    lemma_mul_mod_noop_right(y as int, (a * x) as int, m);
    lemma_mul_mod_noop_left((y * a) as int, x as int, m);
    lemma_mul_is_associative(y as int, a as int, x as int);
    lemma_mul_is_commutative(y as int, a as int);
    assert(y * 1 == y);
    assert(1 * x == x);
    lemma_small_mod(y, modulus());
    lemma_small_mod(x, modulus());
}

/// Every nonzero canonical element has an inverse, and the element times its inverse is
/// one: for a != 0, a * invert(a) = 1.
pub proof fn lemma_mul_inverse(a: Fr)
    requires
        a.is_canonical(),
        a@ != 0,
    ensures
        a.spec_invert() is Some,
        a.spec_mul(a.spec_invert().unwrap()) == Fr::of_value(1),
        a.spec_invert().unwrap().is_canonical(),
{
    lemma_field_inverse(a@);
    Fr::lemma_of_value_canonical(field_inv(a@));
}

/// Zero has no inverse.
pub proof fn lemma_zero_has_no_inverse(y: Fr)
    ensures
        Fr::of_value(0).spec_invert() is None,
        Fr::of_value(0).spec_mul(y) == Fr::of_value(0),
{
    Fr::lemma_of_value_canonical(0);
    assert(0 * y@ == 0);
}

/// The bytes of an element stand for the integer of the element.
pub proof fn lemma_encode_value(x: Fr)
    ensures
        x.encode().len() == 32,
        bytes_value(x.encode()) == x@,
{
    let s = x.encode();
    assert forall|k: int| 0 <= k < 8 implies s[0 + k] == limb_byte(x.0[0], k) by {}
    assert forall|k: int| 0 <= k < 8 implies s[8 + k] == limb_byte(x.0[1], k) by {}
    assert forall|k: int| 0 <= k < 8 implies s[16 + k] == limb_byte(x.0[2], k) by {}
    assert forall|k: int| 0 <= k < 8 implies s[24 + k] == limb_byte(x.0[3], k) by {}
    lemma_limb_bytes(x.0[0], s, 0);
    lemma_limb_bytes(x.0[1], s, 8);
    lemma_limb_bytes(x.0[2], s, 16);
    lemma_limb_bytes(x.0[3], s, 24);
}

/// Decoding the bytes of a canonical element gives back the element.
pub proof fn lemma_decode_encode(x: Fr)
    requires
        x.is_canonical(),
    ensures
        Fr::decode(x.encode()) == Some(x),
{
    lemma_encode_value(x);
    x.lemma_of_value();
}

/// Bytes that stand for an integer that is not below the modulus decode to nothing.
pub proof fn lemma_decode_rejects(bytes: Seq<u8>)
    requires
        bytes_value(bytes) >= modulus(),
    ensures
        Fr::decode(bytes) is None,
{
}

/// The bytes of the modulus itself decode to nothing.
pub proof fn lemma_decode_rejects_modulus()
    ensures
        Fr::decode(Fr(MODULUS).encode()) is None,
{
    lemma_encode_value(Fr(MODULUS));
    assert(limbs_value(MODULUS) == modulus());
}

/// Two elements with the same integer are the same element.
pub proof fn lemma_same_value_same_element(a: Fr, b: Fr)
    requires
        a@ == b@,
    ensures
        a == b,
{
    a.lemma_of_value();
    b.lemma_of_value();
}

} // verus!
