//! Integers held as 64-bit limbs, least significant first, and the three limb operations on
//! which the multi-precision arithmetic rests.

use vstd::arithmetic::div_mod::{lemma_div_denominator, lemma_fundamental_div_mod_converse};
use vstd::arithmetic::power2::{lemma2_to64, lemma2_to64_rest, pow2};
use vstd::prelude::*;

verus! {

/// Two to the power 64, the base in which a limb is a digit.
#[verifier::inline]
pub open spec fn base() -> nat {
    0x1_0000_0000_0000_0000nat
}

/// Two to the power 128.
#[verifier::inline]
pub open spec fn base2() -> nat {
    0x1_0000_0000_0000_0000_0000_0000_0000_0000nat
}

/// Two to the power 192.
#[verifier::inline]
pub open spec fn base3() -> nat {
    0x1_0000_0000_0000_0000_0000_0000_0000_0000_0000_0000_0000_0000nat
}

/// Two to the power 256.
#[verifier::inline]
pub open spec fn base4() -> nat {
    0x1_0000_0000_0000_0000_0000_0000_0000_0000_0000_0000_0000_0000_0000_0000_0000_0000nat
}

/// The integer that four limbs stand for.
pub open spec fn limbs_value(l: [u64; 4]) -> nat {
    (l[0] as nat) + (l[1] as nat) * base() + (l[2] as nat) * base2() + (l[3] as nat) * base3()
}

/// The integer that eight limbs stand for.
pub open spec fn wide_value(l: [u64; 8]) -> nat {
    limbs_value([l[0], l[1], l[2], l[3]]) + limbs_value([l[4], l[5], l[6], l[7]]) * base4()
}

/// Two arrays of four limbs that stand for the same integer are the same array.
pub proof fn lemma_limbs_value_injective(a: [u64; 4], b: [u64; 4])
    requires
        limbs_value(a) == limbs_value(b),
    ensures
        a == b,
{
    let v = limbs_value(a) as int;
    let ha = a[1] + a[2] * base() + a[3] * base2();
    let hb = b[1] + b[2] * base() + b[3] * base2();
    lemma_fundamental_div_mod_converse(v, base() as int, ha, a[0] as int);
    lemma_fundamental_div_mod_converse(v, base() as int, hb, b[0] as int);
    let ga = a[2] + a[3] * base();
    let gb = b[2] + b[3] * base();
    lemma_fundamental_div_mod_converse(ha, base() as int, ga, a[1] as int);
    lemma_fundamental_div_mod_converse(ha, base() as int, gb, b[1] as int);
    lemma_fundamental_div_mod_converse(ga, base() as int, a[3] as int, a[2] as int);
    lemma_fundamental_div_mod_converse(ga, base() as int, b[3] as int, b[2] as int);
    assert(a =~= b);
}

/// The four limbs of an integer below two to the power 256: its digits in base two to the
/// power 64.
pub open spec fn limbs_of(n: nat) -> [u64; 4] {
    [
        (n % base()) as u64,
        ((n / base()) % base()) as u64,
        ((n / base2()) % base()) as u64,
        ((n / base3()) % base()) as u64,
    ]
}

/// The limbs of an integer below two to the power 256 stand for that integer.
pub proof fn lemma_limbs_of_value(n: nat)
    requires
        n < base4(),
    ensures
        limbs_value(limbs_of(n)) == n,
{
    let q1 = n / base();
    let q2 = q1 / base();
    let q3 = q2 / base();
    lemma_div_denominator(n as int, base() as int, base() as int);
    lemma_div_denominator(n as int, base2() as int, base() as int);
    assert(n / base2() == q2);
    assert(n / base3() == q3);
    assert(q3 < base());
}

/// The limbs of the integer that four limbs stand for are those four limbs.
pub proof fn lemma_limbs_of_limbs_value(l: [u64; 4])
    ensures
        limbs_of(limbs_value(l)) == l,
{
    lemma_limbs_of_value(limbs_value(l));
    lemma_limbs_value_injective(limbs_of(limbs_value(l)), l);
}

/// The byte of a limb at the given place, counted from the least significant byte.
pub open spec fn limb_byte(l: u64, place: int) -> u8 {
    (((l as nat) / pow2((8 * place) as nat)) % 256) as u8
}

/// The integer that the eight bytes from the given index on stand for, least significant
/// byte first.
pub open spec fn le_limb(s: Seq<u8>, at: int) -> nat {
    (s[at] as nat) + (s[at + 1] as nat) * 0x100 + (s[at + 2] as nat) * 0x1_0000 + (s[at + 3] as nat)
        * 0x100_0000 + (s[at + 4] as nat) * 0x1_0000_0000 + (s[at + 5] as nat) * 0x100_0000_0000
        + (s[at + 6] as nat) * 0x1_0000_0000_0000 + (s[at + 7] as nat) * 0x100_0000_0000_0000
}

/// The integer that 32 bytes stand for, least significant byte first.
pub open spec fn bytes_value(s: Seq<u8>) -> nat {
    le_limb(s, 0) + le_limb(s, 8) * base() + le_limb(s, 16) * base2() + le_limb(s, 24) * base3()
}

/// The eight bytes of a limb stand for the limb.
pub proof fn lemma_limb_bytes(l: u64, s: Seq<u8>, at: int)
    requires
        0 <= at,
        at + 8 <= s.len(),
        forall|k: int| 0 <= k < 8 ==> s[at + k] == limb_byte(l, k),
    ensures
        le_limb(s, at) == l,
{
    lemma2_to64();
    lemma2_to64_rest();
    assert(s[at + 0] == limb_byte(l, 0));
    assert(s[at + 1] == limb_byte(l, 1));
    assert(s[at + 2] == limb_byte(l, 2));
    assert(s[at + 3] == limb_byte(l, 3));
    assert(s[at + 4] == limb_byte(l, 4));
    assert(s[at + 5] == limb_byte(l, 5));
    assert(s[at + 6] == limb_byte(l, 6));
    assert(s[at + 7] == limb_byte(l, 7));
    assert(l == (l / 0x1) % 0x100 + ((l / 0x100) % 0x100) * 0x100 + ((l / 0x1_0000) % 0x100)
        * 0x1_0000 + ((l / 0x100_0000) % 0x100) * 0x100_0000 + ((l / 0x1_0000_0000) % 0x100)
        * 0x1_0000_0000 + ((l / 0x100_0000_0000) % 0x100) * 0x100_0000_0000 + ((l
        / 0x1_0000_0000_0000) % 0x100) * 0x1_0000_0000_0000 + ((l / 0x100_0000_0000_0000) % 0x100)
        * 0x100_0000_0000_0000) by (bit_vector);
}

/// The byte of a limb at the given place.
pub fn byte_at(l: u64, place: usize) -> (r: u8)
    requires
        place < 8,
    ensures
        r == limb_byte(l, place as int),
{
    proof {
        lemma2_to64();
        lemma2_to64_rest();
        if place == 0 {
            assert((l >> (8 * place)) as u8 == (l / 0x1) % 0x100) by (bit_vector)
                requires
                    place == 0,
            ;
        } else if place == 1 {
            assert((l >> (8 * place)) as u8 == (l / 0x100) % 0x100) by (bit_vector)
                requires
                    place == 1,
            ;
        } else if place == 2 {
            assert((l >> (8 * place)) as u8 == (l / 0x1_0000) % 0x100) by (bit_vector)
                requires
                    place == 2,
            ;
        } else if place == 3 {
            assert((l >> (8 * place)) as u8 == (l / 0x100_0000) % 0x100) by (bit_vector)
                requires
                    place == 3,
            ;
        } else if place == 4 {
            assert((l >> (8 * place)) as u8 == (l / 0x1_0000_0000) % 0x100) by (bit_vector)
                requires
                    place == 4,
            ;
        } else if place == 5 {
            assert((l >> (8 * place)) as u8 == (l / 0x100_0000_0000) % 0x100) by (bit_vector)
                requires
                    place == 5,
            ;
        } else if place == 6 {
            assert((l >> (8 * place)) as u8 == (l / 0x1_0000_0000_0000) % 0x100) by (bit_vector)
                requires
                    place == 6,
            ;
        } else {
            assert((l >> (8 * place)) as u8 == (l / 0x100_0000_0000_0000) % 0x100) by (bit_vector)
                requires
                    place == 7,
            ;
        }
    }
    (l >> (8 * place)) as u8
}

/// The limb that the eight bytes from the given index on stand for, least significant byte
/// first.
pub fn limb_at(bytes: &[u8], at: usize) -> (r: u64)
    requires
        at + 8 <= bytes.len(),
    ensures
        r == le_limb(bytes@, at as int),
{
    let b0 = bytes[at] as u64;
    let b1 = bytes[at + 1] as u64;
    let b2 = bytes[at + 2] as u64;
    let b3 = bytes[at + 3] as u64;
    let b4 = bytes[at + 4] as u64;
    let b5 = bytes[at + 5] as u64;
    let b6 = bytes[at + 6] as u64;
    let b7 = bytes[at + 7] as u64;
    assert(b0 | (b1 << 8) | (b2 << 16) | (b3 << 24) | (b4 << 32) | (b5 << 40) | (b6 << 48) | (b7
        << 56) == b0 + b1 * 0x100 + b2 * 0x1_0000 + b3 * 0x100_0000 + b4 * 0x1_0000_0000 + b5
        * 0x100_0000_0000 + b6 * 0x1_0000_0000_0000 + b7 * 0x100_0000_0000_0000) by (bit_vector)
        requires
            b0 < 0x100,
            b1 < 0x100,
            b2 < 0x100,
            b3 < 0x100,
            b4 < 0x100,
            b5 < 0x100,
            b6 < 0x100,
            b7 < 0x100,
    ;
    b0 | (b1 << 8) | (b2 << 16) | (b3 << 24) | (b4 << 32) | (b5 << 40) | (b6 << 48) | (b7 << 56)
}

/// Adds two limbs and a carry. Returns the low limb of the sum and the carry out of it.
pub fn adc(a: u64, b: u64, carry: u64) -> (r: (u64, u64))
    ensures
        r.0 + r.1 * base() == a + b + carry,
        r.1 <= 2,
        carry <= 1 ==> r.1 <= 1,
{
    let t: u128 = a as u128 + b as u128 + carry as u128;
    assert(t as u64 == t % 0x1_0000_0000_0000_0000) by (bit_vector);
    assert((t >> 64) == t / 0x1_0000_0000_0000_0000) by (bit_vector);
    (t as u64, (t >> 64) as u64)
}

/// Subtracts a limb and a borrow of at most one from a limb. Returns the low limb of the
/// difference and the borrow out of it, which is one where the difference is negative.
pub fn sbb(a: u64, b: u64, borrow: u64) -> (r: (u64, u64))
    requires
        borrow <= 1,
    ensures
        r.0 - r.1 * base() == a - b - borrow,
        r.1 <= 1,
{
    let t: u128 = (0x1_0000_0000_0000_0000u128 + a as u128) - (b as u128 + borrow as u128);
    assert(t as u64 == t % 0x1_0000_0000_0000_0000) by (bit_vector);
    assert((t >> 64) == t / 0x1_0000_0000_0000_0000) by (bit_vector);
    (t as u64, 1 - (t >> 64) as u64)
}

/// Multiplies two limbs and adds a limb and a carry to the product. Returns the low and the
/// high limb of the result.
pub fn mac(a: u64, b: u64, c: u64, carry: u64) -> (r: (u64, u64))
    ensures
        r.0 + r.1 * base() == a + b * c + carry,
{
    assert(b * c <= 0xffff_ffff_ffff_ffff * 0xffff_ffff_ffff_ffff) by (nonlinear_arith)
        requires
            b <= 0xffff_ffff_ffff_ffff,
            c <= 0xffff_ffff_ffff_ffff,
    ;
    let t: u128 = a as u128 + (b as u128) * (c as u128) + carry as u128;
    assert(t as u64 == t % 0x1_0000_0000_0000_0000) by (bit_vector);
    assert((t >> 64) == t / 0x1_0000_0000_0000_0000) by (bit_vector);
    (t as u64, (t >> 64) as u64)
}

} // verus!
