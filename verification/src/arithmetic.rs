//! The portable backend: arithmetic modulo the field modulus on limbs.

use crate::ct::{ct_option, limbs_equal};
use crate::field::{field_add, field_inv, field_mul, field_neg, field_pow, field_sub, modulus};
use crate::fr::{Fr, MODULUS};
use crate::laws::lemma_field_inverse;
use crate::limbs::{
    adc, base, base2, base3, base4, lemma_limbs_value_injective, limbs_value, mac, sbb,
    wide_value,
};
use vstd::arithmetic::div_mod::{
    lemma_fundamental_div_mod_converse, lemma_mod_multiples_vanish, lemma_mul_mod_noop,
    lemma_mul_mod_noop_left, lemma_mul_mod_noop_right, lemma_small_mod,
};
use vstd::arithmetic::power::{lemma_pow0, lemma_pow1, lemma_pow_adds, pow};
use vstd::arithmetic::power2::{lemma2_to64, lemma_pow2_unfold, pow2};
use vstd::prelude::*;

verus! {

/// The negative of the inverse of the modulus, modulo two to the power 64.
const INV: u64 = 0xc2e1f593efffffff;

/// The limbs of the square of two to the power 256, reduced by the modulus.
const R2: [u64; 4] = [
    0x1bb8e645ae216da7,
    0x53fe3ab1e35c59e3,
    0x8c49833d53bb8085,
    0x0216d0b17f4e44a5,
];

/// The inverse of two to the power 256 modulo the modulus.
spec fn r_inv() -> int {
    9915499612839321149637521777990102151350674507940716049588462388200839649614int
}

/// All bits set where the flag is one, none where it is zero.
fn mask_of(flag: u64) -> (m: u64)
    requires
        flag <= 1,
    ensures
        m == if flag == 1 { 0xffff_ffff_ffff_ffffu64 } else { 0u64 },
{
    0u64.wrapping_sub(flag)
}

/// The limbs of the modulus where the flag is one, and of zero where it is zero, chosen
/// without a branch.
fn masked_modulus(flag: u64) -> (r: (u64, u64, u64, u64))
    requires
        flag <= 1,
    ensures
        limbs_value([r.0, r.1, r.2, r.3]) == if flag == 1 { modulus() } else { 0 },
{
    let m = mask_of(flag);
    let (p0, p1, p2, p3) = (MODULUS[0], MODULUS[1], MODULUS[2], MODULUS[3]);
    assert(p0 & m == if flag == 1 { p0 } else { 0 }) by (bit_vector)
        requires
            m == if flag == 1 { 0xffff_ffff_ffff_ffffu64 } else { 0u64 },
    ;
    assert(p1 & m == if flag == 1 { p1 } else { 0 }) by (bit_vector)
        requires
            m == if flag == 1 { 0xffff_ffff_ffff_ffffu64 } else { 0u64 },
    ;
    assert(p2 & m == if flag == 1 { p2 } else { 0 }) by (bit_vector)
        requires
            m == if flag == 1 { 0xffff_ffff_ffff_ffffu64 } else { 0u64 },
    ;
    assert(p3 & m == if flag == 1 { p3 } else { 0 }) by (bit_vector)
        requires
            m == if flag == 1 { 0xffff_ffff_ffff_ffffu64 } else { 0u64 },
    ;
    (p0 & m, p1 & m, p2 & m, p3 & m)
}

/// Subtracts the modulus from an integer below twice the modulus where that integer is not
/// below the modulus.
fn reduce_once(d: [u64; 4]) -> (r: Fr)
    requires
        limbs_value(d) < 2 * modulus(),
    ensures
        r@ == limbs_value(d) % modulus(),
        r.is_canonical(),
{
    let (e0, bw) = sbb(d[0], MODULUS[0], 0);
    let (e1, bw) = sbb(d[1], MODULUS[1], bw);
    let (e2, bw) = sbb(d[2], MODULUS[2], bw);
    let (e3, bw) = sbb(d[3], MODULUS[3], bw);
    let (p0, p1, p2, p3) = masked_modulus(bw);
    let (r0, c) = adc(e0, p0, 0);
    let (r1, c) = adc(e1, p1, c);
    let (r2, c) = adc(e2, p2, c);
    let (r3, c) = adc(e3, p3, c);
    let r = Fr([r0, r1, r2, r3]);
    proof {
        let dv = limbs_value(d) as int;
        let ev = limbs_value([e0, e1, e2, e3]) as int;
        assert(ev - bw * base4() == dv - modulus());
        if bw == 1 {
            assert(r@ + c * base4() == ev + modulus());
            lemma_small_mod(dv as nat, modulus());
        } else {
            assert(r@ + c * base4() == ev);
            lemma_fundamental_div_mod_converse(dv, modulus() as int, 1, r@ as int);
        }
    }
    r
}

/// The sum of two canonical elements.
pub fn add(a: &Fr, b: &Fr) -> (r: Fr)
    requires
        a.is_canonical(),
        b.is_canonical(),
    ensures
        r@ == field_add(a@, b@),
        r.is_canonical(),
{
    let (d0, c) = adc(a.0[0], b.0[0], 0);
    let (d1, c) = adc(a.0[1], b.0[1], c);
    let (d2, c) = adc(a.0[2], b.0[2], c);
    let (d3, c) = adc(a.0[3], b.0[3], c);
    assert(limbs_value([d0, d1, d2, d3]) + c * base4() == a@ + b@);
    reduce_once([d0, d1, d2, d3])
}

/// The difference of two canonical elements.
pub fn sub(a: &Fr, b: &Fr) -> (r: Fr)
    requires
        a.is_canonical(),
        b.is_canonical(),
    ensures
        r@ == field_sub(a@, b@),
        r.is_canonical(),
{
    let (d0, bw) = sbb(a.0[0], b.0[0], 0);
    let (d1, bw) = sbb(a.0[1], b.0[1], bw);
    let (d2, bw) = sbb(a.0[2], b.0[2], bw);
    let (d3, bw) = sbb(a.0[3], b.0[3], bw);
    let (p0, p1, p2, p3) = masked_modulus(bw);
    let (r0, c) = adc(d0, p0, 0);
    let (r1, c) = adc(d1, p1, c);
    let (r2, c) = adc(d2, p2, c);
    let (r3, c) = adc(d3, p3, c);
    let r = Fr([r0, r1, r2, r3]);
    proof {
        let dv = limbs_value([d0, d1, d2, d3]) as int;
        assert(dv - bw * base4() == a@ - b@);
        if bw == 1 {
            assert(r@ + c * base4() == dv + modulus());
            lemma_fundamental_div_mod_converse(a@ - b@, modulus() as int, -1, r@ as int);
        } else {
            assert(r@ + c * base4() == dv);
            lemma_fundamental_div_mod_converse(a@ - b@, modulus() as int, 0, r@ as int);
        }
    }
    r
}

/// The additive inverse of a canonical element.
pub fn neg(a: &Fr) -> (r: Fr)
    requires
        a.is_canonical(),
    ensures
        r@ == field_neg(a@),
        r.is_canonical(),
{
    let zero = Fr::zero();
    self::sub(&zero, a)
}

/// Twice a canonical element.
pub fn double(a: &Fr) -> (r: Fr)
    requires
        a.is_canonical(),
    ensures
        r@ == field_add(a@, a@),
        r.is_canonical(),
{
    self::add(a, a)
}

/// Adds the product of a limb and four limbs to four limbs. Returns the low four limbs of
/// the result and the limb above them.
fn mac_row(acc: [u64; 4], x: u64, b: &[u64; 4]) -> (r: ([u64; 4], u64))
    ensures
        limbs_value(r.0) + r.1 * base4() == limbs_value(acc) + x * limbs_value(*b),
{
    let (r0, c) = mac(acc[0], x, b[0], 0);
    let (r1, c) = mac(acc[1], x, b[1], c);
    let (r2, c) = mac(acc[2], x, b[2], c);
    let (r3, c) = mac(acc[3], x, b[3], c);
    proof {
        let (b0, b1, b2, b3) = (b[0] as int, b[1] as int, b[2] as int, b[3] as int);
        let xi = x as int;
        assert(xi * (b0 + b1 * base() + b2 * base2() + b3 * base3()) == xi * b0 + (xi * b1)
            * base() + (xi * b2) * base2() + (xi * b3) * base3()) by (nonlinear_arith);
    }
    ([r0, r1, r2, r3], c)
}

/// The product of two integers of four limbs each, as eight limbs.
pub fn mul_wide(a: &[u64; 4], b: &[u64; 4]) -> (r: [u64; 8])
    ensures
        wide_value(r) == limbs_value(*a) * limbs_value(*b),
{
    let (row0, h0) = mac_row([0, 0, 0, 0], a[0], b);
    let (row1, h1) = mac_row([row0[1], row0[2], row0[3], h0], a[1], b);
    let (row2, h2) = mac_row([row1[1], row1[2], row1[3], h1], a[2], b);
    let (row3, h3) = mac_row([row2[1], row2[2], row2[3], h2], a[3], b);
    let r = [row0[0], row1[0], row2[0], row3[0], row3[1], row3[2], row3[3], h3];
    proof {
        let (a0, a1, a2, a3) = (a[0] as int, a[1] as int, a[2] as int, a[3] as int);
        let bv = limbs_value(*b) as int;
        assert((a0 + a1 * base() + a2 * base2() + a3 * base3()) * bv == a0 * bv + (a1 * bv)
            * base() + (a2 * bv) * base2() + (a3 * bv) * base3()) by (nonlinear_arith);
        assert(wide_value(r) == a0 * bv + (a1 * bv) * base() + (a2 * bv) * base2() + (a3 * bv)
            * base3());
    }
    r
}

/// One round of the reduction: adds the multiple of the modulus that clears the lowest limb
/// of a window of four limbs, and moves the window up by one limb, taking in the limb above
/// it and the carry of the round before. Returns the new window, the carry out of it and the
/// multiplier.
fn redc_round(w: [u64; 4], top: u64, carry: u64) -> (r: ([u64; 4], u64, Ghost<int>))
    requires
        carry <= 1,
    ensures
        r.1 <= 1,
        0 <= r.2@ < base(),
        (limbs_value(r.0) + r.1 * base4()) * base() == limbs_value(w) + (top + carry) * base4()
            + r.2@ * modulus(),
{
    let k = w[0].wrapping_mul(INV);
    let (row, hi) = mac_row(w, k, &MODULUS);
    let (t, c) = adc(top, hi, carry);
    proof {
        // The multiplier is chosen so that the lowest limb of the sum is zero: the modulus
        // times `INV` is one less than a multiple of the base.
        assert(k * limbs_value(MODULUS) == k * modulus()) by (nonlinear_arith)
            requires
                limbs_value(MODULUS) == modulus(),
        ;
        let q = (w[0] * INV) / (base() as int);
        assert(k == w[0] * 0xc2e1f593efffffff - q * base());
        let y = w[0] * 3723675147829272286int - q * 0x43e1f593f0000001 + (w[1] + w[2] * base()
            + w[3] * base2()) + k * 0x30644e72e131a029b85045b68181585d2833e84879b97091int - (row[1]
            + row[2] * base() + row[3] * base2() + hi * base3());
        assert(y * base() == row[0]);
        assert(row[0] == 0);
    }
    ([row[1], row[2], row[3], t], c, Ghost(k as int))
}

/// Divides an integer of eight limbs by two to the power 256 modulo the modulus.
fn montgomery_reduce(t: &[u64; 8]) -> (r: Fr)
    requires
        wide_value(*t) < modulus() * base4(),
    ensures
        r.is_canonical(),
        (r@ * base4()) % modulus() == wide_value(*t) % modulus(),
{
    let (w1, c1, Ghost(k0)) = redc_round([t[0], t[1], t[2], t[3]], t[4], 0);
    let (w2, c2, Ghost(k1)) = redc_round(w1, t[5], c1);
    let (w3, c3, Ghost(k2)) = redc_round(w2, t[6], c2);
    let (w4, c4, Ghost(k3)) = redc_round(w3, t[7], c3);
    proof {
        let k = k0 + k1 * base() + k2 * base2() + k3 * base3();
        let v = limbs_value(w4) + c4 * base4();
        assert(v * base4() == wide_value(*t) + k * modulus());
        assert(c4 == 0);
    }
    let r = reduce_once(w4);
    proof {
        let k = k0 + k1 * base() + k2 * base2() + k3 * base3();
        let v = limbs_value(w4) as int;
        let m = modulus() as int;
        lemma_mul_mod_noop_left(v, base4() as int, m);
        lemma_mod_multiples_vanish(k, wide_value(*t) as int, m);
    }
    r
}

/// Where two integers have the same residue after multiplication by two to the power 256,
/// they have the same residue.
proof fn lemma_cancel_base4(x: int, y: int)
    requires
        (x * base4()) % (modulus() as int) == (y * base4()) % (modulus() as int),
    ensures
        x % (modulus() as int) == y % (modulus() as int),
{
    let m = modulus() as int;
    let b = base4() as int;
    assert((b * r_inv()) % m == 1);
    assert(x * b * r_inv() == x * (b * r_inv())) by (nonlinear_arith);
    assert(y * b * r_inv() == y * (b * r_inv())) by (nonlinear_arith);
    lemma_mul_mod_noop_left(x * b, r_inv(), m);
    lemma_mul_mod_noop_left(y * b, r_inv(), m);
    lemma_mul_mod_noop_right(x, b * r_inv(), m);
    lemma_mul_mod_noop_right(y, b * r_inv(), m);
}

/// The product of a canonical integer and an integer of four limbs can be reduced.
proof fn lemma_product_bound(x: nat, y: nat)
    by (nonlinear_arith)
    requires
        x < modulus(),
        y < base4(),
    ensures
        x * y < modulus() * base4(),
{
}

/// Two reductions, with a multiplication by the square of two to the power 256 between
/// them, give back the residue of the integer that went in.
proof fn lemma_two_reductions(x: int, u: int, r: int)
    requires
        (u * base4()) % (modulus() as int) == x % (modulus() as int),
        (r * base4()) % (modulus() as int) == (u * limbs_value(R2)) % (modulus() as int),
        0 <= r < modulus(),
    ensures
        r == x % (modulus() as int),
{
    let m = modulus() as int;
    let b4 = base4() as int;
    let r2 = limbs_value(R2) as int;
    assert(r2 % m == (b4 * b4) % m);
    lemma_mul_mod_noop_right(u, r2, m);
    lemma_mul_mod_noop_right(u, b4 * b4, m);
    assert(u * (b4 * b4) == (u * b4) * b4) by (nonlinear_arith);
    lemma_mul_mod_noop_left(u * b4, b4, m);
    lemma_mul_mod_noop_left(x, b4, m);
    assert((r * b4) % m == (x * b4) % m);
    lemma_cancel_base4(r, x);
    lemma_small_mod(r as nat, modulus());
}

/// The product of two canonical elements.
pub fn mul(a: &Fr, b: &Fr) -> (r: Fr)
    requires
        a.is_canonical(),
        b.is_canonical(),
    ensures
        r@ == field_mul(a@, b@),
        r.is_canonical(),
{
    let t = mul_wide(&a.0, &b.0);
    proof {
        lemma_product_bound(a@, b@);
    }
    let u = montgomery_reduce(&t);
    let t2 = mul_wide(&u.0, &R2);
    proof {
        lemma_product_bound(u@, limbs_value(R2));
    }
    let r = montgomery_reduce(&t2);
    proof {
        lemma_two_reductions((a@ * b@) as int, u@ as int, r@ as int);
    }
    r
}

/// The square of a canonical element.
pub fn square(a: &Fr) -> (r: Fr)
    requires
        a.is_canonical(),
    ensures
        r@ == field_mul(a@, a@),
        r.is_canonical(),
{
    self::mul(a, a)
}

/// The integer that the limbs from the given index up stand for.
pub open spec fn high_value(e: [u64; 4], from: int) -> nat {
    if from >= 4 {
        0
    } else if from == 3 {
        e[3] as nat
    } else if from == 2 {
        (e[2] as nat) + (e[3] as nat) * base()
    } else if from == 1 {
        (e[1] as nat) + (e[2] as nat) * base() + (e[3] as nat) * base2()
    } else {
        limbs_value(e)
    }
}

/// One step of exponentiation from the highest bit down: squaring doubles the exponent, and
/// a multiplication by the base adds one to it.
proof fn lemma_pow_step(a: nat, e: nat, bit: nat, sq: nat, next: nat)
    requires
        bit <= 1,
        sq == field_mul(field_pow(a, e), field_pow(a, e)),
        next == if bit == 1 { field_mul(sq, a) } else { sq },
    ensures
        next == field_pow(a, 2 * e + bit),
{
    let m = modulus() as int;
    let x = pow(a as int, e);
    lemma_pow_adds(a as int, e, e);
    lemma_mul_mod_noop(x, x, m);
    assert(sq == pow(a as int, 2 * e) % m);
    if bit == 1 {
        lemma_pow_adds(a as int, 2 * e, 1);
        lemma_pow1(a as int);
        lemma_mul_mod_noop_left(pow(a as int, 2 * e), a as int, m);
    }
}

/// A canonical element raised to the power that four limbs stand for. The time taken
/// depends on the exponent, and not on the base.
pub fn pow_vartime(a: &Fr, exp: &[u64; 4]) -> (r: Fr)
    requires
        a.is_canonical(),
    ensures
        r@ == field_pow(a@, limbs_value(*exp)),
        r.is_canonical(),
{
    let mut acc = Fr::one();
    let ghost mut done: nat = 0;
    proof {
        lemma_pow0(a@ as int);
    }
    let mut j: usize = 4;
    while j > 0
        invariant
            j <= 4,
            a.is_canonical(),
            acc.is_canonical(),
            acc@ == field_pow(a@, done),
            done == high_value(*exp, j as int),
        decreases j,
    {
        j -= 1;
        let w = exp[j];
        let ghost above = done;
        let ghost mut top: nat = 0;
        let ghost mut scale: nat = 1;
        proof {
            lemma2_to64();
        }
        let mut i: u32 = 64;
        while i > 0
            invariant
                i <= 64,
                a.is_canonical(),
                acc.is_canonical(),
                acc@ == field_pow(a@, done),
                done == above * scale + top,
                scale == pow2((64 - i) as nat),
                top == if i == 64 { 0 } else { (w >> i) as nat },
            decreases i,
        {
            i -= 1;
            let bit = (w >> i) & 1;
            acc = self::square(&acc);
            if bit == 1 {
                acc = self::mul(&acc, a);
            }
            proof {
                assert(bit <= 1) by (bit_vector)
                    requires
                        bit == (w >> i) & 1,
                ;
                if i == 63 {
                    assert((w >> i) == bit) by (bit_vector)
                        requires
                            i == 63,
                            bit == (w >> i) & 1,
                    ;
                } else {
                    assert((w >> i) == 2 * (w >> ((i + 1) as u32)) + bit) by (bit_vector)
                        requires
                            i < 63,
                            bit == (w >> i) & 1,
                    ;
                }
                lemma_pow_step(
                    a@,
                    done,
                    bit as nat,
                    field_mul(field_pow(a@, done), field_pow(a@, done)),
                    acc@,
                );
                lemma_pow2_unfold((64 - i) as nat);
                assert(2 * (above * scale) == above * (2 * scale)) by (nonlinear_arith);
                done = 2 * done + bit as nat;
                top = 2 * top + bit as nat;
                scale = 2 * scale;
            }
        }
        assert(w >> 0 == w) by (bit_vector);
    }
    acc
}

/// The multiplicative inverse of a canonical element: nothing for zero, and for every other
/// element its power to the modulus less two.
///
/// The exponent is fixed and the test for zero does not branch on the limbs, so the steps
/// taken are the same for every element. What time a multiplication of limbs takes is left
/// to the machine.
pub fn invert(a: &Fr) -> (r: Option<Fr>)
    requires
        a.is_canonical(),
    ensures
        r is None <==> a@ == 0,
        r matches Some(x) ==> x@ == field_inv(a@) && x.is_canonical() && field_mul(a@, x@) == 1,
{
    let exp: [u64; 4] = [
        0x43e1f593efffffff,
        0x2833e84879b97091,
        0xb85045b68181585d,
        0x30644e72e131a029,
    ];
    let x = self::pow_vartime(a, &exp);
    let zero = Fr::zero();
    let is_zero = limbs_equal(&a.0, &zero.0);
    proof {
        if a@ == 0 {
            lemma_limbs_value_injective(a.0, zero.0);
        } else {
            lemma_field_inverse(a@);
        }
        if is_zero {
            assert(a.0 =~= zero.0);
        }
    }
    ct_option(x, !is_zero)
}

} // verus!
