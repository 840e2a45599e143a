//! Powers, orders and inverses of residues modulo any modulus: the number theory under the
//! proof that every nonzero element of the field has an inverse.

use vstd::arithmetic::div_mod::{
    lemma_fundamental_div_mod, lemma_fundamental_div_mod_converse, lemma_mod_bound,
    lemma_mul_mod_noop, lemma_mul_mod_noop_left, lemma_small_mod,
};
use vstd::arithmetic::power::{
    lemma1_pow, lemma_pow0, lemma_pow_adds, lemma_pow_mod_noop, lemma_pow_multiplies, pow,
};
use vstd::prelude::*;
use vstd::relations::injective_on;
use vstd::set_lib::{lemma_int_range, lemma_map_size, lemma_subset_equality, set_int_range};

verus! {

/// The residue of a power.
pub open spec fn pow_mod(a: nat, e: nat, n: nat) -> nat {
    (pow(a as int, e) % (n as int)) as nat
}

/// Whether the second residue is the inverse of the first.
pub open spec fn inverts(x: nat, y: nat, n: nat) -> bool {
    0 < y < n && (x * y) % n == 1
}

/// Whether a residue has an inverse.
pub open spec fn has_inverse(x: nat, n: nat) -> bool {
    exists|y: nat| #[trigger] inverts(x, y, n)
}

/// Whether every nonzero residue has an inverse, as it has exactly where the modulus is a
/// prime.
pub open spec fn is_field_modulus(n: nat) -> bool {
    n > 1 && forall|x: nat| 0 < x < n ==> #[trigger] has_inverse(x, n)
}

/// Whether the exponent is the least positive one at which the power is one.
pub open spec fn is_order(g: nat, n: nat, d: nat) -> bool {
    &&& d > 0
    &&& pow_mod(g, d, n) == 1
    &&& forall|e: nat| 0 < e < d ==> #[trigger] pow_mod(g, e, n) != 1
}

/// The power to a sum of exponents is the product of the powers.
pub proof fn lemma_pow_mod_adds(a: nat, e1: nat, e2: nat, n: nat)
    requires
        n > 0,
    ensures
        pow_mod(a, e1 + e2, n) == (pow_mod(a, e1, n) * pow_mod(a, e2, n)) % n,
{
    lemma_pow_adds(a as int, e1, e2);
    lemma_mul_mod_noop(pow(a as int, e1), pow(a as int, e2), n as int);
}

/// Where a power is one, so is the power to every multiple of its exponent.
pub proof fn lemma_pow_mod_multiple(a: nat, e: nat, k: nat, n: nat)
    requires
        n > 1,
        pow_mod(a, e, n) == 1,
    ensures
        pow_mod(a, e * k, n) == 1,
{
    lemma_pow_multiplies(a as int, e, k);
    lemma_pow_mod_noop(pow(a as int, e), k, n as int);
    lemma1_pow(k);
    lemma_small_mod(1, n);
}

/// The power of a power is the power to the product of the exponents.
pub proof fn lemma_pow_mod_multiplies(a: nat, e: nat, k: nat, n: nat)
    requires
        n > 0,
    ensures
        pow_mod(pow_mod(a, e, n), k, n) == pow_mod(a, e * k, n),
{
    lemma_pow_multiplies(a as int, e, k);
    lemma_pow_mod_noop(pow(a as int, e), k, n as int);
}

/// Where some positive power is one, there is a least such exponent from the given bound
/// down.
proof fn lemma_least_exponent(g: nat, n: nat, bound: nat) -> (d: nat)
    requires
        bound > 0,
        pow_mod(g, bound, n) == 1,
    ensures
        is_order(g, n, d),
        d <= bound,
    decreases bound,
{
    if exists|e: nat| 0 < e < bound && pow_mod(g, e, n) == 1 {
        let e = choose|e: nat| 0 < e < bound && pow_mod(g, e, n) == 1;
        lemma_least_exponent(g, n, e)
    } else {
        bound
    }
}

/// The order of a residue divides every exponent at which its power is one.
pub proof fn lemma_order_divides(g: nat, n: nat, d: nat, e: nat)
    requires
        n > 1,
        is_order(g, n, d),
        pow_mod(g, e, n) == 1,
    ensures
        e % d == 0,
{
    let s = e / d;
    let r = e % d;
    lemma_fundamental_div_mod(e as int, d as int);
    assert(e == d * s + r);
    lemma_pow_mod_multiple(g, d, s, n);
    lemma_pow_mod_adds(g, d * s, r, n);
    assert(pow_mod(g, r, n) == 1) by {
        lemma_small_mod(pow_mod(g, r, n), n);
        assert(1 * pow_mod(g, r, n) == pow_mod(g, r, n));
    }
}

/// Where the order of a residue divides an exponent and a number divides the quotient, the
/// power to the exponent over that number is one.
pub proof fn lemma_power_at_cofactor(g: nat, n: nat, d: nat, e: nat, q: nat)
    requires
        n > 1,
        d > 0,
        q > 0,
        pow_mod(g, d, n) == 1,
        e % d == 0,
        (e / d) % q == 0,
    ensures
        e % q == 0,
        pow_mod(g, e / q, n) == 1,
{
    let s = e / d;
    let t = s / q;
    lemma_fundamental_div_mod(e as int, d as int);
    lemma_fundamental_div_mod(s as int, q as int);
    assert(e == d * s);
    assert(s == q * t);
    assert(e == (d * t) * q) by (nonlinear_arith)
        requires
            e == d * s,
            s == q * t,
    ;
    lemma_fundamental_div_mod_converse(e as int, q as int, (d * t) as int, 0);
    lemma_pow_mod_multiple(g, d, t, n);
}

/// Where a number divides the product of a prime and another number, and the prime does not
/// divide it, it divides the other number.
pub proof fn lemma_strip_prime(s: nat, q: nat, m: nat)
    requires
        is_field_modulus(q),
        s > 0,
        (q * m) % s == 0,
        s % q != 0,
    ensures
        m % s == 0,
{
    let x = s % q;
    lemma_mod_bound(s as int, q as int);
    assert(has_inverse(x, q));
    let y = choose|y: nat| inverts(x, y, q);
    lemma_mul_mod_noop_left(s as int, y as int, q as int);
    let k = (s * y) / q;
    lemma_fundamental_div_mod((s * y) as int, q as int);
    assert(s * y == q * k + 1);
    let c = (q * m) / s;
    lemma_fundamental_div_mod((q * m) as int, s as int);
    assert(q * m == s * c);
    assert(m == (m * y - c * k) * s) by (nonlinear_arith)
        requires
            s * y == q * k + 1,
            q * m == s * c,
    ;
    lemma_fundamental_div_mod_converse(m as int, s as int, m * y - c * k, 0);
}

/// The inverse of a power of a residue whose power to the exponent `big` is one.
proof fn lemma_power_inverse(g: nat, n: nat, big: nat, i: nat)
    requires
        n > 1,
        pow_mod(g, big, n) == 1,
        i <= big,
    ensures
        (pow_mod(g, i, n) * pow_mod(g, (big - i) as nat, n)) % n == 1,
        0 < pow_mod(g, i, n) < n,
        0 < pow_mod(g, (big - i) as nat, n) < n,
{
    lemma_pow_mod_adds(g, i, (big - i) as nat, n);
    lemma_mod_bound(pow(g as int, i), n as int);
    lemma_mod_bound(pow(g as int, (big - i) as nat), n as int);
    let a = pow_mod(g, i, n);
    let b = pow_mod(g, (big - i) as nat, n);
    lemma_small_mod(0, n);
    if a == 0 {
        assert(a * b == 0) by (nonlinear_arith)
            requires
                a == 0,
        ;
    }
    if b == 0 {
        assert(a * b == 0) by (nonlinear_arith)
            requires
                b == 0,
        ;
    }
}

/// The powers of a residue to the exponents below its order differ from each other.
proof fn lemma_powers_differ(g: nat, n: nat, d: nat, i: nat, j: nat)
    requires
        n > 1,
        is_order(g, n, d),
        i < j < d,
    ensures
        pow_mod(g, i, n) != pow_mod(g, j, n),
{
    if pow_mod(g, i, n) == pow_mod(g, j, n) {
        let back = (d - i) as nat;
        let gap = (j - i) as nat;
        lemma_power_inverse(g, n, d, i);
        lemma_pow_mod_adds(g, j, back, n);
        lemma_pow_mod_adds(g, d, gap, n);
        assert(j + back == d + gap);
        assert(1 * pow_mod(g, gap, n) == pow_mod(g, gap, n));
        lemma_mod_bound(pow(g as int, gap), n as int);
        lemma_small_mod(pow_mod(g, gap, n), n);
        assert(pow_mod(g, gap, n) == 1);
    }
}

/// Where the order of a residue is the modulus less one, every nonzero residue is a power
/// of it.
pub proof fn lemma_generator_reaches(g: nat, n: nat, x: nat) -> (i: nat)
    requires
        n > 1,
        is_order(g, n, (n - 1) as nat),
        0 < x < n,
    ensures
        i < n - 1,
        pow_mod(g, i, n) == x,
{
    let d = (n - 1) as nat;
    let f = |i: int| pow_mod(g, i as nat, n) as int;
    let exponents = set_int_range(0, d as int);
    let powers = exponents.map(f);
    let residues = set_int_range(1, n as int);
    assert(injective_on(f, exponents)) by {
        assert forall|i: int, j: int|
            exponents.contains(i) && exponents.contains(j) && #[trigger] f(i) == #[trigger] f(
                j,
            ) implies i == j by {
            if i < j {
                lemma_powers_differ(g, n, d, i as nat, j as nat);
            } else if j < i {
                lemma_powers_differ(g, n, d, j as nat, i as nat);
            }
        }
    }
    lemma_int_range(0, d as int);
    lemma_int_range(1, n as int);
    lemma_map_size(exponents, powers, f);
    assert(powers.subset_of(residues)) by {
        assert forall|v: int| powers.contains(v) implies residues.contains(v) by {
            let i = choose|i: int| exponents.contains(i) && v == f(i);
            lemma_power_inverse(g, n, d, i as nat);
        }
    }
    lemma_subset_equality(powers, residues);
    assert(residues.contains(x as int));
    assert(powers.contains(x as int));
    let i = choose|i: int| exponents.contains(i) && x as int == f(i);
    i as nat
}

/// Where the order of a residue is the modulus less one, every nonzero residue has an
/// inverse, and its power to the modulus less one is one.
pub proof fn lemma_generator_field(g: nat, n: nat)
    requires
        n > 1,
        is_order(g, n, (n - 1) as nat),
    ensures
        is_field_modulus(n),
        forall|x: nat| 0 < x < n ==> #[trigger] pow_mod(x, (n - 1) as nat, n) == 1,
{
    let d = (n - 1) as nat;
    assert forall|x: nat| 0 < x < n implies #[trigger] has_inverse(x, n) by {
        let i = lemma_generator_reaches(g, n, x);
        lemma_power_inverse(g, n, d, i);
        assert(inverts(x, pow_mod(g, (d - i) as nat, n), n));
    }
    assert forall|x: nat| 0 < x < n implies #[trigger] pow_mod(x, d, n) == 1 by {
        let i = lemma_generator_reaches(g, n, x);
        lemma_pow_mod_multiplies(g, i, d, n);
        lemma_pow_mod_multiple(g, d, i, n);
        assert(i * d == d * i) by (nonlinear_arith);
    }
}

/// Where the power of a residue to an exponent is one, the exponent is the order of the
/// residue times a cofactor.
pub proof fn lemma_cofactor(g: nat, n: nat, big: nat) -> (s: nat)
    requires
        n > 1,
        big > 0,
        pow_mod(g, big, n) == 1,
    ensures
        s > 0,
        big % s == 0,
        is_order(g, n, big / s),
{
    let d = lemma_least_exponent(g, n, big);
    lemma_order_divides(g, n, d, big);
    let s = big / d;
    lemma_fundamental_div_mod(big as int, d as int);
    assert(big == d * s);
    lemma_fundamental_div_mod_converse(big as int, s as int, d as int, 0);
    s
}

/// Where a number divides the cofactor of the order in an exponent, the power to the
/// exponent over that number is still one.
pub proof fn lemma_cofactor_prime(g: nat, n: nat, big: nat, s: nat, q: nat)
    requires
        n > 1,
        s > 0,
        q > 0,
        big % s == 0,
        is_order(g, n, big / s),
        s % q == 0,
    ensures
        big % q == 0,
        pow_mod(g, big / q, n) == 1,
{
    let d = big / s;
    lemma_fundamental_div_mod(big as int, s as int);
    assert(big == s * d);
    assert(big == s * d + 0);
    lemma_fundamental_div_mod_converse(big as int, d as int, s as int, 0);
    lemma_power_at_cofactor(g, n, d, big, q);
}

/// Every nonzero residue modulo two has an inverse.
pub proof fn lemma_prime_2()
    ensures
        is_field_modulus(2),
{
    assert forall|x: nat| 0 < x < 2 implies #[trigger] has_inverse(x, 2) by {
        assert(inverts(x, 1, 2));
    }
}

/// The powers of an integer to the exponents below sixteen, written out.
#[verifier::inline]
pub open spec fn small_power(a: nat, w: nat) -> nat {
    if w == 0 {
        1
    } else if w == 1 {
        a
    } else if w == 2 {
        a * a
    } else if w == 3 {
        a * a * a
    } else if w == 4 {
        a * a * a * a
    } else if w == 5 {
        a * a * a * a * a
    } else if w == 6 {
        a * a * a * a * a * a
    } else if w == 7 {
        a * a * a * a * a * a * a
    } else if w == 8 {
        a * a * a * a * a * a * a * a
    } else if w == 9 {
        a * a * a * a * a * a * a * a * a
    } else if w == 10 {
        a * a * a * a * a * a * a * a * a * a
    } else if w == 11 {
        a * a * a * a * a * a * a * a * a * a * a
    } else if w == 12 {
        a * a * a * a * a * a * a * a * a * a * a * a
    } else if w == 13 {
        a * a * a * a * a * a * a * a * a * a * a * a * a
    } else if w == 14 {
        a * a * a * a * a * a * a * a * a * a * a * a * a * a
    } else {
        a * a * a * a * a * a * a * a * a * a * a * a * a * a * a
    }
}

/// The written-out powers are the powers.
proof fn lemma_small_power(a: nat, w: nat)
    requires
        w < 16,
    ensures
        small_power(a, w) == pow(a as int, w),
    decreases w,
{
    reveal(pow);
    if w > 0 {
        lemma_small_power(a, (w - 1) as nat);
        assert(small_power(a, w) == a * small_power(a, (w - 1) as nat)) by (nonlinear_arith)
            requires
                0 < w < 16,
                small_power(a, w) == if w == 1 {
                    a
                } else {
                    small_power(a, (w - 1) as nat) * a
                },
        ;
    }
}

/// One step of exponentiation from the highest bits down, four bits at a time: four
/// squarings, each given with its residue, multiply the exponent by sixteen, and a
/// multiplication by a small power adds the four bits to it.
pub proof fn lemma_window(
    a: nat,
    n: nat,
    e: nat,
    w: nat,
    v: nat,
    v2: nat,
    v4: nat,
    v8: nat,
    v16: nat,
    next: nat,
)
    requires
        n > 0,
        w < 16,
        pow_mod(a, e, n) == v,
        v2 == (v * v) % n,
        v4 == (v2 * v2) % n,
        v8 == (v4 * v4) % n,
        v16 == (v8 * v8) % n,
        next == (v16 * small_power(a, w)) % n,
    ensures
        pow_mod(a, 16 * e + w, n) == next,
{
    lemma_pow_mod_adds(a, e, e, n);
    lemma_pow_mod_adds(a, 2 * e, 2 * e, n);
    lemma_pow_mod_adds(a, 4 * e, 4 * e, n);
    lemma_pow_mod_adds(a, 8 * e, 8 * e, n);
    lemma_small_power(a, w);
    lemma_pow_adds(a as int, 16 * e, w);
    lemma_mul_mod_noop_left(pow(a as int, 16 * e), pow(a as int, w), n as int);
}

/// The power to the exponent zero is one.
pub proof fn lemma_pow_mod_zero(a: nat, n: nat)
    requires
        n > 1,
    ensures
        pow_mod(a, 0, n) == 1,
{
    lemma_pow0(a as int);
    lemma_small_mod(1, n);
}

} // verus!
