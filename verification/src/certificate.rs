//! The certificate that the modulus is a prime: for the modulus, and in turn for every
//! prime that divides a prime of the certificate less one, a residue whose order is that
//! prime less one.
//!
//! The order is full because the power to the prime less one is one, and the power to that
//! number over each of its prime factors is not. The powers are reached from each other: the
//! power to an exponent over some of the prime factors, raised to the product of half of
//! them, is the power to the exponent over the other half. Each step from power to power
//! goes from the highest digits of the exponent down, four bits at a time.

use crate::field::modulus;
use crate::order::{
    is_field_modulus, is_order, lemma_cofactor, lemma_cofactor_prime, lemma_generator_field,
    lemma_pow_mod_multiplies, lemma_pow_mod_zero, lemma_prime_2, lemma_strip_prime, lemma_window,
    pow_mod,
};
use vstd::arithmetic::div_mod::lemma_small_mod;
use vstd::prelude::*;

verus! {

/// The power of 2 to 3 less one over 2.
pub proof fn lemma_power_3_over_2()
    ensures
        pow_mod(2, 1, 3) == 2,
{
    lemma_pow_mod_zero(2, 3);
    lemma_window(2, 3, 0, 1, 1, 1, 1, 1, 1, 2);
}

/// The power of 2 to 3 less one is one.
pub proof fn lemma_power_3_full()
    ensures
        pow_mod(2, 2, 3) == 1,
{
    lemma_pow_mod_zero(2, 3);
    lemma_window(2, 3, 0, 2, 1, 1, 1, 1, 1, 1);
    lemma_power_3_over_2();
    lemma_pow_mod_multiplies(2, 1, 2, 3);
}

/// 3 is a prime, and the order of 2 modulo it is the prime less one.
pub proof fn lemma_prime_3()
    ensures
        is_field_modulus(3),
        is_order(2, 3, 2),
        forall|x: nat| 0 < x < 3 ==> #[trigger] pow_mod(x, 2, 3) == 1,
{
    lemma_prime_2();
    lemma_power_3_full();
    lemma_power_3_over_2();
    let s = lemma_cofactor(2, 3, 2);
    if s % 2 == 0 {
        lemma_cofactor_prime(2, 3, 2, s, 2);
    }
    lemma_strip_prime(s, 2, 1);
    if s > 1 {
        lemma_small_mod(1, s);
    }
    lemma_generator_field(2, 3);
}

/// The power of 2 to 13 less one over the product of its prime factors from 2 to 3.
pub proof fn lemma_power_13_over_2_to_3()
    ensures
        pow_mod(2, 2, 13) == 4,
{
    lemma_pow_mod_zero(2, 13);
    lemma_window(2, 13, 0, 2, 1, 1, 1, 1, 1, 4);
}

/// The power of 2 to 13 less one over 2.
pub proof fn lemma_power_13_over_2()
    ensures
        pow_mod(2, 6, 13) == 12,
{
    lemma_pow_mod_zero(4, 13);
    lemma_window(4, 13, 0, 3, 1, 1, 1, 1, 1, 12);
    lemma_power_13_over_2_to_3();
    lemma_pow_mod_multiplies(2, 2, 3, 13);
}

/// The power of 2 to 13 less one over 3.
pub proof fn lemma_power_13_over_3()
    ensures
        pow_mod(2, 4, 13) == 3,
{
    lemma_pow_mod_zero(4, 13);
    lemma_window(4, 13, 0, 2, 1, 1, 1, 1, 1, 3);
    lemma_power_13_over_2_to_3();
    lemma_pow_mod_multiplies(2, 2, 2, 13);
}

/// The power of 2 to 13 less one is one.
pub proof fn lemma_power_13_full()
    ensures
        pow_mod(2, 12, 13) == 1,
{
    lemma_pow_mod_zero(12, 13);
    lemma_window(12, 13, 0, 2, 1, 1, 1, 1, 1, 1);
    lemma_power_13_over_2();
    lemma_pow_mod_multiplies(2, 6, 2, 13);
}

/// 13 is a prime, and the order of 2 modulo it is the prime less one.
pub proof fn lemma_prime_13()
    ensures
        is_field_modulus(13),
        is_order(2, 13, 12),
        forall|x: nat| 0 < x < 13 ==> #[trigger] pow_mod(x, 12, 13) == 1,
{
    lemma_prime_2();
    lemma_prime_3();
    lemma_power_13_full();
    lemma_power_13_over_2();
    lemma_power_13_over_3();
    let s = lemma_cofactor(2, 13, 12);
    if s % 2 == 0 {
        lemma_cofactor_prime(2, 13, 12, s, 2);
    }
    if s % 3 == 0 {
        lemma_cofactor_prime(2, 13, 12, s, 3);
    }
    lemma_strip_prime(s, 2, 6);
    lemma_strip_prime(s, 2, 3);
    lemma_strip_prime(s, 3, 1);
    if s > 1 {
        lemma_small_mod(1, s);
    }
    lemma_generator_field(2, 13);
}

/// The power of 3 to 7 less one over the product of its prime factors from 2 to 3.
pub proof fn lemma_power_7_over_2_to_3()
    ensures
        pow_mod(3, 1, 7) == 3,
{
    lemma_pow_mod_zero(3, 7);
    lemma_window(3, 7, 0, 1, 1, 1, 1, 1, 1, 3);
}

/// The power of 3 to 7 less one over 2.
pub proof fn lemma_power_7_over_2()
    ensures
        pow_mod(3, 3, 7) == 6,
{
    lemma_pow_mod_zero(3, 7);
    lemma_window(3, 7, 0, 3, 1, 1, 1, 1, 1, 6);
    lemma_power_7_over_2_to_3();
    lemma_pow_mod_multiplies(3, 1, 3, 7);
}

/// The power of 3 to 7 less one over 3.
pub proof fn lemma_power_7_over_3()
    ensures
        pow_mod(3, 2, 7) == 2,
{
    lemma_pow_mod_zero(3, 7);
    lemma_window(3, 7, 0, 2, 1, 1, 1, 1, 1, 2);
    lemma_power_7_over_2_to_3();
    lemma_pow_mod_multiplies(3, 1, 2, 7);
}

/// The power of 3 to 7 less one is one.
pub proof fn lemma_power_7_full()
    ensures
        pow_mod(3, 6, 7) == 1,
{
    lemma_pow_mod_zero(6, 7);
    lemma_window(6, 7, 0, 2, 1, 1, 1, 1, 1, 1);
    lemma_power_7_over_2();
    lemma_pow_mod_multiplies(3, 3, 2, 7);
}

/// 7 is a prime, and the order of 3 modulo it is the prime less one.
pub proof fn lemma_prime_7()
    ensures
        is_field_modulus(7),
        is_order(3, 7, 6),
        forall|x: nat| 0 < x < 7 ==> #[trigger] pow_mod(x, 6, 7) == 1,
{
    lemma_prime_2();
    lemma_prime_3();
    lemma_power_7_full();
    lemma_power_7_over_2();
    lemma_power_7_over_3();
    let s = lemma_cofactor(3, 7, 6);
    if s % 2 == 0 {
        lemma_cofactor_prime(3, 7, 6, s, 2);
    }
    if s % 3 == 0 {
        lemma_cofactor_prime(3, 7, 6, s, 3);
    }
    lemma_strip_prime(s, 2, 3);
    lemma_strip_prime(s, 3, 1);
    if s > 1 {
        lemma_small_mod(1, s);
    }
    lemma_generator_field(3, 7);
}

/// The power of 2 to 29 less one over the product of its prime factors from 2 to 7.
pub proof fn lemma_power_29_over_2_to_7()
    ensures
        pow_mod(2, 2, 29) == 4,
{
    lemma_pow_mod_zero(2, 29);
    lemma_window(2, 29, 0, 2, 1, 1, 1, 1, 1, 4);
}

/// The power of 2 to 29 less one over 2.
pub proof fn lemma_power_29_over_2()
    ensures
        pow_mod(2, 14, 29) == 28,
{
    lemma_pow_mod_zero(4, 29);
    lemma_window(4, 29, 0, 7, 1, 1, 1, 1, 1, 28);
    lemma_power_29_over_2_to_7();
    lemma_pow_mod_multiplies(2, 2, 7, 29);
}

/// The power of 2 to 29 less one over 7.
pub proof fn lemma_power_29_over_7()
    ensures
        pow_mod(2, 4, 29) == 16,
{
    lemma_pow_mod_zero(4, 29);
    lemma_window(4, 29, 0, 2, 1, 1, 1, 1, 1, 16);
    lemma_power_29_over_2_to_7();
    lemma_pow_mod_multiplies(2, 2, 2, 29);
}

/// The power of 2 to 29 less one is one.
pub proof fn lemma_power_29_full()
    ensures
        pow_mod(2, 28, 29) == 1,
{
    lemma_pow_mod_zero(28, 29);
    lemma_window(28, 29, 0, 2, 1, 1, 1, 1, 1, 1);
    lemma_power_29_over_2();
    lemma_pow_mod_multiplies(2, 14, 2, 29);
}

/// 29 is a prime, and the order of 2 modulo it is the prime less one.
pub proof fn lemma_prime_29()
    ensures
        is_field_modulus(29),
        is_order(2, 29, 28),
        forall|x: nat| 0 < x < 29 ==> #[trigger] pow_mod(x, 28, 29) == 1,
{
    lemma_prime_2();
    lemma_prime_7();
    lemma_power_29_full();
    lemma_power_29_over_2();
    lemma_power_29_over_7();
    let s = lemma_cofactor(2, 29, 28);
    if s % 2 == 0 {
        lemma_cofactor_prime(2, 29, 28, s, 2);
    }
    if s % 7 == 0 {
        lemma_cofactor_prime(2, 29, 28, s, 7);
    }
    lemma_strip_prime(s, 2, 14);
    lemma_strip_prime(s, 2, 7);
    lemma_strip_prime(s, 7, 1);
    if s > 1 {
        lemma_small_mod(1, s);
    }
    lemma_generator_field(2, 29);
}

/// The power of 2 to 5 less one over 2.
pub proof fn lemma_power_5_over_2()
    ensures
        pow_mod(2, 2, 5) == 4,
{
    lemma_pow_mod_zero(2, 5);
    lemma_window(2, 5, 0, 2, 1, 1, 1, 1, 1, 4);
}

/// The power of 2 to 5 less one is one.
pub proof fn lemma_power_5_full()
    ensures
        pow_mod(2, 4, 5) == 1,
{
    lemma_pow_mod_zero(4, 5);
    lemma_window(4, 5, 0, 2, 1, 1, 1, 1, 1, 1);
    lemma_power_5_over_2();
    lemma_pow_mod_multiplies(2, 2, 2, 5);
}

/// 5 is a prime, and the order of 2 modulo it is the prime less one.
pub proof fn lemma_prime_5()
    ensures
        is_field_modulus(5),
        is_order(2, 5, 4),
        forall|x: nat| 0 < x < 5 ==> #[trigger] pow_mod(x, 4, 5) == 1,
{
    lemma_prime_2();
    lemma_power_5_full();
    lemma_power_5_over_2();
    let s = lemma_cofactor(2, 5, 4);
    if s % 2 == 0 {
        lemma_cofactor_prime(2, 5, 4, s, 2);
    }
    lemma_strip_prime(s, 2, 2);
    lemma_strip_prime(s, 2, 1);
    if s > 1 {
        lemma_small_mod(1, s);
    }
    lemma_generator_field(2, 5);
}

/// The power of 2 to 491 less one over the product of its prime factors from 2 to 7.
pub proof fn lemma_power_491_over_2_to_7()
    ensures
        pow_mod(2, 7, 491) == 128,
{
    lemma_pow_mod_zero(2, 491);
    lemma_window(2, 491, 0, 7, 1, 1, 1, 1, 1, 128);
}

/// The power of 2 to 491 less one over the product of its prime factors from 2 to 5.
pub proof fn lemma_power_491_over_2_to_5()
    ensures
        pow_mod(2, 49, 491) == 390,
{
    lemma_pow_mod_zero(128, 491);
    lemma_window(128, 491, 0, 7, 1, 1, 1, 1, 1, 390);
    lemma_power_491_over_2_to_7();
    lemma_pow_mod_multiplies(2, 7, 7, 491);
}

/// The power of 2 to 491 less one over 2.
pub proof fn lemma_power_491_over_2()
    ensures
        pow_mod(2, 245, 491) == 490,
{
    lemma_pow_mod_zero(390, 491);
    lemma_window(390, 491, 0, 5, 1, 1, 1, 1, 1, 490);
    lemma_power_491_over_2_to_5();
    lemma_pow_mod_multiplies(2, 49, 5, 491);
}

/// The power of 2 to 491 less one over 5.
pub proof fn lemma_power_491_over_5()
    ensures
        pow_mod(2, 98, 491) == 381,
{
    lemma_pow_mod_zero(390, 491);
    lemma_window(390, 491, 0, 2, 1, 1, 1, 1, 1, 381);
    lemma_power_491_over_2_to_5();
    lemma_pow_mod_multiplies(2, 49, 2, 491);
}

/// The power of 2 to 491 less one over 7.
pub proof fn lemma_power_491_over_7()
    ensures
        pow_mod(2, 70, 491) == 138,
{
    lemma_pow_mod_zero(128, 491);
    lemma_window(128, 491, 0, 10, 1, 1, 1, 1, 1, 138);
    lemma_power_491_over_2_to_7();
    lemma_pow_mod_multiplies(2, 7, 10, 491);
}

/// The power of 2 to 491 less one is one.
pub proof fn lemma_power_491_full()
    ensures
        pow_mod(2, 490, 491) == 1,
{
    lemma_pow_mod_zero(490, 491);
    lemma_window(490, 491, 0, 2, 1, 1, 1, 1, 1, 1);
    lemma_power_491_over_2();
    lemma_pow_mod_multiplies(2, 245, 2, 491);
}

/// 491 is a prime, and the order of 2 modulo it is the prime less one.
pub proof fn lemma_prime_491()
    ensures
        is_field_modulus(491),
        is_order(2, 491, 490),
        forall|x: nat| 0 < x < 491 ==> #[trigger] pow_mod(x, 490, 491) == 1,
{
    lemma_prime_2();
    lemma_prime_5();
    lemma_prime_7();
    lemma_power_491_full();
    lemma_power_491_over_2();
    lemma_power_491_over_5();
    lemma_power_491_over_7();
    let s = lemma_cofactor(2, 491, 490);
    if s % 2 == 0 {
        lemma_cofactor_prime(2, 491, 490, s, 2);
    }
    if s % 5 == 0 {
        lemma_cofactor_prime(2, 491, 490, s, 5);
    }
    if s % 7 == 0 {
        lemma_cofactor_prime(2, 491, 490, s, 7);
    }
    lemma_strip_prime(s, 2, 245);
    lemma_strip_prime(s, 5, 49);
    lemma_strip_prime(s, 7, 7);
    lemma_strip_prime(s, 7, 1);
    if s > 1 {
        lemma_small_mod(1, s);
    }
    lemma_generator_field(2, 491);
}

/// The power of 5 to 983 less one over the product of its prime factors from 2 to 491.
pub proof fn lemma_power_983_over_2_to_491()
    ensures
        pow_mod(5, 1, 983) == 5,
{
    lemma_pow_mod_zero(5, 983);
    lemma_window(5, 983, 0, 1, 1, 1, 1, 1, 1, 5);
}

/// The power of 5 to 983 less one over 2.
pub proof fn lemma_power_983_over_2()
    ensures
        pow_mod(5, 491, 983) == 982,
{
    lemma_pow_mod_zero(5, 983);
    lemma_window(5, 983, 0, 1, 1, 1, 1, 1, 1, 5);
    lemma_window(5, 983, 1, 14, 5, 25, 625, 374, 290, 415);
    lemma_window(5, 983, 30, 11, 415, 200, 680, 390, 718, 982);
    lemma_power_983_over_2_to_491();
    lemma_pow_mod_multiplies(5, 1, 491, 983);
}

/// The power of 5 to 983 less one over 491.
pub proof fn lemma_power_983_over_491()
    ensures
        pow_mod(5, 2, 983) == 25,
{
    lemma_pow_mod_zero(5, 983);
    lemma_window(5, 983, 0, 2, 1, 1, 1, 1, 1, 25);
    lemma_power_983_over_2_to_491();
    lemma_pow_mod_multiplies(5, 1, 2, 983);
}

/// The power of 5 to 983 less one is one.
pub proof fn lemma_power_983_full()
    ensures
        pow_mod(5, 982, 983) == 1,
{
    lemma_pow_mod_zero(982, 983);
    lemma_window(982, 983, 0, 2, 1, 1, 1, 1, 1, 1);
    lemma_power_983_over_2();
    lemma_pow_mod_multiplies(5, 491, 2, 983);
}

/// 983 is a prime, and the order of 5 modulo it is the prime less one.
pub proof fn lemma_prime_983()
    ensures
        is_field_modulus(983),
        is_order(5, 983, 982),
        forall|x: nat| 0 < x < 983 ==> #[trigger] pow_mod(x, 982, 983) == 1,
{
    lemma_prime_2();
    lemma_prime_491();
    lemma_power_983_full();
    lemma_power_983_over_2();
    lemma_power_983_over_491();
    let s = lemma_cofactor(5, 983, 982);
    if s % 2 == 0 {
        lemma_cofactor_prime(5, 983, 982, s, 2);
    }
    if s % 491 == 0 {
        lemma_cofactor_prime(5, 983, 982, s, 491);
    }
    lemma_strip_prime(s, 2, 491);
    lemma_strip_prime(s, 491, 1);
    if s > 1 {
        lemma_small_mod(1, s);
    }
    lemma_generator_field(5, 983);
}

/// The power of 2 to 11 less one over the product of its prime factors from 2 to 5.
pub proof fn lemma_power_11_over_2_to_5()
    ensures
        pow_mod(2, 1, 11) == 2,
{
    lemma_pow_mod_zero(2, 11);
    lemma_window(2, 11, 0, 1, 1, 1, 1, 1, 1, 2);
}

/// The power of 2 to 11 less one over 2.
pub proof fn lemma_power_11_over_2()
    ensures
        pow_mod(2, 5, 11) == 10,
{
    lemma_pow_mod_zero(2, 11);
    lemma_window(2, 11, 0, 5, 1, 1, 1, 1, 1, 10);
    lemma_power_11_over_2_to_5();
    lemma_pow_mod_multiplies(2, 1, 5, 11);
}

/// The power of 2 to 11 less one over 5.
pub proof fn lemma_power_11_over_5()
    ensures
        pow_mod(2, 2, 11) == 4,
{
    lemma_pow_mod_zero(2, 11);
    lemma_window(2, 11, 0, 2, 1, 1, 1, 1, 1, 4);
    lemma_power_11_over_2_to_5();
    lemma_pow_mod_multiplies(2, 1, 2, 11);
}

/// The power of 2 to 11 less one is one.
pub proof fn lemma_power_11_full()
    ensures
        pow_mod(2, 10, 11) == 1,
{
    lemma_pow_mod_zero(10, 11);
    lemma_window(10, 11, 0, 2, 1, 1, 1, 1, 1, 1);
    lemma_power_11_over_2();
    lemma_pow_mod_multiplies(2, 5, 2, 11);
}

/// 11 is a prime, and the order of 2 modulo it is the prime less one.
pub proof fn lemma_prime_11()
    ensures
        is_field_modulus(11),
        is_order(2, 11, 10),
        forall|x: nat| 0 < x < 11 ==> #[trigger] pow_mod(x, 10, 11) == 1,
{
    lemma_prime_2();
    lemma_prime_5();
    lemma_power_11_full();
    lemma_power_11_over_2();
    lemma_power_11_over_5();
    let s = lemma_cofactor(2, 11, 10);
    if s % 2 == 0 {
        lemma_cofactor_prime(2, 11, 10, s, 2);
    }
    if s % 5 == 0 {
        lemma_cofactor_prime(2, 11, 10, s, 5);
    }
    lemma_strip_prime(s, 2, 5);
    lemma_strip_prime(s, 5, 1);
    if s > 1 {
        lemma_small_mod(1, s);
    }
    lemma_generator_field(2, 11);
}

/// The power of 2 to 5501 less one over the product of its prime factors from 2 to 11.
pub proof fn lemma_power_5501_over_2_to_11()
    ensures
        pow_mod(2, 50, 5501) == 4219,
{
    lemma_pow_mod_zero(2, 5501);
    lemma_window(2, 5501, 0, 3, 1, 1, 1, 1, 1, 8);
    lemma_window(2, 5501, 3, 2, 8, 64, 4096, 4667, 2430, 4219);
}

/// The power of 2 to 5501 less one over the product of its prime factors from 2 to 5.
pub proof fn lemma_power_5501_over_2_to_5()
    ensures
        pow_mod(2, 550, 5501) == 4909,
{
    lemma_pow_mod_zero(4219, 5501);
    lemma_window(4219, 5501, 0, 11, 1, 1, 1, 1, 1, 4909);
    lemma_power_5501_over_2_to_11();
    lemma_pow_mod_multiplies(2, 50, 11, 5501);
}

/// The power of 2 to 5501 less one over 2.
pub proof fn lemma_power_5501_over_2()
    ensures
        pow_mod(2, 2750, 5501) == 5500,
{
    lemma_pow_mod_zero(4909, 5501);
    lemma_window(4909, 5501, 0, 5, 1, 1, 1, 1, 1, 5500);
    lemma_power_5501_over_2_to_5();
    lemma_pow_mod_multiplies(2, 550, 5, 5501);
}

/// The power of 2 to 5501 less one over 5.
pub proof fn lemma_power_5501_over_5()
    ensures
        pow_mod(2, 1100, 5501) == 3901,
{
    lemma_pow_mod_zero(4909, 5501);
    lemma_window(4909, 5501, 0, 2, 1, 1, 1, 1, 1, 3901);
    lemma_power_5501_over_2_to_5();
    lemma_pow_mod_multiplies(2, 550, 2, 5501);
}

/// The power of 2 to 5501 less one over 11.
pub proof fn lemma_power_5501_over_11()
    ensures
        pow_mod(2, 500, 5501) == 4772,
{
    lemma_pow_mod_zero(4219, 5501);
    lemma_window(4219, 5501, 0, 10, 1, 1, 1, 1, 1, 4772);
    lemma_power_5501_over_2_to_11();
    lemma_pow_mod_multiplies(2, 50, 10, 5501);
}

/// The power of 2 to 5501 less one is one.
pub proof fn lemma_power_5501_full()
    ensures
        pow_mod(2, 5500, 5501) == 1,
{
    lemma_pow_mod_zero(5500, 5501);
    lemma_window(5500, 5501, 0, 2, 1, 1, 1, 1, 1, 1);
    lemma_power_5501_over_2();
    lemma_pow_mod_multiplies(2, 2750, 2, 5501);
}

/// 5501 is a prime, and the order of 2 modulo it is the prime less one.
pub proof fn lemma_prime_5501()
    ensures
        is_field_modulus(5501),
        is_order(2, 5501, 5500),
        forall|x: nat| 0 < x < 5501 ==> #[trigger] pow_mod(x, 5500, 5501) == 1,
{
    lemma_prime_2();
    lemma_prime_5();
    lemma_prime_11();
    lemma_power_5501_full();
    lemma_power_5501_over_2();
    lemma_power_5501_over_5();
    lemma_power_5501_over_11();
    let s = lemma_cofactor(2, 5501, 5500);
    if s % 2 == 0 {
        lemma_cofactor_prime(2, 5501, 5500, s, 2);
    }
    if s % 5 == 0 {
        lemma_cofactor_prime(2, 5501, 5500, s, 5);
    }
    if s % 11 == 0 {
        lemma_cofactor_prime(2, 5501, 5500, s, 11);
    }
    lemma_strip_prime(s, 2, 2750);
    lemma_strip_prime(s, 2, 1375);
    lemma_strip_prime(s, 5, 275);
    lemma_strip_prime(s, 5, 55);
    lemma_strip_prime(s, 5, 11);
    lemma_strip_prime(s, 11, 1);
    if s > 1 {
        lemma_small_mod(1, s);
    }
    lemma_generator_field(2, 5501);
}

/// The power of 2 to 11003 less one over the product of its prime factors from 2 to 5501.
pub proof fn lemma_power_11003_over_2_to_5501()
    ensures
        pow_mod(2, 1, 11003) == 2,
{
    lemma_pow_mod_zero(2, 11003);
    lemma_window(2, 11003, 0, 1, 1, 1, 1, 1, 1, 2);
}

/// The power of 2 to 11003 less one over 2.
pub proof fn lemma_power_11003_over_2()
    ensures
        pow_mod(2, 5501, 11003) == 11002,
{
    lemma_pow_mod_zero(2, 11003);
    lemma_window(2, 11003, 0, 1, 1, 1, 1, 1, 1, 2);
    lemma_window(2, 11003, 1, 5, 2, 4, 16, 256, 10521, 6582);
    lemma_window(2, 11003, 21, 7, 6582, 3913, 6396, 10665, 4214, 245);
    lemma_window(2, 11003, 343, 13, 245, 5010, 2257, 10663, 5570, 11002);
    lemma_power_11003_over_2_to_5501();
    lemma_pow_mod_multiplies(2, 1, 5501, 11003);
}

/// The power of 2 to 11003 less one over 5501.
pub proof fn lemma_power_11003_over_5501()
    ensures
        pow_mod(2, 2, 11003) == 4,
{
    lemma_pow_mod_zero(2, 11003);
    lemma_window(2, 11003, 0, 2, 1, 1, 1, 1, 1, 4);
    lemma_power_11003_over_2_to_5501();
    lemma_pow_mod_multiplies(2, 1, 2, 11003);
}

/// The power of 2 to 11003 less one is one.
pub proof fn lemma_power_11003_full()
    ensures
        pow_mod(2, 11002, 11003) == 1,
{
    lemma_pow_mod_zero(11002, 11003);
    lemma_window(11002, 11003, 0, 2, 1, 1, 1, 1, 1, 1);
    lemma_power_11003_over_2();
    lemma_pow_mod_multiplies(2, 5501, 2, 11003);
}

/// 11003 is a prime, and the order of 2 modulo it is the prime less one.
pub proof fn lemma_prime_11003()
    ensures
        is_field_modulus(11003),
        is_order(2, 11003, 11002),
        forall|x: nat| 0 < x < 11003 ==> #[trigger] pow_mod(x, 11002, 11003) == 1,
{
    lemma_prime_2();
    lemma_prime_5501();
    lemma_power_11003_full();
    lemma_power_11003_over_2();
    lemma_power_11003_over_5501();
    let s = lemma_cofactor(2, 11003, 11002);
    if s % 2 == 0 {
        lemma_cofactor_prime(2, 11003, 11002, s, 2);
    }
    if s % 5501 == 0 {
        lemma_cofactor_prime(2, 11003, 11002, s, 5501);
    }
    lemma_strip_prime(s, 2, 5501);
    lemma_strip_prime(s, 5501, 1);
    if s > 1 {
        lemma_small_mod(1, s);
    }
    lemma_generator_field(2, 11003);
}

/// The power of 3 to 449 less one over the product of its prime factors from 2 to 7.
pub proof fn lemma_power_449_over_2_to_7()
    ensures
        pow_mod(3, 32, 449) == 431,
{
    lemma_pow_mod_zero(3, 449);
    lemma_window(3, 449, 0, 2, 1, 1, 1, 1, 1, 9);
    lemma_window(3, 449, 2, 0, 9, 81, 275, 193, 431, 431);
}

/// The power of 3 to 449 less one over 2.
pub proof fn lemma_power_449_over_2()
    ensures
        pow_mod(3, 224, 449) == 448,
{
    lemma_pow_mod_zero(431, 449);
    lemma_window(431, 449, 0, 7, 1, 1, 1, 1, 1, 448);
    lemma_power_449_over_2_to_7();
    lemma_pow_mod_multiplies(3, 32, 7, 449);
}

/// The power of 3 to 449 less one over 7.
pub proof fn lemma_power_449_over_7()
    ensures
        pow_mod(3, 64, 449) == 324,
{
    lemma_pow_mod_zero(431, 449);
    lemma_window(431, 449, 0, 2, 1, 1, 1, 1, 1, 324);
    lemma_power_449_over_2_to_7();
    lemma_pow_mod_multiplies(3, 32, 2, 449);
}

/// The power of 3 to 449 less one is one.
pub proof fn lemma_power_449_full()
    ensures
        pow_mod(3, 448, 449) == 1,
{
    lemma_pow_mod_zero(448, 449);
    lemma_window(448, 449, 0, 2, 1, 1, 1, 1, 1, 1);
    lemma_power_449_over_2();
    lemma_pow_mod_multiplies(3, 224, 2, 449);
}

/// 449 is a prime, and the order of 3 modulo it is the prime less one.
pub proof fn lemma_prime_449()
    ensures
        is_field_modulus(449),
        is_order(3, 449, 448),
        forall|x: nat| 0 < x < 449 ==> #[trigger] pow_mod(x, 448, 449) == 1,
{
    lemma_prime_2();
    lemma_prime_7();
    lemma_power_449_full();
    lemma_power_449_over_2();
    lemma_power_449_over_7();
    let s = lemma_cofactor(3, 449, 448);
    if s % 2 == 0 {
        lemma_cofactor_prime(3, 449, 448, s, 2);
    }
    if s % 7 == 0 {
        lemma_cofactor_prime(3, 449, 448, s, 7);
    }
    lemma_strip_prime(s, 2, 224);
    lemma_strip_prime(s, 2, 112);
    lemma_strip_prime(s, 2, 56);
    lemma_strip_prime(s, 2, 28);
    lemma_strip_prime(s, 2, 14);
    lemma_strip_prime(s, 2, 7);
    lemma_strip_prime(s, 7, 1);
    if s > 1 {
        lemma_small_mod(1, s);
    }
    lemma_generator_field(3, 449);
}

/// The power of 15 to 237073 less one over the product of its prime factors from 2 to 449.
pub proof fn lemma_power_237073_over_2_to_449()
    ensures
        pow_mod(15, 8, 237073) == 131495,
{
    lemma_pow_mod_zero(15, 237073);
    lemma_window(15, 237073, 0, 8, 1, 1, 1, 1, 1, 131495);
}

/// The power of 15 to 237073 less one over the product of its prime factors from 2 to 11.
pub proof fn lemma_power_237073_over_2_to_11()
    ensures
        pow_mod(15, 3592, 237073) == 100056,
{
    lemma_pow_mod_zero(131495, 237073);
    lemma_window(131495, 237073, 0, 1, 1, 1, 1, 1, 1, 131495);
    lemma_window(131495, 237073, 1, 12, 131495, 15770, 3323, 136971, 45913, 67761);
    lemma_window(131495, 237073, 28, 1, 67761, 160330, 120583, 98653, 93613, 100056);
    lemma_power_237073_over_2_to_449();
    lemma_pow_mod_multiplies(15, 8, 449, 237073);
}

/// The power of 15 to 237073 less one over the product of its prime factors from 2 to 3.
pub proof fn lemma_power_237073_over_2_to_3()
    ensures
        pow_mod(15, 39512, 237073) == 63337,
{
    lemma_pow_mod_zero(100056, 237073);
    lemma_window(100056, 237073, 0, 11, 1, 1, 1, 1, 1, 63337);
    lemma_power_237073_over_2_to_11();
    lemma_pow_mod_multiplies(15, 3592, 11, 237073);
}

/// The power of 15 to 237073 less one over 2.
pub proof fn lemma_power_237073_over_2()
    ensures
        pow_mod(15, 118536, 237073) == 237072,
{
    lemma_pow_mod_zero(63337, 237073);
    lemma_window(63337, 237073, 0, 3, 1, 1, 1, 1, 1, 237072);
    lemma_power_237073_over_2_to_3();
    lemma_pow_mod_multiplies(15, 39512, 3, 237073);
}

/// The power of 15 to 237073 less one over 3.
pub proof fn lemma_power_237073_over_3()
    ensures
        pow_mod(15, 79024, 237073) == 63336,
{
    lemma_pow_mod_zero(63337, 237073);
    lemma_window(63337, 237073, 0, 2, 1, 1, 1, 1, 1, 63336);
    lemma_power_237073_over_2_to_3();
    lemma_pow_mod_multiplies(15, 39512, 2, 237073);
}

/// The power of 15 to 237073 less one over 11.
pub proof fn lemma_power_237073_over_11()
    ensures
        pow_mod(15, 21552, 237073) == 224235,
{
    lemma_pow_mod_zero(100056, 237073);
    lemma_window(100056, 237073, 0, 6, 1, 1, 1, 1, 1, 224235);
    lemma_power_237073_over_2_to_11();
    lemma_pow_mod_multiplies(15, 3592, 6, 237073);
}

/// The power of 15 to 237073 less one over 449.
pub proof fn lemma_power_237073_over_449()
    ensures
        pow_mod(15, 528, 237073) == 197030,
{
    lemma_pow_mod_zero(131495, 237073);
    lemma_window(131495, 237073, 0, 4, 1, 1, 1, 1, 1, 3323);
    lemma_window(131495, 237073, 4, 2, 3323, 136971, 45913, 187526, 14294, 197030);
    lemma_power_237073_over_2_to_449();
    lemma_pow_mod_multiplies(15, 8, 66, 237073);
}

/// The power of 15 to 237073 less one is one.
pub proof fn lemma_power_237073_full()
    ensures
        pow_mod(15, 237072, 237073) == 1,
{
    lemma_pow_mod_zero(237072, 237073);
    lemma_window(237072, 237073, 0, 2, 1, 1, 1, 1, 1, 1);
    lemma_power_237073_over_2();
    lemma_pow_mod_multiplies(15, 118536, 2, 237073);
}

/// 237073 is a prime, and the order of 15 modulo it is the prime less one.
pub proof fn lemma_prime_237073()
    ensures
        is_field_modulus(237073),
        is_order(15, 237073, 237072),
        forall|x: nat| 0 < x < 237073 ==> #[trigger] pow_mod(x, 237072, 237073) == 1,
{
    lemma_prime_2();
    lemma_prime_3();
    lemma_prime_11();
    lemma_prime_449();
    lemma_power_237073_full();
    lemma_power_237073_over_2();
    lemma_power_237073_over_3();
    lemma_power_237073_over_11();
    lemma_power_237073_over_449();
    let s = lemma_cofactor(15, 237073, 237072);
    if s % 2 == 0 {
        lemma_cofactor_prime(15, 237073, 237072, s, 2);
    }
    if s % 3 == 0 {
        lemma_cofactor_prime(15, 237073, 237072, s, 3);
    }
    if s % 11 == 0 {
        lemma_cofactor_prime(15, 237073, 237072, s, 11);
    }
    if s % 449 == 0 {
        lemma_cofactor_prime(15, 237073, 237072, s, 449);
    }
    lemma_strip_prime(s, 2, 118536);
    lemma_strip_prime(s, 2, 59268);
    lemma_strip_prime(s, 2, 29634);
    lemma_strip_prime(s, 2, 14817);
    lemma_strip_prime(s, 3, 4939);
    lemma_strip_prime(s, 11, 449);
    lemma_strip_prime(s, 449, 1);
    if s > 1 {
        lemma_small_mod(1, s);
    }
    lemma_generator_field(15, 237073);
}

/// The power of 6 to 41 less one over the product of its prime factors from 2 to 5.
pub proof fn lemma_power_41_over_2_to_5()
    ensures
        pow_mod(6, 4, 41) == 25,
{
    lemma_pow_mod_zero(6, 41);
    lemma_window(6, 41, 0, 4, 1, 1, 1, 1, 1, 25);
}

/// The power of 6 to 41 less one over 2.
pub proof fn lemma_power_41_over_2()
    ensures
        pow_mod(6, 20, 41) == 40,
{
    lemma_pow_mod_zero(25, 41);
    lemma_window(25, 41, 0, 5, 1, 1, 1, 1, 1, 40);
    lemma_power_41_over_2_to_5();
    lemma_pow_mod_multiplies(6, 4, 5, 41);
}

/// The power of 6 to 41 less one over 5.
pub proof fn lemma_power_41_over_5()
    ensures
        pow_mod(6, 8, 41) == 10,
{
    lemma_pow_mod_zero(25, 41);
    lemma_window(25, 41, 0, 2, 1, 1, 1, 1, 1, 10);
    lemma_power_41_over_2_to_5();
    lemma_pow_mod_multiplies(6, 4, 2, 41);
}

/// The power of 6 to 41 less one is one.
pub proof fn lemma_power_41_full()
    ensures
        pow_mod(6, 40, 41) == 1,
{
    lemma_pow_mod_zero(40, 41);
    lemma_window(40, 41, 0, 2, 1, 1, 1, 1, 1, 1);
    lemma_power_41_over_2();
    lemma_pow_mod_multiplies(6, 20, 2, 41);
}

/// 41 is a prime, and the order of 6 modulo it is the prime less one.
pub proof fn lemma_prime_41()
    ensures
        is_field_modulus(41),
        is_order(6, 41, 40),
        forall|x: nat| 0 < x < 41 ==> #[trigger] pow_mod(x, 40, 41) == 1,
{
    lemma_prime_2();
    lemma_prime_5();
    lemma_power_41_full();
    lemma_power_41_over_2();
    lemma_power_41_over_5();
    let s = lemma_cofactor(6, 41, 40);
    if s % 2 == 0 {
        lemma_cofactor_prime(6, 41, 40, s, 2);
    }
    if s % 5 == 0 {
        lemma_cofactor_prime(6, 41, 40, s, 5);
    }
    lemma_strip_prime(s, 2, 20);
    lemma_strip_prime(s, 2, 10);
    lemma_strip_prime(s, 2, 5);
    lemma_strip_prime(s, 5, 1);
    if s > 1 {
        lemma_small_mod(1, s);
    }
    lemma_generator_field(6, 41);
}

/// The power of 2 to 3691 less one over the product of its prime factors from 2 to 41.
pub proof fn lemma_power_3691_over_2_to_41()
    ensures
        pow_mod(2, 3, 3691) == 8,
{
    lemma_pow_mod_zero(2, 3691);
    lemma_window(2, 3691, 0, 3, 1, 1, 1, 1, 1, 8);
}

/// The power of 2 to 3691 less one over the product of its prime factors from 2 to 5.
pub proof fn lemma_power_3691_over_2_to_5()
    ensures
        pow_mod(2, 123, 3691) == 2763,
{
    lemma_pow_mod_zero(8, 3691);
    lemma_window(8, 3691, 0, 2, 1, 1, 1, 1, 1, 64);
    lemma_window(8, 3691, 2, 9, 64, 405, 1621, 3340, 1398, 2763);
    lemma_power_3691_over_2_to_41();
    lemma_pow_mod_multiplies(2, 3, 41, 3691);
}

/// The power of 2 to 3691 less one over the product of its prime factors from 2 to 3.
pub proof fn lemma_power_3691_over_2_to_3()
    ensures
        pow_mod(2, 615, 3691) == 3217,
{
    lemma_pow_mod_zero(2763, 3691);
    lemma_window(2763, 3691, 0, 5, 1, 1, 1, 1, 1, 3217);
    lemma_power_3691_over_2_to_5();
    lemma_pow_mod_multiplies(2, 123, 5, 3691);
}

/// The power of 2 to 3691 less one over 2.
pub proof fn lemma_power_3691_over_2()
    ensures
        pow_mod(2, 1845, 3691) == 3690,
{
    lemma_pow_mod_zero(3217, 3691);
    lemma_window(3217, 3691, 0, 3, 1, 1, 1, 1, 1, 3690);
    lemma_power_3691_over_2_to_3();
    lemma_pow_mod_multiplies(2, 615, 3, 3691);
}

/// The power of 2 to 3691 less one over 3.
pub proof fn lemma_power_3691_over_3()
    ensures
        pow_mod(2, 1230, 3691) == 3216,
{
    lemma_pow_mod_zero(3217, 3691);
    lemma_window(3217, 3691, 0, 2, 1, 1, 1, 1, 1, 3216);
    lemma_power_3691_over_2_to_3();
    lemma_pow_mod_multiplies(2, 615, 2, 3691);
}

/// The power of 2 to 3691 less one over 5.
pub proof fn lemma_power_3691_over_5()
    ensures
        pow_mod(2, 738, 3691) == 643,
{
    lemma_pow_mod_zero(2763, 3691);
    lemma_window(2763, 3691, 0, 6, 1, 1, 1, 1, 1, 643);
    lemma_power_3691_over_2_to_5();
    lemma_pow_mod_multiplies(2, 123, 6, 3691);
}

/// The power of 2 to 3691 less one over 41.
pub proof fn lemma_power_3691_over_41()
    ensures
        pow_mod(2, 90, 3691) == 1752,
{
    lemma_pow_mod_zero(8, 3691);
    lemma_window(8, 3691, 0, 1, 1, 1, 1, 1, 1, 8);
    lemma_window(8, 3691, 1, 14, 8, 64, 405, 1621, 3340, 1752);
    lemma_power_3691_over_2_to_41();
    lemma_pow_mod_multiplies(2, 3, 30, 3691);
}

/// The power of 2 to 3691 less one is one.
pub proof fn lemma_power_3691_full()
    ensures
        pow_mod(2, 3690, 3691) == 1,
{
    lemma_pow_mod_zero(3690, 3691);
    lemma_window(3690, 3691, 0, 2, 1, 1, 1, 1, 1, 1);
    lemma_power_3691_over_2();
    lemma_pow_mod_multiplies(2, 1845, 2, 3691);
}

/// 3691 is a prime, and the order of 2 modulo it is the prime less one.
pub proof fn lemma_prime_3691()
    ensures
        is_field_modulus(3691),
        is_order(2, 3691, 3690),
        forall|x: nat| 0 < x < 3691 ==> #[trigger] pow_mod(x, 3690, 3691) == 1,
{
    lemma_prime_2();
    lemma_prime_3();
    lemma_prime_5();
    lemma_prime_41();
    lemma_power_3691_full();
    lemma_power_3691_over_2();
    lemma_power_3691_over_3();
    lemma_power_3691_over_5();
    lemma_power_3691_over_41();
    let s = lemma_cofactor(2, 3691, 3690);
    if s % 2 == 0 {
        lemma_cofactor_prime(2, 3691, 3690, s, 2);
    }
    if s % 3 == 0 {
        lemma_cofactor_prime(2, 3691, 3690, s, 3);
    }
    if s % 5 == 0 {
        lemma_cofactor_prime(2, 3691, 3690, s, 5);
    }
    if s % 41 == 0 {
        lemma_cofactor_prime(2, 3691, 3690, s, 41);
    }
    lemma_strip_prime(s, 2, 1845);
    lemma_strip_prime(s, 3, 615);
    lemma_strip_prime(s, 3, 205);
    lemma_strip_prime(s, 5, 41);
    lemma_strip_prime(s, 41, 1);
    if s > 1 {
        lemma_small_mod(1, s);
    }
    lemma_generator_field(2, 3691);
}

/// The power of 3 to 17 less one over 2.
pub proof fn lemma_power_17_over_2()
    ensures
        pow_mod(3, 8, 17) == 16,
{
    lemma_pow_mod_zero(3, 17);
    lemma_window(3, 17, 0, 8, 1, 1, 1, 1, 1, 16);
}

/// The power of 3 to 17 less one is one.
pub proof fn lemma_power_17_full()
    ensures
        pow_mod(3, 16, 17) == 1,
{
    lemma_pow_mod_zero(16, 17);
    lemma_window(16, 17, 0, 2, 1, 1, 1, 1, 1, 1);
    lemma_power_17_over_2();
    lemma_pow_mod_multiplies(3, 8, 2, 17);
}

/// 17 is a prime, and the order of 3 modulo it is the prime less one.
pub proof fn lemma_prime_17()
    ensures
        is_field_modulus(17),
        is_order(3, 17, 16),
        forall|x: nat| 0 < x < 17 ==> #[trigger] pow_mod(x, 16, 17) == 1,
{
    lemma_prime_2();
    lemma_power_17_full();
    lemma_power_17_over_2();
    let s = lemma_cofactor(3, 17, 16);
    if s % 2 == 0 {
        lemma_cofactor_prime(3, 17, 16, s, 2);
    }
    lemma_strip_prime(s, 2, 8);
    lemma_strip_prime(s, 2, 4);
    lemma_strip_prime(s, 2, 2);
    lemma_strip_prime(s, 2, 1);
    if s > 1 {
        lemma_small_mod(1, s);
    }
    lemma_generator_field(3, 17);
}

/// The power of 3 to 4999 less one over the product of its prime factors from 2 to 17.
pub proof fn lemma_power_4999_over_2_to_17()
    ensures
        pow_mod(3, 7, 4999) == 2187,
{
    lemma_pow_mod_zero(3, 4999);
    lemma_window(3, 4999, 0, 7, 1, 1, 1, 1, 1, 2187);
}

/// The power of 3 to 4999 less one over the product of its prime factors from 2 to 7.
pub proof fn lemma_power_4999_over_2_to_7()
    ensures
        pow_mod(3, 119, 4999) == 4284,
{
    lemma_pow_mod_zero(2187, 4999);
    lemma_window(2187, 4999, 0, 1, 1, 1, 1, 1, 1, 2187);
    lemma_window(2187, 4999, 1, 1, 2187, 3925, 3706, 2183, 1442, 4284);
    lemma_power_4999_over_2_to_17();
    lemma_pow_mod_multiplies(3, 7, 17, 4999);
}

/// The power of 3 to 4999 less one over the product of its prime factors from 2 to 3.
pub proof fn lemma_power_4999_over_2_to_3()
    ensures
        pow_mod(3, 833, 4999) == 2662,
{
    lemma_pow_mod_zero(4284, 4999);
    lemma_window(4284, 4999, 0, 7, 1, 1, 1, 1, 1, 2662);
    lemma_power_4999_over_2_to_7();
    lemma_pow_mod_multiplies(3, 119, 7, 4999);
}

/// The power of 3 to 4999 less one over 2.
pub proof fn lemma_power_4999_over_2()
    ensures
        pow_mod(3, 2499, 4999) == 4998,
{
    lemma_pow_mod_zero(2662, 4999);
    lemma_window(2662, 4999, 0, 3, 1, 1, 1, 1, 1, 4998);
    lemma_power_4999_over_2_to_3();
    lemma_pow_mod_multiplies(3, 833, 3, 4999);
}

/// The power of 3 to 4999 less one over 3.
pub proof fn lemma_power_4999_over_3()
    ensures
        pow_mod(3, 1666, 4999) == 2661,
{
    lemma_pow_mod_zero(2662, 4999);
    lemma_window(2662, 4999, 0, 2, 1, 1, 1, 1, 1, 2661);
    lemma_power_4999_over_2_to_3();
    lemma_pow_mod_multiplies(3, 833, 2, 4999);
}

/// The power of 3 to 4999 less one over 7.
pub proof fn lemma_power_4999_over_7()
    ensures
        pow_mod(3, 714, 4999) == 227,
{
    lemma_pow_mod_zero(4284, 4999);
    lemma_window(4284, 4999, 0, 6, 1, 1, 1, 1, 1, 227);
    lemma_power_4999_over_2_to_7();
    lemma_pow_mod_multiplies(3, 119, 6, 4999);
}

/// The power of 3 to 4999 less one over 17.
pub proof fn lemma_power_4999_over_17()
    ensures
        pow_mod(3, 294, 4999) == 2420,
{
    lemma_pow_mod_zero(2187, 4999);
    lemma_window(2187, 4999, 0, 2, 1, 1, 1, 1, 1, 3925);
    lemma_window(2187, 4999, 2, 10, 3925, 3706, 2183, 1442, 4779, 2420);
    lemma_power_4999_over_2_to_17();
    lemma_pow_mod_multiplies(3, 7, 42, 4999);
}

/// The power of 3 to 4999 less one is one.
pub proof fn lemma_power_4999_full()
    ensures
        pow_mod(3, 4998, 4999) == 1,
{
    lemma_pow_mod_zero(4998, 4999);
    lemma_window(4998, 4999, 0, 2, 1, 1, 1, 1, 1, 1);
    lemma_power_4999_over_2();
    lemma_pow_mod_multiplies(3, 2499, 2, 4999);
}

/// 4999 is a prime, and the order of 3 modulo it is the prime less one.
pub proof fn lemma_prime_4999()
    ensures
        is_field_modulus(4999),
        is_order(3, 4999, 4998),
        forall|x: nat| 0 < x < 4999 ==> #[trigger] pow_mod(x, 4998, 4999) == 1,
{
    lemma_prime_2();
    lemma_prime_3();
    lemma_prime_7();
    lemma_prime_17();
    lemma_power_4999_full();
    lemma_power_4999_over_2();
    lemma_power_4999_over_3();
    lemma_power_4999_over_7();
    lemma_power_4999_over_17();
    let s = lemma_cofactor(3, 4999, 4998);
    if s % 2 == 0 {
        lemma_cofactor_prime(3, 4999, 4998, s, 2);
    }
    if s % 3 == 0 {
        lemma_cofactor_prime(3, 4999, 4998, s, 3);
    }
    if s % 7 == 0 {
        lemma_cofactor_prime(3, 4999, 4998, s, 7);
    }
    if s % 17 == 0 {
        lemma_cofactor_prime(3, 4999, 4998, s, 17);
    }
    lemma_strip_prime(s, 2, 2499);
    lemma_strip_prime(s, 3, 833);
    lemma_strip_prime(s, 7, 119);
    lemma_strip_prime(s, 7, 17);
    lemma_strip_prime(s, 17, 1);
    if s > 1 {
        lemma_small_mod(1, s);
    }
    lemma_generator_field(3, 4999);
}

/// The power of 22 to 405928799 less one over the product of its prime factors from 2 to 4999.
pub proof fn lemma_power_405928799_over_2_to_4999()
    ensures
        pow_mod(22, 1, 405928799) == 22,
{
    lemma_pow_mod_zero(22, 405928799);
    lemma_window(22, 405928799, 0, 1, 1, 1, 1, 1, 1, 22);
}

/// The power of 22 to 405928799 less one over the product of its prime factors from 2 to 3691.
pub proof fn lemma_power_405928799_over_2_to_3691()
    ensures
        pow_mod(22, 4999, 405928799) == 147534134,
{
    lemma_pow_mod_zero(22, 405928799);
    lemma_window(22, 405928799, 0, 1, 1, 1, 1, 1, 1, 22);
    lemma_window(22, 405928799, 1, 3, 22, 484, 234256, 75485671, 243935798, 295921102);
    lemma_window(
        22,
        405928799,
        19,
        8,
        295921102,
        344660963,
        315486201,
        16987785,
        313705949,
        233755281,
    );
    lemma_window(
        22,
        405928799,
        312,
        7,
        233755281,
        112518420,
        58494708,
        187202404,
        772250,
        147534134,
    );
    lemma_power_405928799_over_2_to_4999();
    lemma_pow_mod_multiplies(22, 1, 4999, 405928799);
}

/// The power of 22 to 405928799 less one over the product of its prime factors from 2 to 11.
pub proof fn lemma_power_405928799_over_2_to_11()
    ensures
        pow_mod(22, 18451309, 405928799) == 50712492,
{
    lemma_pow_mod_zero(147534134, 405928799);
    lemma_window(147534134, 405928799, 0, 14, 1, 1, 1, 1, 1, 55558473);
    lemma_window(
        147534134,
        405928799,
        14,
        6,
        55558473,
        39247080,
        333057789,
        128929665,
        318920807,
        51902239,
    );
    lemma_window(
        147534134,
        405928799,
        230,
        11,
        51902239,
        262350964,
        344423794,
        142803462,
        204005296,
        50712492,
    );
    lemma_power_405928799_over_2_to_3691();
    lemma_pow_mod_multiplies(22, 4999, 3691, 405928799);
}

/// The power of 22 to 405928799 less one over 2.
pub proof fn lemma_power_405928799_over_2()
    ensures
        pow_mod(22, 202964399, 405928799) == 405928798,
{
    lemma_pow_mod_zero(50712492, 405928799);
    lemma_window(50712492, 405928799, 0, 11, 1, 1, 1, 1, 1, 405928798);
    lemma_power_405928799_over_2_to_11();
    lemma_pow_mod_multiplies(22, 18451309, 11, 405928799);
}

/// The power of 22 to 405928799 less one over 11.
pub proof fn lemma_power_405928799_over_11()
    ensures
        pow_mod(22, 36902618, 405928799) == 215859951,
{
    lemma_pow_mod_zero(50712492, 405928799);
    lemma_window(50712492, 405928799, 0, 2, 1, 1, 1, 1, 1, 215859951);
    lemma_power_405928799_over_2_to_11();
    lemma_pow_mod_multiplies(22, 18451309, 2, 405928799);
}

/// The power of 22 to 405928799 less one over 3691.
pub proof fn lemma_power_405928799_over_3691()
    ensures
        pow_mod(22, 109978, 405928799) == 147917081,
{
    lemma_pow_mod_zero(147534134, 405928799);
    lemma_window(147534134, 405928799, 0, 1, 1, 1, 1, 1, 1, 147534134);
    lemma_window(
        147534134,
        405928799,
        1,
        6,
        147534134,
        386086986,
        190698437,
        81543447,
        7612751,
        147917081,
    );
    lemma_power_405928799_over_2_to_3691();
    lemma_pow_mod_multiplies(22, 4999, 22, 405928799);
}

/// The power of 22 to 405928799 less one over 4999.
pub proof fn lemma_power_405928799_over_4999()
    ensures
        pow_mod(22, 81202, 405928799) == 61847818,
{
    lemma_pow_mod_zero(22, 405928799);
    lemma_window(22, 405928799, 0, 1, 1, 1, 1, 1, 1, 22);
    lemma_window(22, 405928799, 1, 3, 22, 484, 234256, 75485671, 243935798, 295921102);
    lemma_window(
        22,
        405928799,
        19,
        13,
        295921102,
        344660963,
        315486201,
        16987785,
        313705949,
        403887925,
    );
    lemma_window(
        22,
        405928799,
        317,
        3,
        403887925,
        337206136,
        224331732,
        265975692,
        214822238,
        18407859,
    );
    lemma_window(
        22,
        405928799,
        5075,
        2,
        18407859,
        207998631,
        235569825,
        150516416,
        360767007,
        61847818,
    );
    lemma_power_405928799_over_2_to_4999();
    lemma_pow_mod_multiplies(22, 1, 81202, 405928799);
}

/// The power of 22 to 405928799 less one is one.
pub proof fn lemma_power_405928799_full()
    ensures
        pow_mod(22, 405928798, 405928799) == 1,
{
    lemma_pow_mod_zero(405928798, 405928799);
    lemma_window(405928798, 405928799, 0, 2, 1, 1, 1, 1, 1, 1);
    lemma_power_405928799_over_2();
    lemma_pow_mod_multiplies(22, 202964399, 2, 405928799);
}

/// 405928799 is a prime, and the order of 22 modulo it is the prime less one.
pub proof fn lemma_prime_405928799()
    ensures
        is_field_modulus(405928799),
        is_order(22, 405928799, 405928798),
        forall|x: nat| 0 < x < 405928799 ==> #[trigger] pow_mod(x, 405928798, 405928799) == 1,
{
    lemma_prime_2();
    lemma_prime_11();
    lemma_prime_3691();
    lemma_prime_4999();
    lemma_power_405928799_full();
    lemma_power_405928799_over_2();
    lemma_power_405928799_over_11();
    lemma_power_405928799_over_3691();
    lemma_power_405928799_over_4999();
    let s = lemma_cofactor(22, 405928799, 405928798);
    if s % 2 == 0 {
        lemma_cofactor_prime(22, 405928799, 405928798, s, 2);
    }
    if s % 11 == 0 {
        lemma_cofactor_prime(22, 405928799, 405928798, s, 11);
    }
    if s % 3691 == 0 {
        lemma_cofactor_prime(22, 405928799, 405928798, s, 3691);
    }
    if s % 4999 == 0 {
        lemma_cofactor_prime(22, 405928799, 405928798, s, 4999);
    }
    lemma_strip_prime(s, 2, 202964399);
    lemma_strip_prime(s, 11, 18451309);
    lemma_strip_prime(s, 3691, 4999);
    lemma_strip_prime(s, 4999, 1);
    if s > 1 {
        lemma_small_mod(1, s);
    }
    lemma_generator_field(22, 405928799);
}

/// The power of 2 to 53 less one over the product of its prime factors from 2 to 13.
pub proof fn lemma_power_53_over_2_to_13()
    ensures
        pow_mod(2, 2, 53) == 4,
{
    lemma_pow_mod_zero(2, 53);
    lemma_window(2, 53, 0, 2, 1, 1, 1, 1, 1, 4);
}

/// The power of 2 to 53 less one over 2.
pub proof fn lemma_power_53_over_2()
    ensures
        pow_mod(2, 26, 53) == 52,
{
    lemma_pow_mod_zero(4, 53);
    lemma_window(4, 53, 0, 13, 1, 1, 1, 1, 1, 52);
    lemma_power_53_over_2_to_13();
    lemma_pow_mod_multiplies(2, 2, 13, 53);
}

/// The power of 2 to 53 less one over 13.
pub proof fn lemma_power_53_over_13()
    ensures
        pow_mod(2, 4, 53) == 16,
{
    lemma_pow_mod_zero(4, 53);
    lemma_window(4, 53, 0, 2, 1, 1, 1, 1, 1, 16);
    lemma_power_53_over_2_to_13();
    lemma_pow_mod_multiplies(2, 2, 2, 53);
}

/// The power of 2 to 53 less one is one.
pub proof fn lemma_power_53_full()
    ensures
        pow_mod(2, 52, 53) == 1,
{
    lemma_pow_mod_zero(52, 53);
    lemma_window(52, 53, 0, 2, 1, 1, 1, 1, 1, 1);
    lemma_power_53_over_2();
    lemma_pow_mod_multiplies(2, 26, 2, 53);
}

/// 53 is a prime, and the order of 2 modulo it is the prime less one.
pub proof fn lemma_prime_53()
    ensures
        is_field_modulus(53),
        is_order(2, 53, 52),
        forall|x: nat| 0 < x < 53 ==> #[trigger] pow_mod(x, 52, 53) == 1,
{
    lemma_prime_2();
    lemma_prime_13();
    lemma_power_53_full();
    lemma_power_53_over_2();
    lemma_power_53_over_13();
    let s = lemma_cofactor(2, 53, 52);
    if s % 2 == 0 {
        lemma_cofactor_prime(2, 53, 52, s, 2);
    }
    if s % 13 == 0 {
        lemma_cofactor_prime(2, 53, 52, s, 13);
    }
    lemma_strip_prime(s, 2, 26);
    lemma_strip_prime(s, 2, 13);
    lemma_strip_prime(s, 13, 1);
    if s > 1 {
        lemma_small_mod(1, s);
    }
    lemma_generator_field(2, 53);
}

/// The power of 2 to 107 less one over the product of its prime factors from 2 to 53.
pub proof fn lemma_power_107_over_2_to_53()
    ensures
        pow_mod(2, 1, 107) == 2,
{
    lemma_pow_mod_zero(2, 107);
    lemma_window(2, 107, 0, 1, 1, 1, 1, 1, 1, 2);
}

/// The power of 2 to 107 less one over 2.
pub proof fn lemma_power_107_over_2()
    ensures
        pow_mod(2, 53, 107) == 106,
{
    lemma_pow_mod_zero(2, 107);
    lemma_window(2, 107, 0, 3, 1, 1, 1, 1, 1, 8);
    lemma_window(2, 107, 3, 5, 8, 64, 30, 44, 10, 106);
    lemma_power_107_over_2_to_53();
    lemma_pow_mod_multiplies(2, 1, 53, 107);
}

/// The power of 2 to 107 less one over 53.
pub proof fn lemma_power_107_over_53()
    ensures
        pow_mod(2, 2, 107) == 4,
{
    lemma_pow_mod_zero(2, 107);
    lemma_window(2, 107, 0, 2, 1, 1, 1, 1, 1, 4);
    lemma_power_107_over_2_to_53();
    lemma_pow_mod_multiplies(2, 1, 2, 107);
}

/// The power of 2 to 107 less one is one.
pub proof fn lemma_power_107_full()
    ensures
        pow_mod(2, 106, 107) == 1,
{
    lemma_pow_mod_zero(106, 107);
    lemma_window(106, 107, 0, 2, 1, 1, 1, 1, 1, 1);
    lemma_power_107_over_2();
    lemma_pow_mod_multiplies(2, 53, 2, 107);
}

/// 107 is a prime, and the order of 2 modulo it is the prime less one.
pub proof fn lemma_prime_107()
    ensures
        is_field_modulus(107),
        is_order(2, 107, 106),
        forall|x: nat| 0 < x < 107 ==> #[trigger] pow_mod(x, 106, 107) == 1,
{
    lemma_prime_2();
    lemma_prime_53();
    lemma_power_107_full();
    lemma_power_107_over_2();
    lemma_power_107_over_53();
    let s = lemma_cofactor(2, 107, 106);
    if s % 2 == 0 {
        lemma_cofactor_prime(2, 107, 106, s, 2);
    }
    if s % 53 == 0 {
        lemma_cofactor_prime(2, 107, 106, s, 53);
    }
    lemma_strip_prime(s, 2, 53);
    lemma_strip_prime(s, 53, 1);
    if s > 1 {
        lemma_small_mod(1, s);
    }
    lemma_generator_field(2, 107);
}

/// The power of 2 to 661 less one over the product of its prime factors from 2 to 11.
pub proof fn lemma_power_661_over_2_to_11()
    ensures
        pow_mod(2, 2, 661) == 4,
{
    lemma_pow_mod_zero(2, 661);
    lemma_window(2, 661, 0, 2, 1, 1, 1, 1, 1, 4);
}

/// The power of 2 to 661 less one over the product of its prime factors from 2 to 3.
pub proof fn lemma_power_661_over_2_to_3()
    ensures
        pow_mod(2, 110, 661) == 297,
{
    lemma_pow_mod_zero(4, 661);
    lemma_window(4, 661, 0, 3, 1, 1, 1, 1, 1, 64);
    lemma_window(4, 661, 3, 7, 64, 130, 375, 493, 462, 297);
    lemma_power_661_over_2_to_11();
    lemma_pow_mod_multiplies(2, 2, 55, 661);
}

/// The power of 2 to 661 less one over 2.
pub proof fn lemma_power_661_over_2()
    ensures
        pow_mod(2, 330, 661) == 660,
{
    lemma_pow_mod_zero(297, 661);
    lemma_window(297, 661, 0, 3, 1, 1, 1, 1, 1, 660);
    lemma_power_661_over_2_to_3();
    lemma_pow_mod_multiplies(2, 110, 3, 661);
}

/// The power of 2 to 661 less one over 3.
pub proof fn lemma_power_661_over_3()
    ensures
        pow_mod(2, 220, 661) == 296,
{
    lemma_pow_mod_zero(297, 661);
    lemma_window(297, 661, 0, 2, 1, 1, 1, 1, 1, 296);
    lemma_power_661_over_2_to_3();
    lemma_pow_mod_multiplies(2, 110, 2, 661);
}

/// The power of 2 to 661 less one over the product of its prime factors from 5 to 11.
pub proof fn lemma_power_661_over_5_to_11()
    ensures
        pow_mod(2, 12, 661) == 130,
{
    lemma_pow_mod_zero(4, 661);
    lemma_window(4, 661, 0, 6, 1, 1, 1, 1, 1, 130);
    lemma_power_661_over_2_to_11();
    lemma_pow_mod_multiplies(2, 2, 6, 661);
}

/// The power of 2 to 661 less one over 5.
pub proof fn lemma_power_661_over_5()
    ensures
        pow_mod(2, 132, 661) == 247,
{
    lemma_pow_mod_zero(130, 661);
    lemma_window(130, 661, 0, 11, 1, 1, 1, 1, 1, 247);
    lemma_power_661_over_5_to_11();
    lemma_pow_mod_multiplies(2, 12, 11, 661);
}

/// The power of 2 to 661 less one over 11.
pub proof fn lemma_power_661_over_11()
    ensures
        pow_mod(2, 60, 661) == 634,
{
    lemma_pow_mod_zero(130, 661);
    lemma_window(130, 661, 0, 5, 1, 1, 1, 1, 1, 634);
    lemma_power_661_over_5_to_11();
    lemma_pow_mod_multiplies(2, 12, 5, 661);
}

/// The power of 2 to 661 less one is one.
pub proof fn lemma_power_661_full()
    ensures
        pow_mod(2, 660, 661) == 1,
{
    lemma_pow_mod_zero(660, 661);
    lemma_window(660, 661, 0, 2, 1, 1, 1, 1, 1, 1);
    lemma_power_661_over_2();
    lemma_pow_mod_multiplies(2, 330, 2, 661);
}

/// 661 is a prime, and the order of 2 modulo it is the prime less one.
pub proof fn lemma_prime_661()
    ensures
        is_field_modulus(661),
        is_order(2, 661, 660),
        forall|x: nat| 0 < x < 661 ==> #[trigger] pow_mod(x, 660, 661) == 1,
{
    lemma_prime_2();
    lemma_prime_3();
    lemma_prime_5();
    lemma_prime_11();
    lemma_power_661_full();
    lemma_power_661_over_2();
    lemma_power_661_over_3();
    lemma_power_661_over_5();
    lemma_power_661_over_11();
    let s = lemma_cofactor(2, 661, 660);
    if s % 2 == 0 {
        lemma_cofactor_prime(2, 661, 660, s, 2);
    }
    if s % 3 == 0 {
        lemma_cofactor_prime(2, 661, 660, s, 3);
    }
    if s % 5 == 0 {
        lemma_cofactor_prime(2, 661, 660, s, 5);
    }
    if s % 11 == 0 {
        lemma_cofactor_prime(2, 661, 660, s, 11);
    }
    lemma_strip_prime(s, 2, 330);
    lemma_strip_prime(s, 2, 165);
    lemma_strip_prime(s, 3, 55);
    lemma_strip_prime(s, 5, 11);
    lemma_strip_prime(s, 11, 1);
    if s > 1 {
        lemma_small_mod(1, s);
    }
    lemma_generator_field(2, 661);
}

/// The power of 3 to 31 less one over the product of its prime factors from 2 to 5.
pub proof fn lemma_power_31_over_2_to_5()
    ensures
        pow_mod(3, 1, 31) == 3,
{
    lemma_pow_mod_zero(3, 31);
    lemma_window(3, 31, 0, 1, 1, 1, 1, 1, 1, 3);
}

/// The power of 3 to 31 less one over the product of its prime factors from 2 to 3.
pub proof fn lemma_power_31_over_2_to_3()
    ensures
        pow_mod(3, 5, 31) == 26,
{
    lemma_pow_mod_zero(3, 31);
    lemma_window(3, 31, 0, 5, 1, 1, 1, 1, 1, 26);
    lemma_power_31_over_2_to_5();
    lemma_pow_mod_multiplies(3, 1, 5, 31);
}

/// The power of 3 to 31 less one over 2.
pub proof fn lemma_power_31_over_2()
    ensures
        pow_mod(3, 15, 31) == 30,
{
    lemma_pow_mod_zero(26, 31);
    lemma_window(26, 31, 0, 3, 1, 1, 1, 1, 1, 30);
    lemma_power_31_over_2_to_3();
    lemma_pow_mod_multiplies(3, 5, 3, 31);
}

/// The power of 3 to 31 less one over 3.
pub proof fn lemma_power_31_over_3()
    ensures
        pow_mod(3, 10, 31) == 25,
{
    lemma_pow_mod_zero(26, 31);
    lemma_window(26, 31, 0, 2, 1, 1, 1, 1, 1, 25);
    lemma_power_31_over_2_to_3();
    lemma_pow_mod_multiplies(3, 5, 2, 31);
}

/// The power of 3 to 31 less one over 5.
pub proof fn lemma_power_31_over_5()
    ensures
        pow_mod(3, 6, 31) == 16,
{
    lemma_pow_mod_zero(3, 31);
    lemma_window(3, 31, 0, 6, 1, 1, 1, 1, 1, 16);
    lemma_power_31_over_2_to_5();
    lemma_pow_mod_multiplies(3, 1, 6, 31);
}

/// The power of 3 to 31 less one is one.
pub proof fn lemma_power_31_full()
    ensures
        pow_mod(3, 30, 31) == 1,
{
    lemma_pow_mod_zero(30, 31);
    lemma_window(30, 31, 0, 2, 1, 1, 1, 1, 1, 1);
    lemma_power_31_over_2();
    lemma_pow_mod_multiplies(3, 15, 2, 31);
}

/// 31 is a prime, and the order of 3 modulo it is the prime less one.
pub proof fn lemma_prime_31()
    ensures
        is_field_modulus(31),
        is_order(3, 31, 30),
        forall|x: nat| 0 < x < 31 ==> #[trigger] pow_mod(x, 30, 31) == 1,
{
    lemma_prime_2();
    lemma_prime_3();
    lemma_prime_5();
    lemma_power_31_full();
    lemma_power_31_over_2();
    lemma_power_31_over_3();
    lemma_power_31_over_5();
    let s = lemma_cofactor(3, 31, 30);
    if s % 2 == 0 {
        lemma_cofactor_prime(3, 31, 30, s, 2);
    }
    if s % 3 == 0 {
        lemma_cofactor_prime(3, 31, 30, s, 3);
    }
    if s % 5 == 0 {
        lemma_cofactor_prime(3, 31, 30, s, 5);
    }
    lemma_strip_prime(s, 2, 15);
    lemma_strip_prime(s, 3, 5);
    lemma_strip_prime(s, 5, 1);
    if s > 1 {
        lemma_small_mod(1, s);
    }
    lemma_generator_field(3, 31);
}

/// The power of 14 to 93001 less one over the product of its prime factors from 2 to 31.
pub proof fn lemma_power_93001_over_2_to_31()
    ensures
        pow_mod(14, 100, 93001) == 63405,
{
    lemma_pow_mod_zero(14, 93001);
    lemma_window(14, 93001, 0, 6, 1, 1, 1, 1, 1, 89456);
    lemma_window(14, 93001, 6, 4, 89456, 11890, 10580, 56197, 67852, 63405);
}

/// The power of 14 to 93001 less one over the product of its prime factors from 2 to 5.
pub proof fn lemma_power_93001_over_2_to_5()
    ensures
        pow_mod(14, 3100, 93001) == 7958,
{
    lemma_pow_mod_zero(63405, 93001);
    lemma_window(63405, 93001, 0, 1, 1, 1, 1, 1, 1, 63405);
    lemma_window(63405, 93001, 1, 15, 63405, 39798, 73774, 91555, 44894, 7958);
    lemma_power_93001_over_2_to_31();
    lemma_pow_mod_multiplies(14, 100, 31, 93001);
}

/// The power of 14 to 93001 less one over the product of its prime factors from 2 to 3.
pub proof fn lemma_power_93001_over_2_to_3()
    ensures
        pow_mod(14, 15500, 93001) == 22787,
{
    lemma_pow_mod_zero(7958, 93001);
    lemma_window(7958, 93001, 0, 5, 1, 1, 1, 1, 1, 22787);
    lemma_power_93001_over_2_to_5();
    lemma_pow_mod_multiplies(14, 3100, 5, 93001);
}

/// The power of 14 to 93001 less one over 2.
pub proof fn lemma_power_93001_over_2()
    ensures
        pow_mod(14, 46500, 93001) == 93000,
{
    lemma_pow_mod_zero(22787, 93001);
    lemma_window(22787, 93001, 0, 3, 1, 1, 1, 1, 1, 93000);
    lemma_power_93001_over_2_to_3();
    lemma_pow_mod_multiplies(14, 15500, 3, 93001);
}

/// The power of 14 to 93001 less one over 3.
pub proof fn lemma_power_93001_over_3()
    ensures
        pow_mod(14, 31000, 93001) == 22786,
{
    lemma_pow_mod_zero(22787, 93001);
    lemma_window(22787, 93001, 0, 2, 1, 1, 1, 1, 1, 22786);
    lemma_power_93001_over_2_to_3();
    lemma_pow_mod_multiplies(14, 15500, 2, 93001);
}

/// The power of 14 to 93001 less one over 5.
pub proof fn lemma_power_93001_over_5()
    ensures
        pow_mod(14, 18600, 93001) == 79997,
{
    lemma_pow_mod_zero(7958, 93001);
    lemma_window(7958, 93001, 0, 6, 1, 1, 1, 1, 1, 79997);
    lemma_power_93001_over_2_to_5();
    lemma_pow_mod_multiplies(14, 3100, 6, 93001);
}

/// The power of 14 to 93001 less one over 31.
pub proof fn lemma_power_93001_over_31()
    ensures
        pow_mod(14, 3000, 93001) == 61219,
{
    lemma_pow_mod_zero(63405, 93001);
    lemma_window(63405, 93001, 0, 1, 1, 1, 1, 1, 1, 63405);
    lemma_window(63405, 93001, 1, 14, 63405, 39798, 73774, 91555, 44894, 61219);
    lemma_power_93001_over_2_to_31();
    lemma_pow_mod_multiplies(14, 100, 30, 93001);
}

/// The power of 14 to 93001 less one is one.
pub proof fn lemma_power_93001_full()
    ensures
        pow_mod(14, 93000, 93001) == 1,
{
    lemma_pow_mod_zero(93000, 93001);
    lemma_window(93000, 93001, 0, 2, 1, 1, 1, 1, 1, 1);
    lemma_power_93001_over_2();
    lemma_pow_mod_multiplies(14, 46500, 2, 93001);
}

/// 93001 is a prime, and the order of 14 modulo it is the prime less one.
pub proof fn lemma_prime_93001()
    ensures
        is_field_modulus(93001),
        is_order(14, 93001, 93000),
        forall|x: nat| 0 < x < 93001 ==> #[trigger] pow_mod(x, 93000, 93001) == 1,
{
    lemma_prime_2();
    lemma_prime_3();
    lemma_prime_5();
    lemma_prime_31();
    lemma_power_93001_full();
    lemma_power_93001_over_2();
    lemma_power_93001_over_3();
    lemma_power_93001_over_5();
    lemma_power_93001_over_31();
    let s = lemma_cofactor(14, 93001, 93000);
    if s % 2 == 0 {
        lemma_cofactor_prime(14, 93001, 93000, s, 2);
    }
    if s % 3 == 0 {
        lemma_cofactor_prime(14, 93001, 93000, s, 3);
    }
    if s % 5 == 0 {
        lemma_cofactor_prime(14, 93001, 93000, s, 5);
    }
    if s % 31 == 0 {
        lemma_cofactor_prime(14, 93001, 93000, s, 31);
    }
    lemma_strip_prime(s, 2, 46500);
    lemma_strip_prime(s, 2, 23250);
    lemma_strip_prime(s, 2, 11625);
    lemma_strip_prime(s, 3, 3875);
    lemma_strip_prime(s, 5, 775);
    lemma_strip_prime(s, 5, 155);
    lemma_strip_prime(s, 5, 31);
    lemma_strip_prime(s, 31, 1);
    if s > 1 {
        lemma_small_mod(1, s);
    }
    lemma_generator_field(14, 93001);
}

/// The power of 2 to 12048837557 less one over the product of its prime factors from 2 to
/// 93001.
pub proof fn lemma_power_of_34_bits_over_2_to_93001()
    ensures
        pow_mod(2, 14, 12048837557) == 16384,
{
    lemma_pow_mod_zero(2, 12048837557);
    lemma_window(2, 12048837557, 0, 14, 1, 1, 1, 1, 1, 16384);
}

/// The power of 2 to 12048837557 less one over the product of its prime factors from 2 to 661.
pub proof fn lemma_power_of_34_bits_over_2_to_661()
    ensures
        pow_mod(2, 1302014, 12048837557) == 1248843820,
{
    lemma_pow_mod_zero(16384, 12048837557);
    lemma_window(16384, 12048837557, 0, 1, 1, 1, 1, 1, 1, 16384);
    lemma_window(
        16384,
        12048837557,
        1,
        6,
        16384,
        268435456,
        2981791716,
        844679999,
        10616713962,
        5274265627,
    );
    lemma_window(
        16384,
        12048837557,
        22,
        11,
        5274265627,
        7061253130,
        371630340,
        7943981406,
        10460476274,
        11067218603,
    );
    lemma_window(
        16384,
        12048837557,
        363,
        4,
        11067218603,
        885333603,
        4651878525,
        2818488269,
        10988512180,
        10299380708,
    );
    lemma_window(
        16384,
        12048837557,
        5812,
        9,
        10299380708,
        10601488593,
        5015339878,
        11049980356,
        2612063997,
        1248843820,
    );
    lemma_power_of_34_bits_over_2_to_93001();
    lemma_pow_mod_multiplies(2, 14, 93001, 12048837557);
}

/// The power of 2 to 12048837557 less one over the product of its prime factors from 2 to 7.
pub proof fn lemma_power_of_34_bits_over_2_to_7()
    ensures
        pow_mod(2, 860631254, 12048837557) == 9967741484,
{
    lemma_pow_mod_zero(1248843820, 12048837557);
    lemma_window(1248843820, 12048837557, 0, 2, 1, 1, 1, 1, 1, 3476168168);
    lemma_window(
        1248843820,
        12048837557,
        2,
        9,
        3476168168,
        8364949863,
        7845662506,
        3786209917,
        963542307,
        3072383667,
    );
    lemma_window(
        1248843820,
        12048837557,
        41,
        5,
        3072383667,
        5201586433,
        2397367852,
        2602566661,
        6250369697,
        9967741484,
    );
    lemma_power_of_34_bits_over_2_to_661();
    lemma_pow_mod_multiplies(2, 1302014, 661, 12048837557);
}

/// The power of 2 to 12048837557 less one over 2.
pub proof fn lemma_power_of_34_bits_over_2()
    ensures
        pow_mod(2, 6024418778, 12048837557) == 12048837556,
{
    lemma_pow_mod_zero(9967741484, 12048837557);
    lemma_window(9967741484, 12048837557, 0, 7, 1, 1, 1, 1, 1, 12048837556);
    lemma_power_of_34_bits_over_2_to_7();
    lemma_pow_mod_multiplies(2, 860631254, 7, 12048837557);
}

/// The power of 2 to 12048837557 less one over 7.
pub proof fn lemma_power_of_34_bits_over_7()
    ensures
        pow_mod(2, 1721262508, 12048837557) == 41029474,
{
    lemma_pow_mod_zero(9967741484, 12048837557);
    lemma_window(9967741484, 12048837557, 0, 2, 1, 1, 1, 1, 1, 41029474);
    lemma_power_of_34_bits_over_2_to_7();
    lemma_pow_mod_multiplies(2, 860631254, 2, 12048837557);
}

/// The power of 2 to 12048837557 less one over 661.
pub proof fn lemma_power_of_34_bits_over_661()
    ensures
        pow_mod(2, 18228196, 12048837557) == 8877273464,
{
    lemma_pow_mod_zero(1248843820, 12048837557);
    lemma_window(1248843820, 12048837557, 0, 14, 1, 1, 1, 1, 1, 8877273464);
    lemma_power_of_34_bits_over_2_to_661();
    lemma_pow_mod_multiplies(2, 1302014, 14, 12048837557);
}

/// The power of 2 to 12048837557 less one over 93001.
pub proof fn lemma_power_of_34_bits_over_93001()
    ensures
        pow_mod(2, 129556, 12048837557) == 4746995210,
{
    lemma_pow_mod_zero(16384, 12048837557);
    lemma_window(16384, 12048837557, 0, 2, 1, 1, 1, 1, 1, 268435456);
    lemma_window(
        16384,
        12048837557,
        2,
        4,
        268435456,
        2981791716,
        844679999,
        10616713962,
        5651303934,
        1870180285,
    );
    lemma_window(
        16384,
        12048837557,
        36,
        2,
        1870180285,
        7446330258,
        7255993059,
        12016053863,
        2233363679,
        11360228738,
    );
    lemma_window(
        16384,
        12048837557,
        578,
        6,
        11360228738,
        7158139305,
        206543761,
        6123472452,
        5773381416,
        4746995210,
    );
    lemma_power_of_34_bits_over_2_to_93001();
    lemma_pow_mod_multiplies(2, 14, 9254, 12048837557);
}

/// The power of 2 to 12048837557 less one is one.
pub proof fn lemma_power_of_34_bits_full()
    ensures
        pow_mod(2, 12048837556, 12048837557) == 1,
{
    lemma_pow_mod_zero(12048837556, 12048837557);
    lemma_window(12048837556, 12048837557, 0, 2, 1, 1, 1, 1, 1, 1);
    lemma_power_of_34_bits_over_2();
    lemma_pow_mod_multiplies(2, 6024418778, 2, 12048837557);
}

/// 12048837557 is a prime, and the order of 2 modulo it is the prime less one.
pub proof fn lemma_prime_of_34_bits()
    ensures
        is_field_modulus(12048837557),
        is_order(2, 12048837557, 12048837556),
        forall|x: nat| 0 < x < 12048837557 ==> #[trigger] pow_mod(x, 12048837556, 12048837557) == 1,
{
    lemma_prime_2();
    lemma_prime_7();
    lemma_prime_661();
    lemma_prime_93001();
    lemma_power_of_34_bits_full();
    lemma_power_of_34_bits_over_2();
    lemma_power_of_34_bits_over_7();
    lemma_power_of_34_bits_over_661();
    lemma_power_of_34_bits_over_93001();
    let s = lemma_cofactor(2, 12048837557, 12048837556);
    if s % 2 == 0 {
        lemma_cofactor_prime(2, 12048837557, 12048837556, s, 2);
    }
    if s % 7 == 0 {
        lemma_cofactor_prime(2, 12048837557, 12048837556, s, 7);
    }
    if s % 661 == 0 {
        lemma_cofactor_prime(2, 12048837557, 12048837556, s, 661);
    }
    if s % 93001 == 0 {
        lemma_cofactor_prime(2, 12048837557, 12048837556, s, 93001);
    }
    lemma_strip_prime(s, 2, 6024418778);
    lemma_strip_prime(s, 2, 3012209389);
    lemma_strip_prime(s, 7, 430315627);
    lemma_strip_prime(s, 7, 61473661);
    lemma_strip_prime(s, 661, 93001);
    lemma_strip_prime(s, 93001, 1);
    if s > 1 {
        lemma_small_mod(1, s);
    }
    lemma_generator_field(2, 12048837557);
}

/// The power of 2 to 5156902474397 less one over the product of its prime factors from 2 to
/// 12048837557.
pub proof fn lemma_power_of_43_bits_over_2_to_of_34_bits()
    ensures
        pow_mod(2, 2, 5156902474397) == 4,
{
    lemma_pow_mod_zero(2, 5156902474397);
    lemma_window(2, 5156902474397, 0, 2, 1, 1, 1, 1, 1, 4);
}

/// The power of 2 to 5156902474397 less one over the product of its prime factors from 2 to
/// 107.
pub proof fn lemma_power_of_43_bits_over_2_to_107()
    ensures
        pow_mod(2, 24097675114, 5156902474397) == 651773352142,
{
    lemma_pow_mod_zero(4, 5156902474397);
    lemma_window(4, 5156902474397, 0, 2, 1, 1, 1, 1, 1, 16);
    lemma_window(4, 5156902474397, 2, 12, 16, 256, 65536, 4294967296, 3703251466107, 2189513198846);
    lemma_window(
        4,
        5156902474397,
        44,
        14,
        2189513198846,
        3717741977525,
        1360506572116,
        4314512703695,
        3338754416317,
        4472267225538,
    );
    lemma_window(
        4,
        5156902474397,
        718,
        2,
        4472267225538,
        2203038787765,
        4888884673861,
        1061028330977,
        3389558516864,
        2663911525854,
    );
    lemma_window(
        4,
        5156902474397,
        11490,
        10,
        2663911525854,
        3267859222203,
        1104562051253,
        4857190513396,
        661380271874,
        2078301168467,
    );
    lemma_window(
        4,
        5156902474397,
        183850,
        10,
        2078301168467,
        4863117864354,
        2741605987940,
        1922059365250,
        2381308361041,
        304078951422,
    );
    lemma_window(
        4,
        5156902474397,
        2941610,
        11,
        304078951422,
        3972041157638,
        1573962224487,
        453833464397,
        3604137821718,
        3749882742015,
    );
    lemma_window(
        4,
        5156902474397,
        47065771,
        11,
        3749882742015,
        2874463981692,
        1855647196580,
        4777988300793,
        4099241628718,
        2041290565276,
    );
    lemma_window(
        4,
        5156902474397,
        753052347,
        5,
        2041290565276,
        1740567958030,
        2246624548764,
        978377361567,
        453879878953,
        651773352142,
    );
    lemma_power_of_43_bits_over_2_to_of_34_bits();
    lemma_pow_mod_multiplies(2, 2, 12048837557, 5156902474397);
}

/// The power of 2 to 5156902474397 less one over 2.
pub proof fn lemma_power_of_43_bits_over_2()
    ensures
        pow_mod(2, 2578451237198, 5156902474397) == 5156902474396,
{
    lemma_pow_mod_zero(651773352142, 5156902474397);
    lemma_window(651773352142, 5156902474397, 0, 6, 1, 1, 1, 1, 1, 4318363348565);
    lemma_window(
        651773352142,
        5156902474397,
        6,
        11,
        4318363348565,
        3526709715209,
        4001248159100,
        4572388170122,
        2623271813402,
        5156902474396,
    );
    lemma_power_of_43_bits_over_2_to_107();
    lemma_pow_mod_multiplies(2, 24097675114, 107, 5156902474397);
}

/// The power of 2 to 5156902474397 less one over 107.
pub proof fn lemma_power_of_43_bits_over_107()
    ensures
        pow_mod(2, 48195350228, 5156902474397) == 4827909776387,
{
    lemma_pow_mod_zero(651773352142, 5156902474397);
    lemma_window(651773352142, 5156902474397, 0, 2, 1, 1, 1, 1, 1, 4827909776387);
    lemma_power_of_43_bits_over_2_to_107();
    lemma_pow_mod_multiplies(2, 24097675114, 2, 5156902474397);
}

/// The power of 2 to 5156902474397 less one over 12048837557.
pub proof fn lemma_power_of_43_bits_over_of_34_bits()
    ensures
        pow_mod(2, 428, 5156902474397) == 4746712836098,
{
    lemma_pow_mod_zero(4, 5156902474397);
    lemma_window(4, 5156902474397, 0, 13, 1, 1, 1, 1, 1, 67108864);
    lemma_window(
        4,
        5156902474397,
        13,
        6,
        67108864,
        1623767221915,
        1125649474931,
        2737982033842,
        190010274413,
        4746712836098,
    );
    lemma_power_of_43_bits_over_2_to_of_34_bits();
    lemma_pow_mod_multiplies(2, 2, 214, 5156902474397);
}

/// The power of 2 to 5156902474397 less one is one.
pub proof fn lemma_power_of_43_bits_full()
    ensures
        pow_mod(2, 5156902474396, 5156902474397) == 1,
{
    lemma_pow_mod_zero(5156902474396, 5156902474397);
    lemma_window(5156902474396, 5156902474397, 0, 2, 1, 1, 1, 1, 1, 1);
    lemma_power_of_43_bits_over_2();
    lemma_pow_mod_multiplies(2, 2578451237198, 2, 5156902474397);
}

/// 5156902474397 is a prime, and the order of 2 modulo it is the prime less one.
pub proof fn lemma_prime_of_43_bits()
    ensures
        is_field_modulus(5156902474397),
        is_order(2, 5156902474397, 5156902474396),
        forall|x: nat|
            0 < x < 5156902474397 ==> #[trigger] pow_mod(x, 5156902474396, 5156902474397) == 1,
{
    lemma_prime_2();
    lemma_prime_107();
    lemma_prime_of_34_bits();
    lemma_power_of_43_bits_full();
    lemma_power_of_43_bits_over_2();
    lemma_power_of_43_bits_over_107();
    lemma_power_of_43_bits_over_of_34_bits();
    let s = lemma_cofactor(2, 5156902474397, 5156902474396);
    if s % 2 == 0 {
        lemma_cofactor_prime(2, 5156902474397, 5156902474396, s, 2);
    }
    if s % 107 == 0 {
        lemma_cofactor_prime(2, 5156902474397, 5156902474396, s, 107);
    }
    if s % 12048837557 == 0 {
        lemma_cofactor_prime(2, 5156902474397, 5156902474396, s, 12048837557);
    }
    lemma_strip_prime(s, 2, 2578451237198);
    lemma_strip_prime(s, 2, 1289225618599);
    lemma_strip_prime(s, 107, 12048837557);
    lemma_strip_prime(s, 12048837557, 1);
    if s > 1 {
        lemma_small_mod(1, s);
    }
    lemma_generator_field(2, 5156902474397);
}

/// The power of 2 to 1670836401704629 less one over the product of its prime factors from 2 to
/// 5156902474397.
pub proof fn lemma_power_of_51_bits_over_2_to_of_43_bits()
    ensures
        pow_mod(2, 54, 1670836401704629) == 1306034492435694,
{
    lemma_pow_mod_zero(2, 1670836401704629);
    lemma_window(2, 1670836401704629, 0, 3, 1, 1, 1, 1, 1, 8);
    lemma_window(
        2,
        1670836401704629,
        3,
        6,
        8,
        64,
        4096,
        16777216,
        281474976710656,
        1306034492435694,
    );
}

/// The power of 2 to 1670836401704629 less one over the product of its prime factors from 2 to
/// 3.
pub proof fn lemma_power_of_51_bits_over_2_to_3()
    ensures
        pow_mod(2, 278472733617438, 1670836401704629) == 1322408984917241,
{
    lemma_pow_mod_zero(1306034492435694, 1670836401704629);
    lemma_window(1306034492435694, 1670836401704629, 0, 4, 1, 1, 1, 1, 1, 1164723820667814);
    lemma_window(
        1306034492435694,
        1670836401704629,
        4,
        11,
        1164723820667814,
        379390978145026,
        224032462799203,
        414261910951481,
        971683068408783,
        906184803354557,
    );
    lemma_window(
        1306034492435694,
        1670836401704629,
        75,
        0,
        906184803354557,
        235383406895516,
        485620358083194,
        572797866338192,
        1148266318988430,
        1148266318988430,
    );
    lemma_window(
        1306034492435694,
        1670836401704629,
        1200,
        10,
        1148266318988430,
        516700059632364,
        1178447980933137,
        1209088573889970,
        1028194813805331,
        546793684741589,
    );
    lemma_window(
        1306034492435694,
        1670836401704629,
        19210,
        15,
        546793684741589,
        1176351072377474,
        591308103963570,
        849928318578747,
        1668921715856923,
        1516130408214724,
    );
    lemma_window(
        1306034492435694,
        1670836401704629,
        307375,
        5,
        1516130408214724,
        1559499963552552,
        1255032988645640,
        1064235713567627,
        755557299432409,
        723070450391732,
    );
    lemma_window(
        1306034492435694,
        1670836401704629,
        4918005,
        7,
        723070450391732,
        1069175687953492,
        765784958100198,
        456933586494890,
        1129089962175375,
        836768583446653,
    );
    lemma_window(
        1306034492435694,
        1670836401704629,
        78688087,
        1,
        836768583446653,
        1024239918361422,
        703615594965926,
        1436769771581527,
        1476112010129059,
        1361232051212643,
    );
    lemma_window(
        1306034492435694,
        1670836401704629,
        1259009393,
        2,
        1361232051212643,
        247037550736429,
        525583736589969,
        1535073237309934,
        405999424900672,
        1105208664368467,
    );
    lemma_window(
        1306034492435694,
        1670836401704629,
        20144150290,
        9,
        1105208664368467,
        1240532193779379,
        1136311480845509,
        476936604980045,
        345916899245741,
        853971005277254,
    );
    lemma_window(
        1306034492435694,
        1670836401704629,
        322306404649,
        13,
        853971005277254,
        1374953040094007,
        1441852442372820,
        373183525021396,
        653781423716134,
        1322408984917241,
    );
    lemma_power_of_51_bits_over_2_to_of_43_bits();
    lemma_pow_mod_multiplies(2, 54, 5156902474397, 1670836401704629);
}

/// The power of 2 to 1670836401704629 less one over 2.
pub proof fn lemma_power_of_51_bits_over_2()
    ensures
        pow_mod(2, 835418200852314, 1670836401704629) == 1670836401704628,
{
    lemma_pow_mod_zero(1322408984917241, 1670836401704629);
    lemma_window(1322408984917241, 1670836401704629, 0, 3, 1, 1, 1, 1, 1, 1670836401704628);
    lemma_power_of_51_bits_over_2_to_3();
    lemma_pow_mod_multiplies(2, 278472733617438, 3, 1670836401704629);
}

/// The power of 2 to 1670836401704629 less one over 3.
pub proof fn lemma_power_of_51_bits_over_3()
    ensures
        pow_mod(2, 556945467234876, 1670836401704629) == 1322408984917240,
{
    lemma_pow_mod_zero(1322408984917241, 1670836401704629);
    lemma_window(1322408984917241, 1670836401704629, 0, 2, 1, 1, 1, 1, 1, 1322408984917240);
    lemma_power_of_51_bits_over_2_to_3();
    lemma_pow_mod_multiplies(2, 278472733617438, 2, 1670836401704629);
}

/// The power of 2 to 1670836401704629 less one over 5156902474397.
pub proof fn lemma_power_of_51_bits_over_of_43_bits()
    ensures
        pow_mod(2, 324, 1670836401704629) == 11046204280772,
{
    lemma_pow_mod_zero(1306034492435694, 1670836401704629);
    lemma_window(1306034492435694, 1670836401704629, 0, 6, 1, 1, 1, 1, 1, 11046204280772);
    lemma_power_of_51_bits_over_2_to_of_43_bits();
    lemma_pow_mod_multiplies(2, 54, 6, 1670836401704629);
}

/// The power of 2 to 1670836401704629 less one is one.
pub proof fn lemma_power_of_51_bits_full()
    ensures
        pow_mod(2, 1670836401704628, 1670836401704629) == 1,
{
    lemma_pow_mod_zero(1670836401704628, 1670836401704629);
    lemma_window(1670836401704628, 1670836401704629, 0, 2, 1, 1, 1, 1, 1, 1);
    lemma_power_of_51_bits_over_2();
    lemma_pow_mod_multiplies(2, 835418200852314, 2, 1670836401704629);
}

/// 1670836401704629 is a prime, and the order of 2 modulo it is the prime less one.
pub proof fn lemma_prime_of_51_bits()
    ensures
        is_field_modulus(1670836401704629),
        is_order(2, 1670836401704629, 1670836401704628),
        forall|x: nat|
            0 < x < 1670836401704629 ==> #[trigger] pow_mod(
                x,
                1670836401704628,
                1670836401704629,
            ) == 1,
{
    lemma_prime_2();
    lemma_prime_3();
    lemma_prime_of_43_bits();
    lemma_power_of_51_bits_full();
    lemma_power_of_51_bits_over_2();
    lemma_power_of_51_bits_over_3();
    lemma_power_of_51_bits_over_of_43_bits();
    let s = lemma_cofactor(2, 1670836401704629, 1670836401704628);
    if s % 2 == 0 {
        lemma_cofactor_prime(2, 1670836401704629, 1670836401704628, s, 2);
    }
    if s % 3 == 0 {
        lemma_cofactor_prime(2, 1670836401704629, 1670836401704628, s, 3);
    }
    if s % 5156902474397 == 0 {
        lemma_cofactor_prime(2, 1670836401704629, 1670836401704628, s, 5156902474397);
    }
    lemma_strip_prime(s, 2, 835418200852314);
    lemma_strip_prime(s, 2, 417709100426157);
    lemma_strip_prime(s, 3, 139236366808719);
    lemma_strip_prime(s, 3, 46412122269573);
    lemma_strip_prime(s, 3, 15470707423191);
    lemma_strip_prime(s, 3, 5156902474397);
    lemma_strip_prime(s, 5156902474397, 1);
    if s > 1 {
        lemma_small_mod(1, s);
    }
    lemma_generator_field(2, 1670836401704629);
}

/// The power of 3 to 137 less one over the product of its prime factors from 2 to 17.
pub proof fn lemma_power_137_over_2_to_17()
    ensures
        pow_mod(3, 4, 137) == 81,
{
    lemma_pow_mod_zero(3, 137);
    lemma_window(3, 137, 0, 4, 1, 1, 1, 1, 1, 81);
}

/// The power of 3 to 137 less one over 2.
pub proof fn lemma_power_137_over_2()
    ensures
        pow_mod(3, 68, 137) == 136,
{
    lemma_pow_mod_zero(81, 137);
    lemma_window(81, 137, 0, 1, 1, 1, 1, 1, 1, 81);
    lemma_window(81, 137, 1, 1, 81, 122, 88, 72, 115, 136);
    lemma_power_137_over_2_to_17();
    lemma_pow_mod_multiplies(3, 4, 17, 137);
}

/// The power of 3 to 137 less one over 17.
pub proof fn lemma_power_137_over_17()
    ensures
        pow_mod(3, 8, 137) == 122,
{
    lemma_pow_mod_zero(81, 137);
    lemma_window(81, 137, 0, 2, 1, 1, 1, 1, 1, 122);
    lemma_power_137_over_2_to_17();
    lemma_pow_mod_multiplies(3, 4, 2, 137);
}

/// The power of 3 to 137 less one is one.
pub proof fn lemma_power_137_full()
    ensures
        pow_mod(3, 136, 137) == 1,
{
    lemma_pow_mod_zero(136, 137);
    lemma_window(136, 137, 0, 2, 1, 1, 1, 1, 1, 1);
    lemma_power_137_over_2();
    lemma_pow_mod_multiplies(3, 68, 2, 137);
}

/// 137 is a prime, and the order of 3 modulo it is the prime less one.
pub proof fn lemma_prime_137()
    ensures
        is_field_modulus(137),
        is_order(3, 137, 136),
        forall|x: nat| 0 < x < 137 ==> #[trigger] pow_mod(x, 136, 137) == 1,
{
    lemma_prime_2();
    lemma_prime_17();
    lemma_power_137_full();
    lemma_power_137_over_2();
    lemma_power_137_over_17();
    let s = lemma_cofactor(3, 137, 136);
    if s % 2 == 0 {
        lemma_cofactor_prime(3, 137, 136, s, 2);
    }
    if s % 17 == 0 {
        lemma_cofactor_prime(3, 137, 136, s, 17);
    }
    lemma_strip_prime(s, 2, 68);
    lemma_strip_prime(s, 2, 34);
    lemma_strip_prime(s, 2, 17);
    lemma_strip_prime(s, 17, 1);
    if s > 1 {
        lemma_small_mod(1, s);
    }
    lemma_generator_field(3, 137);
}

/// The power of 3 to 823 less one over the product of its prime factors from 2 to 137.
pub proof fn lemma_power_823_over_2_to_137()
    ensures
        pow_mod(3, 1, 823) == 3,
{
    lemma_pow_mod_zero(3, 823);
    lemma_window(3, 823, 0, 1, 1, 1, 1, 1, 1, 3);
}

/// The power of 3 to 823 less one over the product of its prime factors from 2 to 3.
pub proof fn lemma_power_823_over_2_to_3()
    ensures
        pow_mod(3, 137, 823) == 649,
{
    lemma_pow_mod_zero(3, 823);
    lemma_window(3, 823, 0, 8, 1, 1, 1, 1, 1, 800);
    lemma_window(3, 823, 8, 9, 800, 529, 21, 441, 253, 649);
    lemma_power_823_over_2_to_137();
    lemma_pow_mod_multiplies(3, 1, 137, 823);
}

/// The power of 3 to 823 less one over 2.
pub proof fn lemma_power_823_over_2()
    ensures
        pow_mod(3, 411, 823) == 822,
{
    lemma_pow_mod_zero(649, 823);
    lemma_window(649, 823, 0, 3, 1, 1, 1, 1, 1, 822);
    lemma_power_823_over_2_to_3();
    lemma_pow_mod_multiplies(3, 137, 3, 823);
}

/// The power of 3 to 823 less one over 3.
pub proof fn lemma_power_823_over_3()
    ensures
        pow_mod(3, 274, 823) == 648,
{
    lemma_pow_mod_zero(649, 823);
    lemma_window(649, 823, 0, 2, 1, 1, 1, 1, 1, 648);
    lemma_power_823_over_2_to_3();
    lemma_pow_mod_multiplies(3, 137, 2, 823);
}

/// The power of 3 to 823 less one over 137.
pub proof fn lemma_power_823_over_137()
    ensures
        pow_mod(3, 6, 823) == 729,
{
    lemma_pow_mod_zero(3, 823);
    lemma_window(3, 823, 0, 6, 1, 1, 1, 1, 1, 729);
    lemma_power_823_over_2_to_137();
    lemma_pow_mod_multiplies(3, 1, 6, 823);
}

/// The power of 3 to 823 less one is one.
pub proof fn lemma_power_823_full()
    ensures
        pow_mod(3, 822, 823) == 1,
{
    lemma_pow_mod_zero(822, 823);
    lemma_window(822, 823, 0, 2, 1, 1, 1, 1, 1, 1);
    lemma_power_823_over_2();
    lemma_pow_mod_multiplies(3, 411, 2, 823);
}

/// 823 is a prime, and the order of 3 modulo it is the prime less one.
pub proof fn lemma_prime_823()
    ensures
        is_field_modulus(823),
        is_order(3, 823, 822),
        forall|x: nat| 0 < x < 823 ==> #[trigger] pow_mod(x, 822, 823) == 1,
{
    lemma_prime_2();
    lemma_prime_3();
    lemma_prime_137();
    lemma_power_823_full();
    lemma_power_823_over_2();
    lemma_power_823_over_3();
    lemma_power_823_over_137();
    let s = lemma_cofactor(3, 823, 822);
    if s % 2 == 0 {
        lemma_cofactor_prime(3, 823, 822, s, 2);
    }
    if s % 3 == 0 {
        lemma_cofactor_prime(3, 823, 822, s, 3);
    }
    if s % 137 == 0 {
        lemma_cofactor_prime(3, 823, 822, s, 137);
    }
    lemma_strip_prime(s, 2, 411);
    lemma_strip_prime(s, 3, 137);
    lemma_strip_prime(s, 137, 1);
    if s > 1 {
        lemma_small_mod(1, s);
    }
    lemma_generator_field(3, 823);
}

/// The power of 2 to 19 less one over the product of its prime factors from 2 to 3.
pub proof fn lemma_power_19_over_2_to_3()
    ensures
        pow_mod(2, 3, 19) == 8,
{
    lemma_pow_mod_zero(2, 19);
    lemma_window(2, 19, 0, 3, 1, 1, 1, 1, 1, 8);
}

/// The power of 2 to 19 less one over 2.
pub proof fn lemma_power_19_over_2()
    ensures
        pow_mod(2, 9, 19) == 18,
{
    lemma_pow_mod_zero(8, 19);
    lemma_window(8, 19, 0, 3, 1, 1, 1, 1, 1, 18);
    lemma_power_19_over_2_to_3();
    lemma_pow_mod_multiplies(2, 3, 3, 19);
}

/// The power of 2 to 19 less one over 3.
pub proof fn lemma_power_19_over_3()
    ensures
        pow_mod(2, 6, 19) == 7,
{
    lemma_pow_mod_zero(8, 19);
    lemma_window(8, 19, 0, 2, 1, 1, 1, 1, 1, 7);
    lemma_power_19_over_2_to_3();
    lemma_pow_mod_multiplies(2, 3, 2, 19);
}

/// The power of 2 to 19 less one is one.
pub proof fn lemma_power_19_full()
    ensures
        pow_mod(2, 18, 19) == 1,
{
    lemma_pow_mod_zero(18, 19);
    lemma_window(18, 19, 0, 2, 1, 1, 1, 1, 1, 1);
    lemma_power_19_over_2();
    lemma_pow_mod_multiplies(2, 9, 2, 19);
}

/// 19 is a prime, and the order of 2 modulo it is the prime less one.
pub proof fn lemma_prime_19()
    ensures
        is_field_modulus(19),
        is_order(2, 19, 18),
        forall|x: nat| 0 < x < 19 ==> #[trigger] pow_mod(x, 18, 19) == 1,
{
    lemma_prime_2();
    lemma_prime_3();
    lemma_power_19_full();
    lemma_power_19_over_2();
    lemma_power_19_over_3();
    let s = lemma_cofactor(2, 19, 18);
    if s % 2 == 0 {
        lemma_cofactor_prime(2, 19, 18, s, 2);
    }
    if s % 3 == 0 {
        lemma_cofactor_prime(2, 19, 18, s, 3);
    }
    lemma_strip_prime(s, 2, 9);
    lemma_strip_prime(s, 3, 3);
    lemma_strip_prime(s, 3, 1);
    if s > 1 {
        lemma_small_mod(1, s);
    }
    lemma_generator_field(2, 19);
}

/// The power of 5 to 23 less one over the product of its prime factors from 2 to 11.
pub proof fn lemma_power_23_over_2_to_11()
    ensures
        pow_mod(5, 1, 23) == 5,
{
    lemma_pow_mod_zero(5, 23);
    lemma_window(5, 23, 0, 1, 1, 1, 1, 1, 1, 5);
}

/// The power of 5 to 23 less one over 2.
pub proof fn lemma_power_23_over_2()
    ensures
        pow_mod(5, 11, 23) == 22,
{
    lemma_pow_mod_zero(5, 23);
    lemma_window(5, 23, 0, 11, 1, 1, 1, 1, 1, 22);
    lemma_power_23_over_2_to_11();
    lemma_pow_mod_multiplies(5, 1, 11, 23);
}

/// The power of 5 to 23 less one over 11.
pub proof fn lemma_power_23_over_11()
    ensures
        pow_mod(5, 2, 23) == 2,
{
    lemma_pow_mod_zero(5, 23);
    lemma_window(5, 23, 0, 2, 1, 1, 1, 1, 1, 2);
    lemma_power_23_over_2_to_11();
    lemma_pow_mod_multiplies(5, 1, 2, 23);
}

/// The power of 5 to 23 less one is one.
pub proof fn lemma_power_23_full()
    ensures
        pow_mod(5, 22, 23) == 1,
{
    lemma_pow_mod_zero(22, 23);
    lemma_window(22, 23, 0, 2, 1, 1, 1, 1, 1, 1);
    lemma_power_23_over_2();
    lemma_pow_mod_multiplies(5, 11, 2, 23);
}

/// 23 is a prime, and the order of 5 modulo it is the prime less one.
pub proof fn lemma_prime_23()
    ensures
        is_field_modulus(23),
        is_order(5, 23, 22),
        forall|x: nat| 0 < x < 23 ==> #[trigger] pow_mod(x, 22, 23) == 1,
{
    lemma_prime_2();
    lemma_prime_11();
    lemma_power_23_full();
    lemma_power_23_over_2();
    lemma_power_23_over_11();
    let s = lemma_cofactor(5, 23, 22);
    if s % 2 == 0 {
        lemma_cofactor_prime(5, 23, 22, s, 2);
    }
    if s % 11 == 0 {
        lemma_cofactor_prime(5, 23, 22, s, 11);
    }
    lemma_strip_prime(s, 2, 11);
    lemma_strip_prime(s, 11, 1);
    if s > 1 {
        lemma_small_mod(1, s);
    }
    lemma_generator_field(5, 23);
}

/// The power of 5 to 47 less one over the product of its prime factors from 2 to 23.
pub proof fn lemma_power_47_over_2_to_23()
    ensures
        pow_mod(5, 1, 47) == 5,
{
    lemma_pow_mod_zero(5, 47);
    lemma_window(5, 47, 0, 1, 1, 1, 1, 1, 1, 5);
}

/// The power of 5 to 47 less one over 2.
pub proof fn lemma_power_47_over_2()
    ensures
        pow_mod(5, 23, 47) == 46,
{
    lemma_pow_mod_zero(5, 47);
    lemma_window(5, 47, 0, 1, 1, 1, 1, 1, 1, 5);
    lemma_window(5, 47, 1, 7, 5, 25, 14, 8, 17, 46);
    lemma_power_47_over_2_to_23();
    lemma_pow_mod_multiplies(5, 1, 23, 47);
}

/// The power of 5 to 47 less one over 23.
pub proof fn lemma_power_47_over_23()
    ensures
        pow_mod(5, 2, 47) == 25,
{
    lemma_pow_mod_zero(5, 47);
    lemma_window(5, 47, 0, 2, 1, 1, 1, 1, 1, 25);
    lemma_power_47_over_2_to_23();
    lemma_pow_mod_multiplies(5, 1, 2, 47);
}

/// The power of 5 to 47 less one is one.
pub proof fn lemma_power_47_full()
    ensures
        pow_mod(5, 46, 47) == 1,
{
    lemma_pow_mod_zero(46, 47);
    lemma_window(46, 47, 0, 2, 1, 1, 1, 1, 1, 1);
    lemma_power_47_over_2();
    lemma_pow_mod_multiplies(5, 23, 2, 47);
}

/// 47 is a prime, and the order of 5 modulo it is the prime less one.
pub proof fn lemma_prime_47()
    ensures
        is_field_modulus(47),
        is_order(5, 47, 46),
        forall|x: nat| 0 < x < 47 ==> #[trigger] pow_mod(x, 46, 47) == 1,
{
    lemma_prime_2();
    lemma_prime_23();
    lemma_power_47_full();
    lemma_power_47_over_2();
    lemma_power_47_over_23();
    let s = lemma_cofactor(5, 47, 46);
    if s % 2 == 0 {
        lemma_cofactor_prime(5, 47, 46, s, 2);
    }
    if s % 23 == 0 {
        lemma_cofactor_prime(5, 47, 46, s, 23);
    }
    lemma_strip_prime(s, 2, 23);
    lemma_strip_prime(s, 23, 1);
    if s > 1 {
        lemma_small_mod(1, s);
    }
    lemma_generator_field(5, 47);
}

/// The power of 2 to 37 less one over the product of its prime factors from 2 to 3.
pub proof fn lemma_power_37_over_2_to_3()
    ensures
        pow_mod(2, 6, 37) == 27,
{
    lemma_pow_mod_zero(2, 37);
    lemma_window(2, 37, 0, 6, 1, 1, 1, 1, 1, 27);
}

/// The power of 2 to 37 less one over 2.
pub proof fn lemma_power_37_over_2()
    ensures
        pow_mod(2, 18, 37) == 36,
{
    lemma_pow_mod_zero(27, 37);
    lemma_window(27, 37, 0, 3, 1, 1, 1, 1, 1, 36);
    lemma_power_37_over_2_to_3();
    lemma_pow_mod_multiplies(2, 6, 3, 37);
}

/// The power of 2 to 37 less one over 3.
pub proof fn lemma_power_37_over_3()
    ensures
        pow_mod(2, 12, 37) == 26,
{
    lemma_pow_mod_zero(27, 37);
    lemma_window(27, 37, 0, 2, 1, 1, 1, 1, 1, 26);
    lemma_power_37_over_2_to_3();
    lemma_pow_mod_multiplies(2, 6, 2, 37);
}

/// The power of 2 to 37 less one is one.
pub proof fn lemma_power_37_full()
    ensures
        pow_mod(2, 36, 37) == 1,
{
    lemma_pow_mod_zero(36, 37);
    lemma_window(36, 37, 0, 2, 1, 1, 1, 1, 1, 1);
    lemma_power_37_over_2();
    lemma_pow_mod_multiplies(2, 18, 2, 37);
}

/// 37 is a prime, and the order of 2 modulo it is the prime less one.
pub proof fn lemma_prime_37()
    ensures
        is_field_modulus(37),
        is_order(2, 37, 36),
        forall|x: nat| 0 < x < 37 ==> #[trigger] pow_mod(x, 36, 37) == 1,
{
    lemma_prime_2();
    lemma_prime_3();
    lemma_power_37_full();
    lemma_power_37_over_2();
    lemma_power_37_over_3();
    let s = lemma_cofactor(2, 37, 36);
    if s % 2 == 0 {
        lemma_cofactor_prime(2, 37, 36, s, 2);
    }
    if s % 3 == 0 {
        lemma_cofactor_prime(2, 37, 36, s, 3);
    }
    lemma_strip_prime(s, 2, 18);
    lemma_strip_prime(s, 2, 9);
    lemma_strip_prime(s, 3, 3);
    lemma_strip_prime(s, 3, 1);
    if s > 1 {
        lemma_small_mod(1, s);
    }
    lemma_generator_field(2, 37);
}

/// The power of 3 to 223 less one over the product of its prime factors from 2 to 37.
pub proof fn lemma_power_223_over_2_to_37()
    ensures
        pow_mod(3, 1, 223) == 3,
{
    lemma_pow_mod_zero(3, 223);
    lemma_window(3, 223, 0, 1, 1, 1, 1, 1, 1, 3);
}

/// The power of 3 to 223 less one over the product of its prime factors from 2 to 3.
pub proof fn lemma_power_223_over_2_to_3()
    ensures
        pow_mod(3, 37, 223) == 184,
{
    lemma_pow_mod_zero(3, 223);
    lemma_window(3, 223, 0, 2, 1, 1, 1, 1, 1, 9);
    lemma_window(3, 223, 2, 5, 9, 81, 94, 139, 143, 184);
    lemma_power_223_over_2_to_37();
    lemma_pow_mod_multiplies(3, 1, 37, 223);
}

/// The power of 3 to 223 less one over 2.
pub proof fn lemma_power_223_over_2()
    ensures
        pow_mod(3, 111, 223) == 222,
{
    lemma_pow_mod_zero(184, 223);
    lemma_window(184, 223, 0, 3, 1, 1, 1, 1, 1, 222);
    lemma_power_223_over_2_to_3();
    lemma_pow_mod_multiplies(3, 37, 3, 223);
}

/// The power of 3 to 223 less one over 3.
pub proof fn lemma_power_223_over_3()
    ensures
        pow_mod(3, 74, 223) == 183,
{
    lemma_pow_mod_zero(184, 223);
    lemma_window(184, 223, 0, 2, 1, 1, 1, 1, 1, 183);
    lemma_power_223_over_2_to_3();
    lemma_pow_mod_multiplies(3, 37, 2, 223);
}

/// The power of 3 to 223 less one over 37.
pub proof fn lemma_power_223_over_37()
    ensures
        pow_mod(3, 6, 223) == 60,
{
    lemma_pow_mod_zero(3, 223);
    lemma_window(3, 223, 0, 6, 1, 1, 1, 1, 1, 60);
    lemma_power_223_over_2_to_37();
    lemma_pow_mod_multiplies(3, 1, 6, 223);
}

/// The power of 3 to 223 less one is one.
pub proof fn lemma_power_223_full()
    ensures
        pow_mod(3, 222, 223) == 1,
{
    lemma_pow_mod_zero(222, 223);
    lemma_window(222, 223, 0, 2, 1, 1, 1, 1, 1, 1);
    lemma_power_223_over_2();
    lemma_pow_mod_multiplies(3, 111, 2, 223);
}

/// 223 is a prime, and the order of 3 modulo it is the prime less one.
pub proof fn lemma_prime_223()
    ensures
        is_field_modulus(223),
        is_order(3, 223, 222),
        forall|x: nat| 0 < x < 223 ==> #[trigger] pow_mod(x, 222, 223) == 1,
{
    lemma_prime_2();
    lemma_prime_3();
    lemma_prime_37();
    lemma_power_223_full();
    lemma_power_223_over_2();
    lemma_power_223_over_3();
    lemma_power_223_over_37();
    let s = lemma_cofactor(3, 223, 222);
    if s % 2 == 0 {
        lemma_cofactor_prime(3, 223, 222, s, 2);
    }
    if s % 3 == 0 {
        lemma_cofactor_prime(3, 223, 222, s, 3);
    }
    if s % 37 == 0 {
        lemma_cofactor_prime(3, 223, 222, s, 37);
    }
    lemma_strip_prime(s, 2, 111);
    lemma_strip_prime(s, 3, 37);
    lemma_strip_prime(s, 37, 1);
    if s > 1 {
        lemma_small_mod(1, s);
    }
    lemma_generator_field(3, 223);
}

/// The power of 2 to 20963 less one over the product of its prime factors from 2 to 223.
pub proof fn lemma_power_20963_over_2_to_223()
    ensures
        pow_mod(2, 1, 20963) == 2,
{
    lemma_pow_mod_zero(2, 20963);
    lemma_window(2, 20963, 0, 1, 1, 1, 1, 1, 1, 2);
}

/// The power of 2 to 20963 less one over the product of its prime factors from 2 to 47.
pub proof fn lemma_power_20963_over_2_to_47()
    ensures
        pow_mod(2, 223, 20963) == 8507,
{
    lemma_pow_mod_zero(2, 20963);
    lemma_window(2, 20963, 0, 13, 1, 1, 1, 1, 1, 8192);
    lemma_window(2, 20963, 13, 15, 8192, 6301, 19642, 5112, 12646, 8507);
    lemma_power_20963_over_2_to_223();
    lemma_pow_mod_multiplies(2, 1, 223, 20963);
}

/// The power of 2 to 20963 less one over 2.
pub proof fn lemma_power_20963_over_2()
    ensures
        pow_mod(2, 10481, 20963) == 20962,
{
    lemma_pow_mod_zero(8507, 20963);
    lemma_window(8507, 20963, 0, 2, 1, 1, 1, 1, 1, 4773);
    lemma_window(8507, 20963, 2, 15, 4773, 15711, 17159, 5946, 11298, 20962);
    lemma_power_20963_over_2_to_47();
    lemma_pow_mod_multiplies(2, 223, 47, 20963);
}

/// The power of 2 to 20963 less one over 47.
pub proof fn lemma_power_20963_over_47()
    ensures
        pow_mod(2, 446, 20963) == 4773,
{
    lemma_pow_mod_zero(8507, 20963);
    lemma_window(8507, 20963, 0, 2, 1, 1, 1, 1, 1, 4773);
    lemma_power_20963_over_2_to_47();
    lemma_pow_mod_multiplies(2, 223, 2, 20963);
}

/// The power of 2 to 20963 less one over 223.
pub proof fn lemma_power_20963_over_223()
    ensures
        pow_mod(2, 94, 20963) == 12288,
{
    lemma_pow_mod_zero(2, 20963);
    lemma_window(2, 20963, 0, 5, 1, 1, 1, 1, 1, 32);
    lemma_window(2, 20963, 5, 14, 32, 1024, 426, 13772, 15723, 12288);
    lemma_power_20963_over_2_to_223();
    lemma_pow_mod_multiplies(2, 1, 94, 20963);
}

/// The power of 2 to 20963 less one is one.
pub proof fn lemma_power_20963_full()
    ensures
        pow_mod(2, 20962, 20963) == 1,
{
    lemma_pow_mod_zero(20962, 20963);
    lemma_window(20962, 20963, 0, 2, 1, 1, 1, 1, 1, 1);
    lemma_power_20963_over_2();
    lemma_pow_mod_multiplies(2, 10481, 2, 20963);
}

/// 20963 is a prime, and the order of 2 modulo it is the prime less one.
pub proof fn lemma_prime_20963()
    ensures
        is_field_modulus(20963),
        is_order(2, 20963, 20962),
        forall|x: nat| 0 < x < 20963 ==> #[trigger] pow_mod(x, 20962, 20963) == 1,
{
    lemma_prime_2();
    lemma_prime_47();
    lemma_prime_223();
    lemma_power_20963_full();
    lemma_power_20963_over_2();
    lemma_power_20963_over_47();
    lemma_power_20963_over_223();
    let s = lemma_cofactor(2, 20963, 20962);
    if s % 2 == 0 {
        lemma_cofactor_prime(2, 20963, 20962, s, 2);
    }
    if s % 47 == 0 {
        lemma_cofactor_prime(2, 20963, 20962, s, 47);
    }
    if s % 223 == 0 {
        lemma_cofactor_prime(2, 20963, 20962, s, 223);
    }
    lemma_strip_prime(s, 2, 10481);
    lemma_strip_prime(s, 47, 223);
    lemma_strip_prime(s, 223, 1);
    if s > 1 {
        lemma_small_mod(1, s);
    }
    lemma_generator_field(2, 20963);
}

/// The power of 5 to 41927 less one over the product of its prime factors from 2 to 20963.
pub proof fn lemma_power_41927_over_2_to_20963()
    ensures
        pow_mod(5, 1, 41927) == 5,
{
    lemma_pow_mod_zero(5, 41927);
    lemma_window(5, 41927, 0, 1, 1, 1, 1, 1, 1, 5);
}

/// The power of 5 to 41927 less one over 2.
pub proof fn lemma_power_41927_over_2()
    ensures
        pow_mod(5, 20963, 41927) == 41926,
{
    lemma_pow_mod_zero(5, 41927);
    lemma_window(5, 41927, 0, 5, 1, 1, 1, 1, 1, 3125);
    lemma_window(5, 41927, 5, 1, 3125, 38561, 9666, 18200, 16700, 41573);
    lemma_window(5, 41927, 81, 14, 41573, 41462, 6590, 33655, 1120, 13546);
    lemma_window(5, 41927, 1310, 3, 13546, 21564, 35666, 40303, 37902, 41926);
    lemma_power_41927_over_2_to_20963();
    lemma_pow_mod_multiplies(5, 1, 20963, 41927);
}

/// The power of 5 to 41927 less one over 20963.
pub proof fn lemma_power_41927_over_20963()
    ensures
        pow_mod(5, 2, 41927) == 25,
{
    lemma_pow_mod_zero(5, 41927);
    lemma_window(5, 41927, 0, 2, 1, 1, 1, 1, 1, 25);
    lemma_power_41927_over_2_to_20963();
    lemma_pow_mod_multiplies(5, 1, 2, 41927);
}

/// The power of 5 to 41927 less one is one.
pub proof fn lemma_power_41927_full()
    ensures
        pow_mod(5, 41926, 41927) == 1,
{
    lemma_pow_mod_zero(41926, 41927);
    lemma_window(41926, 41927, 0, 2, 1, 1, 1, 1, 1, 1);
    lemma_power_41927_over_2();
    lemma_pow_mod_multiplies(5, 20963, 2, 41927);
}

/// 41927 is a prime, and the order of 5 modulo it is the prime less one.
pub proof fn lemma_prime_41927()
    ensures
        is_field_modulus(41927),
        is_order(5, 41927, 41926),
        forall|x: nat| 0 < x < 41927 ==> #[trigger] pow_mod(x, 41926, 41927) == 1,
{
    lemma_prime_2();
    lemma_prime_20963();
    lemma_power_41927_full();
    lemma_power_41927_over_2();
    lemma_power_41927_over_20963();
    let s = lemma_cofactor(5, 41927, 41926);
    if s % 2 == 0 {
        lemma_cofactor_prime(5, 41927, 41926, s, 2);
    }
    if s % 20963 == 0 {
        lemma_cofactor_prime(5, 41927, 41926, s, 20963);
    }
    lemma_strip_prime(s, 2, 20963);
    lemma_strip_prime(s, 20963, 1);
    if s > 1 {
        lemma_small_mod(1, s);
    }
    lemma_generator_field(5, 41927);
}

/// The power of 2 to 1593227 less one over the product of its prime factors from 2 to 41927.
pub proof fn lemma_power_1593227_over_2_to_41927()
    ensures
        pow_mod(2, 1, 1593227) == 2,
{
    lemma_pow_mod_zero(2, 1593227);
    lemma_window(2, 1593227, 0, 1, 1, 1, 1, 1, 1, 2);
}

/// The power of 2 to 1593227 less one over the product of its prime factors from 2 to 19.
pub proof fn lemma_power_1593227_over_2_to_19()
    ensures
        pow_mod(2, 41927, 1593227) == 347988,
{
    lemma_pow_mod_zero(2, 1593227);
    lemma_window(2, 1593227, 0, 10, 1, 1, 1, 1, 1, 1024);
    lemma_window(2, 1593227, 10, 3, 1024, 1048576, 183444, 1153669, 597074, 1590138);
    lemma_window(2, 1593227, 163, 12, 1590138, 1575786, 1475351, 218709, 172460, 596599);
    lemma_window(2, 1593227, 2620, 7, 596599, 268547, 71054, 1327780, 52507, 347988);
    lemma_power_1593227_over_2_to_41927();
    lemma_pow_mod_multiplies(2, 1, 41927, 1593227);
}

/// The power of 2 to 1593227 less one over 2.
pub proof fn lemma_power_1593227_over_2()
    ensures
        pow_mod(2, 796613, 1593227) == 1593226,
{
    lemma_pow_mod_zero(347988, 1593227);
    lemma_window(347988, 1593227, 0, 1, 1, 1, 1, 1, 1, 347988);
    lemma_window(347988, 1593227, 1, 3, 347988, 836782, 1560975, 1407500, 1153979, 1593226);
    lemma_power_1593227_over_2_to_19();
    lemma_pow_mod_multiplies(2, 41927, 19, 1593227);
}

/// The power of 2 to 1593227 less one over 19.
pub proof fn lemma_power_1593227_over_19()
    ensures
        pow_mod(2, 83854, 1593227) == 836782,
{
    lemma_pow_mod_zero(347988, 1593227);
    lemma_window(347988, 1593227, 0, 2, 1, 1, 1, 1, 1, 836782);
    lemma_power_1593227_over_2_to_19();
    lemma_pow_mod_multiplies(2, 41927, 2, 1593227);
}

/// The power of 2 to 1593227 less one over 41927.
pub proof fn lemma_power_1593227_over_41927()
    ensures
        pow_mod(2, 38, 1593227) == 45861,
{
    lemma_pow_mod_zero(2, 1593227);
    lemma_window(2, 1593227, 0, 2, 1, 1, 1, 1, 1, 4);
    lemma_window(2, 1593227, 2, 6, 4, 16, 256, 65536, 1220531, 45861);
    lemma_power_1593227_over_2_to_41927();
    lemma_pow_mod_multiplies(2, 1, 38, 1593227);
}

/// The power of 2 to 1593227 less one is one.
pub proof fn lemma_power_1593227_full()
    ensures
        pow_mod(2, 1593226, 1593227) == 1,
{
    lemma_pow_mod_zero(1593226, 1593227);
    lemma_window(1593226, 1593227, 0, 2, 1, 1, 1, 1, 1, 1);
    lemma_power_1593227_over_2();
    lemma_pow_mod_multiplies(2, 796613, 2, 1593227);
}

/// 1593227 is a prime, and the order of 2 modulo it is the prime less one.
pub proof fn lemma_prime_1593227()
    ensures
        is_field_modulus(1593227),
        is_order(2, 1593227, 1593226),
        forall|x: nat| 0 < x < 1593227 ==> #[trigger] pow_mod(x, 1593226, 1593227) == 1,
{
    lemma_prime_2();
    lemma_prime_19();
    lemma_prime_41927();
    lemma_power_1593227_full();
    lemma_power_1593227_over_2();
    lemma_power_1593227_over_19();
    lemma_power_1593227_over_41927();
    let s = lemma_cofactor(2, 1593227, 1593226);
    if s % 2 == 0 {
        lemma_cofactor_prime(2, 1593227, 1593226, s, 2);
    }
    if s % 19 == 0 {
        lemma_cofactor_prime(2, 1593227, 1593226, s, 19);
    }
    if s % 41927 == 0 {
        lemma_cofactor_prime(2, 1593227, 1593226, s, 41927);
    }
    lemma_strip_prime(s, 2, 796613);
    lemma_strip_prime(s, 19, 41927);
    lemma_strip_prime(s, 41927, 1);
    if s > 1 {
        lemma_small_mod(1, s);
    }
    lemma_generator_field(2, 1593227);
}

/// The power of 2 to 83 less one over the product of its prime factors from 2 to 41.
pub proof fn lemma_power_83_over_2_to_41()
    ensures
        pow_mod(2, 1, 83) == 2,
{
    lemma_pow_mod_zero(2, 83);
    lemma_window(2, 83, 0, 1, 1, 1, 1, 1, 1, 2);
}

/// The power of 2 to 83 less one over 2.
pub proof fn lemma_power_83_over_2()
    ensures
        pow_mod(2, 41, 83) == 82,
{
    lemma_pow_mod_zero(2, 83);
    lemma_window(2, 83, 0, 2, 1, 1, 1, 1, 1, 4);
    lemma_window(2, 83, 2, 9, 4, 16, 7, 49, 77, 82);
    lemma_power_83_over_2_to_41();
    lemma_pow_mod_multiplies(2, 1, 41, 83);
}

/// The power of 2 to 83 less one over 41.
pub proof fn lemma_power_83_over_41()
    ensures
        pow_mod(2, 2, 83) == 4,
{
    lemma_pow_mod_zero(2, 83);
    lemma_window(2, 83, 0, 2, 1, 1, 1, 1, 1, 4);
    lemma_power_83_over_2_to_41();
    lemma_pow_mod_multiplies(2, 1, 2, 83);
}

/// The power of 2 to 83 less one is one.
pub proof fn lemma_power_83_full()
    ensures
        pow_mod(2, 82, 83) == 1,
{
    lemma_pow_mod_zero(82, 83);
    lemma_window(82, 83, 0, 2, 1, 1, 1, 1, 1, 1);
    lemma_power_83_over_2();
    lemma_pow_mod_multiplies(2, 41, 2, 83);
}

/// 83 is a prime, and the order of 2 modulo it is the prime less one.
pub proof fn lemma_prime_83()
    ensures
        is_field_modulus(83),
        is_order(2, 83, 82),
        forall|x: nat| 0 < x < 83 ==> #[trigger] pow_mod(x, 82, 83) == 1,
{
    lemma_prime_2();
    lemma_prime_41();
    lemma_power_83_full();
    lemma_power_83_over_2();
    lemma_power_83_over_41();
    let s = lemma_cofactor(2, 83, 82);
    if s % 2 == 0 {
        lemma_cofactor_prime(2, 83, 82, s, 2);
    }
    if s % 41 == 0 {
        lemma_cofactor_prime(2, 83, 82, s, 41);
    }
    lemma_strip_prime(s, 2, 41);
    lemma_strip_prime(s, 41, 1);
    if s > 1 {
        lemma_small_mod(1, s);
    }
    lemma_generator_field(2, 83);
}

/// The power of 2 to 379 less one over the product of its prime factors from 2 to 7.
pub proof fn lemma_power_379_over_2_to_7()
    ensures
        pow_mod(2, 9, 379) == 133,
{
    lemma_pow_mod_zero(2, 379);
    lemma_window(2, 379, 0, 9, 1, 1, 1, 1, 1, 133);
}

/// The power of 2 to 379 less one over the product of its prime factors from 2 to 3.
pub proof fn lemma_power_379_over_2_to_3()
    ensures
        pow_mod(2, 63, 379) == 328,
{
    lemma_pow_mod_zero(133, 379);
    lemma_window(133, 379, 0, 7, 1, 1, 1, 1, 1, 328);
    lemma_power_379_over_2_to_7();
    lemma_pow_mod_multiplies(2, 9, 7, 379);
}

/// The power of 2 to 379 less one over 2.
pub proof fn lemma_power_379_over_2()
    ensures
        pow_mod(2, 189, 379) == 378,
{
    lemma_pow_mod_zero(328, 379);
    lemma_window(328, 379, 0, 3, 1, 1, 1, 1, 1, 378);
    lemma_power_379_over_2_to_3();
    lemma_pow_mod_multiplies(2, 63, 3, 379);
}

/// The power of 2 to 379 less one over 3.
pub proof fn lemma_power_379_over_3()
    ensures
        pow_mod(2, 126, 379) == 327,
{
    lemma_pow_mod_zero(328, 379);
    lemma_window(328, 379, 0, 2, 1, 1, 1, 1, 1, 327);
    lemma_power_379_over_2_to_3();
    lemma_pow_mod_multiplies(2, 63, 2, 379);
}

/// The power of 2 to 379 less one over 7.
pub proof fn lemma_power_379_over_7()
    ensures
        pow_mod(2, 54, 379) == 125,
{
    lemma_pow_mod_zero(133, 379);
    lemma_window(133, 379, 0, 6, 1, 1, 1, 1, 1, 125);
    lemma_power_379_over_2_to_7();
    lemma_pow_mod_multiplies(2, 9, 6, 379);
}

/// The power of 2 to 379 less one is one.
pub proof fn lemma_power_379_full()
    ensures
        pow_mod(2, 378, 379) == 1,
{
    lemma_pow_mod_zero(378, 379);
    lemma_window(378, 379, 0, 2, 1, 1, 1, 1, 1, 1);
    lemma_power_379_over_2();
    lemma_pow_mod_multiplies(2, 189, 2, 379);
}

/// 379 is a prime, and the order of 2 modulo it is the prime less one.
pub proof fn lemma_prime_379()
    ensures
        is_field_modulus(379),
        is_order(2, 379, 378),
        forall|x: nat| 0 < x < 379 ==> #[trigger] pow_mod(x, 378, 379) == 1,
{
    lemma_prime_2();
    lemma_prime_3();
    lemma_prime_7();
    lemma_power_379_full();
    lemma_power_379_over_2();
    lemma_power_379_over_3();
    lemma_power_379_over_7();
    let s = lemma_cofactor(2, 379, 378);
    if s % 2 == 0 {
        lemma_cofactor_prime(2, 379, 378, s, 2);
    }
    if s % 3 == 0 {
        lemma_cofactor_prime(2, 379, 378, s, 3);
    }
    if s % 7 == 0 {
        lemma_cofactor_prime(2, 379, 378, s, 7);
    }
    lemma_strip_prime(s, 2, 189);
    lemma_strip_prime(s, 3, 63);
    lemma_strip_prime(s, 3, 21);
    lemma_strip_prime(s, 3, 7);
    lemma_strip_prime(s, 7, 1);
    if s > 1 {
        lemma_small_mod(1, s);
    }
    lemma_generator_field(2, 379);
}

/// The power of 21 to 409 less one over the product of its prime factors from 2 to 17.
pub proof fn lemma_power_409_over_2_to_17()
    ensures
        pow_mod(21, 4, 409) == 206,
{
    lemma_pow_mod_zero(21, 409);
    lemma_window(21, 409, 0, 4, 1, 1, 1, 1, 1, 206);
}

/// The power of 21 to 409 less one over the product of its prime factors from 2 to 3.
pub proof fn lemma_power_409_over_2_to_3()
    ensures
        pow_mod(21, 68, 409) == 356,
{
    lemma_pow_mod_zero(206, 409);
    lemma_window(206, 409, 0, 1, 1, 1, 1, 1, 1, 206);
    lemma_window(206, 409, 1, 1, 206, 309, 184, 318, 101, 356);
    lemma_power_409_over_2_to_17();
    lemma_pow_mod_multiplies(21, 4, 17, 409);
}

/// The power of 21 to 409 less one over 2.
pub proof fn lemma_power_409_over_2()
    ensures
        pow_mod(21, 204, 409) == 408,
{
    lemma_pow_mod_zero(356, 409);
    lemma_window(356, 409, 0, 3, 1, 1, 1, 1, 1, 408);
    lemma_power_409_over_2_to_3();
    lemma_pow_mod_multiplies(21, 68, 3, 409);
}

/// The power of 21 to 409 less one over 3.
pub proof fn lemma_power_409_over_3()
    ensures
        pow_mod(21, 136, 409) == 355,
{
    lemma_pow_mod_zero(356, 409);
    lemma_window(356, 409, 0, 2, 1, 1, 1, 1, 1, 355);
    lemma_power_409_over_2_to_3();
    lemma_pow_mod_multiplies(21, 68, 2, 409);
}

/// The power of 21 to 409 less one over 17.
pub proof fn lemma_power_409_over_17()
    ensures
        pow_mod(21, 24, 409) == 5,
{
    lemma_pow_mod_zero(206, 409);
    lemma_window(206, 409, 0, 6, 1, 1, 1, 1, 1, 5);
    lemma_power_409_over_2_to_17();
    lemma_pow_mod_multiplies(21, 4, 6, 409);
}

/// The power of 21 to 409 less one is one.
pub proof fn lemma_power_409_full()
    ensures
        pow_mod(21, 408, 409) == 1,
{
    lemma_pow_mod_zero(408, 409);
    lemma_window(408, 409, 0, 2, 1, 1, 1, 1, 1, 1);
    lemma_power_409_over_2();
    lemma_pow_mod_multiplies(21, 204, 2, 409);
}

/// 409 is a prime, and the order of 21 modulo it is the prime less one.
pub proof fn lemma_prime_409()
    ensures
        is_field_modulus(409),
        is_order(21, 409, 408),
        forall|x: nat| 0 < x < 409 ==> #[trigger] pow_mod(x, 408, 409) == 1,
{
    lemma_prime_2();
    lemma_prime_3();
    lemma_prime_17();
    lemma_power_409_full();
    lemma_power_409_over_2();
    lemma_power_409_over_3();
    lemma_power_409_over_17();
    let s = lemma_cofactor(21, 409, 408);
    if s % 2 == 0 {
        lemma_cofactor_prime(21, 409, 408, s, 2);
    }
    if s % 3 == 0 {
        lemma_cofactor_prime(21, 409, 408, s, 3);
    }
    if s % 17 == 0 {
        lemma_cofactor_prime(21, 409, 408, s, 17);
    }
    lemma_strip_prime(s, 2, 204);
    lemma_strip_prime(s, 2, 102);
    lemma_strip_prime(s, 2, 51);
    lemma_strip_prime(s, 3, 17);
    lemma_strip_prime(s, 17, 1);
    if s > 1 {
        lemma_small_mod(1, s);
    }
    lemma_generator_field(21, 409);
}

/// The power of 2 to 1637 less one over the product of its prime factors from 2 to 409.
pub proof fn lemma_power_1637_over_2_to_409()
    ensures
        pow_mod(2, 2, 1637) == 4,
{
    lemma_pow_mod_zero(2, 1637);
    lemma_window(2, 1637, 0, 2, 1, 1, 1, 1, 1, 4);
}

/// The power of 2 to 1637 less one over 2.
pub proof fn lemma_power_1637_over_2()
    ensures
        pow_mod(2, 818, 1637) == 1636,
{
    lemma_pow_mod_zero(4, 1637);
    lemma_window(4, 1637, 0, 1, 1, 1, 1, 1, 1, 4);
    lemma_window(4, 1637, 1, 9, 4, 16, 256, 56, 1499, 191);
    lemma_window(4, 1637, 25, 9, 191, 467, 368, 1190, 95, 1636);
    lemma_power_1637_over_2_to_409();
    lemma_pow_mod_multiplies(2, 2, 409, 1637);
}

/// The power of 2 to 1637 less one over 409.
pub proof fn lemma_power_1637_over_409()
    ensures
        pow_mod(2, 4, 1637) == 16,
{
    lemma_pow_mod_zero(4, 1637);
    lemma_window(4, 1637, 0, 2, 1, 1, 1, 1, 1, 16);
    lemma_power_1637_over_2_to_409();
    lemma_pow_mod_multiplies(2, 2, 2, 1637);
}

/// The power of 2 to 1637 less one is one.
pub proof fn lemma_power_1637_full()
    ensures
        pow_mod(2, 1636, 1637) == 1,
{
    lemma_pow_mod_zero(1636, 1637);
    lemma_window(1636, 1637, 0, 2, 1, 1, 1, 1, 1, 1);
    lemma_power_1637_over_2();
    lemma_pow_mod_multiplies(2, 818, 2, 1637);
}

/// 1637 is a prime, and the order of 2 modulo it is the prime less one.
pub proof fn lemma_prime_1637()
    ensures
        is_field_modulus(1637),
        is_order(2, 1637, 1636),
        forall|x: nat| 0 < x < 1637 ==> #[trigger] pow_mod(x, 1636, 1637) == 1,
{
    lemma_prime_2();
    lemma_prime_409();
    lemma_power_1637_full();
    lemma_power_1637_over_2();
    lemma_power_1637_over_409();
    let s = lemma_cofactor(2, 1637, 1636);
    if s % 2 == 0 {
        lemma_cofactor_prime(2, 1637, 1636, s, 2);
    }
    if s % 409 == 0 {
        lemma_cofactor_prime(2, 1637, 1636, s, 409);
    }
    lemma_strip_prime(s, 2, 818);
    lemma_strip_prime(s, 2, 409);
    lemma_strip_prime(s, 409, 1);
    if s > 1 {
        lemma_small_mod(1, s);
    }
    lemma_generator_field(2, 1637);
}

/// The power of 6 to 229 less one over the product of its prime factors from 2 to 19.
pub proof fn lemma_power_229_over_2_to_19()
    ensures
        pow_mod(6, 2, 229) == 36,
{
    lemma_pow_mod_zero(6, 229);
    lemma_window(6, 229, 0, 2, 1, 1, 1, 1, 1, 36);
}

/// The power of 6 to 229 less one over the product of its prime factors from 2 to 3.
pub proof fn lemma_power_229_over_2_to_3()
    ensures
        pow_mod(6, 38, 229) == 135,
{
    lemma_pow_mod_zero(36, 229);
    lemma_window(36, 229, 0, 1, 1, 1, 1, 1, 1, 36);
    lemma_window(36, 229, 1, 3, 36, 151, 130, 183, 55, 135);
    lemma_power_229_over_2_to_19();
    lemma_pow_mod_multiplies(6, 2, 19, 229);
}

/// The power of 6 to 229 less one over 2.
pub proof fn lemma_power_229_over_2()
    ensures
        pow_mod(6, 114, 229) == 228,
{
    lemma_pow_mod_zero(135, 229);
    lemma_window(135, 229, 0, 3, 1, 1, 1, 1, 1, 228);
    lemma_power_229_over_2_to_3();
    lemma_pow_mod_multiplies(6, 38, 3, 229);
}

/// The power of 6 to 229 less one over 3.
pub proof fn lemma_power_229_over_3()
    ensures
        pow_mod(6, 76, 229) == 134,
{
    lemma_pow_mod_zero(135, 229);
    lemma_window(135, 229, 0, 2, 1, 1, 1, 1, 1, 134);
    lemma_power_229_over_2_to_3();
    lemma_pow_mod_multiplies(6, 38, 2, 229);
}

/// The power of 6 to 229 less one over 19.
pub proof fn lemma_power_229_over_19()
    ensures
        pow_mod(6, 12, 229) == 165,
{
    lemma_pow_mod_zero(36, 229);
    lemma_window(36, 229, 0, 6, 1, 1, 1, 1, 1, 165);
    lemma_power_229_over_2_to_19();
    lemma_pow_mod_multiplies(6, 2, 6, 229);
}

/// The power of 6 to 229 less one is one.
pub proof fn lemma_power_229_full()
    ensures
        pow_mod(6, 228, 229) == 1,
{
    lemma_pow_mod_zero(228, 229);
    lemma_window(228, 229, 0, 2, 1, 1, 1, 1, 1, 1);
    lemma_power_229_over_2();
    lemma_pow_mod_multiplies(6, 114, 2, 229);
}

/// 229 is a prime, and the order of 6 modulo it is the prime less one.
pub proof fn lemma_prime_229()
    ensures
        is_field_modulus(229),
        is_order(6, 229, 228),
        forall|x: nat| 0 < x < 229 ==> #[trigger] pow_mod(x, 228, 229) == 1,
{
    lemma_prime_2();
    lemma_prime_3();
    lemma_prime_19();
    lemma_power_229_full();
    lemma_power_229_over_2();
    lemma_power_229_over_3();
    lemma_power_229_over_19();
    let s = lemma_cofactor(6, 229, 228);
    if s % 2 == 0 {
        lemma_cofactor_prime(6, 229, 228, s, 2);
    }
    if s % 3 == 0 {
        lemma_cofactor_prime(6, 229, 228, s, 3);
    }
    if s % 19 == 0 {
        lemma_cofactor_prime(6, 229, 228, s, 19);
    }
    lemma_strip_prime(s, 2, 114);
    lemma_strip_prime(s, 2, 57);
    lemma_strip_prime(s, 3, 19);
    lemma_strip_prime(s, 19, 1);
    if s > 1 {
        lemma_small_mod(1, s);
    }
    lemma_generator_field(6, 229);
}

/// The power of 7 to 71 less one over the product of its prime factors from 2 to 7.
pub proof fn lemma_power_71_over_2_to_7()
    ensures
        pow_mod(7, 1, 71) == 7,
{
    lemma_pow_mod_zero(7, 71);
    lemma_window(7, 71, 0, 1, 1, 1, 1, 1, 1, 7);
}

/// The power of 7 to 71 less one over the product of its prime factors from 2 to 5.
pub proof fn lemma_power_71_over_2_to_5()
    ensures
        pow_mod(7, 7, 71) == 14,
{
    lemma_pow_mod_zero(7, 71);
    lemma_window(7, 71, 0, 7, 1, 1, 1, 1, 1, 14);
    lemma_power_71_over_2_to_7();
    lemma_pow_mod_multiplies(7, 1, 7, 71);
}

/// The power of 7 to 71 less one over 2.
pub proof fn lemma_power_71_over_2()
    ensures
        pow_mod(7, 35, 71) == 70,
{
    lemma_pow_mod_zero(14, 71);
    lemma_window(14, 71, 0, 5, 1, 1, 1, 1, 1, 70);
    lemma_power_71_over_2_to_5();
    lemma_pow_mod_multiplies(7, 7, 5, 71);
}

/// The power of 7 to 71 less one over 5.
pub proof fn lemma_power_71_over_5()
    ensures
        pow_mod(7, 14, 71) == 54,
{
    lemma_pow_mod_zero(14, 71);
    lemma_window(14, 71, 0, 2, 1, 1, 1, 1, 1, 54);
    lemma_power_71_over_2_to_5();
    lemma_pow_mod_multiplies(7, 7, 2, 71);
}

/// The power of 7 to 71 less one over 7.
pub proof fn lemma_power_71_over_7()
    ensures
        pow_mod(7, 10, 71) == 45,
{
    lemma_pow_mod_zero(7, 71);
    lemma_window(7, 71, 0, 10, 1, 1, 1, 1, 1, 45);
    lemma_power_71_over_2_to_7();
    lemma_pow_mod_multiplies(7, 1, 10, 71);
}

/// The power of 7 to 71 less one is one.
pub proof fn lemma_power_71_full()
    ensures
        pow_mod(7, 70, 71) == 1,
{
    lemma_pow_mod_zero(70, 71);
    lemma_window(70, 71, 0, 2, 1, 1, 1, 1, 1, 1);
    lemma_power_71_over_2();
    lemma_pow_mod_multiplies(7, 35, 2, 71);
}

/// 71 is a prime, and the order of 7 modulo it is the prime less one.
pub proof fn lemma_prime_71()
    ensures
        is_field_modulus(71),
        is_order(7, 71, 70),
        forall|x: nat| 0 < x < 71 ==> #[trigger] pow_mod(x, 70, 71) == 1,
{
    lemma_prime_2();
    lemma_prime_5();
    lemma_prime_7();
    lemma_power_71_full();
    lemma_power_71_over_2();
    lemma_power_71_over_5();
    lemma_power_71_over_7();
    let s = lemma_cofactor(7, 71, 70);
    if s % 2 == 0 {
        lemma_cofactor_prime(7, 71, 70, s, 2);
    }
    if s % 5 == 0 {
        lemma_cofactor_prime(7, 71, 70, s, 5);
    }
    if s % 7 == 0 {
        lemma_cofactor_prime(7, 71, 70, s, 7);
    }
    lemma_strip_prime(s, 2, 35);
    lemma_strip_prime(s, 5, 7);
    lemma_strip_prime(s, 7, 1);
    if s > 1 {
        lemma_small_mod(1, s);
    }
    lemma_generator_field(7, 71);
}

/// The power of 2 to 853 less one over the product of its prime factors from 2 to 71.
pub proof fn lemma_power_853_over_2_to_71()
    ensures
        pow_mod(2, 2, 853) == 4,
{
    lemma_pow_mod_zero(2, 853);
    lemma_window(2, 853, 0, 2, 1, 1, 1, 1, 1, 4);
}

/// The power of 2 to 853 less one over the product of its prime factors from 2 to 3.
pub proof fn lemma_power_853_over_2_to_3()
    ensures
        pow_mod(2, 142, 853) == 633,
{
    lemma_pow_mod_zero(4, 853);
    lemma_window(4, 853, 0, 4, 1, 1, 1, 1, 1, 256);
    lemma_window(4, 853, 4, 7, 256, 708, 553, 435, 712, 633);
    lemma_power_853_over_2_to_71();
    lemma_pow_mod_multiplies(2, 2, 71, 853);
}

/// The power of 2 to 853 less one over 2.
pub proof fn lemma_power_853_over_2()
    ensures
        pow_mod(2, 426, 853) == 852,
{
    lemma_pow_mod_zero(633, 853);
    lemma_window(633, 853, 0, 3, 1, 1, 1, 1, 1, 852);
    lemma_power_853_over_2_to_3();
    lemma_pow_mod_multiplies(2, 142, 3, 853);
}

/// The power of 2 to 853 less one over 3.
pub proof fn lemma_power_853_over_3()
    ensures
        pow_mod(2, 284, 853) == 632,
{
    lemma_pow_mod_zero(633, 853);
    lemma_window(633, 853, 0, 2, 1, 1, 1, 1, 1, 632);
    lemma_power_853_over_2_to_3();
    lemma_pow_mod_multiplies(2, 142, 2, 853);
}

/// The power of 2 to 853 less one over 71.
pub proof fn lemma_power_853_over_71()
    ensures
        pow_mod(2, 12, 853) == 684,
{
    lemma_pow_mod_zero(4, 853);
    lemma_window(4, 853, 0, 6, 1, 1, 1, 1, 1, 684);
    lemma_power_853_over_2_to_71();
    lemma_pow_mod_multiplies(2, 2, 6, 853);
}

/// The power of 2 to 853 less one is one.
pub proof fn lemma_power_853_full()
    ensures
        pow_mod(2, 852, 853) == 1,
{
    lemma_pow_mod_zero(852, 853);
    lemma_window(852, 853, 0, 2, 1, 1, 1, 1, 1, 1);
    lemma_power_853_over_2();
    lemma_pow_mod_multiplies(2, 426, 2, 853);
}

/// 853 is a prime, and the order of 2 modulo it is the prime less one.
pub proof fn lemma_prime_853()
    ensures
        is_field_modulus(853),
        is_order(2, 853, 852),
        forall|x: nat| 0 < x < 853 ==> #[trigger] pow_mod(x, 852, 853) == 1,
{
    lemma_prime_2();
    lemma_prime_3();
    lemma_prime_71();
    lemma_power_853_full();
    lemma_power_853_over_2();
    lemma_power_853_over_3();
    lemma_power_853_over_71();
    let s = lemma_cofactor(2, 853, 852);
    if s % 2 == 0 {
        lemma_cofactor_prime(2, 853, 852, s, 2);
    }
    if s % 3 == 0 {
        lemma_cofactor_prime(2, 853, 852, s, 3);
    }
    if s % 71 == 0 {
        lemma_cofactor_prime(2, 853, 852, s, 71);
    }
    lemma_strip_prime(s, 2, 426);
    lemma_strip_prime(s, 2, 213);
    lemma_strip_prime(s, 3, 71);
    lemma_strip_prime(s, 71, 1);
    if s > 1 {
        lemma_small_mod(1, s);
    }
    lemma_generator_field(2, 853);
}

/// The power of 2 to 639533339 less one over the product of its prime factors from 2 to 1637.
pub proof fn lemma_power_639533339_over_2_to_1637()
    ensures
        pow_mod(2, 1, 639533339) == 2,
{
    lemma_pow_mod_zero(2, 639533339);
    lemma_window(2, 639533339, 0, 1, 1, 1, 1, 1, 1, 2);
}

/// The power of 2 to 639533339 less one over the product of its prime factors from 2 to 853.
pub proof fn lemma_power_639533339_over_2_to_853()
    ensures
        pow_mod(2, 1637, 639533339) == 205657841,
{
    lemma_pow_mod_zero(2, 639533339);
    lemma_window(2, 639533339, 0, 6, 1, 1, 1, 1, 1, 64);
    lemma_window(2, 639533339, 6, 6, 64, 4096, 16777216, 365883281, 118147666, 526583895);
    lemma_window(
        2,
        639533339,
        102,
        5,
        526583895,
        214402335,
        540677039,
        433298919,
        586003896,
        205657841,
    );
    lemma_power_639533339_over_2_to_1637();
    lemma_pow_mod_multiplies(2, 1, 1637, 639533339);
}

/// The power of 2 to 639533339 less one over the product of its prime factors from 2 to 229.
pub proof fn lemma_power_639533339_over_2_to_229()
    ensures
        pow_mod(2, 1396361, 639533339) == 606410667,
{
    lemma_pow_mod_zero(205657841, 639533339);
    lemma_window(205657841, 639533339, 0, 3, 1, 1, 1, 1, 1, 413681120);
    lemma_window(
        205657841,
        639533339,
        3,
        5,
        413681120,
        301716892,
        356462766,
        341022230,
        45182606,
        343534298,
    );
    lemma_window(
        205657841,
        639533339,
        53,
        5,
        343534298,
        526058647,
        140200945,
        305325832,
        195470299,
        606410667,
    );
    lemma_power_639533339_over_2_to_853();
    lemma_pow_mod_multiplies(2, 1637, 853, 639533339);
}

/// The power of 2 to 639533339 less one over 2.
pub proof fn lemma_power_639533339_over_2()
    ensures
        pow_mod(2, 319766669, 639533339) == 639533338,
{
    lemma_pow_mod_zero(606410667, 639533339);
    lemma_window(606410667, 639533339, 0, 14, 1, 1, 1, 1, 1, 509743148);
    lemma_window(
        606410667,
        639533339,
        14,
        5,
        509743148,
        65888171,
        284459035,
        306356344,
        214972485,
        639533338,
    );
    lemma_power_639533339_over_2_to_229();
    lemma_pow_mod_multiplies(2, 1396361, 229, 639533339);
}

/// The power of 2 to 639533339 less one over 229.
pub proof fn lemma_power_639533339_over_229()
    ensures
        pow_mod(2, 2792722, 639533339) == 271298491,
{
    lemma_pow_mod_zero(606410667, 639533339);
    lemma_window(606410667, 639533339, 0, 2, 1, 1, 1, 1, 1, 271298491);
    lemma_power_639533339_over_2_to_229();
    lemma_pow_mod_multiplies(2, 1396361, 2, 639533339);
}

/// The power of 2 to 639533339 less one over 853.
pub proof fn lemma_power_639533339_over_853()
    ensures
        pow_mod(2, 749746, 639533339) == 256057581,
{
    lemma_pow_mod_zero(205657841, 639533339);
    lemma_window(205657841, 639533339, 0, 1, 1, 1, 1, 1, 1, 205657841);
    lemma_window(
        205657841,
        639533339,
        1,
        12,
        205657841,
        305353071,
        215961726,
        563244138,
        374782512,
        131870377,
    );
    lemma_window(
        205657841,
        639533339,
        28,
        10,
        131870377,
        368104292,
        447799426,
        95491461,
        567517839,
        256057581,
    );
    lemma_power_639533339_over_2_to_853();
    lemma_pow_mod_multiplies(2, 1637, 458, 639533339);
}

/// The power of 2 to 639533339 less one over 1637.
pub proof fn lemma_power_639533339_over_1637()
    ensures
        pow_mod(2, 390674, 639533339) == 248876995,
{
    lemma_pow_mod_zero(2, 639533339);
    lemma_window(2, 639533339, 0, 5, 1, 1, 1, 1, 1, 32);
    lemma_window(2, 639533339, 5, 15, 32, 1024, 1048576, 153818035, 504418891, 59073833);
    lemma_window(
        2,
        639533339,
        95,
        6,
        59073833,
        476657471,
        69760507,
        33309888,
        504607918,
        318239802,
    );
    lemma_window(
        2,
        639533339,
        1526,
        1,
        318239802,
        385225236,
        600418699,
        94973239,
        587162343,
        534791347,
    );
    lemma_window(
        2,
        639533339,
        24417,
        2,
        534791347,
        631252479,
        598665342,
        61793050,
        541869253,
        248876995,
    );
    lemma_power_639533339_over_2_to_1637();
    lemma_pow_mod_multiplies(2, 1, 390674, 639533339);
}

/// The power of 2 to 639533339 less one is one.
pub proof fn lemma_power_639533339_full()
    ensures
        pow_mod(2, 639533338, 639533339) == 1,
{
    lemma_pow_mod_zero(639533338, 639533339);
    lemma_window(639533338, 639533339, 0, 2, 1, 1, 1, 1, 1, 1);
    lemma_power_639533339_over_2();
    lemma_pow_mod_multiplies(2, 319766669, 2, 639533339);
}

/// 639533339 is a prime, and the order of 2 modulo it is the prime less one.
pub proof fn lemma_prime_639533339()
    ensures
        is_field_modulus(639533339),
        is_order(2, 639533339, 639533338),
        forall|x: nat| 0 < x < 639533339 ==> #[trigger] pow_mod(x, 639533338, 639533339) == 1,
{
    lemma_prime_2();
    lemma_prime_229();
    lemma_prime_853();
    lemma_prime_1637();
    lemma_power_639533339_full();
    lemma_power_639533339_over_2();
    lemma_power_639533339_over_229();
    lemma_power_639533339_over_853();
    lemma_power_639533339_over_1637();
    let s = lemma_cofactor(2, 639533339, 639533338);
    if s % 2 == 0 {
        lemma_cofactor_prime(2, 639533339, 639533338, s, 2);
    }
    if s % 229 == 0 {
        lemma_cofactor_prime(2, 639533339, 639533338, s, 229);
    }
    if s % 853 == 0 {
        lemma_cofactor_prime(2, 639533339, 639533338, s, 853);
    }
    if s % 1637 == 0 {
        lemma_cofactor_prime(2, 639533339, 639533338, s, 1637);
    }
    lemma_strip_prime(s, 2, 319766669);
    lemma_strip_prime(s, 229, 1396361);
    lemma_strip_prime(s, 853, 1637);
    lemma_strip_prime(s, 1637, 1);
    if s > 1 {
        lemma_small_mod(1, s);
    }
    lemma_generator_field(2, 639533339);
}

/// The power of 5 to 65865678001877903 less one over the product of its prime factors from 2 to
/// 639533339.
pub proof fn lemma_power_of_56_bits_over_2_to_639533339()
    ensures
        pow_mod(5, 1, 65865678001877903) == 5,
{
    lemma_pow_mod_zero(5, 65865678001877903);
    lemma_window(5, 65865678001877903, 0, 1, 1, 1, 1, 1, 1, 5);
}

/// The power of 5 to 65865678001877903 less one over the product of its prime factors from 2 to
/// 1637.
pub proof fn lemma_power_of_56_bits_over_2_to_1637()
    ensures
        pow_mod(5, 639533339, 65865678001877903) == 14291333922002103,
{
    lemma_pow_mod_zero(5, 65865678001877903);
    lemma_window(5, 65865678001877903, 0, 2, 1, 1, 1, 1, 1, 25);
    lemma_window(
        5,
        65865678001877903,
        2,
        6,
        25,
        625,
        390625,
        152587890625,
        8251469137325446,
        30073421035037579,
    );
    lemma_window(
        5,
        65865678001877903,
        38,
        1,
        30073421035037579,
        27629831272661539,
        48324055208724978,
        13254792146927291,
        6106018968392023,
        30530094841960115,
    );
    lemma_window(
        5,
        65865678001877903,
        609,
        14,
        30530094841960115,
        38007383330716400,
        7299894920990190,
        14883779311669715,
        63816084684961265,
        64485061175004322,
    );
    lemma_window(
        5,
        65865678001877903,
        9758,
        8,
        64485061175004322,
        12432936627775914,
        22012591789491617,
        53257185684606217,
        22292266297933565,
        12831036026906204,
    );
    lemma_window(
        5,
        65865678001877903,
        156136,
        1,
        12831036026906204,
        59213603158558926,
        22361109540716760,
        19206524017659335,
        60938620228613599,
        41230389135556383,
    );
    lemma_window(
        5,
        65865678001877903,
        2498177,
        1,
        41230389135556383,
        65416446574376534,
        51027437410397637,
        48267802027446870,
        38512355457960381,
        60830421286046099,
    );
    lemma_window(
        5,
        65865678001877903,
        39970833,
        11,
        60830421286046099,
        17605239238527262,
        20618711437986014,
        46440002502365857,
        50471664498928020,
        14291333922002103,
    );
    lemma_power_of_56_bits_over_2_to_639533339();
    lemma_pow_mod_multiplies(5, 1, 639533339, 65865678001877903);
}

/// The power of 5 to 65865678001877903 less one over the product of its prime factors from 2 to
/// 379.
pub proof fn lemma_power_of_56_bits_over_2_to_379()
    ensures
        pow_mod(5, 1046916075943, 65865678001877903) == 4503656306096617,
{
    lemma_pow_mod_zero(14291333922002103, 65865678001877903);
    lemma_window(14291333922002103, 65865678001877903, 0, 6, 1, 1, 1, 1, 1, 25373950600978450);
    lemma_window(
        14291333922002103,
        65865678001877903,
        6,
        6,
        25373950600978450,
        33184050029053925,
        41702363247439054,
        30123062262285383,
        34147754791185972,
        42567227274949442,
    );
    lemma_window(
        14291333922002103,
        65865678001877903,
        102,
        5,
        42567227274949442,
        13826463539348091,
        24891683980255430,
        47367038960799794,
        17643115352803064,
        4503656306096617,
    );
    lemma_power_of_56_bits_over_2_to_1637();
    lemma_pow_mod_multiplies(5, 639533339, 1637, 65865678001877903);
}

/// The power of 5 to 65865678001877903 less one over the product of its prime factors from 2 to
/// 83.
pub proof fn lemma_power_of_56_bits_over_2_to_83()
    ensures
        pow_mod(5, 396781192782397, 65865678001877903) == 37873930659347893,
{
    lemma_pow_mod_zero(4503656306096617, 65865678001877903);
    lemma_window(4503656306096617, 65865678001877903, 0, 1, 1, 1, 1, 1, 1, 4503656306096617);
    lemma_window(
        4503656306096617,
        65865678001877903,
        1,
        7,
        4503656306096617,
        55498337682647256,
        26286003839153130,
        57365334956120303,
        46384288287128923,
        47189099659014917,
    );
    lemma_window(
        4503656306096617,
        65865678001877903,
        23,
        11,
        47189099659014917,
        14730199984016515,
        59238927016395860,
        21326047196992143,
        56473702517188281,
        37873930659347893,
    );
    lemma_power_of_56_bits_over_2_to_379();
    lemma_pow_mod_multiplies(5, 1046916075943, 379, 65865678001877903);
}

/// The power of 5 to 65865678001877903 less one over 2.
pub proof fn lemma_power_of_56_bits_over_2()
    ensures
        pow_mod(5, 32932839000938951, 65865678001877903) == 65865678001877902,
{
    lemma_pow_mod_zero(37873930659347893, 65865678001877903);
    lemma_window(37873930659347893, 65865678001877903, 0, 5, 1, 1, 1, 1, 1, 51186071734802595);
    lemma_window(
        37873930659347893,
        65865678001877903,
        5,
        3,
        51186071734802595,
        40631110182125579,
        13041223202348937,
        52556889272359332,
        56035873352981854,
        65865678001877902,
    );
    lemma_power_of_56_bits_over_2_to_83();
    lemma_pow_mod_multiplies(5, 396781192782397, 83, 65865678001877903);
}

/// The power of 5 to 65865678001877903 less one over 83.
pub proof fn lemma_power_of_56_bits_over_83()
    ensures
        pow_mod(5, 793562385564794, 65865678001877903) == 46316002665751102,
{
    lemma_pow_mod_zero(37873930659347893, 65865678001877903);
    lemma_window(37873930659347893, 65865678001877903, 0, 2, 1, 1, 1, 1, 1, 46316002665751102);
    lemma_power_of_56_bits_over_2_to_83();
    lemma_pow_mod_multiplies(5, 396781192782397, 2, 65865678001877903);
}

/// The power of 5 to 65865678001877903 less one over 379.
pub proof fn lemma_power_of_56_bits_over_379()
    ensures
        pow_mod(5, 173788068606538, 65865678001877903) == 43783936274874531,
{
    lemma_pow_mod_zero(4503656306096617, 65865678001877903);
    lemma_window(4503656306096617, 65865678001877903, 0, 10, 1, 1, 1, 1, 1, 31355098976861725);
    lemma_window(
        4503656306096617,
        65865678001877903,
        10,
        6,
        31355098976861725,
        61010207739039908,
        40952569957346649,
        31912478241370119,
        53325058168823939,
        43783936274874531,
    );
    lemma_power_of_56_bits_over_2_to_379();
    lemma_pow_mod_multiplies(5, 1046916075943, 166, 65865678001877903);
}

/// The power of 5 to 65865678001877903 less one over 1637.
pub proof fn lemma_power_of_56_bits_over_1637()
    ensures
        pow_mod(5, 40235600489846, 65865678001877903) == 56641079936670322,
{
    lemma_pow_mod_zero(14291333922002103, 65865678001877903);
    lemma_window(14291333922002103, 65865678001877903, 0, 15, 1, 1, 1, 1, 1, 38558723534680936);
    lemma_window(
        14291333922002103,
        65865678001877903,
        15,
        5,
        38558723534680936,
        48124931700395596,
        54637196778004811,
        10749621512825937,
        48065817635724418,
        62637538590507371,
    );
    lemma_window(
        14291333922002103,
        65865678001877903,
        245,
        12,
        62637538590507371,
        3814621084274757,
        59613314840122371,
        36345995139046957,
        60244154575913822,
        36160604393642850,
    );
    lemma_window(
        14291333922002103,
        65865678001877903,
        3932,
        2,
        36160604393642850,
        57335097597647668,
        36522815551558718,
        10426054599626198,
        6864974110855342,
        56641079936670322,
    );
    lemma_power_of_56_bits_over_2_to_1637();
    lemma_pow_mod_multiplies(5, 639533339, 62914, 65865678001877903);
}

/// The power of 5 to 65865678001877903 less one over 639533339.
pub proof fn lemma_power_of_56_bits_over_639533339()
    ensures
        pow_mod(5, 102990218, 65865678001877903) == 18968088485270649,
{
    lemma_pow_mod_zero(5, 65865678001877903);
    lemma_window(5, 65865678001877903, 0, 6, 1, 1, 1, 1, 1, 15625);
    lemma_window(
        5,
        65865678001877903,
        6,
        2,
        15625,
        244140625,
        59604644775390625,
        47011191554607101,
        31728350390582764,
        2820623742034264,
    );
    lemma_window(
        5,
        65865678001877903,
        98,
        3,
        2820623742034264,
        36958267116560625,
        19443937378550312,
        64431849728014941,
        21994911418378006,
        48871129220256727,
    );
    lemma_window(
        5,
        65865678001877903,
        1571,
        8,
        48871129220256727,
        55810708460217357,
        49963859703945077,
        20383310682451117,
        55835925589799677,
        16088617646272899,
    );
    lemma_window(
        5,
        65865678001877903,
        25144,
        1,
        16088617646272899,
        2959556363947370,
        33250967539168916,
        18112088975442417,
        61497113096425472,
        44022853474615748,
    );
    lemma_window(
        5,
        65865678001877903,
        402305,
        8,
        44022853474615748,
        35127974760099684,
        41552499532774289,
        2662231514187835,
        25947917066560118,
        33513450061234789,
    );
    lemma_window(
        5,
        65865678001877903,
        6436888,
        10,
        33513450061234789,
        42061549608194954,
        11979501848594666,
        57841469132755332,
        40872667891301848,
        18968088485270649,
    );
    lemma_power_of_56_bits_over_2_to_639533339();
    lemma_pow_mod_multiplies(5, 1, 102990218, 65865678001877903);
}

/// The power of 5 to 65865678001877903 less one is one.
pub proof fn lemma_power_of_56_bits_full()
    ensures
        pow_mod(5, 65865678001877902, 65865678001877903) == 1,
{
    lemma_pow_mod_zero(65865678001877902, 65865678001877903);
    lemma_window(65865678001877902, 65865678001877903, 0, 2, 1, 1, 1, 1, 1, 1);
    lemma_power_of_56_bits_over_2();
    lemma_pow_mod_multiplies(5, 32932839000938951, 2, 65865678001877903);
}

/// 65865678001877903 is a prime, and the order of 5 modulo it is the prime less one.
pub proof fn lemma_prime_of_56_bits()
    ensures
        is_field_modulus(65865678001877903),
        is_order(5, 65865678001877903, 65865678001877902),
        forall|x: nat|
            0 < x < 65865678001877903 ==> #[trigger] pow_mod(
                x,
                65865678001877902,
                65865678001877903,
            ) == 1,
{
    lemma_prime_2();
    lemma_prime_83();
    lemma_prime_379();
    lemma_prime_1637();
    lemma_prime_639533339();
    lemma_power_of_56_bits_full();
    lemma_power_of_56_bits_over_2();
    lemma_power_of_56_bits_over_83();
    lemma_power_of_56_bits_over_379();
    lemma_power_of_56_bits_over_1637();
    lemma_power_of_56_bits_over_639533339();
    let s = lemma_cofactor(5, 65865678001877903, 65865678001877902);
    if s % 2 == 0 {
        lemma_cofactor_prime(5, 65865678001877903, 65865678001877902, s, 2);
    }
    if s % 83 == 0 {
        lemma_cofactor_prime(5, 65865678001877903, 65865678001877902, s, 83);
    }
    if s % 379 == 0 {
        lemma_cofactor_prime(5, 65865678001877903, 65865678001877902, s, 379);
    }
    if s % 1637 == 0 {
        lemma_cofactor_prime(5, 65865678001877903, 65865678001877902, s, 1637);
    }
    if s % 639533339 == 0 {
        lemma_cofactor_prime(5, 65865678001877903, 65865678001877902, s, 639533339);
    }
    lemma_strip_prime(s, 2, 32932839000938951);
    lemma_strip_prime(s, 83, 396781192782397);
    lemma_strip_prime(s, 379, 1046916075943);
    lemma_strip_prime(s, 1637, 639533339);
    lemma_strip_prime(s, 639533339, 1);
    if s > 1 {
        lemma_small_mod(1, s);
    }
    lemma_generator_field(5, 65865678001877903);
}

/// The power of 3 to 0x2ca6487cfcd795e8729527e1 less one over the product of its prime factors
/// from 2 to 65865678001877903.
pub proof fn lemma_power_of_94_bits_over_2_to_of_56_bits()
    ensures
        pow_mod(3, 16, 0x2ca6487cfcd795e8729527e1nat) == 43046721,
{
    lemma_pow_mod_zero(3, 0x2ca6487cfcd795e8729527e1nat);
    lemma_window(3, 0x2ca6487cfcd795e8729527e1nat, 0, 1, 1, 1, 1, 1, 1, 3);
    lemma_window(3, 0x2ca6487cfcd795e8729527e1nat, 1, 0, 3, 9, 81, 6561, 43046721, 43046721);
}

/// The power of 3 to 0x2ca6487cfcd795e8729527e1 less one over the product of its prime factors
/// from 2 to 1593227.
pub proof fn lemma_power_of_94_bits_over_2_to_1593227()
    ensures
        pow_mod(3, 1053850848030046448, 0x2ca6487cfcd795e8729527e1nat)
            == 0x165aa44249f3bfc444765cfcnat,
{
    lemma_pow_mod_zero(43046721, 0x2ca6487cfcd795e8729527e1nat);
    lemma_window(
        43046721,
        0x2ca6487cfcd795e8729527e1nat,
        0,
        14,
        1,
        1,
        1,
        1,
        1,
        0x667ce83f9be6cc261b986d0nat,
    );
    lemma_window(
        43046721,
        0x2ca6487cfcd795e8729527e1nat,
        14,
        10,
        0x667ce83f9be6cc261b986d0nat,
        0x23a8b2a35d1179e2683f4bednat,
        0x28387e84dcfefcee03ffc64cnat,
        0x3b0fdc862281fe13057bdfbnat,
        0x175339a8a0f3760b7db054cfnat,
        0x11522e46ad998fbad8fb15a6nat,
    );
    lemma_window(
        43046721,
        0x2ca6487cfcd795e8729527e1nat,
        234,
        0,
        0x11522e46ad998fbad8fb15a6nat,
        0x7c49826cc53036067b3ae40nat,
        0x6b3019fa5a28f27d129485dnat,
        0x2b44f9fd69298ad02bc96877nat,
        0x2481bcfb2183a1af0207b97nat,
        0x2481bcfb2183a1af0207b97nat,
    );
    lemma_window(
        43046721,
        0x2ca6487cfcd795e8729527e1nat,
        3744,
        0,
        0x2481bcfb2183a1af0207b97nat,
        0x1468320ca37f90dcd71ed681nat,
        0x18146758ccd1d87483bb06aanat,
        0x2621af098480cc5343a96e90nat,
        0x21ced2d222eb89fdd1702c84nat,
        0x21ced2d222eb89fdd1702c84nat,
    );
    lemma_window(
        43046721,
        0x2ca6487cfcd795e8729527e1nat,
        59904,
        7,
        0x21ced2d222eb89fdd1702c84nat,
        0x1c162448c976fbab6339ea0enat,
        0xcac3f5de8ba5934cb0c80e2nat,
        0x291b41fcaaac0ab69b52ec10nat,
        0x2710a8699e4eb12185111427nat,
        0x217e5d90fb43128939e3558anat,
    );
    lemma_window(
        43046721,
        0x2ca6487cfcd795e8729527e1nat,
        958471,
        12,
        0x217e5d90fb43128939e3558anat,
        0x2a8f0c7f073c84342a18a715nat,
        0xb527e801a7aac89e1ca4ffdnat,
        0x125be52936f597e00b541487nat,
        0x205c9685f8c7fe3cf13fb9danat,
        0xe1958a124979d5836d19012nat,
    );
    lemma_window(
        43046721,
        0x2ca6487cfcd795e8729527e1nat,
        15335548,
        3,
        0xe1958a124979d5836d19012nat,
        0x7529b0395dbbfe7e950a368nat,
        0xdfa6d4ef4b242d9ed16e657nat,
        0xddf6f5cbe22ec58d89c3438nat,
        0x5792bc6a100bcc3bd27a31enat,
        0x271d3fb252c58dde64595a10nat,
    );
    lemma_window(
        43046721,
        0x2ca6487cfcd795e8729527e1nat,
        245368771,
        4,
        0x271d3fb252c58dde64595a10nat,
        0x501d21102cfc220771255cbnat,
        0x2b4a2c9ac5764f550631d9e9nat,
        0x609234d5d35087977d6c613nat,
        0x286c6aaf34a38d139a92faa3nat,
        0x28d0a259a0eac77c6e94c306nat,
    );
    lemma_window(
        43046721,
        0x2ca6487cfcd795e8729527e1nat,
        3925900340,
        3,
        0x28d0a259a0eac77c6e94c306nat,
        0x25fe1b96b65c0f812ca8ba28nat,
        0x199f40290317b3d6ac2d91cnat,
        0x17f4ca0a716a8194304e51b2nat,
        0x251468d60ce248f600866bbnat,
        0x1351dbc260ee74c01548a24dnat,
    );
    lemma_window(
        43046721,
        0x2ca6487cfcd795e8729527e1nat,
        62814405443,
        1,
        0x1351dbc260ee74c01548a24dnat,
        0x17e41341d2bafef14b55528cnat,
        0xe8101d9f4b16a1d435f9645nat,
        0x1830ca967e0efe59f03a1695nat,
        0x1dee25cd830e666694151359nat,
        0x95793daba1bcb5a25cf5d81nat,
    );
    lemma_window(
        43046721,
        0x2ca6487cfcd795e8729527e1nat,
        1005030487089,
        3,
        0x95793daba1bcb5a25cf5d81nat,
        0x1e6df371cdc3f5f4e8e2c241nat,
        0x19d5c313a156420dd43f5822nat,
        0xf58587bae8a9d64c5aaf1e6nat,
        0x1508c3808dc85576155d6423nat,
        0x238e22e3f663c100433eeffbnat,
    );
    lemma_window(
        43046721,
        0x2ca6487cfcd795e8729527e1nat,
        16080487793427,
        3,
        0x238e22e3f663c100433eeffbnat,
        0xdce0fb27530cdcb8b6bf523nat,
        0x2166ea88147e3116a0b9b487nat,
        0x1aa2575527e6353d1a00d3c1nat,
        0x18d5566afc6a598c0bdc3a20nat,
        0xa9e19578a78fa30c9aa5edfnat,
    );
    lemma_window(
        43046721,
        0x2ca6487cfcd795e8729527e1nat,
        257287804694835,
        8,
        0xa9e19578a78fa30c9aa5edfnat,
        0x34d58a69c0a6e169a7beeb6nat,
        0x2a01ad2fca57a7a123a3dd54nat,
        0x1cc4a67d7883f61fd85a91bcnat,
        0x1b3371e3ba9e2030d8371918nat,
        0x5fe4cfaf36c97b5b14e9c4dnat,
    );
    lemma_window(
        43046721,
        0x2ca6487cfcd795e8729527e1nat,
        4116604875117368,
        15,
        0x5fe4cfaf36c97b5b14e9c4dnat,
        0x22fd795d6ee348ff61d2dfafnat,
        0x1a0372937310be6c0bdcfae1nat,
        0x20ba52b4327d3770fc935f9enat,
        0x9d0402304cae9028982273nat,
        0x165aa44249f3bfc444765cfcnat,
    );
    lemma_power_of_94_bits_over_2_to_of_56_bits();
    lemma_pow_mod_multiplies(3, 16, 65865678001877903, 0x2ca6487cfcd795e8729527e1nat);
}

/// The power of 3 to 0x2ca6487cfcd795e8729527e1 less one over the product of its prime factors
/// from 2 to 823.
pub proof fn lemma_power_of_94_bits_over_2_to_823()
    ensures
        pow_mod(3, 0x1638c0d97c285b081fa50nat, 0x2ca6487cfcd795e8729527e1nat)
            == 0x1e1d11c908918c55596b78bfnat,
{
    lemma_pow_mod_zero(0x165aa44249f3bfc444765cfcnat, 0x2ca6487cfcd795e8729527e1nat);
    lemma_window(
        0x165aa44249f3bfc444765cfcnat,
        0x2ca6487cfcd795e8729527e1nat,
        0,
        1,
        1,
        1,
        1,
        1,
        1,
        0x165aa44249f3bfc444765cfcnat,
    );
    lemma_window(
        0x165aa44249f3bfc444765cfcnat,
        0x2ca6487cfcd795e8729527e1nat,
        1,
        8,
        0x165aa44249f3bfc444765cfcnat,
        0x1176baa7a9b850aa86fe6ae7nat,
        0x271620e004895328af76e5canat,
        0x5e2cb554699da7d3e58310fnat,
        0x20cc1752a107b547c3afb3cenat,
        0x298f0e1e0da310fb0ade4707nat,
    );
    lemma_window(
        0x165aa44249f3bfc444765cfcnat,
        0x2ca6487cfcd795e8729527e1nat,
        24,
        4,
        0x298f0e1e0da310fb0ade4707nat,
        0x1bdeed47546f4cda63dab028nat,
        0xea57037df10dc9acc371ee3nat,
        0x1d94a7395e09a6b180ad6246nat,
        0x13c995236970a285dc32c4f6nat,
        0x208e273df1483ddf25dc6563nat,
    );
    lemma_window(
        0x165aa44249f3bfc444765cfcnat,
        0x2ca6487cfcd795e8729527e1nat,
        388,
        15,
        0x208e273df1483ddf25dc6563nat,
        0x1498993ae716e2b70144abb8nat,
        0xeb3e91ee6f14062ab535a7nat,
        0x2b8c016bcb3f728fc6636faenat,
        0x1a65e09a12353369e9b2d8banat,
        0x2a0c7e077d34842a6f57282enat,
    );
    lemma_window(
        0x165aa44249f3bfc444765cfcnat,
        0x2ca6487cfcd795e8729527e1nat,
        6223,
        8,
        0x2a0c7e077d34842a6f57282enat,
        0xa5d1c725374a421aec7156fnat,
        0x1d5562d3ec093866a748424dnat,
        0xd5812f2b84bc77409536ea8nat,
        0x212da7c4346d902b21e5dd1fnat,
        0x6b9ba9dfc52fe0a3a4c7e2dnat,
    );
    lemma_window(
        0x165aa44249f3bfc444765cfcnat,
        0x2ca6487cfcd795e8729527e1nat,
        99576,
        11,
        0x6b9ba9dfc52fe0a3a4c7e2dnat,
        0x287b977088ed532d7933b76dnat,
        0x295e903478c6ee24a3d8aaafnat,
        0xacf14b82f2e020101b6632nat,
        0x1f734a9c622f52efcd551f35nat,
        0x1e1d11c908918c55596b78bfnat,
    );
    lemma_power_of_94_bits_over_2_to_1593227();
    lemma_pow_mod_multiplies(3, 1053850848030046448, 1593227, 0x2ca6487cfcd795e8729527e1nat);
}

/// The power of 3 to 0x2ca6487cfcd795e8729527e1 less one over the product of its prime factors
/// from 2 to 5.
pub proof fn lemma_power_of_94_bits_over_2_to_5()
    ensures
        pow_mod(3, 0x477073fb2e25bca71dbb730nat, 0x2ca6487cfcd795e8729527e1nat)
            == 0x1a55a561299dcc70b5d14058nat,
{
    lemma_pow_mod_zero(0x1e1d11c908918c55596b78bfnat, 0x2ca6487cfcd795e8729527e1nat);
    lemma_window(
        0x1e1d11c908918c55596b78bfnat,
        0x2ca6487cfcd795e8729527e1nat,
        0,
        3,
        1,
        1,
        1,
        1,
        1,
        0x7e2764d5104bd2847a2bcb4nat,
    );
    lemma_window(
        0x1e1d11c908918c55596b78bfnat,
        0x2ca6487cfcd795e8729527e1nat,
        3,
        3,
        0x7e2764d5104bd2847a2bcb4nat,
        0x134af849ab3f6fe55fb58f62nat,
        0x1c1d34401532e2270cac4018nat,
        0x65660fcce1b0b0d6aa139ebnat,
        0x1e3fec32434efc2ade794fb0nat,
        0x91f6eae964b05e5e44516d0nat,
    );
    lemma_window(
        0x1e1d11c908918c55596b78bfnat,
        0x2ca6487cfcd795e8729527e1nat,
        51,
        7,
        0x91f6eae964b05e5e44516d0nat,
        0x2b855aa177f0ab8f61004a7fnat,
        0x2286bf95f38a0267cc761520nat,
        0x11a2c9d769666b3bd15330a5nat,
        0x49f73ac656408d102422eafnat,
        0x1a55a561299dcc70b5d14058nat,
    );
    lemma_power_of_94_bits_over_2_to_823();
    lemma_pow_mod_multiplies(3, 0x1638c0d97c285b081fa50nat, 823, 0x2ca6487cfcd795e8729527e1nat);
}

/// The power of 3 to 0x2ca6487cfcd795e8729527e1 less one over 2.
pub proof fn lemma_power_of_94_bits_over_2()
    ensures
        pow_mod(3, 0x1653243e7e6bcaf4394a93f0nat, 0x2ca6487cfcd795e8729527e1nat)
            == 0x2ca6487cfcd795e8729527e0nat,
{
    lemma_pow_mod_zero(0x1a55a561299dcc70b5d14058nat, 0x2ca6487cfcd795e8729527e1nat);
    lemma_window(
        0x1a55a561299dcc70b5d14058nat,
        0x2ca6487cfcd795e8729527e1nat,
        0,
        5,
        1,
        1,
        1,
        1,
        1,
        0x2ca6487cfcd795e8729527e0nat,
    );
    lemma_power_of_94_bits_over_2_to_5();
    lemma_pow_mod_multiplies(3, 0x477073fb2e25bca71dbb730nat, 5, 0x2ca6487cfcd795e8729527e1nat);
}

/// The power of 3 to 0x2ca6487cfcd795e8729527e1 less one over 5.
pub proof fn lemma_power_of_94_bits_over_5()
    ensures
        pow_mod(3, 0x8ee0e7f65c4b794e3b76e60nat, 0x2ca6487cfcd795e8729527e1nat)
            == 0x3fea8cdf53cd0efe0e0ca20nat,
{
    lemma_pow_mod_zero(0x1a55a561299dcc70b5d14058nat, 0x2ca6487cfcd795e8729527e1nat);
    lemma_window(
        0x1a55a561299dcc70b5d14058nat,
        0x2ca6487cfcd795e8729527e1nat,
        0,
        2,
        1,
        1,
        1,
        1,
        1,
        0x3fea8cdf53cd0efe0e0ca20nat,
    );
    lemma_power_of_94_bits_over_2_to_5();
    lemma_pow_mod_multiplies(3, 0x477073fb2e25bca71dbb730nat, 2, 0x2ca6487cfcd795e8729527e1nat);
}

/// The power of 3 to 0x2ca6487cfcd795e8729527e1 less one over 823.
pub proof fn lemma_power_of_94_bits_over_823()
    ensures
        pow_mod(3, 0xde37887ed9938e513c720nat, 0x2ca6487cfcd795e8729527e1nat)
            == 0x1d7cb1977076bb87fe23538nat,
{
    lemma_pow_mod_zero(0x1e1d11c908918c55596b78bfnat, 0x2ca6487cfcd795e8729527e1nat);
    lemma_window(
        0x1e1d11c908918c55596b78bfnat,
        0x2ca6487cfcd795e8729527e1nat,
        0,
        10,
        1,
        1,
        1,
        1,
        1,
        0x1d7cb1977076bb87fe23538nat,
    );
    lemma_power_of_94_bits_over_2_to_823();
    lemma_pow_mod_multiplies(3, 0x1638c0d97c285b081fa50nat, 10, 0x2ca6487cfcd795e8729527e1nat);
}

/// The power of 3 to 0x2ca6487cfcd795e8729527e1 less one over 1593227.
pub proof fn lemma_power_of_94_bits_over_1593227()
    ensures
        pow_mod(3, 0x1d62cb98f5e5bf873a0nat, 0x2ca6487cfcd795e8729527e1nat)
            == 0x1dd5908a1b1ad9e7882cace9nat,
{
    lemma_pow_mod_zero(0x165aa44249f3bfc444765cfcnat, 0x2ca6487cfcd795e8729527e1nat);
    lemma_window(
        0x165aa44249f3bfc444765cfcnat,
        0x2ca6487cfcd795e8729527e1nat,
        0,
        2,
        1,
        1,
        1,
        1,
        1,
        0x1176baa7a9b850aa86fe6ae7nat,
    );
    lemma_window(
        0x165aa44249f3bfc444765cfcnat,
        0x2ca6487cfcd795e8729527e1nat,
        2,
        0,
        0x1176baa7a9b850aa86fe6ae7nat,
        0x271620e004895328af76e5canat,
        0x5e2cb554699da7d3e58310fnat,
        0x20cc1752a107b547c3afb3cenat,
        0x1dacde78873646d86cc342a6nat,
        0x1dacde78873646d86cc342a6nat,
    );
    lemma_window(
        0x165aa44249f3bfc444765cfcnat,
        0x2ca6487cfcd795e8729527e1nat,
        32,
        2,
        0x1dacde78873646d86cc342a6nat,
        0x2b08bec6643200857820cccenat,
        0x269453bc092ef345281cb2bdnat,
        0x11dff673253ca14022762a94nat,
        0x153819dbe11a2eef1f8e0b05nat,
        0xcbebc38ec7cdfc245f7da77nat,
    );
    lemma_window(
        0x165aa44249f3bfc444765cfcnat,
        0x2ca6487cfcd795e8729527e1nat,
        514,
        6,
        0xcbebc38ec7cdfc245f7da77nat,
        0x1019eada9c2ae0dcd1a56f48nat,
        0x11e085fabd73740a4712cea3nat,
        0x23fdaab0ec05d796021b2c0bnat,
        0x1a94029ac3c97564b280bd51nat,
        0x1dd5908a1b1ad9e7882cace9nat,
    );
    lemma_power_of_94_bits_over_2_to_1593227();
    lemma_pow_mod_multiplies(3, 1053850848030046448, 8230, 0x2ca6487cfcd795e8729527e1nat);
}

/// The power of 3 to 0x2ca6487cfcd795e8729527e1 less one over 65865678001877903.
pub proof fn lemma_power_of_94_bits_over_of_56_bits()
    ensures
        pow_mod(3, 209796131360, 0x2ca6487cfcd795e8729527e1nat) == 0x25c2101b4d300dbbd9955009nat,
{
    lemma_pow_mod_zero(43046721, 0x2ca6487cfcd795e8729527e1nat);
    lemma_window(
        43046721,
        0x2ca6487cfcd795e8729527e1nat,
        0,
        3,
        1,
        1,
        1,
        1,
        1,
        0x10e425c56daffabc35c1nat,
    );
    lemma_window(
        43046721,
        0x2ca6487cfcd795e8729527e1nat,
        3,
        0,
        0x10e425c56daffabc35c1nat,
        0x279fe56cdd23ca462f52b141nat,
        0x2416eddb69c7a9c6dcddff1cnat,
        0x16d68e940f5dce0bfa847fc6nat,
        0x13f28e5ad6e5590718e586fenat,
        0x13f28e5ad6e5590718e586fenat,
    );
    lemma_window(
        43046721,
        0x2ca6487cfcd795e8729527e1nat,
        48,
        13,
        0x13f28e5ad6e5590718e586fenat,
        0x1e0c0d0ef44d78aa6c572d38nat,
        0x1a22afaaf979e6074acacadbnat,
        0xae4f7e70105fc564538f2dnat,
        0x167a6f5281672ccb7672b41enat,
        0x1adb523a46ac8aafe3094a4fnat,
    );
    lemma_window(
        43046721,
        0x2ca6487cfcd795e8729527e1nat,
        781,
        8,
        0x1adb523a46ac8aafe3094a4fnat,
        0x11e5ed929447b24132389badnat,
        0x1879c9563b588551f0d41f71nat,
        0x2b35e81a434bda6fd12c98fbnat,
        0x6591616b66cd7a61bab8ca7nat,
        0x125185ef6124647d4d017456nat,
    );
    lemma_window(
        43046721,
        0x2ca6487cfcd795e8729527e1nat,
        12504,
        13,
        0x125185ef6124647d4d017456nat,
        0x24fad68caff64e765edd5c97nat,
        0xe2c2c1e549e4115d7ae1414nat,
        0x1eef8208c04bd95b0f1267d3nat,
        0x2af6230cb41a32fa583f6fddnat,
        0x1c3b2b862c218e9af464a536nat,
    );
    lemma_window(
        43046721,
        0x2ca6487cfcd795e8729527e1nat,
        200077,
        2,
        0x1c3b2b862c218e9af464a536nat,
        0x6c36bdb8964a25b4a949f97nat,
        0xd836dcd9f5b58a1e23a6e7nat,
        0x158d425ae7aeddf426e26327nat,
        0xc54604dda669230bdc1d753nat,
        0xee7192d6d9215bdb86b393anat,
    );
    lemma_window(
        43046721,
        0x2ca6487cfcd795e8729527e1nat,
        3201234,
        14,
        0xee7192d6d9215bdb86b393anat,
        0xc9d105c11bfcc1dd47d5048nat,
        0x1a5855f044dacfcab9d0e645nat,
        0x1b73353547475cdbc6be37nat,
        0x25d0c77e2e508679b7b6e096nat,
        0x14dd6057ee7ba1dd25b5b4c7nat,
    );
    lemma_window(
        43046721,
        0x2ca6487cfcd795e8729527e1nat,
        51219758,
        10,
        0x14dd6057ee7ba1dd25b5b4c7nat,
        0x45f068f599f032880246ed1nat,
        0x266a7d558d6346de60e3dad7nat,
        0x3bcdbed63868c7768bf7787nat,
        0xe49a7ed8007dbeef57cb36bnat,
        0x245c3461c614835c40bf5440nat,
    );
    lemma_window(
        43046721,
        0x2ca6487cfcd795e8729527e1nat,
        819516138,
        2,
        0x245c3461c614835c40bf5440nat,
        0x1898ad40535f7eb62aed5764nat,
        0x10e15465499fdcf3686d3ac1nat,
        0x2b3d27feb531edac4376301cnat,
        0x13fa6ac98c06d9c006f1df4dnat,
        0x25c2101b4d300dbbd9955009nat,
    );
    lemma_power_of_94_bits_over_2_to_of_56_bits();
    lemma_pow_mod_multiplies(3, 16, 13112258210, 0x2ca6487cfcd795e8729527e1nat);
}

/// The power of 3 to 0x2ca6487cfcd795e8729527e1 less one is one.
pub proof fn lemma_power_of_94_bits_full()
    ensures
        pow_mod(3, 0x2ca6487cfcd795e8729527e0nat, 0x2ca6487cfcd795e8729527e1nat) == 1,
{
    lemma_pow_mod_zero(0x2ca6487cfcd795e8729527e0nat, 0x2ca6487cfcd795e8729527e1nat);
    lemma_window(
        0x2ca6487cfcd795e8729527e0nat,
        0x2ca6487cfcd795e8729527e1nat,
        0,
        2,
        1,
        1,
        1,
        1,
        1,
        1,
    );
    lemma_power_of_94_bits_over_2();
    lemma_pow_mod_multiplies(3, 0x1653243e7e6bcaf4394a93f0nat, 2, 0x2ca6487cfcd795e8729527e1nat);
}

/// 0x2ca6487cfcd795e8729527e1 is a prime, and the order of 3 modulo it is the prime less one.
pub proof fn lemma_prime_of_94_bits()
    ensures
        is_field_modulus(0x2ca6487cfcd795e8729527e1nat),
        is_order(3, 0x2ca6487cfcd795e8729527e1nat, 0x2ca6487cfcd795e8729527e0nat),
        forall|x: nat|
            0 < x < 0x2ca6487cfcd795e8729527e1nat ==> #[trigger] pow_mod(
                x,
                0x2ca6487cfcd795e8729527e0nat,
                0x2ca6487cfcd795e8729527e1nat,
            ) == 1,
{
    lemma_prime_2();
    lemma_prime_5();
    lemma_prime_823();
    lemma_prime_1593227();
    lemma_prime_of_56_bits();
    lemma_power_of_94_bits_full();
    lemma_power_of_94_bits_over_2();
    lemma_power_of_94_bits_over_5();
    lemma_power_of_94_bits_over_823();
    lemma_power_of_94_bits_over_1593227();
    lemma_power_of_94_bits_over_of_56_bits();
    let s = lemma_cofactor(3, 0x2ca6487cfcd795e8729527e1nat, 0x2ca6487cfcd795e8729527e0nat);
    if s % 2 == 0 {
        lemma_cofactor_prime(3, 0x2ca6487cfcd795e8729527e1nat, 0x2ca6487cfcd795e8729527e0nat, s, 2);
    }
    if s % 5 == 0 {
        lemma_cofactor_prime(3, 0x2ca6487cfcd795e8729527e1nat, 0x2ca6487cfcd795e8729527e0nat, s, 5);
    }
    if s % 823 == 0 {
        lemma_cofactor_prime(
            3,
            0x2ca6487cfcd795e8729527e1nat,
            0x2ca6487cfcd795e8729527e0nat,
            s,
            823,
        );
    }
    if s % 1593227 == 0 {
        lemma_cofactor_prime(
            3,
            0x2ca6487cfcd795e8729527e1nat,
            0x2ca6487cfcd795e8729527e0nat,
            s,
            1593227,
        );
    }
    if s % 65865678001877903 == 0 {
        lemma_cofactor_prime(
            3,
            0x2ca6487cfcd795e8729527e1nat,
            0x2ca6487cfcd795e8729527e0nat,
            s,
            65865678001877903,
        );
    }
    lemma_strip_prime(s, 2, 0x1653243e7e6bcaf4394a93f0nat);
    lemma_strip_prime(s, 2, 0xb29921f3f35e57a1ca549f8nat);
    lemma_strip_prime(s, 2, 0x594c90f9f9af2bd0e52a4fcnat);
    lemma_strip_prime(s, 2, 0x2ca6487cfcd795e8729527enat);
    lemma_strip_prime(s, 2, 0x1653243e7e6bcaf4394a93fnat);
    lemma_strip_prime(s, 5, 0x477073fb2e25bca71dbb73nat);
    lemma_strip_prime(s, 823, 0x1638c0d97c285b081fa5nat);
    lemma_strip_prime(s, 1593227, 65865678001877903);
    lemma_strip_prime(s, 65865678001877903, 1);
    if s > 1 {
        lemma_small_mod(1, s);
    }
    lemma_generator_field(3, 0x2ca6487cfcd795e8729527e1nat);
}

/// The power of 7 to the modulus less one over the product of its prime factors from 2 to
/// 0x2ca6487cfcd795e8729527e1.
pub proof fn lemma_power_modulus_over_2_to_of_94_bits()
    ensures
        pow_mod(7, 402653184, modulus())
            == 0x6b177e9279a9dca37aba88ddaf46351605e17b34ffe428e40262e4c3b90cb1anat,
{
    lemma_pow_mod_zero(7, modulus());
    lemma_window(7, modulus(), 0, 1, 1, 1, 1, 1, 1, 7);
    lemma_window(7, modulus(), 1, 8, 7, 49, 2401, 5764801, 33232930569601, 0xa62b942e656949441nat);
    lemma_window(
        7,
        modulus(),
        24,
        0,
        0xa62b942e656949441nat,
        0x6bdc8b9748e04a0d3856a612a36d033881nat,
        0x79c805e9d3d83805618b87a436bfe8a8c6d400229f3f47275f9762cd97dc097nat,
        0x1ac7f90772b86865734d9d943be0c069668fca96bd5c0722747fe4b4c47cb05bnat,
        0xd789cc9d73557fb36e2f87ac98ab742bc1c1d3e10d85a93f5ddd0a957266894nat,
        0xd789cc9d73557fb36e2f87ac98ab742bc1c1d3e10d85a93f5ddd0a957266894nat,
    );
    lemma_window(
        7,
        modulus(),
        384,
        0,
        0xd789cc9d73557fb36e2f87ac98ab742bc1c1d3e10d85a93f5ddd0a957266894nat,
        0x1e39c110736cf793bcf1f6cfb87009322c2180377a311edd01cd6b06a82b14f9nat,
        0x27705b0a5b13d2b8a3954e0aeabea8333c867267d4a941b0d8c47d4bcfa878danat,
        0x6ed48a595d9ca0577cf505232c0988c0f477e9917709166f0878d0def0ff436nat,
        0x1628cf75a708f2c43e5d1e2e7b436d6f4317ef66fc49255bc2b580a453c488e8nat,
        0x1628cf75a708f2c43e5d1e2e7b436d6f4317ef66fc49255bc2b580a453c488e8nat,
    );
    lemma_window(
        7,
        modulus(),
        6144,
        0,
        0x1628cf75a708f2c43e5d1e2e7b436d6f4317ef66fc49255bc2b580a453c488e8nat,
        0x2241efd9162fd29abcbb12d7c412011954811eab7ba946b804a2f8e4bd339cd3nat,
        0x19009e626606c00808072ba0aaffc5aa85239f83eadc68bc1fb581b159fcbaaanat,
        0xbb3046a3a8247d98b2d6068334a334a38ce8b763413a995ec4a6301f326cbd2nat,
        0xcdc75d7ca6ec4e4c10f0117dafdb90da471b04f0031593fe91ff7d7a7718896nat,
        0xcdc75d7ca6ec4e4c10f0117dafdb90da471b04f0031593fe91ff7d7a7718896nat,
    );
    lemma_window(
        7,
        modulus(),
        98304,
        0,
        0xcdc75d7ca6ec4e4c10f0117dafdb90da471b04f0031593fe91ff7d7a7718896nat,
        0xfac4f58baeefd3c6e37c8c3f6c9e55d035707d6af0cc856d2ad768e4d9fdc9bnat,
        0xdc0fdb0cfc3da69dbd5eb149551377de133ad14e40ba9f2ae40a453c015497enat,
        0x166c30857a4a424513799cfd707899d00a8148fe5a80027f6da17fd41c991562nat,
        0x20ebce3431cbdb28ba0efdd7d27caf6c633f4c8a59e7a0772f6cf7d8aa7c4f2dnat,
        0x20ebce3431cbdb28ba0efdd7d27caf6c633f4c8a59e7a0772f6cf7d8aa7c4f2dnat,
    );
    lemma_window(
        7,
        modulus(),
        1572864,
        0,
        0x20ebce3431cbdb28ba0efdd7d27caf6c633f4c8a59e7a0772f6cf7d8aa7c4f2dnat,
        0xa59eda67e617b4b7bf09b952b1b11190259e4d4f9756fe4c209fe2c8dd895c3nat,
        0x29617793ea2585fc125c4192021b440ad957c3344292b617e3ca6bb38c253588nat,
        0x3038c3703a82c4cc43a91c556ef0a2d4a548692d2182ccbd1041013744a5c082nat,
        0xa24829dcd1484e25e4407efb1ccbbab3b732774ff8082a6d1c10b27fc6053e3nat,
        0xa24829dcd1484e25e4407efb1ccbbab3b732774ff8082a6d1c10b27fc6053e3nat,
    );
    lemma_window(
        7,
        modulus(),
        25165824,
        0,
        0xa24829dcd1484e25e4407efb1ccbbab3b732774ff8082a6d1c10b27fc6053e3nat,
        0x200e92df84275eb85b0d3c8c0dbc7213a9038d40bf1dd46d854f5280fbd92733nat,
        0x1bf558bb73e32b418f9f98f6e0b2d8b22b3897bf3588686af705548e8c9c6b1dnat,
        0x3b56ce98a045c9e8e82af5dc57b35f73f58e1ffee82c33af5aff03ce7a3c2dbnat,
        0x6b177e9279a9dca37aba88ddaf46351605e17b34ffe428e40262e4c3b90cb1anat,
        0x6b177e9279a9dca37aba88ddaf46351605e17b34ffe428e40262e4c3b90cb1anat,
    );
}

/// The power of 7 to the modulus less one over the product of its prime factors from 2 to
/// 1670836401704629.
pub proof fn lemma_power_modulus_over_2_to_of_51_bits()
    ensures
        pow_mod(7, 0x42f96cbb7b4360dcabdfbbd18000000nat, modulus())
            == 0x12073afc015b8d5231352cc37ff54e557ae5fc1b69af85de95be45881486ea2anat,
{
    lemma_pow_mod_zero(
        0x6b177e9279a9dca37aba88ddaf46351605e17b34ffe428e40262e4c3b90cb1anat,
        modulus(),
    );
    lemma_window(
        0x6b177e9279a9dca37aba88ddaf46351605e17b34ffe428e40262e4c3b90cb1anat,
        modulus(),
        0,
        2,
        1,
        1,
        1,
        1,
        1,
        0x18afdf23e9bd9302673fc1e076a492d4d65bd18ebc4d854ed189139bab313e52nat,
    );
    lemma_window(
        0x6b177e9279a9dca37aba88ddaf46351605e17b34ffe428e40262e4c3b90cb1anat,
        modulus(),
        2,
        12,
        0x18afdf23e9bd9302673fc1e076a492d4d65bd18ebc4d854ed189139bab313e52nat,
        0xc700e936f498cfaff7ab722787c51d54dbe76b8dbb8e572533863af6c71421bnat,
        0x543fa4ce0e5f85d1f5cf149ea332d9b5a838b194915342a2c230c4a3d8848b6nat,
        0x6c1690445db049f1c30766cd40f3e4c24c50ddeae3d020c4c34756081ce6d60nat,
        0x20ee0bda1da2dbf7e42bf465da4ded6182b4f96d773a3f60b1ebec93086ce151nat,
        0x27b5573ca6efaa8edeb2776550147c97bfed0b77a62c6e6ede3c4af8978e8f7fnat,
    );
    lemma_window(
        0x6b177e9279a9dca37aba88ddaf46351605e17b34ffe428e40262e4c3b90cb1anat,
        modulus(),
        44,
        10,
        0x27b5573ca6efaa8edeb2776550147c97bfed0b77a62c6e6ede3c4af8978e8f7fnat,
        0x1ec3037aaadfb60327448f5e16a2942a1463e1ac3946fd7caa5759efa8ba2403nat,
        0x2bd0375b8119fa195d845b4c4182039317970d997d863ae41468b6631ad322cenat,
        0x1e02216194ff3dfbf4269c8d075237d1b16e5aaf5859543627145eec4909e758nat,
        0x103a7a71b7ca09b7e1a267b2a5de09138db0dc33bfbd027a3a4e3e16ae58716dnat,
        0x2372c29db26354829494834003c05f47d6a2d93e3ac706bbbdd84346b81b8baanat,
    );
    lemma_window(
        0x6b177e9279a9dca37aba88ddaf46351605e17b34ffe428e40262e4c3b90cb1anat,
        modulus(),
        714,
        6,
        0x2372c29db26354829494834003c05f47d6a2d93e3ac706bbbdd84346b81b8baanat,
        0x72554938254cda151f774b9318036792ad7cb5be8b05357df91a7e69e05cd57nat,
        0x1afc41d6767e71dda1240bd482d69fc0018b28518f81ade671efe4fb1367a6d2nat,
        0x1db9d7b23c7cd0aa753df03fa15bd0da8ec79c6f965590bbba98036dc78b93cdnat,
        0x27813195827b560025d9dd3d3e0007a4c47906e4ac1b4f826d0fa8f15b8b05d4nat,
        0x9d1f84566fe9595d5b1c89849873a16b252c72a6ad412e9f2629e5e07080a5dnat,
    );
    lemma_window(
        0x6b177e9279a9dca37aba88ddaf46351605e17b34ffe428e40262e4c3b90cb1anat,
        modulus(),
        11430,
        4,
        0x9d1f84566fe9595d5b1c89849873a16b252c72a6ad412e9f2629e5e07080a5dnat,
        0x2278981667ca5575840ede0aa2d3f5e617f2390cea76b4c189dd0456ae068bb7nat,
        0x12974909e49bfcb4dc9e219aa2d4168b02976785defe4a1595cde802b6ce6bb6nat,
        0xf7b77ec6b15058626961b306140a06861f76497ecaeb70d3fc424217c0df2e0nat,
        0x25ce5b34104885fca6ccd33f9e6058e53fe6e010446a6c96470f3622f24333ednat,
        0xcdf11876bc3979a3e687c0206c28277aaf42ef90f69513a9bb208f5a4d5ca0fnat,
    );
    lemma_window(
        0x6b177e9279a9dca37aba88ddaf46351605e17b34ffe428e40262e4c3b90cb1anat,
        modulus(),
        182884,
        8,
        0xcdf11876bc3979a3e687c0206c28277aaf42ef90f69513a9bb208f5a4d5ca0fnat,
        0x16a42d512260fd6ece249fefc631cf346447712a0eb301739831975f4fbbe312nat,
        0x306111774acba10b04dcf0b9073b5bb7b3150d0541a45266da30de7a7dc8d5f2nat,
        0x197edbde57147ea8e927753905e8afee36e74df09c1028fa9689d799ca26f5b6nat,
        0x1c3ae20a0ad804a74898c8722fe763710aa035e7f10e5b457090a2608026bae0nat,
        0x27557cbf1189911ba4f58bf6e30201df7b9da1d1aad2e4ff180a0aee474cb3a9nat,
    );
    lemma_window(
        0x6b177e9279a9dca37aba88ddaf46351605e17b34ffe428e40262e4c3b90cb1anat,
        modulus(),
        2926152,
        7,
        0x27557cbf1189911ba4f58bf6e30201df7b9da1d1aad2e4ff180a0aee474cb3a9nat,
        0x269949ebb0590f48041f7c660dc1da087a38192730255dcb50eea3de65c81086nat,
        0x1eda7b5a4aa8a59b4a0bd1b4d029fa04c8dfcec4cc2d79553ae8ed917a673280nat,
        0xb840588625b2cb1479ef423a4e290a745f048ece49377988791b6a773b652b7nat,
        0x1e5fc61477c11991b23b02b3df5d1dbaea9c6310ee7f33c50ceafe3125c0ce0nat,
        0x12e51d2853d47d503c6638bc9823e69b896af62df5739b520fb06642e0610f16nat,
    );
    lemma_window(
        0x6b177e9279a9dca37aba88ddaf46351605e17b34ffe428e40262e4c3b90cb1anat,
        modulus(),
        46818439,
        12,
        0x12e51d2853d47d503c6638bc9823e69b896af62df5739b520fb06642e0610f16nat,
        0x540e8a839ba5defbb5422a91422f172a8e818d57074d0a8ac49b3df8c36dd38nat,
        0x1669fcb518e9d9806c21486bb6532c7b96750d988c9db3f3c209ddd890db0335nat,
        0x2976c6acd22f36a5f2b6533fde2174cdc69389d9624755208e438d082f1f1516nat,
        0x1b598c5df1b2138aaa8c63f5e6775b37634e691f164619b50cb2a11d4a8482denat,
        0x1af5e173e5aed9149377d2bf4cd0708dbd118a585c107f11caeeb1f492d2ac9bnat,
    );
    lemma_window(
        0x6b177e9279a9dca37aba88ddaf46351605e17b34ffe428e40262e4c3b90cb1anat,
        modulus(),
        749095036,
        15,
        0x1af5e173e5aed9149377d2bf4cd0708dbd118a585c107f11caeeb1f492d2ac9bnat,
        0x6fd6ea9507b54ccf2bf9a4b985a8ab5af29a0d46a578ebb24a0f82c6fd7e0fenat,
        0xccc9224c1e259981216f88e89d73a43b26eb95af69a1b13604517960ba5e8b0nat,
        0x12d19461ea6326448cc39937f191e5e2e39a8f5d04af74f590702b006874b961nat,
        0x1dfb0c9290efeef82344562c36a12c70dac14124ecc32b72a2ebc951b8e624acnat,
        0x21b0a94f38118602d12a7bb6004b9b84022527e2779d4c3dc94051a4d9b9bc06nat,
    );
    lemma_window(
        0x6b177e9279a9dca37aba88ddaf46351605e17b34ffe428e40262e4c3b90cb1anat,
        modulus(),
        11985520591,
        12,
        0x21b0a94f38118602d12a7bb6004b9b84022527e2779d4c3dc94051a4d9b9bc06nat,
        0x1f4deadfb2e298a214a6838b2d49746da8338dc58541cfe142b174ba249d94e6nat,
        0x170f44ba0294741fa22e4eb3c4de54f41ae7b790c0ee98541f3aec19767ca47bnat,
        0x12f1f04846b405cb9ec487ca61bb6b47aa8d5ed63b273e337eb8e2f347241cc3nat,
        0x24ff9fd4151c6014cbf712ff45cc92bde5bb766b4a1d0289b4f9f004f0616eefnat,
        0x2af3acd834dc7cc8465ab361d19d59078143ff5aec6a1d63a06160176267de5cnat,
    );
    lemma_window(
        0x6b177e9279a9dca37aba88ddaf46351605e17b34ffe428e40262e4c3b90cb1anat,
        modulus(),
        191768329468,
        13,
        0x2af3acd834dc7cc8465ab361d19d59078143ff5aec6a1d63a06160176267de5cnat,
        0x2eb69fc2786a7c20630c5eb90ea85fe8eb1a99a97c95b503861b64b73a72a5bbnat,
        0x2f51378aa4ce1243199277c26f13d74ca51553ee963adfe721805f7dbd842041nat,
        0x25de00a48b45e09ee43e130cbed838b39f636877ffb868444cd51cd8556b66dnat,
        0x2ae08d418bf9f9be76139a6fc1c4d637aaadb1b8f6f87a7e4722d5d8250967a0nat,
        0x1417746e41e4706f0b144e7028665103d507696073ef67ebb68c76e855623271nat,
    );
    lemma_window(
        0x6b177e9279a9dca37aba88ddaf46351605e17b34ffe428e40262e4c3b90cb1anat,
        modulus(),
        3068293271501,
        7,
        0x1417746e41e4706f0b144e7028665103d507696073ef67ebb68c76e855623271nat,
        0xfc0ef2d19fc23ac6a947200329316f22905f779a5c5c6da49c71002ebd6c058nat,
        0xbf5fe638efded338a3ff1dfac342ab5ce7393230c09be305559f3bd8a585bb4nat,
        0xc26fbb8a8673e9d670a9877ea40e6a2e100fe54eafea3f73e8761db7f562fc3nat,
        0x274a6ae96d4b823223085281b082e3183f7871978f0fc1c3286a132f81bbd6f6nat,
        0x2730ed5c1f5783c85160ee67a09424927877d264d4cc9e18d78dca03c7045c3dnat,
    );
    lemma_window(
        0x6b177e9279a9dca37aba88ddaf46351605e17b34ffe428e40262e4c3b90cb1anat,
        modulus(),
        49092692344023,
        9,
        0x2730ed5c1f5783c85160ee67a09424927877d264d4cc9e18d78dca03c7045c3dnat,
        0x1a308c0b748f86791b6530dcf2b2128730bbfdb1d0bff24ae8358726b7a4b0fnat,
        0x2d383d471f4fd996a0a4583a771fc7c9e4389c59486b175d4275de5878add769nat,
        0x1a0d789174b15071c4e13fddf35a6dd3838fefa6209431b741de54526706bccdnat,
        0x23fb9fced12ddf9bd0b1c03db1db147671731006fcdaacb6ad40e7934416be19nat,
        0x14b4bb21be4da6ced958ae1b9a37642cebc8fbfdacbb23c9e4aa077b424cb062nat,
    );
    lemma_window(
        0x6b177e9279a9dca37aba88ddaf46351605e17b34ffe428e40262e4c3b90cb1anat,
        modulus(),
        785483077504377,
        5,
        0x14b4bb21be4da6ced958ae1b9a37642cebc8fbfdacbb23c9e4aa077b424cb062nat,
        0x1f481433f78c2a88e4474766009d626cc2d8e88878dc380447f432859e8aa50nat,
        0x25ff5e1e1bbd7fe3b5117ec064da9ef2565da84dc7eb5a6ec9a46a90b11ffd9dnat,
        0x1e60ae1b84745c41a8b13a41961bd2750b29b2e34ffd50e057f5c09c6dca8c06nat,
        0x2eb5b3b7c77cbdc3edc1b1c74fdde8ed578c8b374f03baec331088c2bd7ff98bnat,
        0xcab2619943241f0e4e81c317b7e482376d7a8980cd579f0571af8a5a457d015nat,
    );
    lemma_window(
        0x6b177e9279a9dca37aba88ddaf46351605e17b34ffe428e40262e4c3b90cb1anat,
        modulus(),
        12567729240070037,
        14,
        0xcab2619943241f0e4e81c317b7e482376d7a8980cd579f0571af8a5a457d015nat,
        0x260736d77f355887cb662cbd14b6124cea1494887790536c49a98b02f209ed4cnat,
        0x1d32cc5418eb7a2833fbbdc10f183ed04ca6493ea3f5e201c68131b8f07d0499nat,
        0x2d12d14f5cbd96d173ce278b9649517af26064714245798db13f9f7a77c4a050nat,
        0x2496e3e40c2df97d1d79c30403375639c23ad9321b093e3dc07710b3d17f54anat,
        0xe59a8b2ce7421e655d3e769e745cf4dfda69865e8284b2ccde07f392bea0f87nat,
    );
    lemma_window(
        0x6b177e9279a9dca37aba88ddaf46351605e17b34ffe428e40262e4c3b90cb1anat,
        modulus(),
        201083667841120606,
        8,
        0xe59a8b2ce7421e655d3e769e745cf4dfda69865e8284b2ccde07f392bea0f87nat,
        0xfa520b3114d751013c533ffe0d41a3f27bc87e1e7f4c93c8ddc0c0483b41520nat,
        0x2da634c9ad87b410d1c5a369d2ecd3c43e96bf60e3c326990e7822d2151afbebnat,
        0x1a6e716ad49b5189d5c07add14ede33e9b23e898230d9f9100aac57ea1f74ea0nat,
        0x1478f1096dffd940a9b6efe0fba55484b0213c268dcaa15479c8df2069a7802fnat,
        0x15f02028282f3f6b94b6a889f765a9674511bc35b6519845345784747697c53anat,
    );
    lemma_window(
        0x6b177e9279a9dca37aba88ddaf46351605e17b34ffe428e40262e4c3b90cb1anat,
        modulus(),
        3217338685457929704,
        7,
        0x15f02028282f3f6b94b6a889f765a9674511bc35b6519845345784747697c53anat,
        0x187c336acc1d540c4c934fbbad5deefae020b475eb63d3e0a1379dd8cd0b6976nat,
        0x21782228446b31f8e8c77df15cb70ff49a4a24c3d3ad8153d96e97990cfa53a7nat,
        0x105d9a5cd2349de4a20d37fb954a326acb7c101ed2aa861a26eea3db06ad6f93nat,
        0x180f8875a3efa0c41c3ad5e8b65bf543b8e995560e2825c27484e9439f9558e2nat,
        0x212927074ca1c75301c98bab3e54f8ea16c8cae1cef655722eafe5865528b252nat,
    );
    lemma_window(
        0x6b177e9279a9dca37aba88ddaf46351605e17b34ffe428e40262e4c3b90cb1anat,
        modulus(),
        0x2ca6487cfcd795e87nat,
        2,
        0x212927074ca1c75301c98bab3e54f8ea16c8cae1cef655722eafe5865528b252nat,
        0x87b3ffa5ac220e6207574b7cae29117170a5391778d6494537b3611308ab3b5nat,
        0x12e754ed403ff95641c70b0b6cbbbd0e21669815d573fb431a8970b05ecf3e4anat,
        0xbbcce8552f2d29ba2899070d1fe222079de25ebc0db3e18799ffc2d108a415cnat,
        0xa1bfa035c96d44f7f7ad225a0d79f226c7f70fc69df5e716098e1dac93e1017nat,
        0x23f3b3ee8c7a08b9648d9bdfaeeb85ec2229ae9d924776ed56ae010b4da7e0b1nat,
    );
    lemma_window(
        0x6b177e9279a9dca37aba88ddaf46351605e17b34ffe428e40262e4c3b90cb1anat,
        modulus(),
        0x2ca6487cfcd795e872nat,
        9,
        0x23f3b3ee8c7a08b9648d9bdfaeeb85ec2229ae9d924776ed56ae010b4da7e0b1nat,
        0x15a7b9bd4c9b4aa46a4798dd194bfafbffa70a57509e03dc6c4376a483db93a2nat,
        0x1148ebe65e17b2353b549444d4761f9a1d5e0f51d4bf7e3a41ff7b9eba4da90cnat,
        0x95aefc39b89de6684055f83bafd9b46acf99925096aee0f24caa5e7672be317nat,
        0x284da0dd9417967ec136c0ac73683cfaa4a60855754b3f3a254db46999f1c002nat,
        0x1791c2a24478ea25d484851191935219dfc8e3f292eb8366adb045d84a8ff0e2nat,
    );
    lemma_window(
        0x6b177e9279a9dca37aba88ddaf46351605e17b34ffe428e40262e4c3b90cb1anat,
        modulus(),
        0x2ca6487cfcd795e8729nat,
        5,
        0x1791c2a24478ea25d484851191935219dfc8e3f292eb8366adb045d84a8ff0e2nat,
        0x236be978aa88cfc007912e216c2e0e417bbab3e414ae26f010f5dedd0abfa74dnat,
        0x21bee7049bc1cd3f0bf41aaf7e0c86aa36e9e95e14ec35f0aae07438251af834nat,
        0x1833686197eb733ced25fb9e3e29cea79b1ec67cb7a4b6a0e89af6745cc09e84nat,
        0x189dcba88c1e438f522ef11f9f1e58b1bcdff3b201c253c97261794d717b7df8nat,
        0x972590c33df6ac6ab72fde8b7febff64c102fe05c8acefaf69f48d0180731f1nat,
    );
    lemma_window(
        0x6b177e9279a9dca37aba88ddaf46351605e17b34ffe428e40262e4c3b90cb1anat,
        modulus(),
        0x2ca6487cfcd795e87295nat,
        2,
        0x972590c33df6ac6ab72fde8b7febff64c102fe05c8acefaf69f48d0180731f1nat,
        0x296a90699a48aa178d544a254613477f2b91e1157b6c342b165f96974cf26c34nat,
        0xe6d197a855f76c27305725246ec4bc7c3582c94fe3446dfcd6fbe82c3cc4d6enat,
        0x120cc9aa00ed300e96fe2b7962c001414e9d4181c5a532ab27176a735694e17enat,
        0x1606dbec46e6445efbaa924c421392df65a568005b5663fcec2c8481342f034dnat,
        0x2720e2246960ffb1c7807d9021b7ace01f4b702b38f8c974396afbd5053f09e4nat,
    );
    lemma_window(
        0x6b177e9279a9dca37aba88ddaf46351605e17b34ffe428e40262e4c3b90cb1anat,
        modulus(),
        0x2ca6487cfcd795e872952nat,
        7,
        0x2720e2246960ffb1c7807d9021b7ace01f4b702b38f8c974396afbd5053f09e4nat,
        0xe47a4ff273d7a8ada8c049b5f51b8d6eaaea06755dc9c7965a734e753ddf407nat,
        0x14416a2f761454dc7e00a9f0408a35789079038ce2f21a6ce2b14275b9f379c8nat,
        0x2fb3f22fe66984c1e402500406bdc83ba216b9c37370e7d5565826590d6e5a2enat,
        0x289c0cbab177fe65dcb5c422a7d3fed70d1a0ebffca874de5b711ab209f35c41nat,
        0x737980b843e5458f4b201d766281f00c0fb54b99f163b4ff978ebb3f002bbc0nat,
    );
    lemma_window(
        0x6b177e9279a9dca37aba88ddaf46351605e17b34ffe428e40262e4c3b90cb1anat,
        modulus(),
        0x2ca6487cfcd795e8729527nat,
        14,
        0x737980b843e5458f4b201d766281f00c0fb54b99f163b4ff978ebb3f002bbc0nat,
        0x13789dc21e513d7c1cac9f2545881b690d10a9c84d25677c157c80a0735eaac5nat,
        0x1d07bdc1013e0adf294a3a8a9f102aaca606e94ebf2637d2f2bb50afd4ce8599nat,
        0xf3eace1e2d00c94f65edf920bebbaed651f008b0cd98b30c61d39badaaa2362nat,
        0x221f71469c9b90fde3c9c1419a9b88ba60cb1abb43c7b0cc6e36fad9a9f6d0e8nat,
        0xac959a676513c4bfd97edf247359bf66259689a05ec860b378393dedf152004nat,
    );
    lemma_window(
        0x6b177e9279a9dca37aba88ddaf46351605e17b34ffe428e40262e4c3b90cb1anat,
        modulus(),
        0x2ca6487cfcd795e8729527enat,
        1,
        0xac959a676513c4bfd97edf247359bf66259689a05ec860b378393dedf152004nat,
        0x54cd5157699604308844fcbbf7f247623d3e1175188f06995aaf08ab9d20f8cnat,
        0x1fc939c66dd45f81fc4820e2cb15b3e942cbe9c1566036355f4ec443e8011713nat,
        0x1a8498f28c187d19766742604575aa1e9376238adbbe7737670dd4c12edd4e6anat,
        0xf7a0987b966b43705b726493a4710d8a8da824383521f3f59280de0c80288f8nat,
        0x12073afc015b8d5231352cc37ff54e557ae5fc1b69af85de95be45881486ea2anat,
    );
    lemma_power_modulus_over_2_to_of_94_bits();
    lemma_pow_mod_multiplies(7, 402653184, 0x2ca6487cfcd795e8729527e1nat, modulus());
}

/// The power of 7 to the modulus less one over the product of its prime factors from 2 to
/// 237073.
pub proof fn lemma_power_modulus_over_2_to_237073()
    ensures
        pow_mod(7, 0x25930df68eba2f896c4c5902167cda91a00ed67bee308000000nat, modulus())
            == 0xec76272bf8f146784227ca601ce54e29d81666dc8f175370674bb3943a60081nat,
{
    lemma_pow_mod_zero(
        0x12073afc015b8d5231352cc37ff54e557ae5fc1b69af85de95be45881486ea2anat,
        modulus(),
    );
    lemma_window(
        0x12073afc015b8d5231352cc37ff54e557ae5fc1b69af85de95be45881486ea2anat,
        modulus(),
        0,
        8,
        1,
        1,
        1,
        1,
        1,
        0x24619cf09b5c6bb77816285c373cb41653e63179cdef69e3ec31270351964969nat,
    );
    lemma_window(
        0x12073afc015b8d5231352cc37ff54e557ae5fc1b69af85de95be45881486ea2anat,
        modulus(),
        8,
        15,
        0x24619cf09b5c6bb77816285c373cb41653e63179cdef69e3ec31270351964969nat,
        0x186e72f518c402b35932df1f08e3c29a657254aa39691639460f410585ae3a0enat,
        0xbbad4a128b180680ea3286c9437273d0600f83e44d99a2e8eab8ea1c0d9b755nat,
        0x1283d42b23d58fa465a2f3cf77f093e923bc3a0c2a2b38440ce15f6c0fd119a7nat,
        0x2a860b189bc5ede507dfdf2c1507a0435ec47058d9603ce25aea0dc3e65bc047nat,
        0x1d5a50fcc906428b5765e58dfd302dafc5c883fdbecc25968f839c434033e9adnat,
    );
    lemma_window(
        0x12073afc015b8d5231352cc37ff54e557ae5fc1b69af85de95be45881486ea2anat,
        modulus(),
        143,
        9,
        0x1d5a50fcc906428b5765e58dfd302dafc5c883fdbecc25968f839c434033e9adnat,
        0x1a63ac45b773b6c5a84f7090bda070bfa823405f3555e40980337f0f5eda6bfenat,
        0x2d681c2444c016ca07170f0d2ae42aeca5b688fa486f33e018a2716c8245822enat,
        0x684d69475594463adb4542db6cc429e44968d4582629932aef323bc5b8da401nat,
        0x15ba49b8491775542e8059500ecb79be306388ca8dffdc6263ec43eb35d15867nat,
        0x2436455db8752e37f489f78c37721432efe7971c3569f9a30003299c19f08074nat,
    );
    lemma_window(
        0x12073afc015b8d5231352cc37ff54e557ae5fc1b69af85de95be45881486ea2anat,
        modulus(),
        2297,
        15,
        0x2436455db8752e37f489f78c37721432efe7971c3569f9a30003299c19f08074nat,
        0x52474d9825b7bda94f764169ff8caeff508125a62b253008e57490143ad7a6enat,
        0x19e5cdf6fe028f2713b632115d7504d471d68b1e485ef1f681c5948bf711d572nat,
        0x1c58b6b3ea2bc0e6396429b0852b7b47e17c2ba952a5f1ceca0690841ba3181anat,
        0x8b7df0f1d3ca48856f437ed874451561c2353d06285e485a4f2e4160a5e6d8dnat,
        0x49bc7be390aacdee5fda9f213043bc1c2cdf79b8d76c9bec7564611bda85a81nat,
    );
    lemma_window(
        0x12073afc015b8d5231352cc37ff54e557ae5fc1b69af85de95be45881486ea2anat,
        modulus(),
        36767,
        7,
        0x49bc7be390aacdee5fda9f213043bc1c2cdf79b8d76c9bec7564611bda85a81nat,
        0xdbfd8970d901451b65c8cc0271548b306d63bbe1d5802fb50d6f68608b990ednat,
        0x1cf26b04ef73fcfba10f635618619c3ac427a4b1611e6addb0f93bb21432fbc4nat,
        0xa89d63999e95c1656e93b8ad2e3f8b90391dcc6c6c32d3d026108757c949f48nat,
        0x916a62dc64e39eecd740ed25575ec69edd32c9bc8cf412d60f593e77e8b676cnat,
        0xe9dc578479c23c2d705e7fa8709c9bbdeaa9a18061ab53447897521d2bb1380nat,
    );
    lemma_window(
        0x12073afc015b8d5231352cc37ff54e557ae5fc1b69af85de95be45881486ea2anat,
        modulus(),
        588279,
        15,
        0xe9dc578479c23c2d705e7fa8709c9bbdeaa9a18061ab53447897521d2bb1380nat,
        0x1b0cb23fd01a7ff9fce62d106f95e40be64a009bcd7bff3d57aa84f01bf1b158nat,
        0x29d0812d66f666dfad21506e71aaceb9be8fabf28877b6f4c02270a81b87eab5nat,
        0x5d7ef66977e0d65bc95171ab40f4ac21ff3aa5332d7e4c8c6d574095ec412c5nat,
        0x20791b293c88fd9db697351b9a9fa014dbf403e7da376db347772bb6f4b66769nat,
        0x10af2f7436c53e0c3108618eeed115d82c7d0f4c37d54b8b381fb420cccf8817nat,
    );
    lemma_window(
        0x12073afc015b8d5231352cc37ff54e557ae5fc1b69af85de95be45881486ea2anat,
        modulus(),
        9412479,
        5,
        0x10af2f7436c53e0c3108618eeed115d82c7d0f4c37d54b8b381fb420cccf8817nat,
        0xc3866a924c83945b023524e5ef956ad929e3fe508bf375f889a6dee01a53edcnat,
        0x25903b8bc97e7afc76fc424430c085256b343db3ad20604bf6fcd836ab71830bnat,
        0x26d93407ab9f84a0fd59c41498d7351545b6d8ad51d9b16b4e8f1ff2bf130f80nat,
        0x1e23b1d0bb20b7e770fcb79ddfb81beb87b585c93b49f8f6fa5271d5270a4711nat,
        0x6161f600084db86c4859ec3717a0491b19cf508ee84b559254874a5f371036dnat,
    );
    lemma_window(
        0x12073afc015b8d5231352cc37ff54e557ae5fc1b69af85de95be45881486ea2anat,
        modulus(),
        150599669,
        2,
        0x6161f600084db86c4859ec3717a0491b19cf508ee84b559254874a5f371036dnat,
        0xcdc346ce1dcdbae4820ea3e01da810a2fa9196b5ebd9a691dbd0114722a5ab5nat,
        0x17ffedd583ddae56bd012033fedd83dfc80a3b44c99e436ecd9fa79263abe6d6nat,
        0x16c791a03229bcd05afabf51b711c91db7cf118a0b7b2866b3261bee69cc3004nat,
        0x2e37e3d912b8441f203f885dc80f4fb2b866f650817fa3123a572c051147350enat,
        0x1484417ab174c7e6fd0f79da9e01b24dd249ccae3eff9e7a3f62498956b3d370nat,
    );
    lemma_window(
        0x12073afc015b8d5231352cc37ff54e557ae5fc1b69af85de95be45881486ea2anat,
        modulus(),
        2409594706,
        6,
        0x1484417ab174c7e6fd0f79da9e01b24dd249ccae3eff9e7a3f62498956b3d370nat,
        0x13d2c2ab900d3533b7cf7ea8548e8f34496cb04dd303352b7a99cc2902f11f35nat,
        0x13bc489e7a5b5235f525aa7331fc17eae685b378a6f76be4ecd769c38f8a2616nat,
        0x121805e175a4e131b91a4488ed019a2cf54ac5e9bdbe0d66cf12b232e417ae1dnat,
        0x1f6bd7f8f942d458dd767d2083a26b89a695ae93cc0df86290e93e10db5140e1nat,
        0x2e0a7209b1b600ee9320a0339ada15e64b65ee043f5142bcba6207d7b572850fnat,
    );
    lemma_window(
        0x12073afc015b8d5231352cc37ff54e557ae5fc1b69af85de95be45881486ea2anat,
        modulus(),
        38553515302,
        9,
        0x2e0a7209b1b600ee9320a0339ada15e64b65ee043f5142bcba6207d7b572850fnat,
        0x1a92c75958b4fe8f855b9d814fc27d3352081dd503f1d5528a29a1ba71da30b3nat,
        0x2c58d75f295030c42884d6ca10e8d2c326957c9feb92417a58180bc2a2967e9anat,
        0x120a391ed752428fd4f2775a3224238a5ddd22f8b224aa5b049fc769154d4e1enat,
        0x18588bd6484a25811c2be0e04161aa80b8aee468d67eb637a51514d407c62984nat,
        0x2e1d1f17f769904a25faaed798c1b86269bcd8d5f9dc9bd7a97fc77aac10de57nat,
    );
    lemma_window(
        0x12073afc015b8d5231352cc37ff54e557ae5fc1b69af85de95be45881486ea2anat,
        modulus(),
        616856244841,
        7,
        0x2e1d1f17f769904a25faaed798c1b86269bcd8d5f9dc9bd7a97fc77aac10de57nat,
        0x17c8e48475ee811d93a8f389f04759c43d3d80cae6435084875eb450c0af1da0nat,
        0x21392c0ece34f519394cb5803c5931619583fc7871ef1661aa901394c07dee33nat,
        0x266e348afc57a0c348249e313a6c4f1a1e0565d40b62a2b2e795bbb67cd58fd8nat,
        0x2e61c7ded90e17433728397d42c52f6a42acc4e570ac821a9e1b939bbf4ee4d6nat,
        0xd6a92e5180b3843cb7bb25dce0887826471c52d27fd3143dea86e647c119e5fnat,
    );
    lemma_window(
        0x12073afc015b8d5231352cc37ff54e557ae5fc1b69af85de95be45881486ea2anat,
        modulus(),
        9869699917463,
        9,
        0xd6a92e5180b3843cb7bb25dce0887826471c52d27fd3143dea86e647c119e5fnat,
        0x3e25b2323e1a72b7eb41f61c1ea25d7b039a315b89ab6c0cc70defa0dc02c7anat,
        0xde141ce26dccd2630d7c935b755cef79be76c65aa2a9b46d2c819f2c4542517nat,
        0x209696538200a83f20c5dad375ad73f4e04560400013f58e7bc3cce4ca8edf37nat,
        0x20a11ea16837fe54503e7a0caf62b693a60c545b08e086644426541d83cbf565nat,
        0x297c483cd3083634c46076a695f0c1c6087f8aee96a3cf8f1fa543134ebbca7anat,
    );
    lemma_window(
        0x12073afc015b8d5231352cc37ff54e557ae5fc1b69af85de95be45881486ea2anat,
        modulus(),
        157915198679417,
        11,
        0x297c483cd3083634c46076a695f0c1c6087f8aee96a3cf8f1fa543134ebbca7anat,
        0x1b6e74509a3e0fc6401ce5e68ce382177e6cac4be0e4765dbb58bf1d8d753705nat,
        0x205202e78af02c906c3f54fc37480f636f22ee5c796c6db13fa457b0cefbe3denat,
        0x23196b804b4e745794b3638e978f7fb1cdc9c90031fe0ac83bf90832fd63765dnat,
        0x1921c226e9a071c50b940693440da24b2ba4b35d59d302c915233c884996ff17nat,
        0x324362a2e6d0f735861b1c177838d5129078a15835a88f922a7e0cc22ac4eednat,
    );
    lemma_window(
        0x12073afc015b8d5231352cc37ff54e557ae5fc1b69af85de95be45881486ea2anat,
        modulus(),
        2526643178870683,
        14,
        0x324362a2e6d0f735861b1c177838d5129078a15835a88f922a7e0cc22ac4eednat,
        0x2b1e7a08142ad9456c5c913b59105141ddc1936420bdee1fd273202a493fb087nat,
        0x1848f07a3de7eb1ec7e4d2e5501282e635195545dc51758a3e210f0783c2537bnat,
        0x2e7bcf467d389c3a25f9c48bb3b0efd92f57febc2215f253413dbb8388845fadnat,
        0x227239e637550dec26be133fa31af97126fc9d510995f97a191e59c548d2a12anat,
        0x2577cb87debd51561c3fed150e8a832a764d5720d30329dae1ce69797e5a534bnat,
    );
    lemma_window(
        0x12073afc015b8d5231352cc37ff54e557ae5fc1b69af85de95be45881486ea2anat,
        modulus(),
        40426290861930942,
        11,
        0x2577cb87debd51561c3fed150e8a832a764d5720d30329dae1ce69797e5a534bnat,
        0x1367e651eb1b3b191ba1da8054aa0004759852bb8f2b322993ffeccfde1ee8b8nat,
        0x1daa219a74bde835d31e15123e770b010b50350389fdce68c754b17ababce2eanat,
        0x17ece03304037f24e5427d1878e2a29df4496f23776f81fcf2f1454dc54e712fnat,
        0x170b08fb2c28c8d02f728c4e6bee3c7385622ebbf4a75d6876c61400148e815cnat,
        0x1e61cb1778a6ee30beeb0b36eec65a48e919faacfe8cafc871e71716245fb03bnat,
    );
    lemma_window(
        0x12073afc015b8d5231352cc37ff54e557ae5fc1b69af85de95be45881486ea2anat,
        modulus(),
        646820653790895083,
        2,
        0x1e61cb1778a6ee30beeb0b36eec65a48e919faacfe8cafc871e71716245fb03bnat,
        0x221cd12f890a509a68b02f96690d07bded74770da6685a8bc81ec541a5e0dd03nat,
        0x10bdc53bbff0c8295d4d78e5aa7367844dcd30696b0bc022aceeb93424fb489cnat,
        0x155550c3cb818c3c182336e143adf5bb876e10ce3b677396d4b61608c7526bd2nat,
        0x70f83957b0f788771f529161c24a8aac6a182db8a8615a13c161fb4dc3525dnat,
        0x27ce3794468630eb7ad9cfe236f558ac01e5f15a9eab7c54d727667a35a89142nat,
    );
    lemma_window(
        0x12073afc015b8d5231352cc37ff54e557ae5fc1b69af85de95be45881486ea2anat,
        modulus(),
        0x8f9f7f526979beb2nat,
        6,
        0x27ce3794468630eb7ad9cfe236f558ac01e5f15a9eab7c54d727667a35a89142nat,
        0x66432bedc3c698e5da947025b5938e558b2d2cb9c4badaf1fa1652747e2dc65nat,
        0xb3137c2d8484a057e37ebff49af70cd68987883ca337ab1dbcda0596b866305nat,
        0x1bc84d20890f0181c8762f309a00473fbbe8bb3f33706125309a04e49e9a4460nat,
        0x1afb626e02d39b2a9d32462d051294b07c7b678684d78d36abfb250a867522b4nat,
        0x86be9490a7c572c60f557bec7a306dbde967cabb8c8bde8b251f4cba3e91e21nat,
    );
    lemma_window(
        0x12073afc015b8d5231352cc37ff54e557ae5fc1b69af85de95be45881486ea2anat,
        modulus(),
        0x8f9f7f526979beb26nat,
        12,
        0x86be9490a7c572c60f557bec7a306dbde967cabb8c8bde8b251f4cba3e91e21nat,
        0x23c3d879c925597c7ad72acc94428252c2de28f43ae5f46d1966a779c7082218nat,
        0x2d8268f060fe330c95355f26ed67ce449ff368821a092bf3aae177396644de71nat,
        0xa6880a50f2b1ef7d4818e60425099638088cac14ba728c567a44bff36e4fb58nat,
        0x2397f562cc0ce3fcc6276df08dd11d8d9f9353727837dda205ece3e5e22e2037nat,
        0x213da74c64a30212d026eb0fd5b8cc605c4b9bbca5cedf85252d644c0afd70d4nat,
    );
    lemma_window(
        0x12073afc015b8d5231352cc37ff54e557ae5fc1b69af85de95be45881486ea2anat,
        modulus(),
        0x8f9f7f526979beb26cnat,
        2,
        0x213da74c64a30212d026eb0fd5b8cc605c4b9bbca5cedf85252d644c0afd70d4nat,
        0x25f9eabf3d97beb46e5b535e0fec06bc7900576e56cb9b6dbd96674352484f12nat,
        0x28e91ec3245498fb7efb354ab7b1f5647c068a0c293729b28515c70a9714cd69nat,
        0x19077846f61220e9dafcf70957c6c83c8c2e48f7c52c3a6db335d6be8f308fbenat,
        0x2b157a43e066e7d4e7dcb73142f50cbe2a51b85a3542359991113787654d1813nat,
        0x12404577231fc0cc6ddc980cb3582e0fba2ea15fc3814449ba1cb5c4e3fbf44dnat,
    );
    lemma_window(
        0x12073afc015b8d5231352cc37ff54e557ae5fc1b69af85de95be45881486ea2anat,
        modulus(),
        0x8f9f7f526979beb26c2nat,
        11,
        0x12404577231fc0cc6ddc980cb3582e0fba2ea15fc3814449ba1cb5c4e3fbf44dnat,
        0x2137ec9a001c5d70d7f9a69a503e971c6576c60141812017b27b4d8e53fddaf9nat,
        0x1db4cc9ed25ecf873e563d82bd58e07f5e1d2831d3f1af23821b4fea8c0bb299nat,
        0x281a1720c69b1d19eaa89a6eb96d13559755140fd0a5f74ae727012d9d54e9d8nat,
        0x1baef718c3d7ddc80d809b0fd3dea7a9d3e653960d4ad0e48ad58d95162cdfabnat,
        0xec76272bf8f146784227ca601ce54e29d81666dc8f175370674bb3943a60081nat,
    );
    lemma_power_modulus_over_2_to_of_51_bits();
    lemma_pow_mod_multiplies(
        7,
        0x42f96cbb7b4360dcabdfbbd18000000nat,
        0x8f9f7f526979beb26c2bnat,
        modulus(),
    );
}

/// The power of 7 to the modulus less one over the product of its prime factors from 2 to 983.
pub proof fn lemma_power_modulus_over_2_to_983()
    ensures
        pow_mod(7, 0x16d20e669fd5d87abed2cdfc79c15d72f20cc0c0866707c23c658000000nat, modulus())
            == 0x495ac8f0e5a3dd638f6f2aae0fe784316c1f6c5a23bf2051b0305b415de0b8bnat,
{
    lemma_pow_mod_zero(
        0xec76272bf8f146784227ca601ce54e29d81666dc8f175370674bb3943a60081nat,
        modulus(),
    );
    lemma_window(
        0xec76272bf8f146784227ca601ce54e29d81666dc8f175370674bb3943a60081nat,
        modulus(),
        0,
        9,
        1,
        1,
        1,
        1,
        1,
        0x1c35de2e6be2b34ab1eae76609ec71509b8b4a49f09fb1acddc3707215fc17e4nat,
    );
    lemma_window(
        0xec76272bf8f146784227ca601ce54e29d81666dc8f175370674bb3943a60081nat,
        modulus(),
        9,
        11,
        0x1c35de2e6be2b34ab1eae76609ec71509b8b4a49f09fb1acddc3707215fc17e4nat,
        0x156b780efeb6fe45a9dc6328198bf7319433a70472f49c5151b4750f943a363anat,
        0x22a55048e1d758235c3a9e03196d8c836cf3a059b562c442f2306571179ae95bnat,
        0x19909e6547ce44944e73187a2e4190087492d6bc10e45009a5b8711faa576589nat,
        0x394936f924aaa5aa6d82ac0f48461ebb3bee8ffb04226d9752bc26aa74a927bnat,
        0x1dce70a7737fa22291c04cec3d70194a8ec4b620a0e0937e0308dc1849a2205fnat,
    );
    lemma_window(
        0xec76272bf8f146784227ca601ce54e29d81666dc8f175370674bb3943a60081nat,
        modulus(),
        155,
        7,
        0x1dce70a7737fa22291c04cec3d70194a8ec4b620a0e0937e0308dc1849a2205fnat,
        0xb3bf16eedf0d2b31b7a16cf91c5c125cbb9112dd532cac392ac55dd865760bcnat,
        0x2619a94596b2469d0e9664096394500babf9d3349d3339e81fbc07c221dc9ddenat,
        0x2c6b142bc72fa9a1d7bcadb969a6224ff4c12417b2844e42dfc11cc8fd4f3d35nat,
        0xd18bb734404be4bb23c66e45836f6b8b07c9358e3cad44521531414cd9f9530nat,
        0x1a90edfaa85d7cd9e13200382015b7a4ac2d14ea18cc231c20d80417966b204cnat,
    );
    lemma_window(
        0xec76272bf8f146784227ca601ce54e29d81666dc8f175370674bb3943a60081nat,
        modulus(),
        2487,
        10,
        0x1a90edfaa85d7cd9e13200382015b7a4ac2d14ea18cc231c20d80417966b204cnat,
        0x2cd89699d3041126fd1bd4faeac9c73e1f97408e1b50112f4440615fdaf6b08fnat,
        0x13ea5e2130bbedfd1c5603083d68925239fc3625853ca7a8f60eb90b368c385fnat,
        0x26c01586143c9e434c844a9099e79a595a9e4fb1c9955fa4074eed79379190e6nat,
        0x686a12e64f416052c9c97ff720fedf26fe4d905c92f19a66dc8c2d9a7718412nat,
        0x1e064bcef9e33fd2f95d80f3b1f932b1a46a3bda147c61f95d41f9e452a40ed3nat,
    );
    lemma_window(
        0xec76272bf8f146784227ca601ce54e29d81666dc8f175370674bb3943a60081nat,
        modulus(),
        39802,
        12,
        0x1e064bcef9e33fd2f95d80f3b1f932b1a46a3bda147c61f95d41f9e452a40ed3nat,
        0x1b2d94d1a8ebe3f72a52c12079998ccd4695001515b8a15b0c08afc60c166c14nat,
        0x26d9c8f2a0e4aae162c459a89f8484fdafc8f1bf893dfd988df2f70c4f240a22nat,
        0x2eb820b16bfe7316a97684fbfdfe41cf7075802b4f097df14aa7c4ce7873baf9nat,
        0x24fafb520c6176bfd63bbee0d7c7d6eb861711c9cf137889d2f52fdb26746d95nat,
        0x18bfc52f0dd3dfd71542d7431049929ec83c342f290c4219081541355f067ec4nat,
    );
    lemma_window(
        0xec76272bf8f146784227ca601ce54e29d81666dc8f175370674bb3943a60081nat,
        modulus(),
        636844,
        4,
        0x18bfc52f0dd3dfd71542d7431049929ec83c342f290c4219081541355f067ec4nat,
        0x1c798a141f8a970694e986f5f97c25d7f68bb4b143d3b66a1c42127358022c5bnat,
        0x261cdfc374b93100949548827c6ce2b721d26263f17200a230bed55199c161acnat,
        0x279dcf8fc82719ee698ac8e9729236086e7742edcdcf05af003218951eaf0a0nat,
        0x117b014f3dbd24b1828101f7bf766e44af58cb8a7880e3daea7b88a8f252e6b4nat,
        0x245e8f242bea168e09173214c4150c538c2d77532d156917cd2e27f6d42a0ab1nat,
    );
    lemma_window(
        0xec76272bf8f146784227ca601ce54e29d81666dc8f175370674bb3943a60081nat,
        modulus(),
        10189508,
        10,
        0x245e8f242bea168e09173214c4150c538c2d77532d156917cd2e27f6d42a0ab1nat,
        0x1ed04cb4e716a213dccf0d7b21d1ff572f48963f5163f8d561a0ee4ac402c5ednat,
        0x3a3b57c7963ad8d654d6d8858d15a379d07b4434085883dcaacd2ca2d17d7d9nat,
        0x1dfc98aa26010eecbc3fa3d2de9e03a1c4c3191b870f12b84f92a6814f01554nat,
        0x275634bca2272786c727d4839296c7b5845510cdc6a4b5b9a8207ba4ad25c645nat,
        0xccb7db6964448d8b3d0ecd4d3f2148b23382f7ad4650d5e31e387a7e7c68b4cnat,
    );
    lemma_window(
        0xec76272bf8f146784227ca601ce54e29d81666dc8f175370674bb3943a60081nat,
        modulus(),
        163032138,
        11,
        0xccb7db6964448d8b3d0ecd4d3f2148b23382f7ad4650d5e31e387a7e7c68b4cnat,
        0x449687d0e63295ad45a955e243dfa704c8b38d127dc586efc4b73ab67e2bf56nat,
        0xa9777479cb8c6f16bd9a4dbc3aa5ed5c26a658de152b77c4a0d0eb9650b70dbnat,
        0x271cfa1e209aeda418fb4c1e448925835809b83c7201cf51cd85ef83f8f0aec0nat,
        0x1d1ee1e24e0d581a1366a7b077fda164767b5d89c2e887ff39411bc8a8d125efnat,
        0x495ac8f0e5a3dd638f6f2aae0fe784316c1f6c5a23bf2051b0305b415de0b8bnat,
    );
    lemma_power_modulus_over_2_to_237073();
    lemma_pow_mod_multiplies(
        7,
        0x25930df68eba2f896c4c5902167cda91a00ed67bee308000000nat,
        2608514219,
        modulus(),
    );
}

/// The power of 7 to the modulus less one over the product of its prime factors from 2 to 29.
pub proof fn lemma_power_modulus_over_2_to_29()
    ensures
        pow_mod(7, 0x57a0954c0fbe223f52bb74f477857dd45f6ef82344159ecad5e9be8000000nat, modulus())
            == 0x1ea222dbc5a5b21e19124b45ccc077afeda91f1b011d6b1d7bca03b5fef4bb26nat,
{
    lemma_pow_mod_zero(
        0x495ac8f0e5a3dd638f6f2aae0fe784316c1f6c5a23bf2051b0305b415de0b8bnat,
        modulus(),
    );
    lemma_window(
        0x495ac8f0e5a3dd638f6f2aae0fe784316c1f6c5a23bf2051b0305b415de0b8bnat,
        modulus(),
        0,
        3,
        1,
        1,
        1,
        1,
        1,
        0x273e199146f048182283eca98f517745a817230fe6090c3c0dd5d8e3cc985626nat,
    );
    lemma_window(
        0x495ac8f0e5a3dd638f6f2aae0fe784316c1f6c5a23bf2051b0305b415de0b8bnat,
        modulus(),
        3,
        13,
        0x273e199146f048182283eca98f517745a817230fe6090c3c0dd5d8e3cc985626nat,
        0x2d3d21e34f810d5c14b9af61a98db25d7cfe9568f5385e666d5911f4db130b57nat,
        0x16121b37335bdc10d36cc3787bc3c2afe4f3aed8238fba2d32bf19c5fac7e38cnat,
        0xc232e822790c95f988ca1046c480cb53fb156c999e846734f2b5eadadc08c30nat,
        0x2722508cdd7708e8b65e4859dc14a450b3ca63af3dbba37aed208d5689e4349cnat,
        0x2b7805cea638186e519865d462357ec759d16e02205c6323e2e6d964268b9fa2nat,
    );
    lemma_window(
        0x495ac8f0e5a3dd638f6f2aae0fe784316c1f6c5a23bf2051b0305b415de0b8bnat,
        modulus(),
        61,
        7,
        0x2b7805cea638186e519865d462357ec759d16e02205c6323e2e6d964268b9fa2nat,
        0x22b0ab5a25dc830a7056d3b3f72e6a7a3768deb0daaef975751271ce6a9ef37nat,
        0x97d64362c4ff4388db13d7ae3aa7ccd3b5da3f4dc709b73a876df3c8e30b369nat,
        0x2f267b1fb83d614b67199a4b372262442faaf42076018c9e3b8639fef9c13c00nat,
        0x1398cb4dac5d39d2a05f81cbc60776d1f76b55b99f2acdf2847bac6104ed2e90nat,
        0x1ea222dbc5a5b21e19124b45ccc077afeda91f1b011d6b1d7bca03b5fef4bb26nat,
    );
    lemma_power_modulus_over_2_to_983();
    lemma_pow_mod_multiplies(
        7,
        0x16d20e669fd5d87abed2cdfc79c15d72f20cc0c0866707c23c658000000nat,
        983,
        modulus(),
    );
}

/// The power of 7 to the modulus less one over the product of its prime factors from 2 to 13.
pub proof fn lemma_power_modulus_over_2_to_13()
    ensures
        pow_mod(7, 0x9ed30e99dc889e12c5f3c3fb18a1f410ecf921bfeb672fcfa3b7a948000000nat, modulus())
            == 0x55461d41be7e2deb76ed93c13c579a47d05507153f0a715c05e4a0b38f89dc4nat,
{
    lemma_pow_mod_zero(
        0x1ea222dbc5a5b21e19124b45ccc077afeda91f1b011d6b1d7bca03b5fef4bb26nat,
        modulus(),
    );
    lemma_window(
        0x1ea222dbc5a5b21e19124b45ccc077afeda91f1b011d6b1d7bca03b5fef4bb26nat,
        modulus(),
        0,
        1,
        1,
        1,
        1,
        1,
        1,
        0x1ea222dbc5a5b21e19124b45ccc077afeda91f1b011d6b1d7bca03b5fef4bb26nat,
    );
    lemma_window(
        0x1ea222dbc5a5b21e19124b45ccc077afeda91f1b011d6b1d7bca03b5fef4bb26nat,
        modulus(),
        1,
        13,
        0x1ea222dbc5a5b21e19124b45ccc077afeda91f1b011d6b1d7bca03b5fef4bb26nat,
        0x9681a2be3b22b605e518c8af5f71c8cd2a3eb30e70b892eb47fe791e4d995bfnat,
        0x2bf9eaa14011a4db6782eeaa16805204a0c6b86820a3b468e2386b7f6e80f525nat,
        0x17b8fd6f93fff305ea5f4a5a45d92874fbc20bbdf811dfbb5dfaa6bc7c7f78bbnat,
        0xaab5fbf8be5b7b76f80b22892417e66720262b03dd50c09b3d487df22bb219anat,
        0x55461d41be7e2deb76ed93c13c579a47d05507153f0a715c05e4a0b38f89dc4nat,
    );
    lemma_power_modulus_over_2_to_29();
    lemma_pow_mod_multiplies(
        7,
        0x57a0954c0fbe223f52bb74f477857dd45f6ef82344159ecad5e9be8000000nat,
        29,
        modulus(),
    );
}

/// The power of 7 to the modulus less one over the product of its prime factors from 2 to 3.
pub proof fn lemma_power_modulus_over_2_to_3()
    ensures
        pow_mod(7, 0x810b7bdd032f006f40d60f3c0403964dc08a6b6bef43d6d8b505398a8000000nat, modulus())
            == 0xb3c4d79d41a917585bfc41088d8daaa78b17ea66b99c90denat,
{
    lemma_pow_mod_zero(
        0x55461d41be7e2deb76ed93c13c579a47d05507153f0a715c05e4a0b38f89dc4nat,
        modulus(),
    );
    lemma_window(
        0x55461d41be7e2deb76ed93c13c579a47d05507153f0a715c05e4a0b38f89dc4nat,
        modulus(),
        0,
        13,
        1,
        1,
        1,
        1,
        1,
        0xb3c4d79d41a917585bfc41088d8daaa78b17ea66b99c90denat,
    );
    lemma_power_modulus_over_2_to_13();
    lemma_pow_mod_multiplies(
        7,
        0x9ed30e99dc889e12c5f3c3fb18a1f410ecf921bfeb672fcfa3b7a948000000nat,
        13,
        modulus(),
    );
}

/// The power of 7 to the modulus less one over 2.
pub proof fn lemma_power_modulus_over_2()
    ensures
        pow_mod(7, 0x183227397098d014dc2822db40c0ac2e9419f4243cdcb848a1f0fac9f8000000nat, modulus())
            == 0x30644e72e131a029b85045b68181585d2833e84879b9709143e1f593f0000000nat,
{
    lemma_pow_mod_zero(0xb3c4d79d41a917585bfc41088d8daaa78b17ea66b99c90denat, modulus());
    lemma_window(
        0xb3c4d79d41a917585bfc41088d8daaa78b17ea66b99c90denat,
        modulus(),
        0,
        3,
        1,
        1,
        1,
        1,
        1,
        0x30644e72e131a029b85045b68181585d2833e84879b9709143e1f593f0000000nat,
    );
    lemma_power_modulus_over_2_to_3();
    lemma_pow_mod_multiplies(
        7,
        0x810b7bdd032f006f40d60f3c0403964dc08a6b6bef43d6d8b505398a8000000nat,
        3,
        modulus(),
    );
}

/// The power of 7 to the modulus less one over 3.
pub proof fn lemma_power_modulus_over_3()
    ensures
        pow_mod(7, 0x10216f7ba065e00de81ac1e7808072c9b8114d6d7de87adb16a0a73150000000nat, modulus())
            == 0xb3c4d79d41a917585bfc41088d8daaa78b17ea66b99c90ddnat,
{
    lemma_pow_mod_zero(0xb3c4d79d41a917585bfc41088d8daaa78b17ea66b99c90denat, modulus());
    lemma_window(
        0xb3c4d79d41a917585bfc41088d8daaa78b17ea66b99c90denat,
        modulus(),
        0,
        2,
        1,
        1,
        1,
        1,
        1,
        0xb3c4d79d41a917585bfc41088d8daaa78b17ea66b99c90ddnat,
    );
    lemma_power_modulus_over_2_to_3();
    lemma_pow_mod_multiplies(
        7,
        0x810b7bdd032f006f40d60f3c0403964dc08a6b6bef43d6d8b505398a8000000nat,
        2,
        modulus(),
    );
}

/// The power of 7 to the modulus less one over 13.
pub proof fn lemma_power_modulus_over_13()
    ensures
        pow_mod(7, 0x3b8f2579b2b33b470a3b697e293cbb8658dd6ca7f846b1eddd64df7b0000000nat, modulus())
            == 0x104bac217f9b86af8b9b54a48b24cc7da816c9d7692416f6074452be9c51e95fnat,
{
    lemma_pow_mod_zero(
        0x55461d41be7e2deb76ed93c13c579a47d05507153f0a715c05e4a0b38f89dc4nat,
        modulus(),
    );
    lemma_window(
        0x55461d41be7e2deb76ed93c13c579a47d05507153f0a715c05e4a0b38f89dc4nat,
        modulus(),
        0,
        6,
        1,
        1,
        1,
        1,
        1,
        0x104bac217f9b86af8b9b54a48b24cc7da816c9d7692416f6074452be9c51e95fnat,
    );
    lemma_power_modulus_over_2_to_13();
    lemma_pow_mod_multiplies(
        7,
        0x9ed30e99dc889e12c5f3c3fb18a1f410ecf921bfeb672fcfa3b7a948000000nat,
        6,
        modulus(),
    );
}

/// The power of 7 to the modulus less one over 29.
pub proof fn lemma_power_modulus_over_29()
    ensures
        pow_mod(7, 0x1ab2ed7d2ccbee6f4b351da27c6aac56b513cf9abebe9661cd2d380b0000000nat, modulus())
            == 0x124248c3f5e204ac368863254bb0191b26dcf17a6cd1bb9c534d02d193ecaa31nat,
{
    lemma_pow_mod_zero(
        0x1ea222dbc5a5b21e19124b45ccc077afeda91f1b011d6b1d7bca03b5fef4bb26nat,
        modulus(),
    );
    lemma_window(
        0x1ea222dbc5a5b21e19124b45ccc077afeda91f1b011d6b1d7bca03b5fef4bb26nat,
        modulus(),
        0,
        4,
        1,
        1,
        1,
        1,
        1,
        0x2bf9eaa14011a4db6782eeaa16805204a0c6b86820a3b468e2386b7f6e80f525nat,
    );
    lemma_window(
        0x1ea222dbc5a5b21e19124b45ccc077afeda91f1b011d6b1d7bca03b5fef4bb26nat,
        modulus(),
        4,
        14,
        0x2bf9eaa14011a4db6782eeaa16805204a0c6b86820a3b468e2386b7f6e80f525nat,
        0x17b8fd6f93fff305ea5f4a5a45d92874fbc20bbdf811dfbb5dfaa6bc7c7f78bbnat,
        0xaab5fbf8be5b7b76f80b22892417e66720262b03dd50c09b3d487df22bb219anat,
        0x37d786ef0c553518898312429f0cba516a6f9c11980e5f04ce8cf36fd8dd606nat,
        0x146b7d5580aab35736a8da2213c3915ed88a99dad508949553681b44bf9202cfnat,
        0x124248c3f5e204ac368863254bb0191b26dcf17a6cd1bb9c534d02d193ecaa31nat,
    );
    lemma_power_modulus_over_2_to_29();
    lemma_pow_mod_multiplies(
        7,
        0x57a0954c0fbe223f52bb74f477857dd45f6ef82344159ecad5e9be8000000nat,
        78,
        modulus(),
    );
}

/// The power of 7 to the modulus less one over 983.
pub proof fn lemma_power_modulus_over_983()
    ensures
        pow_mod(7, 0xc9a40b3ec84b86cc921aa814dbd28fb5a6bcaf2523925e8e41a8d90000000nat, modulus())
            == 0xd98d4aaf5689b5144d8c591895a69c743cce3b460345d99803f229b65d68841nat,
{
    lemma_pow_mod_zero(
        0x495ac8f0e5a3dd638f6f2aae0fe784316c1f6c5a23bf2051b0305b415de0b8bnat,
        modulus(),
    );
    lemma_window(
        0x495ac8f0e5a3dd638f6f2aae0fe784316c1f6c5a23bf2051b0305b415de0b8bnat,
        modulus(),
        0,
        8,
        1,
        1,
        1,
        1,
        1,
        0x24e0de5e1947b330483aa4bec0288f738610db904fdbc6ce9238327939519d95nat,
    );
    lemma_window(
        0x495ac8f0e5a3dd638f6f2aae0fe784316c1f6c5a23bf2051b0305b415de0b8bnat,
        modulus(),
        8,
        13,
        0x24e0de5e1947b330483aa4bec0288f738610db904fdbc6ce9238327939519d95nat,
        0x1b827f3229f209bb7a68a29886f7d98838a4693b784ed88c098b897c23620739nat,
        0xc8c67fa0070b8b7259003af5005581a5cbae9b619fe77d197cbe7a268f19e28nat,
        0x273a211d5f1ad4a129ea6e96f8f50b152644cb55cf031aaf1756bba68399301enat,
        0x1642357abcbc3aa2fab49a01db12a4090593089297472a946baee6dbb6381a89nat,
        0x27b77d08611b19f5a1117dbdec3ecc415afd8f14a17305611d3f269579879397nat,
    );
    lemma_window(
        0x495ac8f0e5a3dd638f6f2aae0fe784316c1f6c5a23bf2051b0305b415de0b8bnat,
        modulus(),
        141,
        6,
        0x27b77d08611b19f5a1117dbdec3ecc415afd8f14a17305611d3f269579879397nat,
        0x2ce0c17d7fe10f208922ca1ad2169dd9c6f832556eb5594aace8fcfcb59208f6nat,
        0x1be869b1c68f4b40f45e10265d8ace6a48d9cbc82fefea6c461a0b193acf7a00nat,
        0x25046c09ae0ce953ca52b0f75e0b18ae16aff552ae7d482f95bb2e49aa17c588nat,
        0x486c0b2d95e9f0f4e8c07ca65f03794f396dc41f488d7dc6b44a14a98dc54efnat,
        0xd98d4aaf5689b5144d8c591895a69c743cce3b460345d99803f229b65d68841nat,
    );
    lemma_power_modulus_over_2_to_983();
    lemma_pow_mod_multiplies(
        7,
        0x16d20e669fd5d87abed2cdfc79c15d72f20cc0c0866707c23c658000000nat,
        2262,
        modulus(),
    );
}

/// The power of 7 to the modulus less one over the product of its prime factors from 11003 to
/// 237073.
pub proof fn lemma_power_modulus_over_11003_to_237073()
    ensures
        pow_mod(7, 0x4fad93d8dcd4631ffb8f2d724806e19d540e5ad5245ce75bd0000000nat, modulus())
            == 0x9bcbc66994ff2e58e5048f72818d7e8d29c70b4916c52c4fc514384e9ff003nat,
{
    lemma_pow_mod_zero(
        0xec76272bf8f146784227ca601ce54e29d81666dc8f175370674bb3943a60081nat,
        modulus(),
    );
    lemma_window(
        0xec76272bf8f146784227ca601ce54e29d81666dc8f175370674bb3943a60081nat,
        modulus(),
        0,
        2,
        1,
        1,
        1,
        1,
        1,
        0xcaf7404046fa8d0644b7fb69a62aa9ad563162c325b76b070eb1823c018151bnat,
    );
    lemma_window(
        0xec76272bf8f146784227ca601ce54e29d81666dc8f175370674bb3943a60081nat,
        modulus(),
        2,
        1,
        0xcaf7404046fa8d0644b7fb69a62aa9ad563162c325b76b070eb1823c018151bnat,
        0x139566730f1e9cd4f726203b7516d701491fbae14b90e76b41be95be83b575cbnat,
        0x16387d4e766bba1380054fcb4f6ae7e31531ea66916983c28518d373bde800anat,
        0x24a251ac099cad2ed3ff5122e9272ab9cf3fd916afac02a5e36b0724b8823270nat,
        0x13bb91f83517a567edf821c12958aa15f65b80ec6f9291d59916416204232c9nat,
        0x23cd59d4a451687a0783999db9344addba625e8e5949e63628dabdbc33fd9096nat,
    );
    lemma_window(
        0xec76272bf8f146784227ca601ce54e29d81666dc8f175370674bb3943a60081nat,
        modulus(),
        33,
        14,
        0x23cd59d4a451687a0783999db9344addba625e8e5949e63628dabdbc33fd9096nat,
        0x2ca5685fb53ad5d4f3e5f4d2bef41eb41ca6f42c8f62b179840fa07460e7bcccnat,
        0x20724f67f6334a10a5978c00e159d650bdde546720a5b4abb47652e3a11b8333nat,
        0x17d9bf4cd3f1a246595882b0b04144352676b4eca13ed8fedc1b0515e39ba951nat,
        0x1f47b9595e4fbe5203ffae2195ae3852b9865cd43df523e59ef8a9f025fca78bnat,
        0x2834e832b68034b7a72fc1ed8d2224db638ba7bbae6b1d0ab888e8ce666af5d6nat,
    );
    lemma_window(
        0xec76272bf8f146784227ca601ce54e29d81666dc8f175370674bb3943a60081nat,
        modulus(),
        542,
        13,
        0x2834e832b68034b7a72fc1ed8d2224db638ba7bbae6b1d0ab888e8ce666af5d6nat,
        0x3ece7c1364f5b03b72b3e71eb93f06d330a63ca15e94f0bb32b034b8c78b14cnat,
        0x2162b32d6133891c585536c06f08f17eaa6bef14ac0de643e497dcd562c442e1nat,
        0x547420a2729048ea9a5836e9279bc4d579f7f61521fe8170d4776193d377520nat,
        0x1152d5b7dedae683d88967b9a8dd5d688669c4efec1f0322b73ee628449641e8nat,
        0x263727f3fa7eb298865ca7d62d278960c4b6980353184966450073ab1c43587bnat,
    );
    lemma_window(
        0xec76272bf8f146784227ca601ce54e29d81666dc8f175370674bb3943a60081nat,
        modulus(),
        8685,
        11,
        0x263727f3fa7eb298865ca7d62d278960c4b6980353184966450073ab1c43587bnat,
        0x1a6778ebb6a2d7818e0b0e94068f9345f943589960ee59b9c0a1a0120a209a5nat,
        0x2093a43f48705e117c8a944d750205630f338c9529b1bcacf4ddaa8a552bb819nat,
        0x170141eadf22b2fdd031180f8b75acb412c4173832f30437775eb83fb3df972anat,
        0x2c3b4ac8443ca57ada69f253436679d746abcc32619a1c343738072fd7c9a8aenat,
        0x27641354b0f4c4a17ec88a7ada51d0127329145e24d5c61009fe1dde6dc46be7nat,
    );
    lemma_window(
        0xec76272bf8f146784227ca601ce54e29d81666dc8f175370674bb3943a60081nat,
        modulus(),
        138971,
        10,
        0x27641354b0f4c4a17ec88a7ada51d0127329145e24d5c61009fe1dde6dc46be7nat,
        0xe7fb67d3cab3db28002d5b10e214610fe38c0e80d75ea15ed1096b4bcd5d547nat,
        0x56435534b7f13437aece2717886d999332cb28ddc019a13dd215d6ba449653enat,
        0x1ae362182ae87bf933173ed8dfb21f443e22b81305d945f080a16be8d0d9cd8cnat,
        0xd7deba75dd2037399c8a8f4e1021739b7d1b1bb14279dd2384f40fc5a4d8aeenat,
        0x9bcbc66994ff2e58e5048f72818d7e8d29c70b4916c52c4fc514384e9ff003nat,
    );
    lemma_power_modulus_over_2_to_237073();
    lemma_pow_mod_multiplies(
        7,
        0x25930df68eba2f896c4c5902167cda91a00ed67bee308000000nat,
        2223546,
        modulus(),
    );
}

/// The power of 7 to the modulus less one over 11003.
pub proof fn lemma_power_modulus_over_11003()
    ensures
        pow_mod(7, 0x1203b2751402ee8a8450f9ae5651fac8c117e818301af77097778d0000000nat, modulus())
            == 0x3de4a49a66905908e84e0fcf6bbba2255dadd785cd36d1b56e917b53724f1fnat,
{
    lemma_pow_mod_zero(
        0x9bcbc66994ff2e58e5048f72818d7e8d29c70b4916c52c4fc514384e9ff003nat,
        modulus(),
    );
    lemma_window(
        0x9bcbc66994ff2e58e5048f72818d7e8d29c70b4916c52c4fc514384e9ff003nat,
        modulus(),
        0,
        3,
        1,
        1,
        1,
        1,
        1,
        0x28b23fa38e4a68f55f60689e8e64856657e4498c3efc6aab6c6664c68329cd4anat,
    );
    lemma_window(
        0x9bcbc66994ff2e58e5048f72818d7e8d29c70b4916c52c4fc514384e9ff003nat,
        modulus(),
        3,
        9,
        0x28b23fa38e4a68f55f60689e8e64856657e4498c3efc6aab6c6664c68329cd4anat,
        0x2ee7180ecc338c5017cc429844e373a516d84ecc0c7549a01d88f32e2cdb4402nat,
        0x75c825a3977b4d1c1a57fa2f355129c043d0214c8e2b0ed76d7da4341736ad0nat,
        0x13bb9e1878888a13473a9977f6803fc2a244b1cd1eca2befd408517925c85a0anat,
        0x242d9792c0bfae1c7e9babe01f1e7c739ed499928ce5fe2795bacd13caa153b8nat,
        0xc9324b2251b515aae4a3568732589872753a0fb193e34ef1ebd14221aa58c7fnat,
    );
    lemma_window(
        0x9bcbc66994ff2e58e5048f72818d7e8d29c70b4916c52c4fc514384e9ff003nat,
        modulus(),
        57,
        14,
        0xc9324b2251b515aae4a3568732589872753a0fb193e34ef1ebd14221aa58c7fnat,
        0x1264c0e70cc88f8037ba699fa0854de58d5ea9513cc3f248aad9dd79228893f2nat,
        0x18babb6556ddffeee7d0487fe773640eb3de430579b0b79ad046e3a7306fc141nat,
        0x1be18f1b6f3d5e9f8f22d4291b190d8e6cd87703acebe3571e47e712dfe4ec00nat,
        0x1d13945dc372ed931948c3df18690b70e0bb4b0fd8ed32680af8f9c9911eee03nat,
        0x1d629b34506c96dfaa54b50f4c88443f208c86e8fb67d1b37c67af59b032d7bfnat,
    );
    lemma_window(
        0x9bcbc66994ff2e58e5048f72818d7e8d29c70b4916c52c4fc514384e9ff003nat,
        modulus(),
        926,
        1,
        0x1d629b34506c96dfaa54b50f4c88443f208c86e8fb67d1b37c67af59b032d7bfnat,
        0x21f35fdcaf8c6fb4dd43f7073e6978cc06e4a8e65e0e20e5df0141cc43fa9fe1nat,
        0x271485bc5d682e07c8af6897f7b6453aba9d28ca66483129caefe485619aa119nat,
        0x27b809c79c50a53f2618c853c4c82c587e14bd7992f8f2581d0d7d9b79a1da32nat,
        0x7878dc6a16cf6ceeb20852eddcb37172f7207bc18c91b053ab1f4485368f171nat,
        0x203b77b9326abaa14e882c0d39dcd61782e9175d2bde5515ae433c60b567d486nat,
    );
    lemma_window(
        0x9bcbc66994ff2e58e5048f72818d7e8d29c70b4916c52c4fc514384e9ff003nat,
        modulus(),
        14817,
        1,
        0x203b77b9326abaa14e882c0d39dcd61782e9175d2bde5515ae433c60b567d486nat,
        0x208e2b5ef7a9953ff4ce1c5cbfd7974351ce6307a4a2c9de74c6f8d328ec2c8enat,
        0x2bf27c493bf839dd61814b44bb63178b53a413df809931f8d51ff021068c7ab2nat,
        0x24cb53765ff00c0e3b8f946c0ad213d92c7d7574773da2f5b9ddc5aac7534005nat,
        0x161008a5d2b2effe4c742f3394020eccf5cd048f3a8352991377fc60f605c3dbnat,
        0x3de4a49a66905908e84e0fcf6bbba2255dadd785cd36d1b56e917b53724f1fnat,
    );
    lemma_power_modulus_over_11003_to_237073();
    lemma_pow_mod_multiplies(
        7,
        0x4fad93d8dcd4631ffb8f2d724806e19d540e5ad5245ce75bd0000000nat,
        237073,
        modulus(),
    );
}

/// The power of 7 to the modulus less one over 237073.
pub proof fn lemma_power_modulus_over_237073()
    ensures
        pow_mod(7, 0xd60997189db5c806fa122d64eddbfc3050bc4fa06f1e50be724f0000000nat, modulus())
            == 0x2da829edd7ae3c841039bb41467f38d97c772b489328403912fd89d09a622e8nat,
{
    lemma_pow_mod_zero(
        0x9bcbc66994ff2e58e5048f72818d7e8d29c70b4916c52c4fc514384e9ff003nat,
        modulus(),
    );
    lemma_window(
        0x9bcbc66994ff2e58e5048f72818d7e8d29c70b4916c52c4fc514384e9ff003nat,
        modulus(),
        0,
        2,
        1,
        1,
        1,
        1,
        1,
        0x200cfe38f5a91d7330055f3d8587fbdd822829bfae83eab1a5a1775a68dfecdnat,
    );
    lemma_window(
        0x9bcbc66994ff2e58e5048f72818d7e8d29c70b4916c52c4fc514384e9ff003nat,
        modulus(),
        2,
        10,
        0x200cfe38f5a91d7330055f3d8587fbdd822829bfae83eab1a5a1775a68dfecdnat,
        0x1ed7905d675d0bea55efbf20ee1b93cccbb16ca861d39a24b2a6ee5e56b2ff8enat,
        0xbbec42cbe6935a2c8781a0c89964134ba1501027c035e6f6674762e499f80f3nat,
        0x20f8555370452ef4f1598f1d850d2e3dab78cc1e54794503a5247c4415c00banat,
        0xacafd8868fb49d5c8f5f069aad6c88b7a2bef6b6ea5eb68af9994cd6b1787f3nat,
        0x1a7e6fec22f298e7894e860e357909ffcdf149c6cee3083710542e30ff1f01nat,
    );
    lemma_window(
        0x9bcbc66994ff2e58e5048f72818d7e8d29c70b4916c52c4fc514384e9ff003nat,
        modulus(),
        42,
        15,
        0x1a7e6fec22f298e7894e860e357909ffcdf149c6cee3083710542e30ff1f01nat,
        0xcbc160ea71fd37ae32cf29bfd2696557bd55bca1f12fff96768a5434ce6ae00nat,
        0x2ea119766189fe2f1cc18a5e409395345aa97c9a795706e5a0d7b2d89df91574nat,
        0x1c2d078a7b389924b6767fd161131107c56c1dfa27b93e4cb028f88ce2dec34fnat,
        0x1c36705b0cb5663a911cb1e8647dd968edf1fe3bbb3529f06599b1e4788eb0fanat,
        0x3bb5722beb0e963007988c3040ca9f80fb1deefee92d211a731c57c3a5cf6e3nat,
    );
    lemma_window(
        0x9bcbc66994ff2e58e5048f72818d7e8d29c70b4916c52c4fc514384e9ff003nat,
        modulus(),
        687,
        11,
        0x3bb5722beb0e963007988c3040ca9f80fb1deefee92d211a731c57c3a5cf6e3nat,
        0x15e794613ee0fba2814293b3dbe1533962be22c35832b243171a88ac21c83737nat,
        0xe3db84903ca9c623ba22fb7466e4cfe38b694c8885c8d4432adbbe7c63b221bnat,
        0x2a6d0ad54a3c65b71da58a91c3b14e8bf38ed1cdd6b9728dcabf1e27f8f4b57enat,
        0x9f0b679a453099008f3010682a92a11418b981ea5c1d903a8fab24578a874a7nat,
        0x2da829edd7ae3c841039bb41467f38d97c772b489328403912fd89d09a622e8nat,
    );
    lemma_power_modulus_over_11003_to_237073();
    lemma_pow_mod_multiplies(
        7,
        0x4fad93d8dcd4631ffb8f2d724806e19d540e5ad5245ce75bd0000000nat,
        11003,
        modulus(),
    );
}

/// The power of 7 to the modulus less one over the product of its prime factors from 405928799
/// to 1670836401704629.
pub proof fn lemma_power_modulus_over_405928799_to_of_51_bits()
    ensures
        pow_mod(7, 0x564175f5ed116a51f73993b47be56a992393d0000000nat, modulus())
            == 0x1d1372d2e510eb4f99e785773137199a75e5ee9af324726475e264bbf2c3e0f4nat,
{
    lemma_pow_mod_zero(
        0x12073afc015b8d5231352cc37ff54e557ae5fc1b69af85de95be45881486ea2anat,
        modulus(),
    );
    lemma_window(
        0x12073afc015b8d5231352cc37ff54e557ae5fc1b69af85de95be45881486ea2anat,
        modulus(),
        0,
        1,
        1,
        1,
        1,
        1,
        1,
        0x12073afc015b8d5231352cc37ff54e557ae5fc1b69af85de95be45881486ea2anat,
    );
    lemma_window(
        0x12073afc015b8d5231352cc37ff54e557ae5fc1b69af85de95be45881486ea2anat,
        modulus(),
        1,
        4,
        0x12073afc015b8d5231352cc37ff54e557ae5fc1b69af85de95be45881486ea2anat,
        0x1addea8814460fa80084741d5fbdc8d2c180f265955e59ec59d94ab5ce8ab85bnat,
        0x6114e7432abd9886b889b68b11d8dd2b83fb955e08cd7f3050116c6c3116fcnat,
        0x24619cf09b5c6bb77816285c373cb41653e63179cdef69e3ec31270351964969nat,
        0x186e72f518c402b35932df1f08e3c29a657254aa39691639460f410585ae3a0enat,
        0x50e1e8e1782cfe9e58286a673811d1615c3cc11bbb9e6be7dcb284699587aacnat,
    );
    lemma_window(
        0x12073afc015b8d5231352cc37ff54e557ae5fc1b69af85de95be45881486ea2anat,
        modulus(),
        20,
        9,
        0x50e1e8e1782cfe9e58286a673811d1615c3cc11bbb9e6be7dcb284699587aacnat,
        0x25e2c70c3d356373c5237ca80a4b9aacd74bf9f85113208aa13b55ca8f8791a9nat,
        0x2ad3184057c9307cb6d010d25b8b1d9cdac54949ad67ef35920fc57d987b0f38nat,
        0x24e64c51e23453fcbf1b21ee85fa1117de188ade066c68db15cdf0facb9f5d9bnat,
        0x380e42a832e7fd34881fa0b29250311c0e7aaa35e3e5450706bab5ef9d1458bnat,
        0x20108b323ee130041462554e7dee63715b17e53ba0f86de6404bad54e6c165e9nat,
    );
    lemma_window(
        0x12073afc015b8d5231352cc37ff54e557ae5fc1b69af85de95be45881486ea2anat,
        modulus(),
        329,
        11,
        0x20108b323ee130041462554e7dee63715b17e53ba0f86de6404bad54e6c165e9nat,
        0x20095f154d1a82cbdb7adc63cf2af85ed039ded2b3b89e12f18b55ecddb31beenat,
        0x2d195b6b68e27315b37b04ac3ece8f2bf3713632509dd19f1206370c947e4c3nat,
        0x2dc8e79d090256b6a54fe6b008d2feaccf8fb5085998f9f2689c38c734b693eenat,
        0x4629d1460fcdc11700ca58f45b15bb532958bdfe54b17afbb846970a62ec3dnat,
        0x6ada7295b45917e057c0f84a2facebd994afd4e5bac3b20363d85a1338899b9nat,
    );
    lemma_window(
        0x12073afc015b8d5231352cc37ff54e557ae5fc1b69af85de95be45881486ea2anat,
        modulus(),
        5275,
        3,
        0x6ada7295b45917e057c0f84a2facebd994afd4e5bac3b20363d85a1338899b9nat,
        0x189b92fe46a6e53e47b9092078f3550c42582f37ddfadaa204dc1fcc86c11bbanat,
        0xe57d089807cc8ae814fa3104e99362921745a341a6451950ef12fd7abebaa70nat,
        0x45e017ba50ddfb17726a8eebfa767d45ea599d71d9f0d2c8d9307283b55436nat,
        0xd8a719e3d52adcca5af9ec66580ef5e0c680f4269e440d1dc0f594032255eafnat,
        0xbbc7501643e5a8c95c75cfdd7d0a4ede6a37b0417d008e66684a50210dfb8fenat,
    );
    lemma_window(
        0x12073afc015b8d5231352cc37ff54e557ae5fc1b69af85de95be45881486ea2anat,
        modulus(),
        84403,
        4,
        0xbbc7501643e5a8c95c75cfdd7d0a4ede6a37b0417d008e66684a50210dfb8fenat,
        0x2aaa8e0b7fcdbd18969f98ad885261a95ccb8005f036258ff179f11e535ea154nat,
        0x5cb2ca575865a01402edb0060d9557fa10b5ef0bd190253bcb30cfdce6616d6nat,
        0xc80b3556f089de149981d5cd010b99558868edea6dc77b9d8b68a0c0388007enat,
        0x2da7f6fb2b3251ef29e6fc79425f5f045f5d43116b2fad15fabfd74b07ed9fenat,
        0x1a71272c785dd06849c8e5852aff80c22a3aaa3daac1612d4d194111558b344anat,
    );
    lemma_window(
        0x12073afc015b8d5231352cc37ff54e557ae5fc1b69af85de95be45881486ea2anat,
        modulus(),
        1350452,
        15,
        0x1a71272c785dd06849c8e5852aff80c22a3aaa3daac1612d4d194111558b344anat,
        0x4b606a71180219990eec0deddcee15eb0574299fcb98f7d41bcc100566ef1bcnat,
        0xe59cf4eda3e83c9bfb881d97377c3e55dc7aa504856693178326ac81807d48cnat,
        0x10ebc570fc6c6d20fa80eded7db1c169ac3037079509cfd28f3c754c2ce07e78nat,
        0x30050780499c1fa5e71b04fd48e45f9cfdbde233a23af4aad29b9fd064bc152cnat,
        0x1c095b5c54267e68125c33552ab4e72eecc1fe2e225ac6059db6ebaf64244226nat,
    );
    lemma_window(
        0x12073afc015b8d5231352cc37ff54e557ae5fc1b69af85de95be45881486ea2anat,
        modulus(),
        21607247,
        9,
        0x1c095b5c54267e68125c33552ab4e72eecc1fe2e225ac6059db6ebaf64244226nat,
        0x1e5a0deef9d4d8d3829ee65323f04e510d6cc1d49af686f7de5a1a699d7bf9dfnat,
        0xc0226617376e71a6c45469d1c1d05bd76d9a3cd526dfc6d41d023036c238a1bnat,
        0x20e7dc6267d36e410526fa9151dc260be11fc65f25c65f840ff64f2c589d61acnat,
        0x20d67eb5785549ec6c130aa1a43cd3d6f19a4865847428cdd019bed4cd0fdeb2nat,
        0x177cf66235bdf6d30d8cc7f91eb448267817a6bd3e0816ecd369c1d84a2cf574nat,
    );
    lemma_window(
        0x12073afc015b8d5231352cc37ff54e557ae5fc1b69af85de95be45881486ea2anat,
        modulus(),
        345715961,
        5,
        0x177cf66235bdf6d30d8cc7f91eb448267817a6bd3e0816ecd369c1d84a2cf574nat,
        0x1664e04a1e23ce9cdeb6961c6631ffae876db48875fdea8039bd886828715abfnat,
        0x2f1e8dc27d440736cd6032f9c6fee3272caeb111dd23b623b2d87605f8a915cfnat,
        0x86cc7f283050b1a13ed2028cf18a7e02483ae9371fd3cd204a3f62baf8f4ea3nat,
        0x1929ce133e9e2e6f4d65aaa0c8d424bead8c53f28c60ecdefc156d3dab1f3f18nat,
        0x1aae76e38e575b5846292a62da0f6bfe4f419be3b262de5e04aab5b02c7253dfnat,
    );
    lemma_window(
        0x12073afc015b8d5231352cc37ff54e557ae5fc1b69af85de95be45881486ea2anat,
        modulus(),
        5531455381,
        0,
        0x1aae76e38e575b5846292a62da0f6bfe4f419be3b262de5e04aab5b02c7253dfnat,
        0x184b689a470003c67e081000bb7319413118b66c8ce65063fed4c4bc530a542anat,
        0xa8970aa969ec89f252545338707bc7c8bc63bf5b2da092e2dbfde7fa728e0d5nat,
        0xef4563480ba6843b280f9fdc8e82dbc298f7c0d3c9d0ca8f61635d928f60532nat,
        0x54e6ff6e7e4266f76dcf35f2c6fafdc6b5ab14fb926916eed0740ec3265354fnat,
        0x54e6ff6e7e4266f76dcf35f2c6fafdc6b5ab14fb926916eed0740ec3265354fnat,
    );
    lemma_window(
        0x12073afc015b8d5231352cc37ff54e557ae5fc1b69af85de95be45881486ea2anat,
        modulus(),
        88503286096,
        3,
        0x54e6ff6e7e4266f76dcf35f2c6fafdc6b5ab14fb926916eed0740ec3265354fnat,
        0x2a93ec333be37ace2843a980cb24dd6feeb03106d3f244bf4f5744faa9dca03dnat,
        0x814f888e0324f988d37f31337d79db798ea750ad221fc5d85261c63c5afe5d9nat,
        0x177f16c356c30affb504aa0f5033465c708adc45b64a417c93903b2d7f2d5da7nat,
        0x2e2383c81407214a273f2a9278b92a96a08de0a4bace3118197a5059d8c13343nat,
        0x301aba97c097bb13dcbeb91440d0f5d196344cb19626398c85b60c13218b5eb5nat,
    );
    lemma_window(
        0x12073afc015b8d5231352cc37ff54e557ae5fc1b69af85de95be45881486ea2anat,
        modulus(),
        1416052577539,
        3,
        0x301aba97c097bb13dcbeb91440d0f5d196344cb19626398c85b60c13218b5eb5nat,
        0x1b0ff39d628f75606f7a168c557692a9322685bf819655529aaac5c4f7497fb6nat,
        0x8368d9fe94dc1b0b23cbf01ef2918b5782a34c0820e18e557604c55b42895anat,
        0xaed42dfbf67c6c7785417ccb43a851425d862af3a709ed793417ee2d2b81f8fnat,
        0x9f13febe272672a9c38e5fe19162b35adbaa2ec590cd01702fa372e1f5c315cnat,
        0x75e36321eafc7c6a5b2c0a74c35cae781132e21d77a6a77d21c0ab39e39bd8nat,
    );
    lemma_window(
        0x12073afc015b8d5231352cc37ff54e557ae5fc1b69af85de95be45881486ea2anat,
        modulus(),
        22656841240627,
        3,
        0x75e36321eafc7c6a5b2c0a74c35cae781132e21d77a6a77d21c0ab39e39bd8nat,
        0x1fe91f7e5d6bfd09e37da10240ea4edf4a7ced394e9f12d805c9d889025d1d5anat,
        0xc2e2a930d276824419b0202ed0dde660099fc20c5bd1f4bd3931d86a3723c92nat,
        0x1760e05423a4c7bb266f661ff3e90391fe45e2b2e2df80b7970a14cb21424884nat,
        0x198dd899eb7f349da1efd34155ac2c0b9036d419a0e829b3bef2b5cfab302c43nat,
        0x2c3e5967ba050d70231adda7c1e203b6819f86367cd811b25a2eeef9bccbbb48nat,
    );
    lemma_window(
        0x12073afc015b8d5231352cc37ff54e557ae5fc1b69af85de95be45881486ea2anat,
        modulus(),
        362509459850035,
        14,
        0x2c3e5967ba050d70231adda7c1e203b6819f86367cd811b25a2eeef9bccbbb48nat,
        0x6188db05a00020300369b83feb7f0276b47ad1ea62b78c77c02debd2c7b35c0nat,
        0x2146388b494aa6100755fb9428f2854960b640e12a5fad289c84d7a7fc511967nat,
        0x2f7137ed23e8bc18d1be001fc04d41f0ed76ae00cc7d2f313327d14ed186c6dnat,
        0x20d8fc4dab7f836c4628be93c70108c19da845412235d09c06c03b2930761fa2nat,
        0x1d1372d2e510eb4f99e785773137199a75e5ee9af324726475e264bbf2c3e0f4nat,
    );
    lemma_power_modulus_over_2_to_of_51_bits();
    lemma_pow_mod_multiplies(7, 0x42f96cbb7b4360dcabdfbbd18000000nat, 5800151357600574, modulus());
}

/// The power of 7 to the modulus less one over 405928799.
pub proof fn lemma_power_modulus_over_405928799()
    ensures
        pow_mod(7, 0x200039ffcc66f4ff1843aa2540567610cf77df233129494e210000000nat, modulus())
            == 0x2900bccf69583a9d21f112779a1778b368beef9735b5285e7075c10a766b61d3nat,
{
    lemma_pow_mod_zero(
        0x1d1372d2e510eb4f99e785773137199a75e5ee9af324726475e264bbf2c3e0f4nat,
        modulus(),
    );
    lemma_window(
        0x1d1372d2e510eb4f99e785773137199a75e5ee9af324726475e264bbf2c3e0f4nat,
        modulus(),
        0,
        5,
        1,
        1,
        1,
        1,
        1,
        0x2dd54e97b556422fcbe7054a5d3c79211cc1a2239eec39bde46c8f910c3803nat,
    );
    lemma_window(
        0x1d1372d2e510eb4f99e785773137199a75e5ee9af324726475e264bbf2c3e0f4nat,
        modulus(),
        5,
        14,
        0x2dd54e97b556422fcbe7054a5d3c79211cc1a2239eec39bde46c8f910c3803nat,
        0xc8193d041e1a40d703a8b41fedf66a09ce64c761ca95c42b66c2bcd861383a2nat,
        0x25c7aa967f681f6e67c94f47e70195dbf430bd5af0817f571492d4ffdd94da25nat,
        0x2f9d93427859fe5f60cb41746661f89dd11605d188a3cd1f14c9bda777317ab7nat,
        0x13aeccfba2be9993883adbf76e200417f8df4096252ad5dcd04fd50834f7269dnat,
        0x20cc94ef5964e32c9edc1aa9ae8bb8585943a6c5c55cc09ec4ae5a6b3a30f89bnat,
    );
    lemma_window(
        0x1d1372d2e510eb4f99e785773137199a75e5ee9af324726475e264bbf2c3e0f4nat,
        modulus(),
        94,
        15,
        0x20cc94ef5964e32c9edc1aa9ae8bb8585943a6c5c55cc09ec4ae5a6b3a30f89bnat,
        0x2a4732afa77e5be96bb99e734f140bd1ca9fbf8db3a318c61aad97a274b2c91bnat,
        0x1f666cbc9c133d0e76b9c54a6bd599092ed1723b5bdcd19b37ab2e61dabc8414nat,
        0x7d086ce06eca814e1fa96efe0f572e353d31a0d61266187e8629defa0b364fenat,
        0x2e90f93f7547b81b4cd86bc079feea08344785c7f35d319ebde54add9c997cd0nat,
        0x27f56b86b59ee08f9c860c5f2ae33ebf93a25d18c1500744295e8c40f2722fb2nat,
    );
    lemma_window(
        0x1d1372d2e510eb4f99e785773137199a75e5ee9af324726475e264bbf2c3e0f4nat,
        modulus(),
        1519,
        9,
        0x27f56b86b59ee08f9c860c5f2ae33ebf93a25d18c1500744295e8c40f2722fb2nat,
        0x1616e12df10e9416272abc2e81ab68ea32ebad6bec3f985ef8e1f2a26165918cnat,
        0xad64eda9d711b6bc0a92c87653fcd3efe49b6b4c2ef6c7e9a4a1fdabeb224dfnat,
        0x177a13a4afc2b3a0ad8f65814af06ed476ac8b71d5487936eca9c3a4462e2a87nat,
        0xed25dd3bc590952211142d4b1cd5da65a187187b390d2e350126d1cfd990bf6nat,
        0x26d5c656e9901730516788e481353c6463cb6a4bb254e0694d6e3377d74ca4c3nat,
    );
    lemma_window(
        0x1d1372d2e510eb4f99e785773137199a75e5ee9af324726475e264bbf2c3e0f4nat,
        modulus(),
        24313,
        13,
        0x26d5c656e9901730516788e481353c6463cb6a4bb254e0694d6e3377d74ca4c3nat,
        0x28da567ada26761926b5cac89ee7e63acc9df25bac6ef890f3cfafefc713d8f9nat,
        0x430469df79fefc9e3e9c3b67875a35906031e6a661ebe4ad3b86c113d239453nat,
        0x2630fa6f0aabd732a7914e3d63d9bc40e07ed72b705e03f982aeba5af7cc8e65nat,
        0x2642b4e6fa45c4477285197382e306879e04dd26a492b3552731ca5e11f32d76nat,
        0x1698d773b62d261d11f9d9ef307407a576d3a22ca34fdf3fc59baeb97bde5a0cnat,
    );
    lemma_window(
        0x1d1372d2e510eb4f99e785773137199a75e5ee9af324726475e264bbf2c3e0f4nat,
        modulus(),
        389021,
        14,
        0x1698d773b62d261d11f9d9ef307407a576d3a22ca34fdf3fc59baeb97bde5a0cnat,
        0x192e30304894ff7d29126902c5ffda9b10a878525925507bff60cebd2c397617nat,
        0xceebe57190520a5af09add5d150d0d1e5396094d3f77c1abc1e8084d7859254nat,
        0x2c6077d24683bd24bd28c150220309cd6eb261ac86e22ee8f9d0b43572fde225nat,
        0x18c22ca68a7b44952e09a9483f5b5d663dff89404399f038c98e3346da0d7b3enat,
        0x244911c6178a4cdfd784678f10d8eb2c23d672d25d2dff5046a18f3bfa5a80c8nat,
    );
    lemma_window(
        0x1d1372d2e510eb4f99e785773137199a75e5ee9af324726475e264bbf2c3e0f4nat,
        modulus(),
        6224350,
        10,
        0x244911c6178a4cdfd784678f10d8eb2c23d672d25d2dff5046a18f3bfa5a80c8nat,
        0x1a45c4099b4be7d4e4270ea9dd1d97340aa65f0f0a62c1946792eb0237734d43nat,
        0x1fc67b7970a3ef7bdc189a7badb8d6f26162b3c935c80c73ed5cf304e1c2d86enat,
        0x15335b7f09448c23a0f31a27bb6f3882e08f53168e80939cc84d923989697b68nat,
        0x2c1a9a859384e1236af24bc868359c9abb974d76bc5b5de7da58516b1303477bnat,
        0x13133e0a2f40aa167717fa80130d22bbda47b9565e377882f972b1f97cd593c7nat,
    );
    lemma_window(
        0x1d1372d2e510eb4f99e785773137199a75e5ee9af324726475e264bbf2c3e0f4nat,
        modulus(),
        99589610,
        3,
        0x13133e0a2f40aa167717fa80130d22bbda47b9565e377882f972b1f97cd593c7nat,
        0x1dec9d02de5893bdb6fbc3a39649d6113ea1f7c153dccd3068b5a85f894c44c3nat,
        0x1f23c9bcadc0f76c3b44ec85ece4921a3ed9d1e7eb30ff9b489a5cf6275758c4nat,
        0x105b4d7b62f7ddbd85faa996fcb763ef6a064bd6351e70f57276d352a4c7c5b8nat,
        0x6667714c465698a38aef7f594702cfa5599d699ca3bf825cf7c24ebf0f6b91anat,
        0x269a2f37f8a8f865f190e3542aff52a5e3fb3c99f4a856396c20d3f7a14ec548nat,
    );
    lemma_window(
        0x1d1372d2e510eb4f99e785773137199a75e5ee9af324726475e264bbf2c3e0f4nat,
        modulus(),
        1593433763,
        3,
        0x269a2f37f8a8f865f190e3542aff52a5e3fb3c99f4a856396c20d3f7a14ec548nat,
        0x99171d5b4c5f3320a897d040d6279aba999a0affbee446edeacfe33bdac8e6nat,
        0x1aa1c7f09d219ede4123ba50e7ebfabf688286a88e4a36f70e89ebb7a2dc6c1anat,
        0x1ed58e77c739b5e81068272ec3acfcb9e88dcbe9f5ac6b4790f89d6fa1ace39nat,
        0x29a0a527bd818c819d01c41491010d1893623c3aa8fe106f7df2f152e93ef114nat,
        0x15d43ac3f3d4e8d38e5164972837e33b38130bed458c3e8975104fd70ae48299nat,
    );
    lemma_window(
        0x1d1372d2e510eb4f99e785773137199a75e5ee9af324726475e264bbf2c3e0f4nat,
        modulus(),
        25494940211,
        8,
        0x15d43ac3f3d4e8d38e5164972837e33b38130bed458c3e8975104fd70ae48299nat,
        0x3e55aa115de93de6de7c155d0231f0ee6b1e762e80895975c00dd6ad6a5d9c3nat,
        0x24ed88e1ed60b38d1055a705d266bfecde3fddc0fbaaf6730662bf5704fb2603nat,
        0x1953b258682276a4826fe7308f1b3c8a41e1ba8b65f04df016197d9d6b279e1dnat,
        0x11f4d8f1ebfe2d209855c1181ec3ae96a90edc90ad4349601ef033f457eb6541nat,
        0x237e2c746c6b98b60f4fd3184756827687fcbd24b1dd7fa8db3a939d56dc4c80nat,
    );
    lemma_window(
        0x1d1372d2e510eb4f99e785773137199a75e5ee9af324726475e264bbf2c3e0f4nat,
        modulus(),
        407919043384,
        14,
        0x237e2c746c6b98b60f4fd3184756827687fcbd24b1dd7fa8db3a939d56dc4c80nat,
        0x1eff35ffa372f694b5e1c77ca2971fad766fe1c843cbd39a96b8bdc4e0cddb63nat,
        0x22fb01f5577d9144a9e7f4314064bd10cac3d7f5978e463c9374b956163fa750nat,
        0x2aed4c0da2d7d2bfb9c5f2ebf9f63e5cb3fd264e9591c05868d593d17d1e5997nat,
        0x2f579e9fbb3bd7817bc031ff9ca2dc09d2be696d29c3e00598cd49ebf9c39f5enat,
        0x1b27385aea8cdb1827a06d60ac601b7c2985881d9442b6b7f5315c03a0cbf174nat,
    );
    lemma_window(
        0x1d1372d2e510eb4f99e785773137199a75e5ee9af324726475e264bbf2c3e0f4nat,
        modulus(),
        6526704694158,
        11,
        0x1b27385aea8cdb1827a06d60ac601b7c2985881d9442b6b7f5315c03a0cbf174nat,
        0x2b5c3760b84fb28a01f7c1c3a6b873f14916cd115907f88786ae5dfd93cb309fnat,
        0x68463cb08adb50de573054791bc682d9b7d900fbc9b69c28db94a1cba128c40nat,
        0x253b509cf4914852f062b4b3c994d060e31b4315328ed9a5e3766509cb07074nat,
        0x53e24113780ce35463ed0b7b2e8777dcd28d75661b550fd421c0d7903e9b153nat,
        0x2ddfd1a47d23abd38797efdd81f7073e059f341aec6c656de8dd285b1346b478nat,
    );
    lemma_window(
        0x1d1372d2e510eb4f99e785773137199a75e5ee9af324726475e264bbf2c3e0f4nat,
        modulus(),
        104427275106539,
        5,
        0x2ddfd1a47d23abd38797efdd81f7073e059f341aec6c656de8dd285b1346b478nat,
        0xd48c42c8702be3a98ea329d66e8b88fca90a4eb1d898bf61ec8fb40a835dd06nat,
        0x8e9558d7f503f918f6bc1a9b1f208940ef6caac93593469c9f6c02149d3cfd0nat,
        0x246c28e798b1dfdaff74a05a1d7872e54d17065e70a397fad3ede32e67c65b34nat,
        0x24b2b8d6a4af3ebf6b2ae0a8118679e0fb765909bd100a7ef3b9ac6305ec0cc5nat,
        0x2900bccf69583a9d21f112779a1778b368beef9735b5285e7075c10a766b61d3nat,
    );
    lemma_power_modulus_over_405928799_to_of_51_bits();
    lemma_pow_mod_multiplies(
        7,
        0x564175f5ed116a51f73993b47be56a992393d0000000nat,
        1670836401704629,
        modulus(),
    );
}

/// The power of 7 to the modulus less one over 1670836401704629.
pub proof fn lemma_power_modulus_over_of_51_bits()
    ensures
        pow_mod(7, 0x826fa48d33ee800159289ae6358fe5bac4c5f80f0ca30000000nat, modulus())
            == 0x25fc539798575d1c4638fcaa8568a96d322e1236ba094aadc5d2a15c07325d97nat,
{
    lemma_pow_mod_zero(
        0x1d1372d2e510eb4f99e785773137199a75e5ee9af324726475e264bbf2c3e0f4nat,
        modulus(),
    );
    lemma_window(
        0x1d1372d2e510eb4f99e785773137199a75e5ee9af324726475e264bbf2c3e0f4nat,
        modulus(),
        0,
        1,
        1,
        1,
        1,
        1,
        1,
        0x1d1372d2e510eb4f99e785773137199a75e5ee9af324726475e264bbf2c3e0f4nat,
    );
    lemma_window(
        0x1d1372d2e510eb4f99e785773137199a75e5ee9af324726475e264bbf2c3e0f4nat,
        modulus(),
        1,
        8,
        0x1d1372d2e510eb4f99e785773137199a75e5ee9af324726475e264bbf2c3e0f4nat,
        0x1e93223436006c7708c4cf06721a2f355150235139e6240fee57242381071308nat,
        0x2745b705749a4399331c38475f44cc7c005df2950bfbdfae22bcbdc9be380667nat,
        0x118f96859d2312e4507c57e99e04245de986ea013dcce1fe6930ee7f5e09e62cnat,
        0x22b1e881eb57a1502819d6b5ce613f96e472f0ba493daaad19e422c5bf38890cnat,
        0x1a331a275d612e550169e7b8731a660c12f20052d75dfe6b4aeb4f2ac1e94db3nat,
    );
    lemma_window(
        0x1d1372d2e510eb4f99e785773137199a75e5ee9af324726475e264bbf2c3e0f4nat,
        modulus(),
        24,
        3,
        0x1a331a275d612e550169e7b8731a660c12f20052d75dfe6b4aeb4f2ac1e94db3nat,
        0x220422a4829363b046dc0d398476e82eb35186eafd9080aba544d7efa143f635nat,
        0x61f378fe89b3470a027620b030275e1bddd777bf2c7e8c40e2f08e8128822e2nat,
        0x2ae02c8d50dadf6c8984b62eace9a3797df5eb95a96641c6365c12b7221de2f0nat,
        0x2e9faf5c3c7ccf9a0c65ebfac8b55428a04ec882b1ceb9d230f17802ab6cb97bnat,
        0x269feb1472437432e61287117a34af2e99223272e4c51f93d9de48100e00e8e9nat,
    );
    lemma_window(
        0x1d1372d2e510eb4f99e785773137199a75e5ee9af324726475e264bbf2c3e0f4nat,
        modulus(),
        387,
        1,
        0x269feb1472437432e61287117a34af2e99223272e4c51f93d9de48100e00e8e9nat,
        0xb0cbe90cad5145364095e8a7bde085cdb742f55d2e8d9535408a211f586be7enat,
        0xe152665d22f167f51103d96c2676f0fc022e2585fd4bd46f83f87ef12895985nat,
        0x299a16f2d20334dc749aa0aacbd3383b27d66d3773ea5213b567d9d88aa901a9nat,
        0xf5fb2dcf61b536b5c49c117ce6baf4554f44cc4d2e5e2effaf18029fd24fe8anat,
        0x1289788927fcdf969a2f11c8f263bdc791e3bdad2cb31120ff17b1dc763c1ed6nat,
    );
    lemma_window(
        0x1d1372d2e510eb4f99e785773137199a75e5ee9af324726475e264bbf2c3e0f4nat,
        modulus(),
        6193,
        15,
        0x1289788927fcdf969a2f11c8f263bdc791e3bdad2cb31120ff17b1dc763c1ed6nat,
        0x304b6b6b56260aab4ef0a6ca05f13d38c1641903c75876c34a78cb88f10bc272nat,
        0x2f03a5a4be2668085a8cb330bb35c1df6b598056cec566d441de5b83b7473a8dnat,
        0x233f1c40c0c9d51d1fce0bf4c59e4d035c9a5bffa13c0698ae7d6dd2616c433dnat,
        0x10187e58fb710db03801f8fccdf29dc63fb4f55a8f8be82b2e0bf899e061e20bnat,
        0x2af21f2ebcb4fc06e99fb03dbcfce21d18a3f5f0bc3ce2a8d87c70a579d42d9anat,
    );
    lemma_window(
        0x1d1372d2e510eb4f99e785773137199a75e5ee9af324726475e264bbf2c3e0f4nat,
        modulus(),
        99103,
        11,
        0x2af21f2ebcb4fc06e99fb03dbcfce21d18a3f5f0bc3ce2a8d87c70a579d42d9anat,
        0x2625b8a8b2b610d1d8cb4874dc6422a8a515565d60fca43cb60d84bfadeb5b2nat,
        0xdafe26364e19d859d46644b5f605e939121be361eb438b5d2888affdbb5a1eenat,
        0x2d86a438eadeac95e5e41e916e2b193451adb6b30355976cedd9327fec8ac28cnat,
        0xb2b4c9381e32352e4a591a8502767f7d6bd4593dc054516e8cfbfc8396ff350nat,
        0x225aaba93e1ab130af49b07b97502d3f5946908d3f491a2734f3b420b8960b6dnat,
    );
    lemma_window(
        0x1d1372d2e510eb4f99e785773137199a75e5ee9af324726475e264bbf2c3e0f4nat,
        modulus(),
        1585659,
        5,
        0x225aaba93e1ab130af49b07b97502d3f5946908d3f491a2734f3b420b8960b6dnat,
        0x2b567afcb9fe92d04f3896286a34012deba310f1ec37402000fef7c658ca8b7anat,
        0x1c6a9304b3b96f7076c0b3eb6c1c1b4c85c6d51e7c87e9432ce9124c6660b9cbnat,
        0x23b7b6cfc6e5574a15b478b89985674c80c09aa93ec38da16208290e9211bb46nat,
        0x3f789ad718c4227d2fd912ee73f171524d1842c3c6f78d28fd023d8acd5da9anat,
        0x1d0b28448eb440f678c5fd313ce8a78ca8be56436b1956ecabf4d2c2165f4b9dnat,
    );
    lemma_window(
        0x1d1372d2e510eb4f99e785773137199a75e5ee9af324726475e264bbf2c3e0f4nat,
        modulus(),
        25370549,
        15,
        0x1d0b28448eb440f678c5fd313ce8a78ca8be56436b1956ecabf4d2c2165f4b9dnat,
        0xeaae1d4816cc5a36be9ab66ed71d1958b67d73e2cd9508f7368a3a28af4fccnat,
        0x258594775682026f2516fca42f39f7eeb19ba5e4532a3886ce1e008072e979ccnat,
        0xa9cdae5dee1c96fa8e6b1f79002ede151af767f0c7a4f36ce99b798b2dad7f8nat,
        0x60f2f3954cb046b17c4b3e048236c25a972a2a7af5f72a6d5f362ccd263de23nat,
        0x25fc539798575d1c4638fcaa8568a96d322e1236ba094aadc5d2a15c07325d97nat,
    );
    lemma_power_modulus_over_405928799_to_of_51_bits();
    lemma_pow_mod_multiplies(
        7,
        0x564175f5ed116a51f73993b47be56a992393d0000000nat,
        405928799,
        modulus(),
    );
}

/// A power on the way to the next lemma: the low digits of the exponent are left off.
proof fn lemma_power_modulus_over_of_94_bits_part_1()
    ensures
        pow_mod(
            0x6b177e9279a9dca37aba88ddaf46351605e17b34ffe428e40262e4c3b90cb1anat,
            0xb8f893ccc218b8a77d897f12nat,
            modulus(),
        ) == 0x25cc8f10c63a38f20fee6fb522496659f8007365513e4292e26828bb49898ef8nat,
{
    lemma_pow_mod_zero(
        0x6b177e9279a9dca37aba88ddaf46351605e17b34ffe428e40262e4c3b90cb1anat,
        modulus(),
    );
    lemma_window(
        0x6b177e9279a9dca37aba88ddaf46351605e17b34ffe428e40262e4c3b90cb1anat,
        modulus(),
        0,
        11,
        1,
        1,
        1,
        1,
        1,
        0x2c44708fb2d22d9fdeac08c8c104c7ceae1abdb369b9507ac12ea94e172d01b4nat,
    );
    lemma_window(
        0x6b177e9279a9dca37aba88ddaf46351605e17b34ffe428e40262e4c3b90cb1anat,
        modulus(),
        11,
        8,
        0x2c44708fb2d22d9fdeac08c8c104c7ceae1abdb369b9507ac12ea94e172d01b4nat,
        0x19c6f40b8f8debfdf835725de15cc24266811de8a9fda93dbef4cb1d93bea0c7nat,
        0x27b5573ca6efaa8edeb2776550147c97bfed0b77a62c6e6ede3c4af8978e8f7fnat,
        0x1ec3037aaadfb60327448f5e16a2942a1463e1ac3946fd7caa5759efa8ba2403nat,
        0x2bd0375b8119fa195d845b4c4182039317970d997d863ae41468b6631ad322cenat,
        0x13eecf46bcc3050d890c1c9ef3aaab24cf08a101c99ac557c854f0833ea5c269nat,
    );
    lemma_window(
        0x6b177e9279a9dca37aba88ddaf46351605e17b34ffe428e40262e4c3b90cb1anat,
        modulus(),
        184,
        15,
        0x13eecf46bcc3050d890c1c9ef3aaab24cf08a101c99ac557c854f0833ea5c269nat,
        0x2005c899ff847dff1f249a44b37bdd9d5fe59a70b9539964f4648085898be38dnat,
        0x1923c874df2ea032ec2b2010d80edbc173e5633fe92b113a97af09c2a0dad6c7nat,
        0x11b0ab4f28a56be5c9a6cf7038b64f88a5337fe05bb82a78b33c1f0ccec2d85anat,
        0x21ebcc1d3aeb97ae1eafae68917b595fe19f5cc2397ffa50a39dfe88aad2632anat,
        0x80cf965e4b6fdc93f8739bb80e1aa1295f98221c1465769c97982b35f7778f9nat,
    );
    lemma_window(
        0x6b177e9279a9dca37aba88ddaf46351605e17b34ffe428e40262e4c3b90cb1anat,
        modulus(),
        2959,
        8,
        0x80cf965e4b6fdc93f8739bb80e1aa1295f98221c1465769c97982b35f7778f9nat,
        0x17064f6c0ffbb99a93832b0101a268990c3c26738469097d06c61124b0523cccnat,
        0x40613092f1e6cd62a062eab76305d91298c7ef694e7167ea033dc0fa0edeacfnat,
        0x1c8fff662557443938aab40864238623e0219ed099be115e758081345274d4d1nat,
        0x16261fe04b8dc9cda006b7c17d94689b0536b8a2658ca6212ca8492ba75babeanat,
        0x1fe9e5800c1e252a9d152e487818caf8d402630c8105bb2eb2f07784ce50831enat,
    );
    lemma_window(
        0x6b177e9279a9dca37aba88ddaf46351605e17b34ffe428e40262e4c3b90cb1anat,
        modulus(),
        47352,
        9,
        0x1fe9e5800c1e252a9d152e487818caf8d402630c8105bb2eb2f07784ce50831enat,
        0x1c33174f200659f77e232bed96444f637ea0e615fb7d6d461a76b232adadd5d7nat,
        0x14775b7084c3b2261dcdae17cd28916ca5a3247e0eda0368d33e9961a72c99b5nat,
        0x2da97d3ae93adef737bc4fa43d1906fbe4b576b7ffb5fca63bf97c60e43072e9nat,
        0x3a77fb241eae8c5d37b1c5345f28d552d458290698496682f42b70a8a29b735nat,
        0x1e859bc5e938f446970d0272707e3f50b08e25a6af0b4e4ef52493dd9fed2231nat,
    );
    lemma_window(
        0x6b177e9279a9dca37aba88ddaf46351605e17b34ffe428e40262e4c3b90cb1anat,
        modulus(),
        757641,
        3,
        0x1e859bc5e938f446970d0272707e3f50b08e25a6af0b4e4ef52493dd9fed2231nat,
        0x5888becd86aa19a31e9c829a7e0d4c40a3e05124c2719b2d367c775623f0b65nat,
        0x2d9542961301e1872dacbd744e338227b5210f68372f4e7f84a0d54d857fdcbfnat,
        0x1b5d55473cb1e7efc3f04d7e735741260f6033ccb3b9057904280ad18a0ea87enat,
        0x2aa3c61fe3cd7f628f63a3c610b1e9c4f07337addd3c1198f0aa030730ed2f70nat,
        0x22bfc24b51a7bc4a94a061b0208ac269ee79e013376fd5c71ebb7469f2393f52nat,
    );
    lemma_window(
        0x6b177e9279a9dca37aba88ddaf46351605e17b34ffe428e40262e4c3b90cb1anat,
        modulus(),
        12122259,
        12,
        0x22bfc24b51a7bc4a94a061b0208ac269ee79e013376fd5c71ebb7469f2393f52nat,
        0x1dbd67e42c9b182527855cce6e0037503948ddb7b00c4defafbfc2a1a59df597nat,
        0x47e9978ac7e955c3f9716af6afac7f7f7f3004e78398ac6dcdbcbe878faf214nat,
        0x1fa41962d5cf335be9547f1fd3c3a97b2a286ffedf72fa1e00a005d9f9fc93bcnat,
        0x2f527b6fd29e69dd4a733b4eb470e6528c72911a1534bada6359fa9cf7fbe117nat,
        0x1103bc486f44a9fec56756c9db2cd87a568bc88be8fae7261b2eeba8824a2f84nat,
    );
    lemma_window(
        0x6b177e9279a9dca37aba88ddaf46351605e17b34ffe428e40262e4c3b90cb1anat,
        modulus(),
        193956156,
        12,
        0x1103bc486f44a9fec56756c9db2cd87a568bc88be8fae7261b2eeba8824a2f84nat,
        0x2a68ed130e2379caf709ceb5bc88f7a1dacd08842df58e939edd663209703fa6nat,
        0x177fb18281f405caee4ec44fa0df507fb260b7fec4f919c8de0b262b3471010dnat,
        0x21e3e459b44207846a29e1b48a294e08c58b6938df354d9269a140f1f62cddefnat,
        0xc8c3b04b7a04f71a03261ae2ebe19ee3e17dd37f20cc33c93ca39f3ef75ce8dnat,
        0x85119cf316dbd42f377d1baab10551a6596f9f2fd34a5f526572a2bba0b6b0fnat,
    );
    lemma_window(
        0x6b177e9279a9dca37aba88ddaf46351605e17b34ffe428e40262e4c3b90cb1anat,
        modulus(),
        3103298508,
        12,
        0x85119cf316dbd42f377d1baab10551a6596f9f2fd34a5f526572a2bba0b6b0fnat,
        0xb1b9c753a9fa54bf6195e6a5b8571c5816efeb636e59e9c9ddd408ea699e33anat,
        0x100cba6960b51d33d629ddf98a5c82ae493902d5f6bb78bdd66856335c53c536nat,
        0x2fac827f866411287d15677ea0aff83492ac75e66c03f9955e899005d8606bdanat,
        0x1b3bdd640346165ebf504702f63b0c8d95098e5873ac572bdc3486829a0349d3nat,
        0x1d57472622451a132b0b9f368be451ffc51ae669ad8394148319b7efd8b37086nat,
    );
    lemma_window(
        0x6b177e9279a9dca37aba88ddaf46351605e17b34ffe428e40262e4c3b90cb1anat,
        modulus(),
        49652776140,
        2,
        0x1d57472622451a132b0b9f368be451ffc51ae669ad8394148319b7efd8b37086nat,
        0x1c09c2b2e8df6f2648923f5d5252214f640bee423c47fba52e27b3a126564f9nat,
        0x379f9d5818ac171b733aa75a85fdb38055d78f544889bcd77b1db915895c5aenat,
        0x3f71673d328c7ce0f91d2c7fc228acf7abc46e75f8672b8a2414622c44a46a6nat,
        0x29f5087f1d6157fc0ad2457c5b63125037b1f586d062ae112b2ab6eca76f7dd2nat,
        0x8581ba9f5e0d0600420de7fde90a618b2965c0dd02eb2b9ea5521d08bb4936dnat,
    );
    lemma_window(
        0x6b177e9279a9dca37aba88ddaf46351605e17b34ffe428e40262e4c3b90cb1anat,
        modulus(),
        794444418242,
        1,
        0x8581ba9f5e0d0600420de7fde90a618b2965c0dd02eb2b9ea5521d08bb4936dnat,
        0x2ab335341c050cd89f7cf943600dc299b41fe9f1896647308d64d50f3a6e3149nat,
        0x10ed28af41a45cd04a1906e60a1817167015b70b81fd938270fffebe1cfb72f6nat,
        0x521c4d08e1a1d6981aa4d09efa9402fee1179f0fff4f8c4306af40292578af2nat,
        0x16cf2c804550f54650d8e836e70001086b78382573a6687b008e88178a6a3539nat,
        0x27db32dacb9411334e60956e89a8c32f409e1a6ad0ecd04bebb5a8066f87ef54nat,
    );
    lemma_window(
        0x6b177e9279a9dca37aba88ddaf46351605e17b34ffe428e40262e4c3b90cb1anat,
        modulus(),
        12711110691873,
        8,
        0x27db32dacb9411334e60956e89a8c32f409e1a6ad0ecd04bebb5a8066f87ef54nat,
        0x2681529a4da98a4e7f13f4bcb77ce6b3871bd95e974f1249091b0b607e4ac338nat,
        0x1ab5db5bf61ab11d5889ced4a63d93682be708af524f4f3bb8adcccabec0ae03nat,
        0x15a540bb52e5b425d52a1fccaf7ab29a2f19f69cc91289dc831447d391cfa4f8nat,
        0xca685d87ddc2e8dc2806abfc855b3bc289ed0a19d2f6d5d9f117c3f4ceb0f64nat,
        0x1b617ecffd9da0ea879682542232e1bb1aead2303bbecee7eb49516aeb86864bnat,
    );
    lemma_window(
        0x6b177e9279a9dca37aba88ddaf46351605e17b34ffe428e40262e4c3b90cb1anat,
        modulus(),
        203377771069976,
        11,
        0x1b617ecffd9da0ea879682542232e1bb1aead2303bbecee7eb49516aeb86864bnat,
        0x20cd0cccec2f9c5654458dd4190e36c556c48758b2248ad5bdc408b53dd6400anat,
        0x25835be1a08ff4bdccc9b375751be285d8b6a4f05578970e4782cf2e270477ebnat,
        0x16ce1207dc99e557997c0c3f497cc9562a2a0f7d68e720d2a6a2e3cd93ec032dnat,
        0xe5981d2dc01e89b067fd67a8797acb5c51047fe7275219842de3cc20e83a01cnat,
        0x294c272bf22b6b1c4035bcf1bc805e004095e128919c356cb745e1c20e1aa01cnat,
    );
    lemma_window(
        0x6b177e9279a9dca37aba88ddaf46351605e17b34ffe428e40262e4c3b90cb1anat,
        modulus(),
        3254044337119627,
        8,
        0x294c272bf22b6b1c4035bcf1bc805e004095e128919c356cb745e1c20e1aa01cnat,
        0x1e66a6de0949bb1c476f3874b35d8323f6a39d4d010c9efab164f9817810cda7nat,
        0x1cd3daeaf2c8f085c67ef83ca5b908d7ef5d7acdab654b001689b79bf75c1314nat,
        0x126635e887ec7b60c23da07bbabe4cfa4fce0c12eca579e4a402150eed9e1770nat,
        0x1ee5490c6c0cf89ec8ebb971e283ead6f0e57b2f54971e4569d6fd21166d3367nat,
        0x13c5751c94199a061c1e2a42eb1a718fbd999d0e76630fbb36985a4bd70d5551nat,
    );
    lemma_window(
        0x6b177e9279a9dca37aba88ddaf46351605e17b34ffe428e40262e4c3b90cb1anat,
        modulus(),
        52064709393914040,
        10,
        0x13c5751c94199a061c1e2a42eb1a718fbd999d0e76630fbb36985a4bd70d5551nat,
        0x2446e20478cf0b8fcac7f3c86f2f0352e41ea14e22494788f8047b7dc0839f4dnat,
        0x1708129400100a02f9ccff71525691de6cc7f6d83808976ef4dab0050ea7068dnat,
        0x1daf6cf1029a310657e085421e3bfd39244f22b7d365781f476d2e5b9690ad5nat,
        0x29673b4fc0454c8b5c4216200ba6effeb6716fde66852e2535f2d08a9bc75b17nat,
        0x2642233cb4c575c975f329ef16e09cfceb907e415f515d0b4d885e2e2e113603nat,
    );
    lemma_window(
        0x6b177e9279a9dca37aba88ddaf46351605e17b34ffe428e40262e4c3b90cb1anat,
        modulus(),
        833035350302624650,
        7,
        0x2642233cb4c575c975f329ef16e09cfceb907e415f515d0b4d885e2e2e113603nat,
        0x5d999ab35644f805b4cd230c58727066d95cfea44b5089fa994a51534990dadnat,
        0x6f2e34dc8f559831e5ac3034d63a63d646ca862ee06e4696e8e676f943374a3nat,
        0x35fa188fbd21095985e326deab65b9de83c915b640e438c23ed159862ca6e76nat,
        0x1448c0b6a0af3b128e6c0a0964f80709ce0d292a95dbbcbcf037d9405b7b0144nat,
        0x2babaa9ca70b0ec2ce129c0cfeb670d098903e60a50518387d0cd5c0fda95a62nat,
    );
    lemma_window(
        0x6b177e9279a9dca37aba88ddaf46351605e17b34ffe428e40262e4c3b90cb1anat,
        modulus(),
        0xb8f893ccc218b8a7nat,
        7,
        0x2babaa9ca70b0ec2ce129c0cfeb670d098903e60a50518387d0cd5c0fda95a62nat,
        0xab18aa1c3cbebb72f6ca152b46b0a7e1f717cfab9885253edae5756510d2f3anat,
        0x1bcdab106b0b2d5d0d2dfd5a0f0c4dab0cbe62defc26fe6b7b29e62597fb6617nat,
        0x179aae7b8dd9a53eca1bfe7ed64f1836b14ddf44faea68db635dfd0a7d86469enat,
        0x12ffc728770dcec93450ba66d589a5e8f2db7440e1d9f3188ff4bd75645800d0nat,
        0x1c6e9bb1c191a13125f6f777b1d13702df29d6d91386f9477f074c560b74c984nat,
    );
    lemma_window(
        0x6b177e9279a9dca37aba88ddaf46351605e17b34ffe428e40262e4c3b90cb1anat,
        modulus(),
        0xb8f893ccc218b8a77nat,
        13,
        0x1c6e9bb1c191a13125f6f777b1d13702df29d6d91386f9477f074c560b74c984nat,
        0x25d9aaaa2fd745bac6eae5a9f16f24a11b425f2166e573f7170f86b87937fb1cnat,
        0x10fb7da267b0e6ce52f87a58d1a914e76bd67d432a0cdad3bcee47c10896d7banat,
        0x25d9a915c6e95840119ac9d17bee0ccae473ad1e5223063ca17a6b746ac10577nat,
        0x20919264805812ce88ce3dafffc18766f2a849ddefc45f0874e1fabbe118cf15nat,
        0x15526d636df17a976c04f66f4dfad2e6b6f286a0512ecc3bc6fbba5df42f47e3nat,
    );
    lemma_window(
        0x6b177e9279a9dca37aba88ddaf46351605e17b34ffe428e40262e4c3b90cb1anat,
        modulus(),
        0xb8f893ccc218b8a77dnat,
        8,
        0x15526d636df17a976c04f66f4dfad2e6b6f286a0512ecc3bc6fbba5df42f47e3nat,
        0x2ec4d05fed1a41498e421cda943617fb3cb02d0e0e6cb89c88e7191796d8392cnat,
        0x259b6761d1fa2c82752269d248117a7f8ddd819950a90ffd9f916305a8e01599nat,
        0x172af168d4f4f3efe96a5f2ed4e3f723ac4bffee79e68f5d00642a8d283e59f6nat,
        0x1a25bf95655cd4951cc31d18c16da930a4efbee263a2d9368e8b6b7687792731nat,
        0x12a2513606f5451a24507de864f29ba52925f7601bfbc9d3378d78e855d18d12nat,
    );
    lemma_window(
        0x6b177e9279a9dca37aba88ddaf46351605e17b34ffe428e40262e4c3b90cb1anat,
        modulus(),
        0xb8f893ccc218b8a77d8nat,
        9,
        0x12a2513606f5451a24507de864f29ba52925f7601bfbc9d3378d78e855d18d12nat,
        0xb2e789ac441b5d60b8f5f1e98acc411601e90df1e9cb968aa1e6c6ba7de17b8nat,
        0x27c834788a015b26fcf725fdd46779e5a357c80e15bec5ee22ef7e2127360a07nat,
        0x1e327169ec9bcc8aabca77c569c10a11cc26541e0aff555e3cd929e5ce1f4340nat,
        0x1048a06c78a2307520fe5ae9e6488bf0152c5d2f53a3e7e04e3475f3e2054c2dnat,
        0xaf210fcb7efd6df34bb04e817a9523c011bdf1b223e215556cf7e357c0f75c7nat,
    );
    lemma_window(
        0x6b177e9279a9dca37aba88ddaf46351605e17b34ffe428e40262e4c3b90cb1anat,
        modulus(),
        0xb8f893ccc218b8a77d89nat,
        7,
        0xaf210fcb7efd6df34bb04e817a9523c011bdf1b223e215556cf7e357c0f75c7nat,
        0x289738ebe876710f6c8fd2e95e8cdbcbb756d86412d6bc962b1b57c411cd3833nat,
        0x3019aceaaaa7dc081575057ddbd4b6c171d5c00a46626072450abd5a12d503dbnat,
        0x3778b3f65b667d69df0eeabb680fea8cca6c743974c1ab79ee6235c05bef626nat,
        0x914d8f1212195ebe680a1815edabf4d8aec0ac7c7e272d605348a0e71156008nat,
        0x15751a871dad67c2b08f109f66ff41daedd5eca79486b94a4941a5b7101ce587nat,
    );
    lemma_window(
        0x6b177e9279a9dca37aba88ddaf46351605e17b34ffe428e40262e4c3b90cb1anat,
        modulus(),
        0xb8f893ccc218b8a77d897nat,
        15,
        0x15751a871dad67c2b08f109f66ff41daedd5eca79486b94a4941a5b7101ce587nat,
        0x23bf044f7acc43572f75d44b53a70d5c1e49f0e6526364960d8d293e39f3367fnat,
        0x480e4eb5f8e7732270e5eac2e7695881e1fc3960f54aefbb7cf6d3445119398nat,
        0x1201a8959e276194d5a80182024777a23e1ae3dc298fc223e06920f18208d6d5nat,
        0x16af409690a1bbc7020a04de7d58856fce3e374921ef108fb7f7b0eb8ef88c77nat,
        0x1d405fc6ce83919eeb6c1145a3aed1a0d4354bde113528de9cedd439206f782nat,
    );
    lemma_window(
        0x6b177e9279a9dca37aba88ddaf46351605e17b34ffe428e40262e4c3b90cb1anat,
        modulus(),
        0xb8f893ccc218b8a77d897fnat,
        1,
        0x1d405fc6ce83919eeb6c1145a3aed1a0d4354bde113528de9cedd439206f782nat,
        0x114b7c00930db5adad5171c8be987d6f587784ff84d0ff18ad53f1b27325ed6enat,
        0x263ff1d900174d8997f7bdb4346fff5de6aa255617ef5115170cbc533210c1b1nat,
        0x1d28126d750c72769845719ec2c2e9335afa5c84e52e7ec3829ac101ccd31739nat,
        0x2da1fec6451cbe859bd723f075a9f145d74018ccad3365ced5e27753c7d5c1a7nat,
        0x2099e2940ccaa558c120b2daeffc1bcb8072d453c3455d56e8ffc593fcb51480nat,
    );
    lemma_window(
        0x6b177e9279a9dca37aba88ddaf46351605e17b34ffe428e40262e4c3b90cb1anat,
        modulus(),
        0xb8f893ccc218b8a77d897f1nat,
        2,
        0x2099e2940ccaa558c120b2daeffc1bcb8072d453c3455d56e8ffc593fcb51480nat,
        0x132ec83c9b18990aa1599a56ffbe17679fd77668887b1655b2376ae15a6e960cnat,
        0xc9847f97fcda4df2f54c3b9f1462edc2b53ee03ce91aa51510dfd40a0b65537nat,
        0x2fa416c57870437d985b79215830b7c2614f8c009cb725b226678eb2c3ece595nat,
        0xc99a62898f4fd7ad3d721c39416c058a5617641ef0367fa23ab3fb5b9b77bbdnat,
        0x25cc8f10c63a38f20fee6fb522496659f8007365513e4292e26828bb49898ef8nat,
    );
}

/// The power of 7 to the modulus less one over 0x2ca6487cfcd795e8729527e1.
pub proof fn lemma_power_modulus_over_of_94_bits()
    ensures
        pow_mod(7, 0x11574ddb3232514fb3c4e3e9c408cc251f0000000nat, modulus())
            == 0x23fcd2343861f7fc3aebaeebcc6cfa4670e92d67fe1fc30272191e30b4b1a35cnat,
{
    lemma_power_modulus_over_of_94_bits_part_1();
    lemma_window(
        0x6b177e9279a9dca37aba88ddaf46351605e17b34ffe428e40262e4c3b90cb1anat,
        modulus(),
        0xb8f893ccc218b8a77d897f12nat,
        13,
        0x25cc8f10c63a38f20fee6fb522496659f8007365513e4292e26828bb49898ef8nat,
        0x157ddb812a2667a6b974ba20f472a4dfe3202e376a1492dfe4c9d33cc103af9dnat,
        0x1525a2ddb298196d851b57d40a538a3a9a4b69c8e16e79be0d04b19f39a471f8nat,
        0x2498123a2dbc89b450befacc78765c95903734b130bd562e8c5125fd162dab44nat,
        0x432aabd6db91ee613dcd927a036c1d83d194a04db596af05cb31cc39fa14883nat,
        0x1a3a83f96203a9c338b71a31a5027ebad43b0b00dd3c941fbcd2b5908882a224nat,
    );
    lemma_window(
        0x6b177e9279a9dca37aba88ddaf46351605e17b34ffe428e40262e4c3b90cb1anat,
        modulus(),
        0xb8f893ccc218b8a77d897f12dnat,
        5,
        0x1a3a83f96203a9c338b71a31a5027ebad43b0b00dd3c941fbcd2b5908882a224nat,
        0x2722c4b03a71eeb2c4f9a115e028a5ec0be6e2ad8a5f694abacb01d62a8fc27enat,
        0x176c76b07e5ef5e9db84e77b6999021c9df5746ba71fff5aa7b9c1f835874b1dnat,
        0x4da4ef8a43ce767e69d54e03774beaba07829ea08141c46927c545c9dc22fd4nat,
        0x2f072b3a6f72f7729e726b8757560885340621b62f4278c3d1e8fb0736986803nat,
        0x8944257e04d3983df4b8011cee65c5c1cf8fc9013baaf7a9361f441570a3736nat,
    );
    lemma_window(
        0x6b177e9279a9dca37aba88ddaf46351605e17b34ffe428e40262e4c3b90cb1anat,
        modulus(),
        0xb8f893ccc218b8a77d897f12d5nat,
        11,
        0x8944257e04d3983df4b8011cee65c5c1cf8fc9013baaf7a9361f441570a3736nat,
        0x2f9954886b44af1ee5221b7c188ddae5ffdbc3c06023efe2a5c99fa394f314dcnat,
        0x1938fe7c6ee006c15eb4c244a98fa2cb371ea42140186c42b13dabd2e45c2d57nat,
        0xf9b20f7b3ef90d208ed857ee26bf5bfcbec8d7c031d9b9d40bc2fb051b90f1cnat,
        0x11e76a89fb6495c9951b5da2f39cef0fff6f245f8927fd079c15c312bd39b784nat,
        0xed6edcbbae046e68f8dc82cbe66d5ac43f6f01a8743ff28a0f080a3eac39924nat,
    );
    lemma_window(
        0x6b177e9279a9dca37aba88ddaf46351605e17b34ffe428e40262e4c3b90cb1anat,
        modulus(),
        0xb8f893ccc218b8a77d897f12d5bnat,
        3,
        0xed6edcbbae046e68f8dc82cbe66d5ac43f6f01a8743ff28a0f080a3eac39924nat,
        0x24b3c1f9d4f9f8cb192529a14d92dc5c0aced62b060644fb41c44deadb9eb1a2nat,
        0x1803d2bf8a434580ab0c2fc6f4e37f88f507cf3617b77cb9ac9f103805355659nat,
        0x7e0161e823019269b477e6fb3b7a0ce187523709742f38fd82af6af2c303753nat,
        0x1e4eaf263fae7cb731116ddddbcebdfd4042b33ed415e28378accd94a132d158nat,
        0x169f697054befee919a1bb00469ce8c493e570ccf3e2927b5786a5dc4cfbc73nat,
    );
    lemma_window(
        0x6b177e9279a9dca37aba88ddaf46351605e17b34ffe428e40262e4c3b90cb1anat,
        modulus(),
        0xb8f893ccc218b8a77d897f12d5b3nat,
        2,
        0x169f697054befee919a1bb00469ce8c493e570ccf3e2927b5786a5dc4cfbc73nat,
        0x1a298b6050d7c1bb642f7f43341fe9bf21833f75e522cc492b0cddec647b7110nat,
        0x27b9f519c84b02c567cea5c90d5d872373444b8369badf13497d0170fa18ee05nat,
        0x2ff9c30b55a92564ae434e05d7d85e9f72d67d57d2e9f57e0b1062f83dae7513nat,
        0x26bf4fbe481e0e3659b0e08c70d08582646861d58e94f461a3da7b8e9b3a319bnat,
        0x27b2e7b6bf13831a3a73882153d555c437fa2efc24437c6c260e85029cf111f3nat,
    );
    lemma_window(
        0x6b177e9279a9dca37aba88ddaf46351605e17b34ffe428e40262e4c3b90cb1anat,
        modulus(),
        0xb8f893ccc218b8a77d897f12d5b32nat,
        12,
        0x27b2e7b6bf13831a3a73882153d555c437fa2efc24437c6c260e85029cf111f3nat,
        0x760d274307d24c2d3f86b081495033ac70cc153dfc28e863f0e14b808de4b6anat,
        0x2d581efe8d251a9db4b7faa441ac4863cfde39608a3d9beafb0188f86d686207nat,
        0x85a73b96dec7d10b3ae6f0eba77e75d6f065cf3167916a6213c2d6e335b6214nat,
        0x23009df8012e271c29e01b9575b3b4d5f8038ea31702e968dd599b8dcceffa9nat,
        0x4d2d2a629473effadbafa36b3396eab65a79e3a7dea7e7ee338edc4c88cef1anat,
    );
    lemma_window(
        0x6b177e9279a9dca37aba88ddaf46351605e17b34ffe428e40262e4c3b90cb1anat,
        modulus(),
        0xb8f893ccc218b8a77d897f12d5b32cnat,
        3,
        0x4d2d2a629473effadbafa36b3396eab65a79e3a7dea7e7ee338edc4c88cef1anat,
        0x2928b0f3e94f0d333f0d3e1baafc30214db759c2eb27502ef38fc8ed178bef07nat,
        0x2fbc629ee0af3a047fe0da2d50d7b8b32383287c9129a933fc5aad216ec7d8b0nat,
        0x3ae284ab9c89859e5c33682e46e555e01fba924e4eb21bc765465f812c9bed2nat,
        0x2d25f6ab92ea94e9746a3c7423773fb8dcb70217a494bbad9e450d5ff1eb1c9anat,
        0x2a8dc5e0c39a5bf9109ae21b493fb300579ac195a20f2ba4932d96db91c1eeffnat,
    );
    lemma_window(
        0x6b177e9279a9dca37aba88ddaf46351605e17b34ffe428e40262e4c3b90cb1anat,
        modulus(),
        0xb8f893ccc218b8a77d897f12d5b32c3nat,
        6,
        0x2a8dc5e0c39a5bf9109ae21b493fb300579ac195a20f2ba4932d96db91c1eeffnat,
        0x2983e8de76481ca58a9b6250f2f4d5d2a0e818ea61c4bb31f58797760ebedd11nat,
        0x1bc69a4ad4e46a4bc46f3b14bf91e3b55ca628096bc7d85cd61b0d38c77149d2nat,
        0x21e756b157ac75cba163c4b0d241ad24f77be5fb353a54daaac55ba054d46906nat,
        0x569ccb43b3971e9ba7e6da80279c97f739ffcb9b825e0963fabfed906a3a952nat,
        0xa16188df6f0f845bf610f68a94fdd8f7ab18d64d90356c72ead941ac55870ebnat,
    );
    lemma_window(
        0x6b177e9279a9dca37aba88ddaf46351605e17b34ffe428e40262e4c3b90cb1anat,
        modulus(),
        0xb8f893ccc218b8a77d897f12d5b32c36nat,
        10,
        0xa16188df6f0f845bf610f68a94fdd8f7ab18d64d90356c72ead941ac55870ebnat,
        0x21be9af652694a1f075b53990b9995c449cbc0f2f711947cfc90b80be0bfd2c7nat,
        0x21b76f7e27b058cb21a7af451f67cc40908fbee8cbeb853e64769d074a59589dnat,
        0x15559d2ad76662ae2e555f84aab67150655a70510e064b0fecf396947a0c0e76nat,
        0xa1c811142f7490435390d91ffce1498aed222f20c43d401de43fe5962fffe9dnat,
        0x23fcd2343861f7fc3aebaeebcc6cfa4670e92d67fe1fc30272191e30b4b1a35cnat,
    );
    lemma_power_modulus_over_2_to_of_94_bits();
    lemma_pow_mod_multiplies(7, 402653184, 0xb8f893ccc218b8a77d897f12d5b32c36anat, modulus());
}

/// The power of 7 to the modulus less one is one.
pub proof fn lemma_power_modulus_full()
    ensures
        pow_mod(7, 0x30644e72e131a029b85045b68181585d2833e84879b9709143e1f593f0000000nat, modulus())
            == 1,
{
    lemma_pow_mod_zero(
        0x30644e72e131a029b85045b68181585d2833e84879b9709143e1f593f0000000nat,
        modulus(),
    );
    lemma_window(
        0x30644e72e131a029b85045b68181585d2833e84879b9709143e1f593f0000000nat,
        modulus(),
        0,
        2,
        1,
        1,
        1,
        1,
        1,
        1,
    );
    lemma_power_modulus_over_2();
    lemma_pow_mod_multiplies(
        7,
        0x183227397098d014dc2822db40c0ac2e9419f4243cdcb848a1f0fac9f8000000nat,
        2,
        modulus(),
    );
}

/// The modulus is a prime, and the order of 7 modulo it is the prime less one.
pub proof fn lemma_prime_modulus()
    ensures
        is_field_modulus(modulus()),
        is_order(7, modulus(), (modulus() - 1) as nat),
        forall|x: nat|
            0 < x < modulus() ==> #[trigger] pow_mod(
                x,
                0x30644e72e131a029b85045b68181585d2833e84879b9709143e1f593f0000000nat,
                modulus(),
            ) == 1,
{
    lemma_prime_2();
    lemma_prime_3();
    lemma_prime_13();
    lemma_prime_29();
    lemma_prime_983();
    lemma_prime_11003();
    lemma_prime_237073();
    lemma_prime_405928799();
    lemma_prime_of_51_bits();
    lemma_prime_of_94_bits();
    lemma_power_modulus_full();
    lemma_power_modulus_over_2();
    lemma_power_modulus_over_3();
    lemma_power_modulus_over_13();
    lemma_power_modulus_over_29();
    lemma_power_modulus_over_983();
    lemma_power_modulus_over_11003();
    lemma_power_modulus_over_237073();
    lemma_power_modulus_over_405928799();
    lemma_power_modulus_over_of_51_bits();
    lemma_power_modulus_over_of_94_bits();
    let s = lemma_cofactor(
        7,
        modulus(),
        0x30644e72e131a029b85045b68181585d2833e84879b9709143e1f593f0000000nat,
    );
    if s % 2 == 0 {
        lemma_cofactor_prime(
            7,
            modulus(),
            0x30644e72e131a029b85045b68181585d2833e84879b9709143e1f593f0000000nat,
            s,
            2,
        );
    }
    if s % 3 == 0 {
        lemma_cofactor_prime(
            7,
            modulus(),
            0x30644e72e131a029b85045b68181585d2833e84879b9709143e1f593f0000000nat,
            s,
            3,
        );
    }
    if s % 13 == 0 {
        lemma_cofactor_prime(
            7,
            modulus(),
            0x30644e72e131a029b85045b68181585d2833e84879b9709143e1f593f0000000nat,
            s,
            13,
        );
    }
    if s % 29 == 0 {
        lemma_cofactor_prime(
            7,
            modulus(),
            0x30644e72e131a029b85045b68181585d2833e84879b9709143e1f593f0000000nat,
            s,
            29,
        );
    }
    if s % 983 == 0 {
        lemma_cofactor_prime(
            7,
            modulus(),
            0x30644e72e131a029b85045b68181585d2833e84879b9709143e1f593f0000000nat,
            s,
            983,
        );
    }
    if s % 11003 == 0 {
        lemma_cofactor_prime(
            7,
            modulus(),
            0x30644e72e131a029b85045b68181585d2833e84879b9709143e1f593f0000000nat,
            s,
            11003,
        );
    }
    if s % 237073 == 0 {
        lemma_cofactor_prime(
            7,
            modulus(),
            0x30644e72e131a029b85045b68181585d2833e84879b9709143e1f593f0000000nat,
            s,
            237073,
        );
    }
    if s % 405928799 == 0 {
        lemma_cofactor_prime(
            7,
            modulus(),
            0x30644e72e131a029b85045b68181585d2833e84879b9709143e1f593f0000000nat,
            s,
            405928799,
        );
    }
    if s % 1670836401704629 == 0 {
        lemma_cofactor_prime(
            7,
            modulus(),
            0x30644e72e131a029b85045b68181585d2833e84879b9709143e1f593f0000000nat,
            s,
            1670836401704629,
        );
    }
    if s % 0x2ca6487cfcd795e8729527e1nat == 0 {
        lemma_cofactor_prime(
            7,
            modulus(),
            0x30644e72e131a029b85045b68181585d2833e84879b9709143e1f593f0000000nat,
            s,
            0x2ca6487cfcd795e8729527e1nat,
        );
    }
    lemma_strip_prime(s, 2, 0x183227397098d014dc2822db40c0ac2e9419f4243cdcb848a1f0fac9f8000000nat);
    lemma_strip_prime(s, 2, 0xc19139cb84c680a6e14116da06056174a0cfa121e6e5c2450f87d64fc000000nat);
    lemma_strip_prime(s, 2, 0x60c89ce5c263405370a08b6d0302b0ba5067d090f372e12287c3eb27e000000nat);
    lemma_strip_prime(s, 2, 0x30644e72e131a029b85045b68181585d2833e84879b9709143e1f593f000000nat);
    lemma_strip_prime(s, 2, 0x183227397098d014dc2822db40c0ac2e9419f4243cdcb848a1f0fac9f800000nat);
    lemma_strip_prime(s, 2, 0xc19139cb84c680a6e14116da06056174a0cfa121e6e5c2450f87d64fc00000nat);
    lemma_strip_prime(s, 2, 0x60c89ce5c263405370a08b6d0302b0ba5067d090f372e12287c3eb27e00000nat);
    lemma_strip_prime(s, 2, 0x30644e72e131a029b85045b68181585d2833e84879b9709143e1f593f00000nat);
    lemma_strip_prime(s, 2, 0x183227397098d014dc2822db40c0ac2e9419f4243cdcb848a1f0fac9f80000nat);
    lemma_strip_prime(s, 2, 0xc19139cb84c680a6e14116da06056174a0cfa121e6e5c2450f87d64fc0000nat);
    lemma_strip_prime(s, 2, 0x60c89ce5c263405370a08b6d0302b0ba5067d090f372e12287c3eb27e0000nat);
    lemma_strip_prime(s, 2, 0x30644e72e131a029b85045b68181585d2833e84879b9709143e1f593f0000nat);
    lemma_strip_prime(s, 2, 0x183227397098d014dc2822db40c0ac2e9419f4243cdcb848a1f0fac9f8000nat);
    lemma_strip_prime(s, 2, 0xc19139cb84c680a6e14116da06056174a0cfa121e6e5c2450f87d64fc000nat);
    lemma_strip_prime(s, 2, 0x60c89ce5c263405370a08b6d0302b0ba5067d090f372e12287c3eb27e000nat);
    lemma_strip_prime(s, 2, 0x30644e72e131a029b85045b68181585d2833e84879b9709143e1f593f000nat);
    lemma_strip_prime(s, 2, 0x183227397098d014dc2822db40c0ac2e9419f4243cdcb848a1f0fac9f800nat);
    lemma_strip_prime(s, 2, 0xc19139cb84c680a6e14116da06056174a0cfa121e6e5c2450f87d64fc00nat);
    lemma_strip_prime(s, 2, 0x60c89ce5c263405370a08b6d0302b0ba5067d090f372e12287c3eb27e00nat);
    lemma_strip_prime(s, 2, 0x30644e72e131a029b85045b68181585d2833e84879b9709143e1f593f00nat);
    lemma_strip_prime(s, 2, 0x183227397098d014dc2822db40c0ac2e9419f4243cdcb848a1f0fac9f80nat);
    lemma_strip_prime(s, 2, 0xc19139cb84c680a6e14116da06056174a0cfa121e6e5c2450f87d64fc0nat);
    lemma_strip_prime(s, 2, 0x60c89ce5c263405370a08b6d0302b0ba5067d090f372e12287c3eb27e0nat);
    lemma_strip_prime(s, 2, 0x30644e72e131a029b85045b68181585d2833e84879b9709143e1f593f0nat);
    lemma_strip_prime(s, 2, 0x183227397098d014dc2822db40c0ac2e9419f4243cdcb848a1f0fac9f8nat);
    lemma_strip_prime(s, 2, 0xc19139cb84c680a6e14116da06056174a0cfa121e6e5c2450f87d64fcnat);
    lemma_strip_prime(s, 2, 0x60c89ce5c263405370a08b6d0302b0ba5067d090f372e12287c3eb27enat);
    lemma_strip_prime(s, 2, 0x30644e72e131a029b85045b68181585d2833e84879b9709143e1f593fnat);
    lemma_strip_prime(s, 3, 0x10216f7ba065e00de81ac1e7808072c9b8114d6d7de87adb16a0a7315nat);
    lemma_strip_prime(s, 3, 0x5607a7e8acca004a2b395f7d58026433d5b19cf29f828f3b2358d107nat);
    lemma_strip_prime(s, 13, 0x69e209bbe85b140c83f7d7fcbb16a2b5f350c12a9cef753517cfc63nat);
    lemma_strip_prime(s, 29, 0x3a6b0e32b5296c2a3727a34da503a9383f9f501782b9148739467fnat);
    lemma_strip_prime(s, 983, 0xf36b4446a8e9051d48c8952fbd63e4ca15dd5d5aeef5a817d99nat);
    lemma_strip_prime(s, 11003, 0x5a9d9cd92e6df6e0293d9204f9a76898d86b888b03ded57bnat);
    lemma_strip_prime(s, 237073, 0x190cb3f9b47c1fb0f2dd90ac0efde70bc009e4529ecbnat);
    lemma_strip_prime(s, 405928799, 0x1090a32f11130c07f3208fcb89b0f5b670015nat);
    lemma_strip_prime(s, 1670836401704629, 0x2ca6487cfcd795e8729527e1nat);
    lemma_strip_prime(s, 0x2ca6487cfcd795e8729527e1nat, 1);
    if s > 1 {
        lemma_small_mod(1, s);
    }
    lemma_generator_field(7, modulus());
}

} // verus!
