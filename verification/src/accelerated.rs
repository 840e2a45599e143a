//! The accelerated backend: the field operations built on the field instructions of an
//! execution environment.
//!
//! The environment is asked for two instructions only, a fused multiplication and addition
//! and an inversion. Every operation is one or two of them, and agrees with the portable
//! backend on every input.

use crate::ct::{ct_option, limbs_equal};
use crate::field::{field_add, field_inv, field_mul, field_neg, field_sub, modulus};
use crate::fr::{Fr, MODULUS};
use crate::limbs::lemma_limbs_value_injective;
use vstd::arithmetic::div_mod::{
    lemma_add_mod_noop_right, lemma_mod_multiples_vanish, lemma_small_mod,
};
use vstd::prelude::*;

verus! {

/// The field instructions of an execution environment. An implementation answers for the
/// contracts of both methods.
pub trait FieldInstructions {
    /// The product of two canonical elements plus a third.
    fn muladd(&self, a: &Fr, b: &Fr, c: &Fr) -> (r: Fr)
        requires
            a.is_canonical(),
            b.is_canonical(),
            c.is_canonical(),
        ensures
            r@ == field_add(field_mul(a@, b@), c@),
            r.is_canonical(),
    ;

    /// The multiplicative inverse of a canonical element. Of zero it may be anything.
    fn invert(&self, a: &Fr) -> (r: Fr)
        requires
            a.is_canonical(),
        ensures
            a@ != 0 ==> r@ == field_inv(a@) && r.is_canonical(),
    ;
}

/// The field instructions done by the portable backend.
pub struct Portable;

impl FieldInstructions for Portable {
    fn muladd(&self, a: &Fr, b: &Fr, c: &Fr) -> (r: Fr) {
        let product = crate::arithmetic::mul(a, b);
        crate::arithmetic::add(&product, c)
    }

    fn invert(&self, a: &Fr) -> (r: Fr) {
        match crate::arithmetic::invert(a) {
            Some(x) => x,
            None => Fr::zero(),
        }
    }
}

/// The field operations on the instructions of a host.
pub struct Accelerated<H: FieldInstructions> {
    /// The host whose instructions are used.
    pub host: H,
}

impl<H: FieldInstructions> Accelerated<H> {
    /// The accelerated backend on the given host.
    pub fn new(host: H) -> (r: Self)
        ensures
            r.host == host,
    {
        Accelerated { host }
    }

    /// The element of the modulus less one, which is minus one.
    fn minus_one() -> (r: Fr)
        ensures
            r@ == modulus() - 1,
            r.is_canonical(),
    {
        Fr([MODULUS[0] - 1, MODULUS[1], MODULUS[2], MODULUS[3]])
    }

    /// The sum of two canonical elements.
    pub fn add(&self, a: &Fr, b: &Fr) -> (r: Fr)
        requires
            a.is_canonical(),
            b.is_canonical(),
        ensures
            r@ == field_add(a@, b@),
            r.is_canonical(),
    {
        let one = Fr::one();
        proof {
            lemma_small_mod(a@, modulus());
            assert(1 * a@ == a@);
        }
        self.host.muladd(&one, a, b)
    }

    /// The additive inverse of a canonical element.
    pub fn neg(&self, a: &Fr) -> (r: Fr)
        requires
            a.is_canonical(),
        ensures
            r@ == field_neg(a@),
            r.is_canonical(),
    {
        let minus_one = Self::minus_one();
        let zero = Fr::zero();
        let r = self.host.muladd(&minus_one, a, &zero);
        proof {
            let m = modulus() as int;
            assert((m - 1) * a@ == m * a@ + (-(a@ as int))) by (nonlinear_arith);
            lemma_mod_multiples_vanish(a@ as int, -(a@ as int), m);
            lemma_small_mod(field_mul((m - 1) as nat, a@), modulus());
        }
        r
    }

    /// The difference of two canonical elements.
    pub fn sub(&self, a: &Fr, b: &Fr) -> (r: Fr)
        requires
            a.is_canonical(),
            b.is_canonical(),
        ensures
            r@ == field_sub(a@, b@),
            r.is_canonical(),
    {
        let one = Fr::one();
        let minus_b = self.neg(b);
        proof {
            lemma_small_mod(a@, modulus());
            assert(1 * a@ == a@);
            lemma_add_mod_noop_right(a@ as int, -(b@ as int), modulus() as int);
        }
        self.host.muladd(&one, a, &minus_b)
    }

    /// The product of two canonical elements.
    pub fn mul(&self, a: &Fr, b: &Fr) -> (r: Fr)
        requires
            a.is_canonical(),
            b.is_canonical(),
        ensures
            r@ == field_mul(a@, b@),
            r.is_canonical(),
    {
        let zero = Fr::zero();
        proof {
            lemma_small_mod(field_mul(a@, b@), modulus());
        }
        self.host.muladd(a, b, &zero)
    }

    /// The square of a canonical element.
    pub fn square(&self, a: &Fr) -> (r: Fr)
        requires
            a.is_canonical(),
        ensures
            r@ == field_mul(a@, a@),
            r.is_canonical(),
    {
        self.mul(a, a)
    }

    /// Twice a canonical element.
    pub fn double(&self, a: &Fr) -> (r: Fr)
        requires
            a.is_canonical(),
        ensures
            r@ == field_add(a@, a@),
            r.is_canonical(),
    {
        let two = Fr::from(2u64);
        let zero = Fr::zero();
        proof {
            lemma_small_mod(field_mul(2, a@), modulus());
        }
        self.host.muladd(&two, a, &zero)
    }

    /// The multiplicative inverse of a canonical element: nothing for zero.
    pub fn invert(&self, a: &Fr) -> (r: Option<Fr>)
        requires
            a.is_canonical(),
        ensures
            r is None <==> a@ == 0,
            r matches Some(x) ==> x@ == field_inv(a@) && x.is_canonical(),
    {
        let x = self.host.invert(a);
        let zero = Fr::zero();
        let is_zero = limbs_equal(&a.0, &zero.0);
        proof {
            if a@ == 0 {
                lemma_limbs_value_injective(a.0, zero.0);
            }
            if is_zero {
                assert(a.0 =~= zero.0);
            }
        }
        ct_option(x, !is_zero)
    }

    /// Whether the two backends give the same element for every operation on the given
    /// canonical operands. They always do.
    pub fn agrees_with_portable(&self, a: &Fr, b: &Fr) -> (agree: bool)
        requires
            a.is_canonical(),
            b.is_canonical(),
        ensures
            agree,
    {
        let sum = self.add(a, b);
        let difference = self.sub(a, b);
        let product = self.mul(a, b);
        let square = self.square(a);
        let negative = self.neg(a);
        let inverse = self.invert(a);
        let sum_p = crate::arithmetic::add(a, b);
        let difference_p = crate::arithmetic::sub(a, b);
        let product_p = crate::arithmetic::mul(a, b);
        let square_p = crate::arithmetic::square(a);
        let negative_p = crate::arithmetic::neg(a);
        let inverse_p = crate::arithmetic::invert(a);
        proof {
            lemma_limbs_value_injective(sum.0, sum_p.0);
            lemma_limbs_value_injective(difference.0, difference_p.0);
            lemma_limbs_value_injective(product.0, product_p.0);
            lemma_limbs_value_injective(square.0, square_p.0);
            lemma_limbs_value_injective(negative.0, negative_p.0);
            if let Some(x) = inverse {
                lemma_limbs_value_injective(x.0, inverse_p.unwrap().0);
            }
        }
        let inverses_agree = match (inverse, inverse_p) {
            (Some(x), Some(y)) => x == y,
            (None, None) => true,
            _ => false,
        };
        sum == sum_p && difference == difference_p && product == product_p && square == square_p
            && negative == negative_p && inverses_agree
    }
}

} // verus!
