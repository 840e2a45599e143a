//! The arithmetic operators on field elements, for elements and for references to them.
//!
//! Every operator asks for canonical operands and gives a canonical result. Verified code
//! calls the operators as methods, `a.add(b)`, or calls the functions of
//! [`crate::arithmetic`].

use crate::field::{field_add, field_mul, field_neg, field_sub};
use crate::fr::Fr;
use core::ops::{Add, AddAssign, Mul, MulAssign, Neg, Sub, SubAssign};
use vstd::prelude::*;
use vstd::std_specs::ops::{AddSpecImpl, MulSpecImpl, NegSpecImpl, SubSpecImpl};

verus! {

impl<'a, 'b> Add<&'b Fr> for &'a Fr {
    type Output = Fr;

    /// The sum of two canonical elements.
    fn add(self, rhs: &'b Fr) -> (r: Fr)
        ensures
            r@ == field_add(self@, rhs@),
            r.is_canonical(),
    {
        let r = crate::arithmetic::add(self, rhs);
        proof {
            r.lemma_of_value();
        }
        r
    }
}

impl<'a, 'b> AddSpecImpl<&'b Fr> for &'a Fr {
    open spec fn obeys_add_spec() -> bool {
        true
    }

    open spec fn add_req(self, rhs: &'b Fr) -> bool {
        self.is_canonical() && rhs.is_canonical()
    }

    open spec fn add_spec(self, rhs: &'b Fr) -> Fr {
        self.spec_add(*rhs)
    }
}

impl Add<Fr> for Fr {
    type Output = Fr;

    /// The sum of two canonical elements.
    fn add(self, rhs: Fr) -> (r: Fr)
        ensures
            r@ == field_add(self@, rhs@),
            r.is_canonical(),
    {
        let r = crate::arithmetic::add(&self, &rhs);
        proof {
            r.lemma_of_value();
        }
        r
    }
}

impl AddSpecImpl<Fr> for Fr {
    open spec fn obeys_add_spec() -> bool {
        true
    }

    open spec fn add_req(self, rhs: Fr) -> bool {
        self.is_canonical() && rhs.is_canonical()
    }

    open spec fn add_spec(self, rhs: Fr) -> Fr {
        self.spec_add(rhs)
    }
}

impl<'b> Add<&'b Fr> for Fr {
    type Output = Fr;

    /// The sum of two canonical elements.
    fn add(self, rhs: &'b Fr) -> (r: Fr)
        ensures
            r@ == field_add(self@, rhs@),
            r.is_canonical(),
    {
        let r = crate::arithmetic::add(&self, rhs);
        proof {
            r.lemma_of_value();
        }
        r
    }
}

impl<'b> AddSpecImpl<&'b Fr> for Fr {
    open spec fn obeys_add_spec() -> bool {
        true
    }

    open spec fn add_req(self, rhs: &'b Fr) -> bool {
        self.is_canonical() && rhs.is_canonical()
    }

    open spec fn add_spec(self, rhs: &'b Fr) -> Fr {
        self.spec_add(*rhs)
    }
}

impl<'a> Add<Fr> for &'a Fr {
    type Output = Fr;

    /// The sum of two canonical elements.
    fn add(self, rhs: Fr) -> (r: Fr)
        ensures
            r@ == field_add(self@, rhs@),
            r.is_canonical(),
    {
        let r = crate::arithmetic::add(self, &rhs);
        proof {
            r.lemma_of_value();
        }
        r
    }
}

impl<'a> AddSpecImpl<Fr> for &'a Fr {
    open spec fn obeys_add_spec() -> bool {
        true
    }

    open spec fn add_req(self, rhs: Fr) -> bool {
        self.is_canonical() && rhs.is_canonical()
    }

    open spec fn add_spec(self, rhs: Fr) -> Fr {
        self.spec_add(rhs)
    }
}

impl<'a, 'b> Sub<&'b Fr> for &'a Fr {
    type Output = Fr;

    /// The difference of two canonical elements.
    fn sub(self, rhs: &'b Fr) -> (r: Fr)
        ensures
            r@ == field_sub(self@, rhs@),
            r.is_canonical(),
    {
        let r = crate::arithmetic::sub(self, rhs);
        proof {
            r.lemma_of_value();
        }
        r
    }
}

impl<'a, 'b> SubSpecImpl<&'b Fr> for &'a Fr {
    open spec fn obeys_sub_spec() -> bool {
        true
    }

    open spec fn sub_req(self, rhs: &'b Fr) -> bool {
        self.is_canonical() && rhs.is_canonical()
    }

    open spec fn sub_spec(self, rhs: &'b Fr) -> Fr {
        self.spec_sub(*rhs)
    }
}

impl Sub<Fr> for Fr {
    type Output = Fr;

    /// The difference of two canonical elements.
    fn sub(self, rhs: Fr) -> (r: Fr)
        ensures
            r@ == field_sub(self@, rhs@),
            r.is_canonical(),
    {
        let r = crate::arithmetic::sub(&self, &rhs);
        proof {
            r.lemma_of_value();
        }
        r
    }
}

impl SubSpecImpl<Fr> for Fr {
    open spec fn obeys_sub_spec() -> bool {
        true
    }

    open spec fn sub_req(self, rhs: Fr) -> bool {
        self.is_canonical() && rhs.is_canonical()
    }

    open spec fn sub_spec(self, rhs: Fr) -> Fr {
        self.spec_sub(rhs)
    }
}

impl<'b> Sub<&'b Fr> for Fr {
    type Output = Fr;

    /// The difference of two canonical elements.
    fn sub(self, rhs: &'b Fr) -> (r: Fr)
        ensures
            r@ == field_sub(self@, rhs@),
            r.is_canonical(),
    {
        let r = crate::arithmetic::sub(&self, rhs);
        proof {
            r.lemma_of_value();
        }
        r
    }
}

impl<'b> SubSpecImpl<&'b Fr> for Fr {
    open spec fn obeys_sub_spec() -> bool {
        true
    }

    open spec fn sub_req(self, rhs: &'b Fr) -> bool {
        self.is_canonical() && rhs.is_canonical()
    }

    open spec fn sub_spec(self, rhs: &'b Fr) -> Fr {
        self.spec_sub(*rhs)
    }
}

impl<'a> Sub<Fr> for &'a Fr {
    type Output = Fr;

    /// The difference of two canonical elements.
    fn sub(self, rhs: Fr) -> (r: Fr)
        ensures
            r@ == field_sub(self@, rhs@),
            r.is_canonical(),
    {
        let r = crate::arithmetic::sub(self, &rhs);
        proof {
            r.lemma_of_value();
        }
        r
    }
}

impl<'a> SubSpecImpl<Fr> for &'a Fr {
    open spec fn obeys_sub_spec() -> bool {
        true
    }

    open spec fn sub_req(self, rhs: Fr) -> bool {
        self.is_canonical() && rhs.is_canonical()
    }

    open spec fn sub_spec(self, rhs: Fr) -> Fr {
        self.spec_sub(rhs)
    }
}

impl<'a, 'b> Mul<&'b Fr> for &'a Fr {
    type Output = Fr;

    /// The product of two canonical elements.
    fn mul(self, rhs: &'b Fr) -> (r: Fr)
        ensures
            r@ == field_mul(self@, rhs@),
            r.is_canonical(),
    {
        let r = crate::arithmetic::mul(self, rhs);
        proof {
            r.lemma_of_value();
        }
        r
    }
}

impl<'a, 'b> MulSpecImpl<&'b Fr> for &'a Fr {
    open spec fn obeys_mul_spec() -> bool {
        true
    }

    open spec fn mul_req(self, rhs: &'b Fr) -> bool {
        self.is_canonical() && rhs.is_canonical()
    }

    open spec fn mul_spec(self, rhs: &'b Fr) -> Fr {
        self.spec_mul(*rhs)
    }
}

impl Mul<Fr> for Fr {
    type Output = Fr;

    /// The product of two canonical elements.
    fn mul(self, rhs: Fr) -> (r: Fr)
        ensures
            r@ == field_mul(self@, rhs@),
            r.is_canonical(),
    {
        let r = crate::arithmetic::mul(&self, &rhs);
        proof {
            r.lemma_of_value();
        }
        r
    }
}

impl MulSpecImpl<Fr> for Fr {
    open spec fn obeys_mul_spec() -> bool {
        true
    }

    open spec fn mul_req(self, rhs: Fr) -> bool {
        self.is_canonical() && rhs.is_canonical()
    }

    open spec fn mul_spec(self, rhs: Fr) -> Fr {
        self.spec_mul(rhs)
    }
}

impl<'b> Mul<&'b Fr> for Fr {
    type Output = Fr;

    /// The product of two canonical elements.
    fn mul(self, rhs: &'b Fr) -> (r: Fr)
        ensures
            r@ == field_mul(self@, rhs@),
            r.is_canonical(),
    {
        let r = crate::arithmetic::mul(&self, rhs);
        proof {
            r.lemma_of_value();
        }
        r
    }
}

impl<'b> MulSpecImpl<&'b Fr> for Fr {
    open spec fn obeys_mul_spec() -> bool {
        true
    }

    open spec fn mul_req(self, rhs: &'b Fr) -> bool {
        self.is_canonical() && rhs.is_canonical()
    }

    open spec fn mul_spec(self, rhs: &'b Fr) -> Fr {
        self.spec_mul(*rhs)
    }
}

impl<'a> Mul<Fr> for &'a Fr {
    type Output = Fr;

    /// The product of two canonical elements.
    fn mul(self, rhs: Fr) -> (r: Fr)
        ensures
            r@ == field_mul(self@, rhs@),
            r.is_canonical(),
    {
        let r = crate::arithmetic::mul(self, &rhs);
        proof {
            r.lemma_of_value();
        }
        r
    }
}

impl<'a> MulSpecImpl<Fr> for &'a Fr {
    open spec fn obeys_mul_spec() -> bool {
        true
    }

    open spec fn mul_req(self, rhs: Fr) -> bool {
        self.is_canonical() && rhs.is_canonical()
    }

    open spec fn mul_spec(self, rhs: Fr) -> Fr {
        self.spec_mul(rhs)
    }
}

impl<'a> Neg for &'a Fr {
    type Output = Fr;

    /// The additive inverse of a canonical element.
    fn neg(self) -> (r: Fr)
        ensures
            r@ == field_neg(self@),
            r.is_canonical(),
    {
        let r = crate::arithmetic::neg(self);
        proof {
            r.lemma_of_value();
        }
        r
    }
}

impl<'a> NegSpecImpl for &'a Fr {
    open spec fn obeys_neg_spec() -> bool {
        true
    }

    open spec fn neg_req(self) -> bool {
        self.is_canonical()
    }

    open spec fn neg_spec(self) -> Fr {
        self.spec_neg()
    }
}

impl Neg for Fr {
    type Output = Fr;

    /// The additive inverse of a canonical element.
    fn neg(self) -> (r: Fr)
        ensures
            r@ == field_neg(self@),
            r.is_canonical(),
    {
        let r = crate::arithmetic::neg(&self);
        proof {
            r.lemma_of_value();
        }
        r
    }
}

impl NegSpecImpl for Fr {
    open spec fn obeys_neg_spec() -> bool {
        true
    }

    open spec fn neg_req(self) -> bool {
        self.is_canonical()
    }

    open spec fn neg_spec(self) -> Fr {
        self.spec_neg()
    }
}

impl AddAssign<Fr> for Fr {
    /// Puts the sum of two canonical elements in place of the first.
    fn add_assign(&mut self, rhs: Fr)
        requires
            old(self).is_canonical(),
            rhs.is_canonical(),
        ensures
            *final(self) == old(self).spec_add(rhs),
            final(self).is_canonical(),
    {
        *self = crate::arithmetic::add(self, &rhs);
        proof {
            self.lemma_of_value();
        }
    }
}

impl<'b> AddAssign<&'b Fr> for Fr {
    /// Puts the sum of two canonical elements in place of the first.
    fn add_assign(&mut self, rhs: &'b Fr)
        requires
            old(self).is_canonical(),
            rhs.is_canonical(),
        ensures
            *final(self) == old(self).spec_add(*rhs),
            final(self).is_canonical(),
    {
        *self = crate::arithmetic::add(self, rhs);
        proof {
            self.lemma_of_value();
        }
    }
}

impl SubAssign<Fr> for Fr {
    /// Puts the difference of two canonical elements in place of the first.
    fn sub_assign(&mut self, rhs: Fr)
        requires
            old(self).is_canonical(),
            rhs.is_canonical(),
        ensures
            *final(self) == old(self).spec_sub(rhs),
            final(self).is_canonical(),
    {
        *self = crate::arithmetic::sub(self, &rhs);
        proof {
            self.lemma_of_value();
        }
    }
}

impl<'b> SubAssign<&'b Fr> for Fr {
    /// Puts the difference of two canonical elements in place of the first.
    fn sub_assign(&mut self, rhs: &'b Fr)
        requires
            old(self).is_canonical(),
            rhs.is_canonical(),
        ensures
            *final(self) == old(self).spec_sub(*rhs),
            final(self).is_canonical(),
    {
        *self = crate::arithmetic::sub(self, rhs);
        proof {
            self.lemma_of_value();
        }
    }
}

impl MulAssign<Fr> for Fr {
    /// Puts the product of two canonical elements in place of the first.
    fn mul_assign(&mut self, rhs: Fr)
        requires
            old(self).is_canonical(),
            rhs.is_canonical(),
        ensures
            *final(self) == old(self).spec_mul(rhs),
            final(self).is_canonical(),
    {
        *self = crate::arithmetic::mul(self, &rhs);
        proof {
            self.lemma_of_value();
        }
    }
}

impl<'b> MulAssign<&'b Fr> for Fr {
    /// Puts the product of two canonical elements in place of the first.
    fn mul_assign(&mut self, rhs: &'b Fr)
        requires
            old(self).is_canonical(),
            rhs.is_canonical(),
        ensures
            *final(self) == old(self).spec_mul(*rhs),
            final(self).is_canonical(),
    {
        *self = crate::arithmetic::mul(self, rhs);
        proof {
            self.lemma_of_value();
        }
    }
}

} // verus!
