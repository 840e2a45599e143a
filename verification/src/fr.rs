//! The field element type.

use crate::ct::{choice, ct_option, limbs_equal, select_limb};
use crate::field::{field_add, field_inv, field_mul, field_neg, field_sub, modulus};
use crate::limbs::{
    byte_at, bytes_value, lemma_limbs_of_limbs_value, lemma_limbs_of_value, limb_at, limb_byte,
    limbs_of, limbs_value, sbb,
};
use vstd::prelude::*;
use vstd::std_specs::cmp::PartialEqSpecImpl;
use vstd::std_specs::convert::FromSpecImpl;

verus! {

/// The four 64-bit limbs of the field modulus, least significant first.
pub const MODULUS: [u64; 4] = [
    0x43e1f593f0000001,
    0x2833e84879b97091,
    0xb85045b68181585d,
    0x30644e72e131a029,
];

/// An element of the field, held as the four 64-bit limbs of an integer, least significant
/// first.
///
/// An element is canonical when that integer is below the modulus. The constructors that
/// check, and every operation on canonical elements, give canonical elements. `from_raw`, the
/// public field and the raw byte forms do not check.
#[derive(Clone, Copy, Debug, Default, Eq)]
pub struct Fr(pub [u64; 4]);

impl View for Fr {
    type V = nat;

    /// The integer that the limbs stand for.
    open spec fn view(&self) -> nat {
        limbs_value(self.0)
    }
}

impl Fr {
    /// Whether the element's integer is below the modulus.
    pub open spec fn spec_is_canonical(&self) -> bool {
        self@ < modulus()
    }

    /// Whether the element's integer is below the modulus, found by a subtraction of the
    /// modulus without a branch on the limbs.
    #[verifier::when_used_as_spec(spec_is_canonical)]
    pub fn is_canonical(&self) -> (r: bool)
        ensures
            r == self.spec_is_canonical(),
    {
        let (_, borrow) = sbb(self.0[0], MODULUS[0], 0);
        let (_, borrow) = sbb(self.0[1], MODULUS[1], borrow);
        let (_, borrow) = sbb(self.0[2], MODULUS[2], borrow);
        let (_, borrow) = sbb(self.0[3], MODULUS[3], borrow);
        choice(borrow as u8)
    }

    /// The element whose limbs are the digits of an integer below two to the power 256.
    pub open spec fn of_value(n: nat) -> Fr {
        Fr(limbs_of(n))
    }

    /// The 32 bytes that stand for the element: its limbs in turn, each least significant
    /// byte first.
    pub open spec fn encode(self) -> Seq<u8> {
        Seq::new(32, |n: int| limb_byte(self.0[n / 8], n % 8))
    }

    /// The element that 32 bytes stand for, least significant byte first: nothing where
    /// their integer is not below the modulus.
    pub open spec fn decode(bytes: Seq<u8>) -> Option<Fr> {
        if bytes_value(bytes) < modulus() {
            Some(Fr::of_value(bytes_value(bytes)))
        } else {
            None
        }
    }

    /// The sum of two elements.
    pub open spec fn spec_add(self, rhs: Fr) -> Fr {
        Fr::of_value(field_add(self@, rhs@))
    }

    /// The difference of two elements.
    pub open spec fn spec_sub(self, rhs: Fr) -> Fr {
        Fr::of_value(field_sub(self@, rhs@))
    }

    /// The product of two elements.
    pub open spec fn spec_mul(self, rhs: Fr) -> Fr {
        Fr::of_value(field_mul(self@, rhs@))
    }

    /// The additive inverse of an element.
    pub open spec fn spec_neg(self) -> Fr {
        Fr::of_value(field_neg(self@))
    }

    /// The multiplicative inverse of an element: nothing for zero.
    pub open spec fn spec_invert(self) -> Option<Fr> {
        if self@ == 0 {
            None
        } else {
            Some(Fr::of_value(field_inv(self@)))
        }
    }

    /// An element is the element of its integer.
    pub proof fn lemma_of_value(self)
        ensures
            Fr::of_value(self@) == self,
    {
        lemma_limbs_of_limbs_value(self.0);
    }

    /// The element of an integer below the modulus is canonical and stands for that integer.
    pub proof fn lemma_of_value_canonical(n: nat)
        requires
            n < modulus(),
        ensures
            Fr::of_value(n)@ == n,
            Fr::of_value(n).is_canonical(),
    {
        lemma_limbs_of_value(n);
    }

    /// The additive identity.
    pub fn zero() -> (r: Fr)
        ensures
            r@ == 0,
            r.is_canonical(),
            r == Fr::of_value(0),
    {
        let r = Fr([0, 0, 0, 0]);
        proof {
            lemma_limbs_of_limbs_value(r.0);
        }
        r
    }

    /// The multiplicative identity.
    pub fn one() -> (r: Fr)
        ensures
            r@ == 1,
            r.is_canonical(),
            r == Fr::of_value(1),
    {
        let r = Fr([1, 0, 0, 0]);
        proof {
            lemma_limbs_of_limbs_value(r.0);
        }
        r
    }

    /// The element that 32 bytes stand for, least significant byte first. Gives nothing
    /// where the integer of the bytes is not below the modulus.
    pub fn from_bytes(bytes: &[u8; 32]) -> (r: Option<Fr>)
        ensures
            r == Fr::decode(bytes@),
    {
        let l0 = limb_at(bytes, 0);
        let l1 = limb_at(bytes, 8);
        let l2 = limb_at(bytes, 16);
        let l3 = limb_at(bytes, 24);
        let x = Fr([l0, l1, l2, l3]);
        proof {
            assert(x@ == bytes_value(bytes@));
            x.lemma_of_value();
        }
        ct_option(x, x.is_canonical())
    }

    /// The element that a canonical encoding stands for, as `from_bytes` gives it.
    pub fn from_repr(repr: [u8; 32]) -> (r: Option<Fr>)
        ensures
            r == Fr::decode(repr@),
    {
        Fr::from_bytes(&repr)
    }

    /// The 32 bytes that stand for the element, least significant byte first.
    pub fn to_repr(&self) -> (r: [u8; 32])
        ensures
            r@ == self.encode(),
    {
        let mut res = [0u8; 32];
        let mut n: usize = 0;
        while n < 32
            invariant
                n <= 32,
                forall|k: int| 0 <= k < n ==> res@[k] == limb_byte(self.0[k / 8], k % 8),
            decreases 32 - n,
        {
            res[n] = byte_at(self.0[n / 8], n % 8);
            n += 1;
        }
        assert(res@ =~= self.encode());
        res
    }

    /// Whether the element's integer is odd.
    pub fn is_odd(&self) -> (r: bool)
        ensures
            r == (self@ % 2 == 1),
    {
        let low = self.0[0];
        let bit = low & 1;
        assert(bit == low % 2) by (bit_vector)
            requires
                bit == low & 1,
        ;
        choice(bit as u8)
    }

    /// The first element where the choice is false and the second where it is true, picked
    /// limb by limb without a branch on the choice.
    pub fn conditional_select(a: &Fr, b: &Fr, choice: bool) -> (r: Fr)
        ensures
            r == if choice { *b } else { *a },
    {
        let r = Fr(
            [
                select_limb(a.0[0], b.0[0], choice),
                select_limb(a.0[1], b.0[1], choice),
                select_limb(a.0[2], b.0[2], choice),
                select_limb(a.0[3], b.0[3], choice),
            ],
        );
        proof {
            if choice {
                assert(r.0 =~= b.0);
            } else {
                assert(r.0 =~= a.0);
            }
        }
        r
    }

    /// Whether two elements have the same limbs, found without a branch on the limbs.
    pub fn ct_eq(&self, other: &Fr) -> (r: bool)
        ensures
            r == (*self == *other),
    {
        let r = limbs_equal(&self.0, &other.0);
        proof {
            if r {
                assert(self.0 =~= other.0);
            }
        }
        r
    }

    /// The sum of a sequence of elements, from zero up.
    pub open spec fn spec_sum(items: Seq<Fr>) -> Fr
        decreases items.len(),
    {
        if items.len() == 0 {
            Fr::of_value(0)
        } else {
            Fr::spec_sum(items.drop_last()).spec_add(items.last())
        }
    }

    /// The product of a sequence of elements, from one up.
    pub open spec fn spec_product(items: Seq<Fr>) -> Fr
        decreases items.len(),
    {
        if items.len() == 0 {
            Fr::of_value(1)
        } else {
            Fr::spec_product(items.drop_last()).spec_mul(items.last())
        }
    }

    /// The sum of canonical elements: zero where there are none.
    pub fn sum(items: &[Fr]) -> (r: Fr)
        requires
            forall|i: int| 0 <= i < items@.len() ==> (#[trigger] items@[i]).is_canonical(),
        ensures
            r == Fr::spec_sum(items@),
            r.is_canonical(),
    {
        let mut acc = Fr::zero();
        let mut n: usize = 0;
        while n < items.len()
            invariant
                n <= items@.len(),
                forall|i: int| 0 <= i < items@.len() ==> (#[trigger] items@[i]).is_canonical(),
                acc == Fr::spec_sum(items@.take(n as int)),
                acc.is_canonical(),
            decreases items@.len() - n,
        {
            assert(items@.take(n + 1).drop_last() =~= items@.take(n as int));
            acc = crate::arithmetic::add(&acc, &items[n]);
            proof {
                acc.lemma_of_value();
            }
            n += 1;
        }
        assert(items@.take(n as int) =~= items@);
        acc
    }

    /// The product of canonical elements: one where there are none.
    pub fn product(items: &[Fr]) -> (r: Fr)
        requires
            forall|i: int| 0 <= i < items@.len() ==> (#[trigger] items@[i]).is_canonical(),
        ensures
            r == Fr::spec_product(items@),
            r.is_canonical(),
    {
        let mut acc = Fr::one();
        let mut n: usize = 0;
        while n < items.len()
            invariant
                n <= items@.len(),
                forall|i: int| 0 <= i < items@.len() ==> (#[trigger] items@[i]).is_canonical(),
                acc == Fr::spec_product(items@.take(n as int)),
                acc.is_canonical(),
            decreases items@.len() - n,
        {
            assert(items@.take(n + 1).drop_last() =~= items@.take(n as int));
            acc = crate::arithmetic::mul(&acc, &items[n]);
            proof {
                acc.lemma_of_value();
            }
            n += 1;
        }
        assert(items@.take(n as int) =~= items@);
        acc
    }

    /// The square of a canonical element.
    pub fn square(&self) -> (r: Fr)
        requires
            self.is_canonical(),
        ensures
            r == self.spec_mul(*self),
            r@ == field_mul(self@, self@),
            r.is_canonical(),
    {
        let r = crate::arithmetic::square(self);
        proof {
            r.lemma_of_value();
        }
        r
    }

    /// Twice a canonical element.
    pub fn double(&self) -> (r: Fr)
        requires
            self.is_canonical(),
        ensures
            r == self.spec_add(*self),
            r@ == field_add(self@, self@),
            r.is_canonical(),
    {
        let r = crate::arithmetic::double(self);
        proof {
            r.lemma_of_value();
        }
        r
    }

    /// The multiplicative inverse of a canonical element: nothing for zero, and for every
    /// other element its power to the modulus less two.
    pub fn invert(&self) -> (r: Option<Fr>)
        requires
            self.is_canonical(),
        ensures
            r == self.spec_invert(),
            r matches Some(x) ==> x@ == field_inv(self@) && x.is_canonical() && self.spec_mul(x)
                == Fr::of_value(1),
    {
        let r = crate::arithmetic::invert(self);
        proof {
            if let Some(x) = r {
                x.lemma_of_value();
            }
        }
        r
    }

    /// The element with the given limbs, least significant first. Nothing is checked: the
    /// result is canonical only where the limbs stand for an integer below the modulus.
    pub fn from_raw(limbs: [u64; 4]) -> (r: Fr)
        ensures
            r.0 == limbs,
    {
        Fr(limbs)
    }
}

impl From<u64> for Fr {
    /// The element of a 64-bit integer.
    fn from(value: u64) -> (r: Fr)
        ensures
            r@ == value,
            r.is_canonical(),
    {
        let r = Fr([value, 0, 0, 0]);
        proof {
            r.lemma_of_value();
        }
        r
    }
}

impl FromSpecImpl<u64> for Fr {
    open spec fn obeys_from_spec() -> bool {
        true
    }

    open spec fn from_spec(value: u64) -> Fr {
        Fr::of_value(value as nat)
    }
}

impl PartialEq for Fr {
    fn eq(&self, other: &Fr) -> (r: bool) {
        self.0[0] == other.0[0] && self.0[1] == other.0[1] && self.0[2] == other.0[2]
            && self.0[3] == other.0[3]
    }
}

impl PartialEqSpecImpl for Fr {
    open spec fn obeys_eq_spec() -> bool {
        true
    }

    open spec fn eq_spec(&self, other: &Fr) -> bool {
        self.0[0] == other.0[0] && self.0[1] == other.0[1] && self.0[2] == other.0[2]
            && self.0[3] == other.0[3]
    }
}

} // verus!
