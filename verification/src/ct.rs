//! Comparison and selection that do not branch on what they compare or select, from `subtle`.

use crate::fr::Fr;
use subtle::{Choice, ConditionallySelectable, ConstantTimeEq, CtOption};
use vstd::prelude::*;

verus! {

/// Calls `Choice::from` on a bit and reads the choice back as a `bool`: true for one, false
/// for zero. Other bytes are left out, as `subtle` asserts against them in debug builds.
#[verifier::external_body]
pub(crate) fn choice(bit: u8) -> (r: bool)
    requires
        bit <= 1,
    ensures
        r == (bit == 1),
{
    Choice::from(bit).into()
}

/// Calls `u64::conditional_select`, which gives its first argument for a choice of zero and
/// its second for a choice of one.
#[verifier::external_body]
pub(crate) fn select_limb(a: u64, b: u64, choice: bool) -> (r: u64)
    ensures
        r == if choice { b } else { a },
{
    u64::conditional_select(&a, &b, Choice::from(choice as u8))
}

/// Calls `ct_eq` on two slices of limbs, which is true exactly where the slices hold the same
/// limbs. The slices here have one length.
#[verifier::external_body]
pub(crate) fn limbs_equal(a: &[u64; 4], b: &[u64; 4]) -> (r: bool)
    ensures
        r == (a@ == b@),
{
    a[..].ct_eq(&b[..]).into()
}

/// Calls `CtOption::new` and turns the result into an `Option`: the value where the flag is
/// set, nothing where it is not.
#[verifier::external_body]
pub(crate) fn ct_option(value: Fr, is_some: bool) -> (r: Option<Fr>)
    ensures
        r == if is_some { Some(value) } else { None::<Fr> },
{
    CtOption::new(value, Choice::from(is_some as u8)).into()
}

} // verus!
