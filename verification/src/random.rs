//! Uniform sampling of field elements by rejection.

use crate::fr::Fr;
use crate::limbs::bytes_value;
use rand_core::RngCore;
use vstd::prelude::*;

verus! {

/// Calls `try_fill_bytes` on a buffer of 32 bytes, the method by which a source reports that
/// it cannot fill the buffer. Returns the buffer where the source filled it and nothing
/// where the source reported an error. Nothing is known of the bytes that come back.
#[verifier::external_body]
fn draw<R: RngCore>(rng: &mut R) -> Option<[u8; 32]> {
    let mut bytes = [0u8; 32];
    match rng.try_fill_bytes(&mut bytes) {
        Ok(()) => Some(bytes),
        Err(_) => None,
    }
}

impl Fr {
    /// A canonical element, uniformly distributed where the source is.
    ///
    /// Draws 32 bytes and decodes them with `from_bytes`, again and again until they decode.
    /// The result is nothing where the given number of draws is used up before one of them
    /// decodes, and where the source reports that it cannot give a draw. No draw is reduced
    /// modulo the modulus, which would favour the small elements. About one draw in five
    /// decodes.
    pub fn random<R: RngCore>(rng: &mut R, draws: u64) -> (r: Option<Fr>)
        ensures
            r matches Some(x) ==> x.is_canonical(),
            draws == 0 ==> r is None,
    {
        let mut left = draws;
        while left > 0
            invariant
                left <= draws,
            decreases left,
        {
            let bytes = match draw(rng) {
                Some(bytes) => bytes,
                None => {
                    return None;
                },
            };
            if let Some(x) = Fr::from_bytes(&bytes) {
                proof {
                    Fr::lemma_of_value_canonical(bytes_value(bytes@));
                }
                return Some(x);
            }
            left -= 1;
        }
        None
    }
}

} // verus!
