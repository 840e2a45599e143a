//! The raw byte image of a value's internal representation.
//!
//! The raw form is for a value that this build wrote itself: reading it checks nothing but,
//! at most, the length, so it must not be given bytes from elsewhere.

use crate::fr::Fr;
use crate::limbs::{byte_at, le_limb, lemma_limb_bytes, limb_at, limb_byte};
use vstd::prelude::*;

verus! {

/// A value with a raw byte image of fixed length.
pub trait SerdeObject: Sized {
    /// The length of the raw image.
    spec fn raw_len() -> nat;

    /// The raw image of a value.
    spec fn raw_encode(&self) -> Seq<u8>;

    /// The value that bytes are read as, whatever the bytes.
    spec fn raw_decode(bytes: Seq<u8>) -> Self;

    /// The raw image has the fixed length and is read back as the value it was written from.
    proof fn lemma_raw_round_trip(&self)
        ensures
            self.raw_encode().len() == Self::raw_len(),
            Self::raw_decode(self.raw_encode()) == *self,
    ;

    /// Reads a value from its raw image without any check. Bytes beyond the image are not
    /// read, and what a short input lacks is read as zero.
    fn from_raw_bytes_unchecked(bytes: &[u8]) -> (r: Self)
        ensures
            r == Self::raw_decode(bytes@),
    ;

    /// Reads a value from its raw image. Gives nothing where the input has another length
    /// than the image, and checks nothing else.
    fn from_raw_bytes(bytes: &[u8]) -> (r: Option<Self>)
        ensures
            r == if bytes@.len() == Self::raw_len() {
                Some(Self::raw_decode(bytes@))
            } else {
                None
            },
    ;

    /// Writes the raw image of a value.
    fn to_raw_bytes(&self) -> (r: Vec<u8>)
        ensures
            r@ == self.raw_encode(),
    ;
}

/// The limb that the eight bytes from the given index on stand for, and zero where the input
/// ends before them.
pub open spec fn raw_limb(bytes: Seq<u8>, at: int) -> u64 {
    if at + 8 <= bytes.len() {
        le_limb(bytes, at) as u64
    } else {
        0
    }
}

impl SerdeObject for Fr {
    open spec fn raw_len() -> nat {
        32
    }

    open spec fn raw_encode(&self) -> Seq<u8> {
        self.encode()
    }

    open spec fn raw_decode(bytes: Seq<u8>) -> Fr {
        Fr([raw_limb(bytes, 0), raw_limb(bytes, 8), raw_limb(bytes, 16), raw_limb(bytes, 24)])
    }

    proof fn lemma_raw_round_trip(&self) {
        let s = self.encode();
        assert forall|k: int| 0 <= k < 8 implies s[0 + k] == limb_byte(self.0[0], k) by {}
        assert forall|k: int| 0 <= k < 8 implies s[8 + k] == limb_byte(self.0[1], k) by {}
        assert forall|k: int| 0 <= k < 8 implies s[16 + k] == limb_byte(self.0[2], k) by {}
        assert forall|k: int| 0 <= k < 8 implies s[24 + k] == limb_byte(self.0[3], k) by {}
        lemma_limb_bytes(self.0[0], s, 0);
        lemma_limb_bytes(self.0[1], s, 8);
        lemma_limb_bytes(self.0[2], s, 16);
        lemma_limb_bytes(self.0[3], s, 24);
        assert(Self::raw_decode(s).0 =~= self.0);
    }

    fn from_raw_bytes_unchecked(bytes: &[u8]) -> (r: Fr) {
        let mut limbs = [0u64; 4];
        let mut i: usize = 0;
        while i < 4 && 8 * (i + 1) <= bytes.len()
            invariant
                i <= 4,
                forall|k: int| 0 <= k < i ==> limbs@[k] == raw_limb(bytes@, 8 * k),
                forall|k: int| i <= k < 4 ==> limbs@[k] == 0,
                8 * i <= bytes@.len(),
            decreases 4 - i,
        {
            limbs[i] = limb_at(bytes, 8 * i);
            i += 1;
        }
        let r = Fr(limbs);
        assert(r.0 =~= Self::raw_decode(bytes@).0);
        r
    }

    fn from_raw_bytes(bytes: &[u8]) -> (r: Option<Fr>) {
        if bytes.len() != 32 {
            return None;
        }
        Some(Self::from_raw_bytes_unchecked(bytes))
    }

    fn to_raw_bytes(&self) -> (r: Vec<u8>) {
        let mut bytes: Vec<u8> = Vec::with_capacity(32);
        let mut n: usize = 0;
        while n < 32
            invariant
                n <= 32,
                bytes@.len() == n,
                forall|k: int| 0 <= k < n ==> bytes@[k] == limb_byte(self.0[k / 8], k % 8),
            decreases 32 - n,
        {
            bytes.push(byte_at(self.0[n / 8], n % 8));
            n += 1;
        }
        assert(bytes@ =~= self.encode());
        bytes
    }
}

} // verus!
