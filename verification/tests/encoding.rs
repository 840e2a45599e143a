use bn254_scalar::fr::MODULUS;
use bn254_scalar::limbs::{byte_at, limb_at};
use bn254_scalar::{Fr, SerdeObject};

const A: Fr = Fr([0xee8971105e503a67, 0x452ec40a3193ca54, 0x6facaa5090e5e945, 0x17e0472e29645f8b]);
const A_BYTES: [u8; 32] = [
    0x67, 0x3a, 0x50, 0x5e, 0x10, 0x71, 0x89, 0xee,
    0x54, 0xca, 0x93, 0x31, 0x0a, 0xc4, 0x2e, 0x45,
    0x45, 0xe9, 0xe5, 0x90, 0x50, 0xaa, 0xac, 0x6f,
    0x8b, 0x5f, 0x64, 0x29, 0x2e, 0x47, 0xe0, 0x17,
];
const MODULUS_BYTES: [u8; 32] = [
    0x01, 0x00, 0x00, 0xf0, 0x93, 0xf5, 0xe1, 0x43,
    0x91, 0x70, 0xb9, 0x79, 0x48, 0xe8, 0x33, 0x28,
    0x5d, 0x58, 0x81, 0x81, 0xb6, 0x45, 0x50, 0xb8,
    0x29, 0xa0, 0x31, 0xe1, 0x72, 0x4e, 0x64, 0x30,
];

#[test]
fn test_serde_roundtrip() {
    let fr = Fr::from_raw([1, 2, 3, 4]);
    let bytes = fr.to_raw_bytes();
    let fr2 = Fr::from_raw_bytes(&bytes).unwrap();
    assert_eq!(fr, fr2);
}

#[test]
fn test_invalid_bytes() {
    assert!(Fr::from_raw_bytes(&[0; 31]).is_none());
}

#[test]
fn identities_have_their_limbs() {
    assert_eq!(Fr::zero(), Fr([0, 0, 0, 0]));
    assert_eq!(Fr::one(), Fr([1, 0, 0, 0]));
    assert_eq!(Fr::from_raw([5, 6, 7, 8]).0, [5, 6, 7, 8]);
    assert_eq!(Fr::default(), Fr::zero());
}

#[test]
fn embedding_of_an_integer_is_zero_extended() {
    assert_eq!(Fr::from(0), Fr::zero());
    assert_eq!(Fr::from(1), Fr::one());
    assert_eq!(Fr::from(u64::MAX), Fr([u64::MAX, 0, 0, 0]));
}

#[test]
fn limb_and_byte_conversions_give_exact_values() {
    assert_eq!(byte_at(0x0807060504030201, 0), 1);
    assert_eq!(byte_at(0x0807060504030201, 3), 4);
    assert_eq!(byte_at(0x0807060504030201, 7), 8);
    assert_eq!(limb_at(&[1, 2, 3, 4, 5, 6, 7, 8, 9], 0), 0x0807060504030201);
    assert_eq!(limb_at(&[1, 2, 3, 4, 5, 6, 7, 8, 9], 1), 0x0908070605040302);
}

#[test]
fn encoding_is_little_endian() {
    assert_eq!(A.to_repr(), A_BYTES);
    assert_eq!(Fr::one().to_repr()[0], 1);
    assert_eq!(Fr::one().to_repr()[1..], [0u8; 31]);
    assert_eq!(Fr([0, 0, 0, 1 << 56]).to_repr()[31], 1);
}

#[test]
fn decoding_gives_the_element_of_the_bytes() {
    assert_eq!(Fr::from_bytes(&A_BYTES), Some(A));
    assert_eq!(Fr::from_repr(A_BYTES), Some(A));
    assert_eq!(Fr::from_bytes(&[0; 32]), Some(Fr::zero()));
}

#[test]
fn round_trip_of_canonical_elements() {
    let minus_one = Fr([MODULUS[0] - 1, MODULUS[1], MODULUS[2], MODULUS[3]]);
    for x in [Fr::zero(), Fr::one(), A, minus_one, Fr::from(u64::MAX)] {
        assert_eq!(Fr::from_bytes(&x.to_repr()), Some(x));
        assert_eq!(Fr::from_repr(x.to_repr()), Some(x));
    }
}

#[test]
fn decoding_the_modulus_fails() {
    assert_eq!(Fr(MODULUS).to_repr(), MODULUS_BYTES);
    assert_eq!(Fr::from_bytes(&MODULUS_BYTES), None);
    assert_eq!(Fr::from_repr(MODULUS_BYTES), None);
}

#[test]
fn decoding_an_integer_above_the_modulus_fails() {
    assert_eq!(Fr::from_bytes(&[255; 32]), None);
    let mut above = MODULUS_BYTES;
    above[0] += 1;
    assert_eq!(Fr::from_bytes(&above), None);
    // Larger in the lowest limb and smaller in the highest: below the modulus.
    let mut mixed = [255u8; 32];
    mixed[31] = 0x30;
    mixed[30] = 0x63;
    assert!(Fr::from_bytes(&mixed).is_some());
    // Equal in the three highest limbs and smaller in the lowest.
    let mut below = MODULUS_BYTES;
    below[0] -= 1;
    assert_eq!(
        Fr::from_bytes(&below),
        Some(Fr([MODULUS[0] - 1, MODULUS[1], MODULUS[2], MODULUS[3]]))
    );
}

#[test]
fn parity_is_that_of_the_integer() {
    assert!(!Fr::zero().is_odd());
    assert!(Fr::one().is_odd());
    assert!(!Fr::from(2).is_odd());
    assert!(Fr([3, 1, 1, 1]).is_odd());
    assert!(!Fr([4, 1, 1, 1]).is_odd());
    assert_eq!(A.is_odd(), A.0[0] % 2 == 1);
}

#[test]
fn selection_picks_by_the_choice() {
    let b = Fr([9, 8, 7, 6]);
    assert_eq!(Fr::conditional_select(&A, &b, false), A);
    assert_eq!(Fr::conditional_select(&A, &b, true), b);
    assert_eq!(Fr::conditional_select(&b, &A, false), b);
    assert_eq!(Fr::conditional_select(&b, &A, true), A);
}

#[test]
fn constant_time_equality_is_equality() {
    assert!(A.ct_eq(&A));
    assert!(Fr::zero().ct_eq(&Fr::zero()));
    assert!(!A.ct_eq(&Fr::zero()));
    for i in 0..4 {
        let mut limbs = A.0;
        limbs[i] ^= 1;
        assert!(!A.ct_eq(&Fr(limbs)));
        assert!(A != Fr(limbs));
    }
}

#[test]
fn raw_image_is_the_limbs_little_endian() {
    let fr = Fr::from_raw([1, 2, 3, 4]);
    let bytes = fr.to_raw_bytes();
    assert_eq!(bytes.len(), 32);
    assert_eq!(bytes[0], 1);
    assert_eq!(bytes[8], 2);
    assert_eq!(bytes[16], 3);
    assert_eq!(bytes[24], 4);
    assert_eq!(A.to_raw_bytes(), A_BYTES.to_vec());
    assert_eq!(Fr::from_raw_bytes_unchecked(&A_BYTES), A);
}

#[test]
fn raw_image_is_not_checked_against_the_modulus() {
    let all = [255u8; 32];
    assert_eq!(Fr::from_raw_bytes(&all), Some(Fr([u64::MAX; 4])));
    assert_eq!(Fr::from_raw_bytes_unchecked(&all), Fr([u64::MAX; 4]));
    assert_eq!(Fr([u64::MAX; 4]).to_raw_bytes(), all.to_vec());
}

#[test]
fn raw_image_of_another_length() {
    assert!(Fr::from_raw_bytes(&[0; 33]).is_none());
    assert!(Fr::from_raw_bytes(&[]).is_none());
    // What a short input lacks is read as zero, and a limb that is cut is not read.
    let mut short = [0u8; 20];
    short[0] = 1;
    short[8] = 2;
    short[16] = 3;
    assert_eq!(Fr::from_raw_bytes_unchecked(&short), Fr([1, 2, 0, 0]));
    assert_eq!(Fr::from_raw_bytes_unchecked(&[]), Fr::zero());
    // Bytes beyond the image are not read.
    let mut long = [0u8; 40];
    long[24] = 4;
    long[32] = 5;
    assert_eq!(Fr::from_raw_bytes_unchecked(&long), Fr([0, 0, 0, 4]));
}

#[test]
fn canonical_is_below_the_modulus() {
    assert!(Fr::zero().is_canonical());
    assert!(A.is_canonical());
    assert!(Fr([MODULUS[0] - 1, MODULUS[1], MODULUS[2], MODULUS[3]]).is_canonical());
    assert!(!Fr(MODULUS).is_canonical());
    assert!(!Fr([MODULUS[0] + 1, MODULUS[1], MODULUS[2], MODULUS[3]]).is_canonical());
    assert!(!Fr([0, 0, 0, MODULUS[3] + 1]).is_canonical());
    assert!(Fr([u64::MAX, u64::MAX, u64::MAX, MODULUS[3] - 1]).is_canonical());
    assert!(!Fr([u64::MAX; 4]).is_canonical());
}
