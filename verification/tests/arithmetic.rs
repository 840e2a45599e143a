use bn254_scalar::arithmetic;
use bn254_scalar::constants::{
    DELTA, MULTIPLICATIVE_GENERATOR, ROOT_OF_UNITY, ROOT_OF_UNITY_INV, S, TWO_INV,
};
use bn254_scalar::fr::MODULUS;
use bn254_scalar::limbs::{adc, mac, sbb};
use bn254_scalar::Fr;


const A: Fr = Fr([
    0xee8971105e503a67,
    0x452ec40a3193ca54,
    0x6facaa5090e5e945,
    0x17e0472e29645f8b,
]);

const B: Fr = Fr([
    0xdfc9e3b11fcff454,
    0x42d6cb5c6ed4e94b,
    0xa091250e8fe46024,
    0x27273a832ca1c789,
]);

const C: Fr = Fr([
    0x2fd2b7a48d9fe5b9,
    0xbcf74d7a5adad121,
    0xbb9d58e4f543bbcf,
    0x21fc9abb175f0cd2,
]);

const A_PLUS_B: Fr = Fr([
    0x8a715f2d8e202eba,
    0x5fd1a71e26af430f,
    0x57ed89a89f48f10c,
    0x0ea3333e74d486eb,
]);

const A_PLUS_C: Fr = Fr([
    0xda7a3320fbf0201f,
    0xd9f2293c12b52ae4,
    0x72f9bd7f04a84cb7,
    0x097893765f91cc34,
]);

const A_MINUS_B: Fr = Fr([
    0x52a182f32e804614,
    0x2a8be0f63c78519a,
    0x876bcaf88282e17e,
    0x211d5b1dddf4382b,
]);

const B_MINUS_A: Fr = Fr([
    0xf14072a0c17fb9ed,
    0xfda807523d411ef6,
    0x30e47abdfefe76de,
    0x0f46f355033d67fe,
]);

const A_MINUS_C: Fr = Fr([
    0x0298aeffc0b054af,
    0xb06b5ed8507269c5,
    0x6c5f97221d2385d2,
    0x2647fae5f336f2e2,
]);

const A_TIMES_B: Fr = Fr([
    0x4287363d07d046ce,
    0x697022bd5c0330d2,
    0x30eafbc27d2c3d87,
    0x17de5e8133283f3e,
]);

const B_TIMES_C: Fr = Fr([
    0xcd232ac90097e308,
    0x496438a952944eb1,
    0xc96c9a659ed052fe,
    0x088379811459c0df,
]);

const MINUS_A: Fr = Fr([
    0x5558848391afc59a,
    0xe305243e4825a63c,
    0x48a39b65f09b6f17,
    0x18840744b7cd409e,
]);

const MINUS_B: Fr = Fr([
    0x641811e2d0300bad,
    0xe55d1cec0ae48745,
    0x17bf20a7f19cf838,
    0x093d13efb48fd8a0,
]);

const A_SQUARED: Fr = Fr([
    0x5b1e93f28a2cd8e7,
    0x2145ec15dc2b42cb,
    0x5cdf9eb466b54d32,
    0x1b50bfff82bedc9d,
]);

const TWICE_A: Fr = Fr([
    0xdd12e220bca074ce,
    0x8a5d8814632794a9,
    0xdf5954a121cbd28a,
    0x2fc08e5c52c8bf16,
]);

const A_TO_THE_B: Fr = Fr([
    0x7c79b8618b41fcf4,
    0x10be3f72d92c96b5,
    0xa371ad1d97e021af,
    0x123763dd6c0b626f,
]);

const A_INVERTED: Fr = Fr([
    0xf6d53e321a62a153,
    0x8e1223f7359bd5a2,
    0x8553d5c2ebc65caa,
    0x1dde1228b326332d,
]);

const A_TIMES_B_WIDE: [u64; 8] = [
    0x99a5636c1c4655cc,
    0xba01816d1f265809,
    0xf7378af438c4902f,
    0x5fe06ec5333481cb,
    0x06438a896179f59a,
    0xf8bbcc237cae2c89,
    0x98bdc54ea8274275,
    0x03a6d377ec651dbd,
];

const MODULUS_LESS_ONE_BYTES: [u8; 32] = [
    0x00, 0x00, 0x00, 0xf0, 0x93, 0xf5, 0xe1, 0x43,
    0x91, 0x70, 0xb9, 0x79, 0x48, 0xe8, 0x33, 0x28,
    0x5d, 0x58, 0x81, 0x81, 0xb6, 0x45, 0x50, 0xb8,
    0x29, 0xa0, 0x31, 0xe1, 0x72, 0x4e, 0x64, 0x30,
];

fn minus_one() -> Fr {
    Fr([MODULUS[0] - 1, MODULUS[1], MODULUS[2], MODULUS[3]])
}

#[test]
fn test_arithmetic() {
    let a = Fr::one();
    let b = Fr::one();
    let c = &a + &b;
    assert_eq!(c, Fr([2, 0, 0, 0]));

    let d = &c * &b;
    assert_eq!(d, Fr([2, 0, 0, 0]));

    let e = -&d;
    assert_ne!(e, d);
}

#[test]
fn limb_operations_give_exact_values() {
    assert_eq!(adc(u64::MAX, u64::MAX, 1), (u64::MAX, 1));
    assert_eq!(adc(1, 2, 0), (3, 0));
    assert_eq!(sbb(0, 1, 0), (u64::MAX, 1));
    assert_eq!(sbb(5, 3, 1), (1, 0));
    assert_eq!(sbb(0, u64::MAX, 1), (0, 1));
    assert_eq!(mac(u64::MAX, u64::MAX, u64::MAX, u64::MAX), (u64::MAX, u64::MAX));
    assert_eq!(mac(1, 2, 3, 4), (11, 0));
}

#[test]
fn wide_product_gives_exact_value() {
    assert_eq!(arithmetic::mul_wide(&A.0, &B.0), A_TIMES_B_WIDE);
    let max = [u64::MAX; 4];
    assert_eq!(
        arithmetic::mul_wide(&max, &max),
        [1, 0, 0, 0, u64::MAX - 1, u64::MAX, u64::MAX, u64::MAX]
    );
}

#[test]
fn sum_gives_exact_value() {
    assert_eq!(A + B, A_PLUS_B);
    assert_eq!(&A + &C, A_PLUS_C);
    assert_eq!(A + &C, A_PLUS_C);
    assert_eq!(&A + C, A_PLUS_C);
    assert_eq!(minus_one() + Fr::one(), Fr::zero());
    assert_eq!(minus_one() + minus_one(), Fr([MODULUS[0] - 2, MODULUS[1], MODULUS[2], MODULUS[3]]));
}

#[test]
fn difference_gives_exact_value() {
    assert_eq!(A - B, A_MINUS_B);
    assert_eq!(B - A, B_MINUS_A);
    assert_eq!(&A - &C, A_MINUS_C);
    assert_eq!(A - &C, A_MINUS_C);
    assert_eq!(&A - C, A_MINUS_C);
    assert_eq!(Fr::zero() - Fr::one(), minus_one());
    assert_eq!(A - A, Fr::zero());
}

#[test]
fn product_gives_exact_value() {
    assert_eq!(A * B, A_TIMES_B);
    assert_eq!(&B * &C, B_TIMES_C);
    assert_eq!(B * &C, B_TIMES_C);
    assert_eq!(&B * C, B_TIMES_C);
    assert_eq!(minus_one() * minus_one(), Fr::one());
    assert_eq!(A * Fr::zero(), Fr::zero());
}

#[test]
fn negative_gives_exact_value() {
    assert_eq!(-A, MINUS_A);
    assert_eq!(-&B, MINUS_B);
    assert_eq!(-Fr::zero(), Fr::zero());
    assert_eq!(-Fr::one(), minus_one());
}

#[test]
fn square_and_double_give_exact_values() {
    assert_eq!(A.square(), A_SQUARED);
    assert_eq!(A.double(), TWICE_A);
    assert_eq!(minus_one().double(), Fr([MODULUS[0] - 2, MODULUS[1], MODULUS[2], MODULUS[3]]));
}

#[test]
fn power_gives_exact_value() {
    assert_eq!(arithmetic::pow_vartime(&A, &B.0), A_TO_THE_B);
    assert_eq!(arithmetic::pow_vartime(&A, &[0, 0, 0, 0]), Fr::one());
    assert_eq!(arithmetic::pow_vartime(&A, &[1, 0, 0, 0]), A);
    assert_eq!(arithmetic::pow_vartime(&Fr::from(2), &[64, 0, 0, 0]), Fr([0, 1, 0, 0]));
}

#[test]
fn inverse_gives_exact_value() {
    assert_eq!(A.invert(), Some(A_INVERTED));
    assert_eq!(Fr::one().invert(), Some(Fr::one()));
    assert_eq!(minus_one().invert(), Some(minus_one()));
    assert_eq!(Fr::from(2).invert(), Some(Fr(TWO_INV)));
}

#[test]
fn inverse_of_zero_is_nothing() {
    assert_eq!(Fr::zero().invert(), None);
    assert_eq!(arithmetic::invert(&Fr::zero()), None);
}

#[test]
fn assignment_operators_replace_the_left_operand() {
    let mut x = A;
    x += B;
    assert_eq!(x, A + B);
    x += &C;
    assert_eq!(x, A + B + C);
    x -= B;
    assert_eq!(x, A + C);
    x -= &C;
    assert_eq!(x, A);
    x *= B;
    assert_eq!(x, A * B);
    x *= &C;
    assert_eq!(x, A * B * C);
}

#[test]
fn field_laws_hold_on_chosen_elements() {
    assert_eq!(A + B, B + A);
    assert_eq!((A + B) + C, A + (B + C));
    assert_eq!(A + Fr::zero(), A);
    assert_eq!(A + (-A), Fr::zero());
    assert_eq!(A * B, B * A);
    assert_eq!((A * B) * C, A * (B * C));
    assert_eq!(A * Fr::one(), A);
    assert_eq!(A * (B + C), A * B + A * C);
    assert_eq!(A * A.invert().unwrap(), Fr::one());
    assert_eq!(A - B, A + (-B));
}

#[test]
fn sum_and_product_fold_from_the_identities() {
    assert_eq!(Fr::sum(&[]), Fr::zero());
    assert_eq!(Fr::product(&[]), Fr::one());
    assert_eq!(Fr::sum(&[A, B, C]), A + B + C);
    assert_eq!(Fr::product(&[A, B, C]), A * B * C);
    assert_eq!(Fr::sum(&[Fr::from(1), Fr::from(2), Fr::from(3)]), Fr::from(6));
    assert_eq!(Fr::product(&[Fr::from(2), Fr::from(3), Fr::from(7)]), Fr::from(42));
}

#[test]
fn concrete_scenario() {
    assert_eq!(Fr::from(1) + Fr::from(1), Fr::from(2));
    assert_eq!(Fr::from(2) * Fr::from(2).invert().unwrap(), Fr::from(1));
    let minus_one = -Fr::from(1);
    assert_eq!(minus_one, Fr::from_bytes(&MODULUS_LESS_ONE_BYTES).unwrap());
    assert_eq!(minus_one.to_repr(), MODULUS_LESS_ONE_BYTES);
}

#[test]
fn root_of_unity_structure() {
    assert_eq!(S, 28);
    let mut x = Fr::root_of_unity();
    for _ in 0..(S - 1) {
        x = x.square();
    }
    assert_ne!(x, Fr::one());
    assert_eq!(x.square(), Fr::one());
    assert_eq!(Fr::two_inv() * Fr::from(2), Fr::one());
    assert_eq!(Fr::root_of_unity() * Fr::root_of_unity_inv(), Fr::one());
}

#[test]
fn constants_are_what_they_are_named() {
    assert_eq!(Fr::multiplicative_generator(), Fr::from(7));
    assert_eq!(Fr::multiplicative_generator(), Fr(MULTIPLICATIVE_GENERATOR));
    assert_eq!(Fr::root_of_unity(), Fr(ROOT_OF_UNITY));
    assert_eq!(Fr::root_of_unity_inv(), Fr(ROOT_OF_UNITY_INV));
    assert_eq!(Fr::two_inv(), Fr(TWO_INV));
    assert_eq!(Fr::delta(), Fr(DELTA));
    // The modulus less one is an odd number times two to the power S.
    let odd = [0x9b9709143e1f593f, 0x181585d2833e8487, 0x131a029b85045b68, 0x000000030644e72e];
    assert_eq!(odd[0] & 1, 1);
    assert_eq!(arithmetic::pow_vartime(&Fr::from(7), &odd), Fr::root_of_unity());
    assert_eq!(arithmetic::pow_vartime(&Fr::from(7), &[1 << S, 0, 0, 0]), Fr::delta());
    assert_eq!(
        arithmetic::pow_vartime(&Fr::from(1 << S), &[1, 0, 0, 0]) * Fr(odd),
        minus_one()
    );
}
