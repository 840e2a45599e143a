use bn254_scalar::accelerated::{Accelerated, FieldInstructions, Portable};
use bn254_scalar::arithmetic;
use bn254_scalar::fr::MODULUS;
use bn254_scalar::Fr;
use core::num::NonZeroU32;
use rand_core::{Error, RngCore};

/// A small generator with a fixed seed, for samples that are the same in every run.
struct XorShift(u64);

impl RngCore for XorShift {
    fn next_u32(&mut self) -> u32 {
        (self.next_u64() >> 32) as u32
    }

    fn next_u64(&mut self) -> u64 {
        self.0 ^= self.0 << 13;
        self.0 ^= self.0 >> 7;
        self.0 ^= self.0 << 17;
        self.0
    }

    fn fill_bytes(&mut self, dest: &mut [u8]) {
        for chunk in dest.chunks_mut(8) {
            let word = self.next_u64().to_le_bytes();
            chunk.copy_from_slice(&word[..chunk.len()]);
        }
    }

    fn try_fill_bytes(&mut self, dest: &mut [u8]) -> Result<(), Error> {
        self.fill_bytes(dest);
        Ok(())
    }
}

/// A source that gives the same byte for ever.
struct Constant(u8);

impl RngCore for Constant {
    fn next_u32(&mut self) -> u32 {
        u32::from_le_bytes([self.0; 4])
    }

    fn next_u64(&mut self) -> u64 {
        u64::from_le_bytes([self.0; 8])
    }

    fn fill_bytes(&mut self, dest: &mut [u8]) {
        dest.fill(self.0);
    }

    fn try_fill_bytes(&mut self, dest: &mut [u8]) -> Result<(), Error> {
        self.fill_bytes(dest);
        Ok(())
    }
}

/// A source that reports an error on every draw, and panics where it is asked for bytes in a
/// way that cannot report one.
struct Failing;

impl RngCore for Failing {
    fn next_u32(&mut self) -> u32 {
        panic!("the source has failed")
    }

    fn next_u64(&mut self) -> u64 {
        panic!("the source has failed")
    }

    fn fill_bytes(&mut self, _dest: &mut [u8]) {
        panic!("the source has failed")
    }

    fn try_fill_bytes(&mut self, _dest: &mut [u8]) -> Result<(), Error> {
        Err(Error::from(NonZeroU32::new(Error::CUSTOM_START).unwrap()))
    }
}

/// A source that gives bytes that do not decode, then reports an error, and counts the
/// draws that it is asked for.
struct FailingAfter {
    good: u32,
    asked: u32,
}

impl RngCore for FailingAfter {
    fn next_u32(&mut self) -> u32 {
        panic!("only whole buffers are drawn")
    }

    fn next_u64(&mut self) -> u64 {
        panic!("only whole buffers are drawn")
    }

    fn fill_bytes(&mut self, _dest: &mut [u8]) {
        panic!("the source may fail")
    }

    fn try_fill_bytes(&mut self, dest: &mut [u8]) -> Result<(), Error> {
        self.asked += 1;
        if self.asked > self.good {
            return Err(Error::from(NonZeroU32::new(Error::CUSTOM_START).unwrap()));
        }
        dest.fill(255);
        Ok(())
    }
}

/// A source that gives bytes that do not decode twice, then bytes that do, and counts the
/// draws.
struct ThirdTime(u32);

impl RngCore for ThirdTime {
    fn next_u32(&mut self) -> u32 {
        panic!("only whole buffers are drawn")
    }

    fn next_u64(&mut self) -> u64 {
        panic!("only whole buffers are drawn")
    }

    fn fill_bytes(&mut self, dest: &mut [u8]) {
        self.0 += 1;
        dest.fill(if self.0 < 3 { 255 } else { 7 });
    }

    fn try_fill_bytes(&mut self, dest: &mut [u8]) -> Result<(), Error> {
        self.fill_bytes(dest);
        Ok(())
    }
}

fn is_canonical(x: &Fr) -> bool {
    for i in (0..4).rev() {
        if x.0[i] < MODULUS[i] {
            return true;
        }
        if x.0[i] > MODULUS[i] {
            return false;
        }
    }
    false
}

fn sample(rng: &mut XorShift) -> Fr {
    Fr::random(rng, u64::MAX).unwrap()
}

#[test]
fn random_elements_are_canonical() {
    let mut rng = XorShift(0x9e3779b97f4a7c15);
    let mut odd = 0;
    for _ in 0..10_000 {
        let x = sample(&mut rng);
        assert!(is_canonical(&x));
        if x.is_odd() {
            odd += 1;
        }
    }
    assert!(odd > 4_500 && odd < 5_500);
}

#[test]
fn random_elements_differ() {
    let mut rng = XorShift(42);
    let x = sample(&mut rng);
    let y = sample(&mut rng);
    assert_ne!(x, y);
    assert_ne!(x, Fr::zero());
}

#[test]
fn random_decodes_what_the_source_gave() {
    assert_eq!(Fr::random(&mut Constant(0), 1), Some(Fr::zero()));
    assert_eq!(Fr::random(&mut Constant(1), 1), Some(Fr([0x0101010101010101; 4])));
}

#[test]
fn random_gives_up_when_the_draws_are_used() {
    assert_eq!(Fr::random(&mut Constant(255), 5), None);
    assert_eq!(Fr::random(&mut Constant(0), 0), None);
    let mut rng = XorShift(7);
    assert_eq!(Fr::random(&mut rng, 0), None);
}

#[test]
fn random_gives_nothing_when_the_source_fails() {
    assert_eq!(Fr::random(&mut Failing, 1), None);
    assert_eq!(Fr::random(&mut Failing, u64::MAX), None);
    assert_eq!(Fr::random(&mut Failing, 0), None);
}

#[test]
fn random_stops_at_the_first_failure_of_the_source() {
    let mut source = FailingAfter { good: 3, asked: 0 };
    assert_eq!(Fr::random(&mut source, 10), None);
    assert_eq!(source.asked, 4);
    // The draws run out before the source fails.
    let mut source = FailingAfter { good: 3, asked: 0 };
    assert_eq!(Fr::random(&mut source, 2), None);
    assert_eq!(source.asked, 2);
}

#[test]
fn random_draws_until_the_bytes_decode() {
    let mut source = ThirdTime(0);
    assert_eq!(Fr::random(&mut source, 5), Some(Fr([0x0707070707070707; 4])));
    assert_eq!(source.0, 3);
    let mut source = ThirdTime(0);
    assert_eq!(Fr::random(&mut source, 2), None);
    assert_eq!(source.0, 2);
}

#[test]
fn backends_agree_on_sampled_pairs() {
    let accelerated = Accelerated::new(Portable);
    let mut rng = XorShift(0x0123456789abcdef);
    for _ in 0..200 {
        let a = sample(&mut rng);
        let b = sample(&mut rng);
        assert!(accelerated.agrees_with_portable(&a, &b));
        assert_eq!(accelerated.add(&a, &b), arithmetic::add(&a, &b));
        assert_eq!(accelerated.sub(&a, &b), arithmetic::sub(&a, &b));
        assert_eq!(accelerated.mul(&a, &b), arithmetic::mul(&a, &b));
        assert_eq!(accelerated.square(&a), arithmetic::square(&a));
        assert_eq!(accelerated.neg(&a), arithmetic::neg(&a));
        assert_eq!(accelerated.double(&a), arithmetic::double(&a));
        assert_eq!(accelerated.invert(&a), arithmetic::invert(&a));
    }
}

#[test]
fn backends_agree_at_the_edges() {
    let accelerated = Accelerated::new(Portable);
    let minus_one = Fr([MODULUS[0] - 1, MODULUS[1], MODULUS[2], MODULUS[3]]);
    for a in [Fr::zero(), Fr::one(), minus_one] {
        for b in [Fr::zero(), Fr::one(), minus_one] {
            assert!(accelerated.agrees_with_portable(&a, &b));
        }
    }
    assert_eq!(accelerated.invert(&Fr::zero()), None);
    assert_eq!(arithmetic::invert(&Fr::zero()), None);
    assert_eq!(accelerated.neg(&Fr::zero()), Fr::zero());
    assert_eq!(accelerated.neg(&Fr::one()), minus_one);
    assert_eq!(accelerated.sub(&Fr::zero(), &Fr::one()), minus_one);
    assert_eq!(accelerated.double(&minus_one), minus_one - Fr::one());
}

#[test]
fn fused_instruction_gives_exact_values() {
    let host = Portable;
    assert_eq!(host.muladd(&Fr::from(3), &Fr::from(5), &Fr::from(7)), Fr::from(22));
    let minus_one = Fr([MODULUS[0] - 1, MODULUS[1], MODULUS[2], MODULUS[3]]);
    assert_eq!(host.muladd(&minus_one, &minus_one, &minus_one), Fr::zero());
    assert_eq!(host.invert(&Fr::from(2)), Fr::two_inv());
}
