use challenger::field::{Field64, Goldilocks, Mersenne31};
use challenger::linear::{ChallengerError, LinearChallenger};

const WIDTH: usize = 32;
type F = Goldilocks;

const GOLDILOCKS_P: u64 = 0xffff_ffff_0000_0001;
const MERSENNE31_P: u64 = (1 << 31) - 1;

#[test]
fn test_linear_challenger() {
    let mut linear_challenger = LinearChallenger::<F>::new();

    // observe elements before reaching WIDTH
    let mut sum = 0;
    for element in 0..WIDTH - 1 {
        linear_challenger.observe(F::from_u64(element as u8 as u64));
        sum += element;
        assert_eq!(linear_challenger.sponge_state(), F::from_u64(sum as u64));
    }

    assert_eq!(linear_challenger.sample(), Ok(F::from_u64(sum as u64)));
    assert_eq!(
        linear_challenger.sponge_state(),
        F::from_u64(sum as u64 + 1).try_inverse().unwrap(),
    );
}

#[test]
fn mersenne31_scenario_sum_then_inverse() {
    let mut c = LinearChallenger::<Mersenne31>::new();
    let values: Vec<Mersenne31> = (1..=30u64).map(Mersenne31::from_u64).collect();
    c.observe_slice(&values);
    let first = c.sample().unwrap();
    assert_eq!(first.as_canonical_u64(), 465);
    let second = c.sample().unwrap();
    assert_eq!(second, Mersenne31::from_u64(466).try_inverse().unwrap());
    assert_eq!((second.as_canonical_u64() * 466) % MERSENNE31_P, 1);
}

#[test]
fn accumulator_is_the_sum_of_observations() {
    let mut c = LinearChallenger::<Goldilocks>::new();
    assert_eq!(c.sponge_state().as_canonical_u64(), 0);
    c.observe_slice(&[Goldilocks::from_u64(7), Goldilocks::from_u64(11), Goldilocks::from_u64(24)]);
    assert_eq!(c.sponge_state().as_canonical_u64(), 42);
    assert_eq!(c.sample().unwrap().as_canonical_u64(), 42);
    let inv = c.sponge_state().as_canonical_u64() as u128;
    assert_eq!((inv * 43) % GOLDILOCKS_P as u128, 1);
}

#[test]
fn observation_order_does_not_matter_for_linear() {
    let a = Goldilocks::from_u64(5);
    let b = Goldilocks::from_u64(9);
    let mut c1 = LinearChallenger::<Goldilocks>::new();
    let mut c2 = LinearChallenger::<Goldilocks>::new();
    c1.observe_slice(&[a, b]);
    c2.observe_slice(&[b, a]);
    assert_eq!(c1.sample(), c2.sample());
}

#[test]
fn sampling_fails_on_inverse_of_zero() {
    let mut c = LinearChallenger::<Goldilocks>::new();
    c.observe(Goldilocks::from_u64(GOLDILOCKS_P - 1));
    let before = c.sponge_state();
    assert_eq!(c.sample(), Err(ChallengerError::InverseOfZero));
    assert_eq!(c.sponge_state(), before);
    assert_eq!(c.sample_bits(3), Err(ChallengerError::InverseOfZero));
}

#[test]
fn linear_sample_bits_takes_low_bits() {
    let mut c = LinearChallenger::<Mersenne31>::new();
    c.observe(Mersenne31::from_u64(465));
    assert_eq!(c.sample_bits(4), Ok(465 % 16));
    let mut d = LinearChallenger::<Mersenne31>::new();
    d.observe(Mersenne31::from_u64(465));
    assert_eq!(d.sample_bits(0), Ok(0));
}

#[test]
fn linear_sample_bits_stays_below_bound() {
    let mut c = LinearChallenger::<Goldilocks>::new();
    c.observe(Goldilocks::from_u64(123_456_789));
    for _ in 0..20 {
        let r = c.sample_bits(10).unwrap();
        assert!(r < 1 << 10);
    }
}

#[test]
fn identical_linear_challengers_agree() {
    let mut c1 = LinearChallenger::<Goldilocks>::new();
    let mut c2 = LinearChallenger::<Goldilocks>::new();
    for i in 0..10u64 {
        c1.observe(Goldilocks::from_u64(i * 31));
        c2.observe(Goldilocks::from_u64(i * 31));
        assert_eq!(c1.sample(), c2.sample());
    }
}

#[test]
fn field_arithmetic_reduces_modulo_the_order() {
    assert_eq!(Mersenne31::from_u64(MERSENNE31_P), Mersenne31::zero());
    assert_eq!(Mersenne31::from_u64(MERSENNE31_P + 5).as_canonical_u64(), 5);
    let s = Mersenne31::from_u64(MERSENNE31_P - 1).add(Mersenne31::from_u64(2));
    assert_eq!(s, Mersenne31::one());
    let g = Goldilocks::from_u64(GOLDILOCKS_P - 1).add(Goldilocks::from_u64(3));
    assert_eq!(g.as_canonical_u64(), 2);
    assert_eq!(Goldilocks::from_u64(u64::MAX).as_canonical_u64(), u64::MAX - GOLDILOCKS_P);
    assert_eq!(Goldilocks::zero().try_inverse(), None);
    assert_eq!(Mersenne31::zero().try_inverse(), None);
    let inv = Goldilocks::from_u64(2).try_inverse().unwrap();
    assert_eq!(inv.as_canonical_u64(), (GOLDILOCKS_P + 1) / 2);
}
