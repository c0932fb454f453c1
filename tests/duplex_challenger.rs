use challenger::duplex::{DuplexChallenger, Permutation, Phase, Transition};
use challenger::field::{Field64, Mersenne31};
use challenger::poseidon::{Poseidon2Mersenne31, POSEIDON2_WIDTH};

const RATE: usize = 8;

type Sponge = DuplexChallenger<Mersenne31, Poseidon2Mersenne31>;

fn fresh() -> Sponge {
    DuplexChallenger::new(Poseidon2Mersenne31::new(), POSEIDON2_WIDTH, RATE)
}

fn m(v: u64) -> Mersenne31 {
    Mersenne31::from_u64(v)
}

fn permuted(mut state: Vec<Mersenne31>) -> Vec<Mersenne31> {
    Poseidon2Mersenne31::new().permute_mut(&mut state);
    state
}

fn zeros() -> Vec<Mersenne31> {
    vec![Mersenne31::zero(); POSEIDON2_WIDTH]
}

#[test]
fn poseidon2_changes_the_state_and_keeps_its_width() {
    let out = permuted(zeros());
    assert_eq!(out.len(), POSEIDON2_WIDTH);
    assert_ne!(out, zeros());
    assert_eq!(permuted(zeros()), out);
    let short = vec![m(1), m(2), m(3)];
    assert_eq!(permuted(short.clone()), short);
}

#[test]
fn duplex_order_of_observations_matters() {
    let mut c1 = fresh();
    let mut c2 = fresh();
    c1.observe_slice(&[m(1), m(2)]);
    c2.observe_slice(&[m(2), m(1)]);
    assert_ne!(c1.sample(), c2.sample());
}

#[test]
fn duplex_identical_transcripts_agree() {
    let mut c1 = fresh();
    let mut c2 = fresh();
    for i in 0..20u64 {
        c1.observe(m(i * i + 1));
        c2.observe(m(i * i + 1));
        if i % 3 == 0 {
            assert_eq!(c1.sample(), c2.sample());
        }
    }
    for _ in 0..17 {
        assert_eq!(c1.sample(), c2.sample());
    }
}

#[test]
fn duplex_fewer_than_rate_then_sample_permutes_once() {
    for n in 0..RATE {
        let mut c = fresh();
        let mut expected = zeros();
        for i in 0..n {
            c.observe(m(i as u64 + 5));
            expected[i] = m(i as u64 + 5);
        }
        let expected = permuted(expected);
        assert_eq!(c.sample(), expected[0]);
    }
}

#[test]
fn duplex_rate_plus_one_then_sample_permutes_twice() {
    let mut c = fresh();
    let mut expected = zeros();
    for i in 0..RATE {
        c.observe(m(i as u64 + 100));
        expected[i] = m(i as u64 + 100);
    }
    c.observe(m(99));
    let mut expected = permuted(expected);
    expected[0] = m(99);
    let expected = permuted(expected);
    assert_eq!(c.sample(), expected[0]);
}

#[test]
fn duplex_squeezes_rate_samples_per_permutation() {
    let mut c = fresh();
    c.observe(m(3));
    let mut expected = zeros();
    expected[0] = m(3);
    let expected = permuted(expected);
    for i in 0..RATE {
        assert_eq!(c.sample(), expected[i]);
    }
    let next = permuted(expected.clone());
    assert_eq!(c.sample(), next[0]);
    c.observe(m(4));
    let mut after = permuted(next);
    after[0] = m(4);
    for i in 0..POSEIDON2_WIDTH {
        assert_eq!(c.state_slot(i), after[i]);
    }
}

#[test]
fn duplex_sample_without_observations() {
    let mut c = fresh();
    assert_eq!(c.sample(), permuted(zeros())[0]);
}

#[test]
fn duplex_sample_bits_takes_low_bits() {
    let mut c = fresh();
    c.observe_slice(&[m(10), m(20), m(30)]);
    for _ in 0..10 {
        assert!(c.sample_bits(5) < 32);
    }
    let mut d = fresh();
    let mut e = fresh();
    d.observe(m(77));
    e.observe(m(77));
    let full = d.sample().as_canonical_u64() as usize;
    assert_eq!(e.sample_bits(7), full % 128);
    assert_eq!(e.sample_bits(0), 0);
}

#[test]
fn phase_transitions() {
    let t = Phase::Absorbing { cursor: 0 }.on_observe(RATE);
    assert_eq!(t, Transition { permute: false, slot: 0, next: Phase::Absorbing { cursor: 1 } });
    let t = Phase::Absorbing { cursor: RATE }.on_observe(RATE);
    assert_eq!(t, Transition { permute: true, slot: 0, next: Phase::Absorbing { cursor: 1 } });
    let t = Phase::Squeezing { cursor: 2 }.on_observe(RATE);
    assert_eq!(t, Transition { permute: true, slot: 0, next: Phase::Absorbing { cursor: 1 } });
    let t = Phase::Absorbing { cursor: 2 }.on_sample(RATE);
    assert_eq!(t, Transition { permute: true, slot: 0, next: Phase::Squeezing { cursor: 1 } });
    let t = Phase::Squeezing { cursor: 2 }.on_sample(RATE);
    assert_eq!(t, Transition { permute: false, slot: 2, next: Phase::Squeezing { cursor: 3 } });
    let t = Phase::Squeezing { cursor: RATE }.on_sample(RATE);
    assert_eq!(t, Transition { permute: true, slot: 0, next: Phase::Squeezing { cursor: 1 } });
}

#[test]
fn fresh_sponge_is_zero() {
    let c = fresh();
    for i in 0..POSEIDON2_WIDTH {
        assert_eq!(c.state_slot(i), Mersenne31::zero());
    }
}
