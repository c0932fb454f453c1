//! A challenger that accumulates observations by field addition.
//!
//! It is fast and purely algebraic, and meant for tests and benchmarks only:
//! addition commutes, so reordering observations does not change the samples.

use crate::field::{inverse_of, lemma_inverse_of, Field64};
use vstd::arithmetic::div_mod::{
    lemma_add_mod_noop, lemma_add_mod_noop_right, lemma_mod_twice, lemma_mul_mod_noop_right,
    lemma_small_mod,
};
use crate::truncate::low_bits;
use vstd::arithmetic::power2::pow2;
use vstd::prelude::*;

verus! {

/// Why a challenger could not produce a sample.
#[derive(Clone, Copy, Debug, PartialEq, Eq)]
pub enum ChallengerError {
    /// The next state would be the inverse of zero.
    InverseOfZero,
}

/// The accumulator after observing `v` when it held `acc`.
pub open spec fn observe_step<F: Field64>(acc: nat, v: F) -> nat {
    (acc + v.as_nat()) % F::order()
}

/// The accumulator after observing each of `values` in order, starting from `acc`.
pub open spec fn observe_all<F: Field64>(acc: nat, values: Seq<F>) -> nat
    decreases values.len(),
{
    if values.len() == 0 {
        acc
    } else {
        observe_step(observe_all(acc, values.drop_last()), values.last())
    }
}

/// The sum of the canonical values of `values`.
pub open spec fn sum_of<F: Field64>(values: Seq<F>) -> nat
    decreases values.len(),
{
    if values.len() == 0 {
        0
    } else {
        sum_of(values.drop_last()) + values.last().as_nat()
    }
}

/// Sampling is possible from `acc` when `acc + 1` is not zero in the field.
pub open spec fn can_sample<F: Field64>(acc: nat) -> bool {
    (acc + 1) % F::order() != 0
}

/// The accumulator after a sample taken when it held `acc`.
pub open spec fn sample_step<F: Field64>(acc: nat) -> nat {
    inverse_of::<F>(acc + 1)
}

/// Observing a sequence one element at a time leaves a canonical accumulator at
/// its starting value plus the sum of the sequence, reduced modulo the order.
pub proof fn lemma_accumulation_law<F: Field64>(acc: nat, values: Seq<F>)
    requires
        acc < F::order(),
    ensures
        observe_all::<F>(acc, values) == (acc + sum_of(values)) % F::order(),
    decreases values.len(),
{
    F::lemma_order_bounds();
    let p = F::order() as int;
    if values.len() == 0 {
        lemma_small_mod(acc, p as nat);
    } else {
        let init = values.drop_last();
        let v = values.last().as_nat() as int;
        lemma_accumulation_law::<F>(acc, init);
        let x = (acc + sum_of(init)) as int;
        lemma_add_mod_noop(x, v, p);
        lemma_add_mod_noop_right(x % p, v, p);
        lemma_add_mod_noop(x % p, v, p);
        lemma_mod_twice(x, p);
    }
}

/// A challenger whose state is a single field element.
#[derive(Clone, Debug)]
pub struct LinearChallenger<F> {
    sponge_state: F,
}

impl<F: Field64> LinearChallenger<F> {
    /// The current accumulator.
    pub closed spec fn state(&self) -> F {
        self.sponge_state
    }

    /// A fresh challenger, whose accumulator is zero.
    pub fn new() -> (r: Self)
        ensures
            r.state().as_nat() == 0,
    {
        LinearChallenger { sponge_state: F::zero() }
    }

    /// The current accumulator.
    pub fn sponge_state(&self) -> (r: F)
        ensures
            r == self.state(),
    {
        self.sponge_state
    }

    /// Adds `value` to the accumulator.
    pub fn observe(&mut self, value: F)
        ensures
            final(self).state().as_nat() == observe_step(old(self).state().as_nat(), value),
    {
        self.sponge_state = self.sponge_state.add(value);
    }

    /// Observes each element of `values` in order.
    pub fn observe_slice(&mut self, values: &[F])
        ensures
            final(self).state().as_nat() == observe_all(old(self).state().as_nat(), values@),
    {
        let ghost acc0 = self.state().as_nat();
        let mut i: usize = 0;
        while i < values.len()
            invariant
                i <= values@.len(),
                self.state().as_nat() == observe_all(acc0, values@.take(i as int)),
            decreases values@.len() - i,
        {
            self.observe(values[i]);
            assert(values@.take(i as int + 1).drop_last() == values@.take(i as int));
            i = i + 1;
        }
        assert(values@.take(values@.len() as int) == values@);
    }

    /// Returns the accumulator, and replaces it by the inverse of its successor.
    ///
    /// Fails, leaving the challenger as it was, when the successor is zero.
    pub fn sample(&mut self) -> (r: Result<F, ChallengerError>)
        ensures
            r is Ok <==> can_sample::<F>(old(self).state().as_nat()),
            r matches Ok(v) ==> v == old(self).state() && final(self).state().as_nat()
                == sample_step::<F>(old(self).state().as_nat()),
            r matches Err(e) ==> e == ChallengerError::InverseOfZero && *final(self) == *old(
                self,
            ),
    {
        let res = self.sponge_state;
        let succ = self.sponge_state.add(F::one());
        proof {
            F::lemma_order_bounds();
            lemma_mod_twice((res.as_nat() + 1) as int, F::order() as int);
        }
        match succ.try_inverse() {
            Some(inv) => {
                proof {
                    lemma_mul_mod_noop_right(
                        inv.as_nat() as int,
                        (res.as_nat() + 1) as int,
                        F::order() as int,
                    );
                    lemma_inverse_of::<F>(res.as_nat() + 1, inv.as_nat());
                }
                self.sponge_state = inv;
                Ok(res)
            },
            None => Err(ChallengerError::InverseOfZero),
        }
    }

    /// Takes a sample and returns its low `bits` bits.
    pub fn sample_bits(&mut self, bits: usize) -> (r: Result<usize, ChallengerError>)
        requires
            bits < usize::BITS,
            pow2(bits as nat) < F::order(),
        ensures
            r is Ok <==> can_sample::<F>(old(self).state().as_nat()),
            r matches Ok(v) ==> v as nat == old(self).state().as_nat() % pow2(bits as nat) && (v
                as nat) < pow2(bits as nat) && final(self).state().as_nat() == sample_step::<F>(
                old(self).state().as_nat(),
            ),
            r matches Err(e) ==> e == ChallengerError::InverseOfZero && *final(self) == *old(
                self,
            ),
    {
        let s = match self.sample() {
            Ok(s) => s,
            Err(e) => {
                return Err(e);
            },
        };
        let c = s.as_canonical_u64();
        proof {
            F::lemma_order_bounds();
        }
        Ok(low_bits(c, bits))
    }
}

} // verus!
