//! A duplex sponge challenger built on a width-`W` permutation.
//!
//! The first `rate` slots of the state take observations and give samples; the
//! remaining slots, the capacity, are touched by the permutation alone.

use crate::field::Field64;
use crate::truncate::low_bits;
use vstd::arithmetic::power2::pow2;
use vstd::prelude::*;

verus! {

/// A fixed-width permutation of field elements.
pub trait Permutation<F>: Sized {
    /// The permuted state.
    spec fn permute_spec(&self, state: Seq<F>) -> Seq<F>;

    /// Permutes `state` in place, keeping its width.
    fn permute_mut(&self, state: &mut Vec<F>)
        ensures
            final(state)@ == self.permute_spec(old(state)@),
            final(state)@.len() == old(state)@.len(),
    ;
}

/// What the sponge is doing, and how many rate slots it has used since the
/// last permutation.
#[derive(Clone, Copy, Debug, PartialEq, Eq, Structural)]
pub enum Phase {
    /// Writing observations into the rate slots.
    Absorbing { cursor: usize },
    /// Reading samples out of the rate slots.
    Squeezing { cursor: usize },
}

/// The cursor of a phase.
pub open spec fn cursor_of(phase: Phase) -> nat {
    match phase {
        Phase::Absorbing { cursor } => cursor as nat,
        Phase::Squeezing { cursor } => cursor as nat,
    }
}

/// An observation permutes first when the rate is used up or output is pending.
pub open spec fn observe_permutes(phase: Phase, rate: nat) -> bool {
    match phase {
        Phase::Absorbing { cursor } => cursor >= rate,
        Phase::Squeezing { .. } => true,
    }
}

/// A sample permutes first when input is pending or the output is used up.
pub open spec fn sample_permutes(phase: Phase, rate: nat) -> bool {
    match phase {
        Phase::Absorbing { .. } => true,
        Phase::Squeezing { cursor } => cursor >= rate,
    }
}

/// The slot that an observation writes.
pub open spec fn observe_slot(phase: Phase, rate: nat) -> nat {
    if observe_permutes(phase, rate) {
        0
    } else {
        cursor_of(phase)
    }
}

/// The slot that a sample reads.
pub open spec fn sample_slot(phase: Phase, rate: nat) -> nat {
    if sample_permutes(phase, rate) {
        0
    } else {
        cursor_of(phase)
    }
}

/// The phase after an observation.
pub open spec fn phase_after_observe(phase: Phase, rate: nat) -> Phase {
    Phase::Absorbing { cursor: (observe_slot(phase, rate) + 1) as usize }
}

/// The phase after a sample.
pub open spec fn phase_after_sample(phase: Phase, rate: nat) -> Phase {
    Phase::Squeezing { cursor: (sample_slot(phase, rate) + 1) as usize }
}

/// The phase after `n` observations starting from `phase`.
pub open spec fn phase_after_observes(phase: Phase, rate: nat, n: nat) -> Phase
    decreases n,
{
    if n == 0 {
        phase
    } else {
        phase_after_observe(phase_after_observes(phase, rate, (n - 1) as nat), rate)
    }
}

/// How many of `n` observations starting from `phase` permute.
pub open spec fn observe_permutations(phase: Phase, rate: nat, n: nat) -> nat
    decreases n,
{
    if n == 0 {
        0
    } else {
        observe_permutations(phase, rate, (n - 1) as nat) + if observe_permutes(
            phase_after_observes(phase, rate, (n - 1) as nat),
            rate,
        ) {
            1nat
        } else {
            0nat
        }
    }
}

/// How many permutations `n` observations and then one sample take from `phase`.
pub open spec fn permutations_until_sample(phase: Phase, rate: nat, n: nat) -> nat {
    observe_permutations(phase, rate, n) + if sample_permutes(
        phase_after_observes(phase, rate, n),
        rate,
    ) {
        1nat
    } else {
        0nat
    }
}

proof fn lemma_fill_rate(rate: nat, n: nat)
    requires
        n <= rate <= usize::MAX,
    ensures
        phase_after_observes(Phase::Absorbing { cursor: 0 }, rate, n) == (Phase::Absorbing {
            cursor: n as usize,
        }),
        observe_permutations(Phase::Absorbing { cursor: 0 }, rate, n) == 0,
    decreases n,
{
    if n > 0 {
        lemma_fill_rate(rate, (n - 1) as nat);
    }
}

/// From a fresh sponge, up to `rate` observations and a sample take one
/// permutation, and `rate + 1` observations and a sample take two.
pub proof fn lemma_rate_boundary(rate: nat)
    requires
        0 < rate < usize::MAX,
    ensures
        forall|n: nat|
            n <= rate ==> #[trigger] permutations_until_sample(
                Phase::Absorbing { cursor: 0 },
                rate,
                n,
            ) == 1,
        permutations_until_sample(Phase::Absorbing { cursor: 0 }, rate, rate + 1) == 2,
{
    assert forall|n: nat| n <= rate implies #[trigger] permutations_until_sample(
        Phase::Absorbing { cursor: 0 },
        rate,
        n,
    ) == 1 by {
        lemma_fill_rate(rate, n);
    }
    lemma_fill_rate(rate, rate);
    assert(phase_after_observes(Phase::Absorbing { cursor: 0 }, rate, rate + 1) == (
    Phase::Absorbing { cursor: 1 }));
}

/// Where the sponge goes on one operation: whether it permutes first, the slot
/// it then writes or reads, and the phase it ends in.
#[derive(Clone, Copy, Debug, PartialEq, Eq, Structural)]
pub struct Transition {
    pub permute: bool,
    pub slot: usize,
    pub next: Phase,
}

impl Phase {
    /// The cursor never passes the rate.
    pub open spec fn within(self, rate: nat) -> bool {
        cursor_of(self) <= rate
    }

    /// The transition taken on an observation.
    pub fn on_observe(self, rate: usize) -> (t: Transition)
        requires
            0 < rate,
            self.within(rate as nat),
        ensures
            t.permute == observe_permutes(self, rate as nat),
            t.slot == observe_slot(self, rate as nat),
            t.next == phase_after_observe(self, rate as nat),
            t.slot < rate,
    {
        let slot: usize = match self {
            Phase::Absorbing { cursor } => if cursor >= rate {
                0
            } else {
                cursor
            },
            Phase::Squeezing { .. } => 0,
        };
        let permute = match self {
            Phase::Absorbing { cursor } => cursor >= rate,
            Phase::Squeezing { .. } => true,
        };
        Transition { permute, slot, next: Phase::Absorbing { cursor: slot + 1 } }
    }

    /// The transition taken on a sample.
    pub fn on_sample(self, rate: usize) -> (t: Transition)
        requires
            0 < rate,
            self.within(rate as nat),
        ensures
            t.permute == sample_permutes(self, rate as nat),
            t.slot == sample_slot(self, rate as nat),
            t.next == phase_after_sample(self, rate as nat),
            t.slot < rate,
    {
        let slot: usize = match self {
            Phase::Absorbing { .. } => 0,
            Phase::Squeezing { cursor } => if cursor >= rate {
                0
            } else {
                cursor
            },
        };
        let permute = match self {
            Phase::Absorbing { .. } => true,
            Phase::Squeezing { cursor } => cursor >= rate,
        };
        Transition { permute, slot, next: Phase::Squeezing { cursor: slot + 1 } }
    }
}

/// A sponge challenger over a permutation `P` of field elements `F`.
pub struct DuplexChallenger<F, P> {
    sponge_state: Vec<F>,
    rate: usize,
    phase: Phase,
    permutation: P,
}

/// The state before an observation writes its slot.
pub open spec fn state_before_observe<F, P: Permutation<F>>(
    perm: P,
    state: Seq<F>,
    phase: Phase,
    rate: nat,
) -> Seq<F> {
    if observe_permutes(phase, rate) {
        perm.permute_spec(state)
    } else {
        state
    }
}

/// The state from which a sample is read.
pub open spec fn state_before_sample<F, P: Permutation<F>>(
    perm: P,
    state: Seq<F>,
    phase: Phase,
    rate: nat,
) -> Seq<F> {
    if sample_permutes(phase, rate) {
        perm.permute_spec(state)
    } else {
        state
    }
}

/// The state and phase after one observation of `value`.
pub open spec fn after_observe<F, P: Permutation<F>>(
    perm: P,
    state: Seq<F>,
    phase: Phase,
    rate: nat,
    value: F,
) -> (Seq<F>, Phase) {
    (
        state_before_observe(perm, state, phase, rate).update(
            observe_slot(phase, rate) as int,
            value,
        ),
        phase_after_observe(phase, rate),
    )
}

/// The state and phase after observing each of `values` in order.
pub open spec fn after_observe_all<F, P: Permutation<F>>(
    perm: P,
    state: Seq<F>,
    phase: Phase,
    rate: nat,
    values: Seq<F>,
) -> (Seq<F>, Phase)
    decreases values.len(),
{
    if values.len() == 0 {
        (state, phase)
    } else {
        let (s, ph) = after_observe_all(perm, state, phase, rate, values.drop_last());
        after_observe(perm, s, ph, rate, values.last())
    }
}

impl<F: Field64, P: Permutation<F>> DuplexChallenger<F, P> {
    /// The sponge state, all `W` slots.
    pub closed spec fn state(&self) -> Seq<F> {
        self.sponge_state@
    }

    /// The number of slots open to observations and samples.
    pub closed spec fn rate(&self) -> nat {
        self.rate as nat
    }

    /// Whether the sponge absorbs or squeezes, and its cursor.
    pub closed spec fn phase(&self) -> Phase {
        self.phase
    }

    /// The permutation that the sponge applies.
    pub closed spec fn perm(&self) -> P {
        self.permutation
    }

    /// The permutation that this sponge applies.
    pub fn permutation(&self) -> (r: &P)
        ensures
            *r == self.perm(),
    {
        &self.permutation
    }

    /// The element in slot `i` of the sponge state.
    pub fn state_slot(&self, i: usize) -> (r: F)
        requires
            i < self.state().len(),
        ensures
            r == self.state()[i as int],
    {
        self.sponge_state[i]
    }

    /// The rate is positive and below the width, and the cursor within the rate.
    pub open spec fn wf(&self) -> bool {
        &&& 0 < self.rate() < self.state().len()
        &&& self.phase().within(self.rate())
    }

    /// A sponge of `width` zero slots, absorbing, of which the first `rate` are open.
    pub fn new(permutation: P, width: usize, rate: usize) -> (r: Self)
        requires
            0 < rate < width,
        ensures
            r.wf(),
            r.state().len() == width,
            forall|i: int| 0 <= i < width ==> (#[trigger] r.state()[i]).as_nat() == 0,
            r.rate() == rate,
            r.phase() == (Phase::Absorbing { cursor: 0 }),
            r.perm() == permutation,
    {
        let mut sponge_state: Vec<F> = Vec::new();
        let mut i: usize = 0;
        while i < width
            invariant
                i <= width,
                sponge_state@.len() == i,
                forall|j: int| 0 <= j < i ==> (#[trigger] sponge_state@[j]).as_nat() == 0,
            decreases width - i,
        {
            sponge_state.push(F::zero());
            i = i + 1;
        }
        DuplexChallenger { sponge_state, rate, phase: Phase::Absorbing { cursor: 0 }, permutation }
    }

    /// Writes `value` into the next rate slot, permuting first when the rate
    /// is used up or output is pending.
    pub fn observe(&mut self, value: F)
        requires
            old(self).wf(),
        ensures
            final(self).wf(),
            final(self).state() == state_before_observe(
                old(self).perm(),
                old(self).state(),
                old(self).phase(),
                old(self).rate(),
            ).update(observe_slot(old(self).phase(), old(self).rate()) as int, value),
            final(self).phase() == phase_after_observe(old(self).phase(), old(self).rate()),
            final(self).state().len() == old(self).state().len(),
            final(self).rate() == old(self).rate(),
            final(self).perm() == old(self).perm(),
    {
        let t = self.phase.on_observe(self.rate);
        if t.permute {
            self.permutation.permute_mut(&mut self.sponge_state);
        }
        self.sponge_state.set(t.slot, value);
        self.phase = t.next;
    }

    /// Observes each element of `values` in order.
    pub fn observe_slice(&mut self, values: &[F])
        requires
            old(self).wf(),
        ensures
            final(self).wf(),
            final(self).rate() == old(self).rate(),
            final(self).perm() == old(self).perm(),
            final(self).state().len() == old(self).state().len(),
            (final(self).state(), final(self).phase()) == after_observe_all(
                old(self).perm(),
                old(self).state(),
                old(self).phase(),
                old(self).rate(),
                values@,
            ),
    {
        let mut i: usize = 0;
        while i < values.len()
            invariant
                i <= values@.len(),
                self.wf(),
                self.rate() == old(self).rate(),
                self.perm() == old(self).perm(),
                self.state().len() == old(self).state().len(),
                (self.state(), self.phase()) == after_observe_all(
                    old(self).perm(),
                    old(self).state(),
                    old(self).phase(),
                    old(self).rate(),
                    values@.take(i as int),
                ),
            decreases values@.len() - i,
        {
            self.observe(values[i]);
            assert(values@.take(i as int + 1).drop_last() == values@.take(i as int));
            i = i + 1;
        }
        assert(values@.take(values@.len() as int) == values@);
    }

    /// Reads the next rate slot, permuting first when input is pending or the
    /// output is used up.
    pub fn sample(&mut self) -> (r: F)
        requires
            old(self).wf(),
        ensures
            final(self).wf(),
            final(self).state() == state_before_sample(
                old(self).perm(),
                old(self).state(),
                old(self).phase(),
                old(self).rate(),
            ),
            r == final(self).state()[sample_slot(old(self).phase(), old(self).rate()) as int],
            final(self).phase() == phase_after_sample(old(self).phase(), old(self).rate()),
            final(self).state().len() == old(self).state().len(),
            final(self).rate() == old(self).rate(),
            final(self).perm() == old(self).perm(),
    {
        let t = self.phase.on_sample(self.rate);
        if t.permute {
            self.permutation.permute_mut(&mut self.sponge_state);
        }
        self.phase = t.next;
        self.sponge_state[t.slot]
    }

    /// Takes a sample and returns the low `bits` bits of its canonical value.
    pub fn sample_bits(&mut self, bits: usize) -> (r: usize)
        requires
            old(self).wf(),
            bits < usize::BITS,
            pow2(bits as nat) < F::order(),
        ensures
            final(self).wf(),
            final(self).state() == state_before_sample(
                old(self).perm(),
                old(self).state(),
                old(self).phase(),
                old(self).rate(),
            ),
            r as nat == final(self).state()[sample_slot(
                old(self).phase(),
                old(self).rate(),
            ) as int].as_nat() % pow2(bits as nat),
            (r as nat) < pow2(bits as nat),
            final(self).phase() == phase_after_sample(old(self).phase(), old(self).rate()),
            final(self).state().len() == old(self).state().len(),
            final(self).rate() == old(self).rate(),
            final(self).perm() == old(self).perm(),
    {
        let s = self.sample();
        let c = s.as_canonical_u64();
        proof {
            F::lemma_order_bounds();
        }
        low_bits(c, bits)
    }
}

} // verus!
