//! Whole transcripts: what a challenger returns over a sequence of calls.

use crate::duplex::{
    after_observe, phase_after_sample, sample_slot, state_before_sample, DuplexChallenger, Permutation,
    Phase,
};
use crate::field::Field64;
use crate::linear::{can_sample, observe_step, sample_step, LinearChallenger};
use vstd::prelude::*;

verus! {

/// One call on a challenger.
pub enum Event<F> {
    Observe(F),
    Sample,
}

/// The accumulator of a linear challenger after `events`, and the canonical
/// values of its samples; `None` once a sample fails.
pub open spec fn linear_replay<F: Field64>(acc: nat, events: Seq<Event<F>>) -> Option<
    (nat, Seq<nat>),
>
    decreases events.len(),
{
    if events.len() == 0 {
        Some((acc, Seq::empty()))
    } else {
        match linear_replay(acc, events.drop_last()) {
            None => None,
            Some((a, out)) => match events.last() {
                Event::Observe(v) => Some((observe_step(a, v), out)),
                Event::Sample => if can_sample::<F>(a) {
                    Some((sample_step::<F>(a), out.push(a)))
                } else {
                    None
                },
            },
        }
    }
}

/// The state and phase of a sponge after `events`, and its samples.
pub open spec fn duplex_replay<F, P: Permutation<F>>(
    perm: P,
    state: Seq<F>,
    phase: Phase,
    rate: nat,
    events: Seq<Event<F>>,
) -> (Seq<F>, Phase, Seq<F>)
    decreases events.len(),
{
    if events.len() == 0 {
        (state, phase, Seq::empty())
    } else {
        let (s, ph, out) = duplex_replay(perm, state, phase, rate, events.drop_last());
        match events.last() {
            Event::Observe(v) => {
                let (s2, ph2) = after_observe(perm, s, ph, rate, v);
                (s2, ph2, out)
            },
            Event::Sample => {
                let s2 = state_before_sample(perm, s, ph, rate);
                (s2, phase_after_sample(ph, rate), out.push(s2[sample_slot(ph, rate) as int]))
            },
        }
    }
}

/// Linear challengers whose accumulators hold the same element go through the
/// same states and give the same samples on the same calls.
pub proof fn lemma_linear_deterministic<F: Field64>(
    c1: LinearChallenger<F>,
    c2: LinearChallenger<F>,
    events: Seq<Event<F>>,
)
    requires
        c1.state().as_nat() == c2.state().as_nat(),
    ensures
        c1.state() == c2.state(),
        linear_replay(c1.state().as_nat(), events) == linear_replay(c2.state().as_nat(), events),
{
    F::lemma_as_nat_injective(c1.state(), c2.state());
}

/// Sponges built alike, whose slots hold the same elements, go through the same
/// states and give the same samples on the same calls.
pub proof fn lemma_duplex_deterministic<F: Field64, P: Permutation<F>>(
    c1: DuplexChallenger<F, P>,
    c2: DuplexChallenger<F, P>,
    events: Seq<Event<F>>,
)
    requires
        c1.state().len() == c2.state().len(),
        forall|i: int|
            0 <= i < c1.state().len() ==> (#[trigger] c1.state()[i]).as_nat() == c2.state()[i].as_nat(),
        c1.phase() == c2.phase(),
        c1.rate() == c2.rate(),
        c1.perm() == c2.perm(),
    ensures
        duplex_replay(c1.perm(), c1.state(), c1.phase(), c1.rate(), events)
            == duplex_replay(c2.perm(), c2.state(), c2.phase(), c2.rate(), events),
{
    assert forall|i: int| 0 <= i < c1.state().len() implies c1.state()[i] == c2.state()[i] by {
        F::lemma_as_nat_injective(c1.state()[i], c2.state()[i]);
    }
    assert(c1.state() =~= c2.state());
}

} // verus!
