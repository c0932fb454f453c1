//! The width-16 Poseidon2 permutation over Mersenne-31, as a sponge permutation.

use crate::duplex::Permutation;
use crate::field::{mersenne31_order, Field64, Mersenne31};
use vstd::prelude::*;

verus! {

/// The width of the permutation.
pub const POSEIDON2_WIDTH: usize = 16;

/// What the default width-16 Poseidon2 permutation over Mersenne-31 makes of
/// the canonical values of a state.
pub uninterp spec fn poseidon2_mersenne31_16(state: Seq<u32>) -> Seq<u32>;

/// Relies on `p3_mersenne_31::default_mersenne31_poseidon2_16` and
/// `p3_symmetric::Permutation::permute_mut`: a fixed map from 16 elements to
/// 16 elements, read back as canonical values.
#[verifier::external_body]
fn poseidon2_permute(input: &Vec<u32>) -> (r: Vec<u32>)
    requires
        input@.len() == 16,
    ensures
        r@ == poseidon2_mersenne31_16(input@),
        r@.len() == 16,
        forall|i: int| 0 <= i < 16 ==> (#[trigger] r@[i] as nat) < mersenne31_order(),
{
    let arr: [u32; 16] = input.as_slice().try_into().unwrap();
    let mut state = p3_mersenne_31::Mersenne31::new_array(arr);
    let perm = p3_mersenne_31::default_mersenne31_poseidon2_16();
    p3_symmetric::Permutation::permute_mut(&perm, &mut state);
    state.iter().map(|x| p3_field::PrimeField32::as_canonical_u32(x)).collect()
}

/// The canonical values of a state.
pub closed spec fn values_of(state: Seq<Mersenne31>) -> Seq<u32> {
    state.map_values(|x: Mersenne31| x.as_nat() as u32)
}

/// The state whose canonical values are `vals`.
pub closed spec fn state_of(vals: Seq<u32>) -> Seq<Mersenne31> {
    vals.map_values(|v: u32| Mersenne31::of_canonical(v))
}

/// The default Poseidon2 permutation of width 16 over Mersenne-31.
#[derive(Clone, Copy, Debug)]
pub struct Poseidon2Mersenne31;

impl Permutation<Mersenne31> for Poseidon2Mersenne31 {
    /// States of another width are left as they are.
    open spec fn permute_spec(&self, state: Seq<Mersenne31>) -> Seq<Mersenne31> {
        if state.len() == POSEIDON2_WIDTH {
            state_of(poseidon2_mersenne31_16(values_of(state)))
        } else {
            state
        }
    }

    fn permute_mut(&self, state: &mut Vec<Mersenne31>) {
        if state.len() == POSEIDON2_WIDTH {
            let mut vals: Vec<u32> = Vec::new();
            let mut i: usize = 0;
            while i < state.len()
                invariant
                    i <= state@.len(),
                    state@ == old(state)@,
                    vals@ == values_of(state@).take(i as int),
                decreases state@.len() - i,
            {
                vals.push(state[i].as_canonical_u64() as u32);
                i = i + 1;
            }
            assert(vals@ == values_of(old(state)@));
            let out = poseidon2_permute(&vals);
            let mut j: usize = 0;
            while j < POSEIDON2_WIDTH
                invariant
                    j <= POSEIDON2_WIDTH,
                    out@.len() == POSEIDON2_WIDTH,
                    state@.len() == POSEIDON2_WIDTH,
                    forall|i: int| 0 <= i < 16 ==> (#[trigger] out@[i] as nat) < mersenne31_order(),
                    forall|k: int| 0 <= k < j ==> #[trigger] state@[k] == Mersenne31::of_canonical(out@[k]),
                decreases POSEIDON2_WIDTH - j,
            {
                state.set(j, Mersenne31::from_canonical_u32(out[j]));
                j = j + 1;
            }
            assert(state@ == state_of(out@));
        }
    }
}

impl Poseidon2Mersenne31 {
    /// The default permutation.
    pub fn new() -> (r: Self) {
        Poseidon2Mersenne31
    }
}

} // verus!
