//! The duplex sponge that turns a variable-length element sequence into a
//! fixed-width state.
use vstd::prelude::*;

use p3_baby_bear::{BabyBear, Poseidon2BabyBear};
use p3_challenger::{CanObserve, CanSample, DuplexChallenger};
use p3_field::integers::QuotientMap;
use p3_field::PrimeField32;
use p3_poseidon2::ExternalLayerConstants;

use crate::field::all_canonical;
use crate::permutation::WIDTH;

verus! {

/// Number of state elements that take input and give output per duplexing.
pub const SPONGE_RATE: usize = 8;

/// The `count` elements squeezed out of a fresh BabyBear duplex sponge of width
/// 16 and rate 8, over the Poseidon2 permutation with empty round-constant
/// lists, after it has absorbed `input` in order.
pub uninterp spec fn squeeze_of(input: Seq<u32>, count: nat) -> Seq<u32>;

/// Relies on `DuplexChallenger::new`, `CanObserve::observe` and
/// `CanSample::sample_vec` of p3-challenger: a fresh sponge absorbs every
/// element, then `sample_vec` draws exactly `count` elements, duplexing as
/// often as needed; the result depends on the input and the count alone.
#[verifier::external_body]
fn duplex_squeeze(input: &Vec<u32>, count: usize) -> (r: Vec<u32>)
    requires
        all_canonical(input@),
    ensures
        r@ == squeeze_of(input@, count as nat),
        r@.len() == count,
        all_canonical(r@),
{
    let perm = Poseidon2BabyBear::<WIDTH>::new(ExternalLayerConstants::new(Vec::new(), Vec::new()), Vec::new());
    let mut sponge = DuplexChallenger::<BabyBear, Poseidon2BabyBear<WIDTH>, WIDTH, SPONGE_RATE>::new(perm);
    let elements: Vec<BabyBear> = input.iter().map(|&x| <BabyBear as QuotientMap<u32>>::from_int(x)).collect();
    sponge.observe(vec![elements]);
    let out: Vec<BabyBear> = sponge.sample_vec(count);
    out.iter().map(|x| x.as_canonical_u32()).collect()
}

/// Absorbs `elements` into a fresh sponge and squeezes `count` elements out.
/// Any count can be drawn: the sponge duplexes again whenever it runs out.
pub fn absorb_and_squeeze(elements: &Vec<u32>, count: usize) -> (r: Vec<u32>)
    requires
        all_canonical(elements@),
    ensures
        r@ == squeeze_of(elements@, count as nat),
        r@.len() == count,
        all_canonical(r@),
{
    duplex_squeeze(elements, count)
}

/// The starting state of the delay iteration: `WIDTH` elements squeezed out of
/// a sponge that absorbed `elements`.
pub fn initial_state(elements: &Vec<u32>) -> (r: [u32; WIDTH])
    requires
        all_canonical(elements@),
    ensures
        r@ == squeeze_of(elements@, WIDTH as nat),
        all_canonical(r@),
{
    let squeezed = absorb_and_squeeze(elements, WIDTH);
    let mut state: [u32; WIDTH] = [0u32; WIDTH];
    let mut i: usize = 0;
    while i < WIDTH
        invariant
            squeezed@.len() == WIDTH,
            i <= WIDTH,
            forall|j: int| 0 <= j < i ==> state@[j] == #[trigger] squeezed@[j],
        decreases WIDTH - i,
    {
        state[i] = squeezed[i];
        i = i + 1;
    }
    proof {
        assert(state@ =~= squeezed@);
    }
    state
}

} // verus!
