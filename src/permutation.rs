//! The mixing permutation over a state of `WIDTH` field elements.
use vstd::prelude::*;

use p3_baby_bear::{BabyBear, Poseidon2BabyBear};
use p3_field::integers::QuotientMap;
use p3_field::PrimeField32;
use p3_poseidon2::ExternalLayerConstants;
use p3_symmetric::Permutation as _;

use crate::field::all_canonical;

verus! {

/// Number of field elements in the sponge and iteration state.
pub const WIDTH: usize = 16;

/// A fixed transform of a `WIDTH`-element state, applied in place.
pub trait Permutation {
    /// What one application does to a state.
    spec fn apply(&self, state: Seq<u32>) -> Seq<u32>;

    /// Applies the transform once to `state`.
    fn permute_mut(&self, state: &mut [u32; WIDTH])
        requires
            all_canonical(old(state)@),
        ensures
            final(state)@ == self.apply(old(state)@),
            all_canonical(final(state)@),
    ;
}

/// The result of the BabyBear Poseidon2 permutation of width 16, configured
/// with empty external and internal round-constant lists, on a canonical state.
pub uninterp spec fn poseidon2_of(state: Seq<u32>) -> Seq<u32>;

/// Relies on `Poseidon2BabyBear::<16>::new` with empty round-constant lists and
/// its `Permutation::permute_mut`: the new state depends on the old one alone,
/// and `as_canonical_u32` reads each element back below the prime.
#[verifier::external_body]
fn poseidon2_permute(state: &mut [u32; WIDTH])
    requires
        all_canonical(old(state)@),
    ensures
        final(state)@ == poseidon2_of(old(state)@),
        all_canonical(final(state)@),
{
    let perm = Poseidon2BabyBear::<WIDTH>::new(ExternalLayerConstants::new(Vec::new(), Vec::new()), Vec::new());
    let mut s: [BabyBear; WIDTH] = state.map(|x| <BabyBear as QuotientMap<u32>>::from_int(x));
    perm.permute_mut(&mut s);
    *state = s.map(|x| x.as_canonical_u32());
}

/// The BabyBear Poseidon2 permutation with the project's fixed parameters:
/// width 16 and empty round-constant lists.
pub struct Poseidon2Permutation;

impl Permutation for Poseidon2Permutation {
    open spec fn apply(&self, state: Seq<u32>) -> Seq<u32> {
        poseidon2_of(state)
    }

    fn permute_mut(&self, state: &mut [u32; WIDTH]) {
        poseidon2_permute(state);
    }
}

} // verus!
