//! The delay: a permutation applied to the state a fixed number of times,
//! each application taking the previous one's output.
use vstd::prelude::*;

use crate::field::all_canonical;
use crate::permutation::{Permutation, WIDTH};

verus! {

/// Number of sequential permutations of the reference construction.
pub const ITERATIONS: usize = 10000;

/// `state` after `n` applications of `perm`.
pub open spec fn iterate_spec<P: Permutation>(perm: &P, state: Seq<u32>, n: nat) -> Seq<u32>
    decreases n,
{
    if n == 0 {
        state
    } else {
        perm.apply(iterate_spec(perm, state, (n - 1) as nat))
    }
}

/// Applies `perm` to `state` exactly `iterations` times, in sequence.
pub fn iterate<P: Permutation>(perm: &P, state: &mut [u32; WIDTH], iterations: usize)
    requires
        all_canonical(old(state)@),
    ensures
        final(state)@ == iterate_spec(perm, old(state)@, iterations as nat),
        all_canonical(final(state)@),
{
    let ghost start = state@;
    let mut done: usize = 0;
    while done < iterations
        invariant
            done <= iterations,
            state@ == iterate_spec(perm, start, done as nat),
            all_canonical(state@),
        decreases iterations - done,
    {
        perm.permute_mut(state);
        done = done + 1;
    }
}

} // verus!
