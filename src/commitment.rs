//! The whole delay computation, from input bytes to the public output record.
use vstd::prelude::*;
use vstd::string::StringSliceAdditionalSpecFns;

use crate::digest::{digest_spec, prefix, extract, lemma_hex_concat_len, HEX_PER_ELEMENT, RATE};
use crate::encoder::{bytes_to_field_elements, encode_spec};
use crate::iterator::{iterate, iterate_spec, ITERATIONS};
use crate::permutation::{Poseidon2Permutation, WIDTH};
use crate::public_output::{abi_record_of, encode_public_output};
use crate::sponge::{initial_state, squeeze_of};

verus! {

/// The state the delay starts from: `WIDTH` elements squeezed from a sponge
/// that absorbed the encoding of `input`.
pub open spec fn start_state_spec(input: Seq<u8>) -> Seq<u32> {
    squeeze_of(encode_spec(input), WIDTH as nat)
}

/// The state after the delay: the start state permuted `ITERATIONS` times.
pub open spec fn final_state_spec(input: Seq<u8>) -> Seq<u32> {
    iterate_spec(&Poseidon2Permutation, start_state_spec(input), ITERATIONS as nat)
}

/// The commitment digest of `input`: the first `RATE` elements of the final
/// state in hexadecimal.
pub open spec fn commitment_spec(input: Seq<u8>) -> Seq<char> {
    digest_spec(final_state_spec(input), RATE as nat)
}

/// Computes the commitment digest of `input`: encode, absorb and squeeze a
/// full state, permute it `ITERATIONS` times in sequence, and write out the
/// first `RATE` elements as hexadecimal.
pub fn compute_commitment(input: &[u8]) -> (r: String)
    ensures
        r@ == commitment_spec(input@),
        r@.len() == HEX_PER_ELEMENT * RATE,
{
    let elements = bytes_to_field_elements(input);
    let mut state = initial_state(&elements);
    iterate(&Poseidon2Permutation, &mut state, ITERATIONS);
    extract(&state, RATE)
}

/// The commitment digest of a string input, taken over its UTF-8 bytes.
pub fn commit_hash(input: &str) -> (r: String)
    ensures
        r@ == commitment_spec(input.spec_bytes()),
        r@.len() == HEX_PER_ELEMENT * RATE,
{
    compute_commitment(input.as_bytes())
}

/// The bytes the program commits to for `input`: the public output record
/// holding its commitment digest.
pub fn program_output(input: &str) -> (r: Vec<u8>)
    ensures
        r@ == abi_record_of(commitment_spec(input.spec_bytes())),
{
    let digest = commit_hash(input);
    encode_public_output(&digest)
}

/// Equal inputs give equal digests: the digest is a function of the input
/// bytes alone.
pub proof fn lemma_commitment_deterministic(a: Seq<u8>, b: Seq<u8>)
    requires
        a == b,
    ensures
        commitment_spec(a) == commitment_spec(b),
{
}

/// Whatever the input, including the empty one, the digest has sixteen
/// hexadecimal characters for each of the `RATE` extracted elements.
pub proof fn lemma_commitment_width(input: Seq<u8>)
    ensures
        commitment_spec(input).len() == HEX_PER_ELEMENT * RATE,
{
    lemma_hex_concat_len(prefix(final_state_spec(input), RATE as nat));
}

} // verus!
