use std::cell::Cell;

use vdf::commitment::{commit_hash, compute_commitment, program_output};
use vdf::digest::{extract, HEX_PER_ELEMENT, RATE};
use vdf::encoder::bytes_to_field_elements;
use vdf::field::{field_from_u64, MODULUS};
use vdf::iterator::{iterate, ITERATIONS};
use vdf::permutation::{Permutation, Poseidon2Permutation, WIDTH};
use vdf::public_output::{decode_public_output, encode_public_output, PublicOutputError};
use vdf::sponge::{absorb_and_squeeze, initial_state};

/// The identity permutation, counting its applications.
struct CountingPermutation {
    calls: Cell<usize>,
}

impl Permutation for CountingPermutation {
    // Only the verifier reads this view; nothing here runs it.
    fn apply(&self, state: vstd::seq::Seq<u32>) -> vstd::seq::Seq<u32> {
        state
    }

    fn permute_mut(&self, _state: &mut [u32; WIDTH]) {
        self.calls.set(self.calls.get() + 1);
    }
}

fn is_lower_hex(s: &str) -> bool {
    s.chars().all(|c| c.is_ascii_digit() || ('a'..='f').contains(&c))
}

#[test]
fn field_reduction_values() {
    assert_eq!(field_from_u64(0), 0);
    assert_eq!(field_from_u64(MODULUS as u64 - 1), MODULUS - 1);
    assert_eq!(field_from_u64(MODULUS as u64), 0);
    assert_eq!(field_from_u64(MODULUS as u64 + 5), 5);
    assert_eq!(field_from_u64(u64::MAX), 1172168162);
}

#[test]
fn encode_empty_input() {
    assert!(bytes_to_field_elements(&[]).is_empty());
}

#[test]
fn encode_short_group() {
    assert_eq!(bytes_to_field_elements(b"20"), vec![12338]);
}

#[test]
fn encode_full_and_partial_groups() {
    assert_eq!(bytes_to_field_elements(b"abcdefgh"), vec![1302916696]);
    assert_eq!(bytes_to_field_elements(b"abcdefghi"), vec![1302916696, 105]);
    assert_eq!(bytes_to_field_elements(&[0xff; 8]), vec![1172168162]);
}

#[test]
fn encode_lengths() {
    for (n, groups) in [(1usize, 1usize), (7, 1), (8, 1), (9, 2), (16, 2), (17, 3), (1000, 125)] {
        let bytes = vec![0x41u8; n];
        let elements = bytes_to_field_elements(&bytes);
        assert_eq!(elements.len(), groups);
        assert!(elements.iter().all(|&e| e < MODULUS));
    }
}

#[test]
fn extract_writes_fixed_width_hex() {
    let mut state = [0u32; WIDTH];
    state[0] = 1;
    state[1] = 0x78000000;
    state[2] = 0xabcdef;
    let digest = extract(&state, 3);
    assert_eq!(digest, "000000000000000100000000780000000000000000abcdef");
    assert_eq!(extract(&state, 0), "");
    assert_eq!(extract(&state, RATE).len(), RATE * HEX_PER_ELEMENT);
}

#[test]
fn sponge_squeezes_requested_count() {
    let input = bytes_to_field_elements(b"20");
    assert!(absorb_and_squeeze(&input, 0).is_empty());
    for count in [1usize, 8, 9, 16, 40] {
        let out = absorb_and_squeeze(&input, count);
        assert_eq!(out.len(), count);
        assert!(out.iter().all(|&e| e < MODULUS));
    }
    assert_eq!(absorb_and_squeeze(&input, 16), absorb_and_squeeze(&input, 16));
}

#[test]
fn sponge_depends_on_input() {
    let a = initial_state(&bytes_to_field_elements(b"20"));
    let b = initial_state(&bytes_to_field_elements(b"21"));
    assert_ne!(a, b);
}

#[test]
fn sponge_absorbs_nothing_for_empty_input() {
    let state = initial_state(&Vec::new());
    assert!(state.iter().all(|&e| e < MODULUS));
}

#[test]
fn poseidon2_changes_state() {
    let mut state = [0u32; WIDTH];
    state[0] = 1;
    let before = state;
    Poseidon2Permutation.permute_mut(&mut state);
    assert_ne!(state, before);
    assert!(state.iter().all(|&e| e < MODULUS));
}

#[test]
fn iterator_calls_permutation_exactly_iterations_times() {
    let perm = CountingPermutation { calls: Cell::new(0) };
    let mut state = [5u32; WIDTH];
    iterate(&perm, &mut state, ITERATIONS);
    assert_eq!(perm.calls.get(), ITERATIONS);
    assert_eq!(ITERATIONS, 10000);
    assert_eq!(state, [5u32; WIDTH]);
}

#[test]
fn iterator_zero_iterations_keeps_state() {
    let perm = CountingPermutation { calls: Cell::new(0) };
    let mut state = [7u32; WIDTH];
    iterate(&perm, &mut state, 0);
    assert_eq!(perm.calls.get(), 0);
    assert_eq!(state, [7u32; WIDTH]);
}

#[test]
fn iterator_is_sequential_composition() {
    let mut once = [3u32; WIDTH];
    iterate(&Poseidon2Permutation, &mut once, 5);
    let mut twice = [3u32; WIDTH];
    iterate(&Poseidon2Permutation, &mut twice, 2);
    iterate(&Poseidon2Permutation, &mut twice, 3);
    assert_eq!(once, twice);
}

#[test]
fn commitment_is_deterministic() {
    let a = commit_hash("20");
    let b = commit_hash("20");
    assert_eq!(a, b);
    assert_eq!(compute_commitment(b"20"), a);
}

#[test]
fn commitment_differs_on_one_byte() {
    assert_ne!(commit_hash("20"), commit_hash("21"));
    assert_ne!(compute_commitment(b"abcdefgh"), compute_commitment(b"abcdefgi"));
}

#[test]
fn commitment_has_fixed_width() {
    for n in [0usize, 1, 7, 8, 9, 1000] {
        let input = vec![b'7'; n];
        let digest = compute_commitment(&input);
        assert_eq!(digest.len(), 128);
        assert!(is_lower_hex(&digest));
    }
}

#[test]
fn commitment_of_empty_input() {
    let digest = commit_hash("");
    assert_eq!(digest.len(), RATE * HEX_PER_ELEMENT);
    assert!(is_lower_hex(&digest));
}

#[test]
fn default_input_golden_digest() {
    let expected = "000000006358d266000000003796a07a0000000071fae31e00000000408523c4\
                    00000000336eac3c00000000403007de0000000061411f1a000000006f47a201";
    assert_eq!(commit_hash("20"), expected);
    assert_eq!(commit_hash("20"), expected);
}

#[test]
fn default_input_commitment_is_well_formed() {
    let digest = commit_hash("20");
    assert_eq!(digest.len(), 128);
    assert!(is_lower_hex(&digest));
}

#[test]
fn public_output_round_trip() {
    for s in ["", "20", "abc", "0123456789abcdef0123456789abcdef0123456789abcdef"] {
        let s = s.to_string();
        let bytes = encode_public_output(&s);
        assert_eq!(decode_public_output(&bytes), Ok(s));
    }
    let digest = commit_hash("20");
    assert_eq!(decode_public_output(&program_output("20")), Ok(digest));
}

#[test]
fn public_output_layout() {
    let bytes = encode_public_output(&"abc".to_string());
    let mut expected = vec![0u8; 128];
    expected[31] = 0x20;
    expected[63] = 0x20;
    expected[95] = 3;
    expected[96] = b'a';
    expected[97] = b'b';
    expected[98] = b'c';
    assert_eq!(bytes, expected);
}

#[test]
fn public_output_rejects_malformed_bytes() {
    assert_eq!(decode_public_output(&[]), Err(PublicOutputError::Malformed));
    assert_eq!(decode_public_output(&[1, 2, 3]), Err(PublicOutputError::Malformed));
}
