//! The public output record `(string commit_hash)`, in Solidity ABI encoding.
use vstd::prelude::*;

use alloy_sol_types::SolType;

verus! {

/// Declares alloy's ABI error so that decoding can hand it back.
#[verifier::external_type_specification]
#[verifier::external_body]
pub struct ExAbiError(alloy_sol_types::Error);

/// Why a byte string is not a public output record.
#[derive(Debug, Clone, Copy, PartialEq, Eq, Structural)]
pub enum PublicOutputError {
    /// The bytes are not the ABI encoding of a record with one string field.
    Malformed,
}

/// Longest string whose record decoding is promised: at most four UTF-8 bytes
/// a character keeps it within the decoder's default memory limit of 1 GiB.
pub const MAX_DECODED_CHARS: usize = 0x1000_0000;

/// The Solidity ABI encoding of a record whose one field is the string `s`.
pub uninterp spec fn abi_record_of(s: Seq<char>) -> Seq<u8>;

/// Relies on alloy-sol-types' `SolType::abi_encode` for the one-field tuple
/// `(string,)`, whose token and encoding are those of a struct with one string
/// field.
#[verifier::external_body]
fn abi_encode_record(s: &String) -> (r: Vec<u8>)
    ensures
        r@ == abi_record_of(s@),
{
    <(alloy_sol_types::sol_data::String,) as SolType>::abi_encode(&(s.as_str(),))
}

/// Relies on alloy-sol-types' `SolType::abi_decode` for `(string,)`: bytes
/// that `abi_encode` wrote for a string decode back to that string, as long as
/// the string's bytes fit the default decoder's 1 GiB memory limit.
#[verifier::external_body]
fn abi_decode_record(bytes: &[u8]) -> (r: Result<String, alloy_sol_types::Error>)
    ensures
        forall|s: Seq<char>|
            s.len() <= MAX_DECODED_CHARS && #[trigger] abi_record_of(s) == bytes@ ==> (r is Ok && r->Ok_0@ == s),
{
    <(alloy_sol_types::sol_data::String,) as SolType>::abi_decode(bytes).map(|(s,)| s)
}

/// Encodes the commitment digest as the public output record.
pub fn encode_public_output(commit_hash: &String) -> (r: Vec<u8>)
    ensures
        r@ == abi_record_of(commit_hash@),
{
    abi_encode_record(commit_hash)
}

/// Decodes a public output record back to its commitment digest. The encoding
/// of any string of at most `MAX_DECODED_CHARS` characters decodes to that
/// string.
pub fn decode_public_output(bytes: &[u8]) -> (r: Result<String, PublicOutputError>)
    ensures
        forall|s: Seq<char>|
            s.len() <= MAX_DECODED_CHARS && #[trigger] abi_record_of(s) == bytes@ ==> (r is Ok && r->Ok_0@ == s),
{
    match abi_decode_record(bytes) {
        Ok(s) => Ok(s),
        Err(_) => Err(PublicOutputError::Malformed),
    }
}

} // verus!
