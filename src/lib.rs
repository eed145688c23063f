//! A verifiable delay function over the BabyBear field.
//!
//! An input byte string is packed into field elements, absorbed by a duplex
//! sponge built on Poseidon2, the squeezed state is permuted a fixed number of
//! times in sequence, and a prefix of the final state is written out as a
//! fixed-width lowercase hexadecimal commitment.
pub mod field;
pub mod encoder;
pub mod permutation;
pub mod sponge;
pub mod iterator;
pub mod digest;
pub mod public_output;
pub mod commitment;
pub mod harness;
