//! Field elements of BabyBear, held as their canonical `u32` values.
use vstd::prelude::*;

use p3_baby_bear::BabyBear;
use p3_field::integers::QuotientMap;
use p3_field::PrimeField32;

verus! {

/// The BabyBear prime, `2^31 - 2^27 + 1`.
pub const MODULUS: u32 = 2013265921;

/// A `u32` is a field element in canonical form when it is below the prime.
pub open spec fn is_canonical(x: u32) -> bool {
    x < MODULUS
}

/// Every entry of `s` is in canonical form.
pub open spec fn all_canonical(s: Seq<u32>) -> bool {
    forall|i: int| 0 <= i < s.len() ==> is_canonical(#[trigger] s[i])
}

/// Relies on `QuotientMap<u64>::from_int` for BabyBear, which maps any `u64`
/// to its residue modulo the prime, and on `PrimeField32::as_canonical_u32`,
/// which reads that residue back as an integer below the prime.
#[verifier::external_body]
pub(crate) fn reduce_u64(v: u64) -> (r: u32)
    ensures
        r as int == v as int % MODULUS as int,
{
    <BabyBear as QuotientMap<u64>>::from_int(v).as_canonical_u32()
}

/// Reduces a 64-bit integer into the field: the canonical value of `v mod p`.
pub fn field_from_u64(v: u64) -> (r: u32)
    ensures
        r as int == v as int % MODULUS as int,
        is_canonical(r),
{
    reduce_u64(v)
}

} // verus!
