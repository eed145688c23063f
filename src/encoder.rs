//! Packing of a byte string into field elements, eight bytes at a time.
use vstd::prelude::*;

use crate::field::{all_canonical, field_from_u64, MODULUS};

verus! {

/// Number of bytes packed into one field element.
pub const GROUP_BYTES: usize = 8;

/// The little-endian unsigned value of a byte sequence.
pub open spec fn le_value(b: Seq<u8>) -> nat
    decreases b.len(),
{
    if b.len() == 0 {
        0
    } else {
        b[0] as nat + 256 * le_value(b.drop_first())
    }
}

/// `256^n`.
pub open spec fn pow256(n: nat) -> nat
    decreases n,
{
    if n == 0 {
        1
    } else {
        256 * pow256((n - 1) as nat)
    }
}

/// Number of groups a byte string of length `n` splits into.
pub open spec fn group_count(n: nat) -> nat {
    (n + 7) / 8
}

/// The `i`-th group of `b`: eight bytes, or fewer for the last one.
pub open spec fn group(b: Seq<u8>, i: int) -> Seq<u8> {
    b.subrange(8 * i, if 8 * i + 8 <= b.len() { 8 * i + 8 } else { b.len() as int })
}

/// The field elements of `b`: each group read little-endian and reduced
/// modulo the prime.
pub open spec fn encode_spec(b: Seq<u8>) -> Seq<u32> {
    Seq::new(
        group_count(b.len()),
        |i: int| (le_value(group(b, i)) % (MODULUS as nat)) as u32,
    )
}

proof fn lemma_le_value_bound(b: Seq<u8>)
    ensures
        le_value(b) < pow256(b.len()),
    decreases b.len(),
{
    if b.len() > 0 {
        lemma_le_value_bound(b.drop_first());
    }
}

proof fn lemma_pow256_8()
    ensures
        pow256(8) == 0x1_0000_0000_0000_0000,
{
    reveal_with_fuel(pow256, 9);
}

proof fn lemma_pow256_monotonic(a: nat, b: nat)
    requires
        a <= b,
    ensures
        pow256(a) <= pow256(b),
    decreases b,
{
    if a < b {
        lemma_pow256_monotonic(a, (b - 1) as nat);
    }
}

/// The little-endian value of `bytes[start..end]`, at most eight bytes.
fn le_u64(bytes: &[u8], start: usize, end: usize) -> (r: u64)
    requires
        start <= end <= bytes@.len(),
        end - start <= 8,
    ensures
        r as nat == le_value(bytes@.subrange(start as int, end as int)),
{
    let mut v: u64 = 0;
    let mut k: usize = end;
    while k > start
        invariant
            start <= k <= end <= bytes@.len(),
            end - start <= 8,
            v as nat == le_value(bytes@.subrange(k as int, end as int)),
        decreases k - start,
    {
        let ghost tail = bytes@.subrange(k as int, end as int);
        let ghost next = bytes@.subrange(k - 1, end as int);
        proof {
            assert(next.drop_first() =~= tail);
            lemma_le_value_bound(tail);
            lemma_le_value_bound(next);
            lemma_pow256_monotonic(next.len(), 8);
            lemma_pow256_8();
        }
        k = k - 1;
        v = bytes[k] as u64 + 256 * v;
    }
    v
}

/// Splits `bytes` into groups of eight (the last may be shorter), reads each
/// group as a little-endian integer and reduces it into the field. The empty
/// string gives the empty sequence.
pub fn bytes_to_field_elements(bytes: &[u8]) -> (r: Vec<u32>)
    ensures
        r@ == encode_spec(bytes@),
        all_canonical(r@),
{
    let n = bytes.len();
    let mut out: Vec<u32> = Vec::new();
    let mut start: usize = 0;
    while start < n
        invariant
            n == bytes@.len(),
            start <= n,
            start < n ==> start == 8 * out@.len(),
            start == n ==> out@.len() == group_count(n as nat),
            start < n ==> out@.len() < group_count(n as nat),
            forall|j: int| 0 <= j < out@.len() ==> out@[j] == #[trigger] encode_spec(bytes@)[j],
        decreases n - start,
    {
        let end: usize = if n - start > GROUP_BYTES { start + GROUP_BYTES } else { n };
        let v = le_u64(bytes, start, end);
        let e = field_from_u64(v);
        proof {
            assert(group(bytes@, out@.len() as int) == bytes@.subrange(start as int, end as int));
        }
        out.push(e);
        start = end;
    }
    proof {
        assert(out@ =~= encode_spec(bytes@));
    }
    out
}

} // verus!
