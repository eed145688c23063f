//! The commitment digest: a prefix of the final state in fixed-width
//! lowercase hexadecimal.
use vstd::prelude::*;

use crate::permutation::WIDTH;

verus! {

/// Number of state elements taken into the digest: half the width.
pub const RATE: usize = 8;

/// Hexadecimal characters written per element.
pub const HEX_PER_ELEMENT: usize = 16;

/// The lowercase hexadecimal digits, by value.
pub const HEX_DIGITS: [char; 16] = [
    '0', '1', '2', '3', '4', '5', '6', '7', '8', '9', 'a', 'b', 'c', 'd', 'e', 'f',
];

/// The lowest `n` hexadecimal digits of `v`, most significant first,
/// zero-padded.
pub open spec fn hex_digits(v: nat, n: nat) -> Seq<char>
    decreases n,
{
    if n == 0 {
        Seq::empty()
    } else {
        hex_digits(v / 16, (n - 1) as nat).push(HEX_DIGITS@[(v % 16) as int])
    }
}

/// The elements of `s` in order, each as sixteen lowercase hexadecimal digits.
pub open spec fn hex_concat(s: Seq<u32>) -> Seq<char>
    decreases s.len(),
{
    if s.len() == 0 {
        Seq::empty()
    } else {
        hex_concat(s.drop_last()) + hex_digits(s.last() as nat, HEX_PER_ELEMENT as nat)
    }
}

/// The first `rate` elements of `state`.
pub open spec fn prefix(state: Seq<u32>, rate: nat) -> Seq<u32> {
    Seq::new(rate, |i: int| state[i])
}

/// The digest of `state` over its first `rate` elements.
pub open spec fn digest_spec(state: Seq<u32>, rate: nat) -> Seq<char> {
    hex_concat(prefix(state, rate))
}

/// `hex_digits` gives exactly `n` characters.
pub proof fn lemma_hex_digits_len(v: nat, n: nat)
    ensures
        hex_digits(v, n).len() == n,
    decreases n,
{
    if n > 0 {
        lemma_hex_digits_len(v / 16, (n - 1) as nat);
    }
}

/// `hex_concat` gives sixteen characters per element.
pub proof fn lemma_hex_concat_len(s: Seq<u32>)
    ensures
        hex_concat(s).len() == HEX_PER_ELEMENT * s.len(),
    decreases s.len(),
{
    if s.len() > 0 {
        lemma_hex_concat_len(s.drop_last());
        lemma_hex_digits_len(s.last() as nat, HEX_PER_ELEMENT as nat);
    }
}

/// Appends the lowest `n` hexadecimal digits of `v` to `out`.
fn push_hex_digits(out: &mut Vec<char>, v: u64, n: usize)
    ensures
        final(out)@ == old(out)@ + hex_digits(v as nat, n as nat),
    decreases n,
{
    if n > 0 {
        push_hex_digits(out, v / 16, n - 1);
        out.push(HEX_DIGITS[(v % 16) as usize]);
        proof {
            assert(final(out)@ =~= old(out)@ + hex_digits(v as nat, n as nat));
        }
    }
}

/// Relies on `FromIterator<&char>` for `String`: collecting characters gives
/// the string of those characters in order.
#[verifier::external_body]
fn string_from_chars(chars: &Vec<char>) -> (r: String)
    ensures
        r@ == chars@,
{
    chars.iter().collect()
}

/// Writes the first `rate` elements of `state`, in order, as sixteen lowercase
/// zero-padded hexadecimal digits each.
pub fn extract(state: &[u32; WIDTH], rate: usize) -> (r: String)
    requires
        rate <= WIDTH,
    ensures
        r@ == digest_spec(state@, rate as nat),
        r@.len() == HEX_PER_ELEMENT * rate,
{
    let mut out: Vec<char> = Vec::new();
    let mut i: usize = 0;
    while i < rate
        invariant
            rate <= WIDTH,
            i <= rate,
            out@ == hex_concat(prefix(state@, i as nat)),
        decreases rate - i,
    {
        push_hex_digits(&mut out, state[i] as u64, HEX_PER_ELEMENT);
        proof {
            let next = prefix(state@, (i + 1) as nat);
            assert(next.drop_last() =~= prefix(state@, i as nat));
            assert(next.last() == state@[i as int]);
        }
        i = i + 1;
    }
    proof {
        lemma_hex_concat_len(prefix(state@, rate as nat));
    }
    string_from_chars(&out)
}

} // verus!
