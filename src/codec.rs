//! Bit-order codec.
//!
//! The controller bus shifts bytes least significant bit first, the reverse
//! of the usual duplex-bus convention, so every byte is bit-reversed on its
//! way out and on its way back in.

use bit_reverse::ParallelReverse;
use vstd::prelude::*;

verus! {

/// The byte whose bit `i` is bit `7 - i` of `b`.
pub open spec fn reverse_byte(b: u8) -> u8 {
    ((b & 0x01) << 7u8) | ((b & 0x02) << 5u8) | ((b & 0x04) << 3u8) | ((b & 0x08) << 1u8)
        | ((b & 0x10) >> 1u8) | ((b & 0x20) >> 3u8) | ((b & 0x40) >> 5u8) | ((b & 0x80) >> 7u8)
}

/// Every byte of `s` bit-reversed, in place.
pub open spec fn reverse_all(s: Seq<u8>) -> Seq<u8> {
    s.map_values(|b: u8| reverse_byte(b))
}

/// Relies on bit_reverse's `ParallelReverse::swap_bits` for `u8`, which
/// moves bit `i` to bit `7 - i`.
#[verifier::external_body]
fn swap_bits(b: u8) -> (r: u8)
    ensures
        r == reverse_byte(b),
{
    b.swap_bits()
}

/// Reverses the bit order of every byte of `bytes`.
pub fn flip(bytes: &mut [u8])
    ensures
        final(bytes)@ == reverse_all(old(bytes)@),
{
    let n = bytes.len();
    let mut i: usize = 0;
    while i < n
        invariant
            n == old(bytes)@.len(),
            bytes@.len() == n,
            i <= n,
            forall|j: int| 0 <= j < i ==> bytes@[j] == reverse_byte(old(bytes)@[j]),
            forall|j: int| i <= j < n ==> bytes@[j] == old(bytes)@[j],
        decreases n - i,
    {
        let b = swap_bits(bytes[i]);
        bytes[i] = b;
        i = i + 1;
    }
    assert(bytes@ =~= reverse_all(old(bytes)@));
}

/// Reversing the bits of a byte twice gives the byte back.
pub proof fn lemma_reverse_byte_involution(b: u8)
    ensures
        reverse_byte(reverse_byte(b)) == b,
{
    assert(reverse_byte(reverse_byte(b)) == b) by (bit_vector);
}

/// The codec is an involution: applying it twice to any buffer gives the
/// buffer back.
pub proof fn lemma_flip_involution(buf: Seq<u8>)
    ensures
        reverse_all(reverse_all(buf)) == buf,
{
    assert forall|j: int| 0 <= j < buf.len() implies #[trigger] reverse_all(reverse_all(buf))[j]
        == buf[j] by {
        lemma_reverse_byte_involution(buf[j]);
    }
    assert(reverse_all(reverse_all(buf)) =~= buf);
}

} // verus!
