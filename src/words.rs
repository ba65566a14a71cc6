//! Multi-byte fields of a payload, which travel least significant byte first.

use byteorder::{ByteOrder, LittleEndian};
use vstd::prelude::*;

verus! {

/// The unsigned 16-bit value of the little-endian byte pair `lo`, `hi`.
pub open spec fn le_word(lo: u8, hi: u8) -> int {
    lo + 256 * hi
}

/// The two's-complement reading of a 16-bit word `w`.
pub open spec fn signed_word(w: int) -> int {
    if w < 0x8000 {
        w
    } else {
        w - 0x10000
    }
}

/// Relies on byteorder's `LittleEndian::read_u16`: `buf[0]` is the low byte
/// and `buf[1]` the high byte; it panics on fewer than two bytes.
#[verifier::external_body]
pub(crate) fn read_u16_le(buf: &[u8]) -> (r: u16)
    requires
        buf@.len() >= 2,
    ensures
        r == le_word(buf@[0], buf@[1]),
{
    LittleEndian::read_u16(buf)
}

/// Relies on byteorder's `LittleEndian::read_i16`, which is `read_u16` read
/// as two's complement; it panics on fewer than two bytes.
#[verifier::external_body]
pub(crate) fn read_i16_le(buf: &[u8]) -> (r: i16)
    requires
        buf@.len() >= 2,
    ensures
        r == signed_word(le_word(buf@[0], buf@[1])),
{
    LittleEndian::read_i16(buf)
}

} // verus!
