//! Fixed-width wraparound arithmetic and little-endian byte pairing.
//!
//! All address arithmetic in the core wraps modulo 65536, and zero-page /
//! stack-pointer arithmetic wraps modulo 256.  The wrap functions below state
//! one wrap step explicitly, which covers every sum and difference the core
//! forms.

use vstd::prelude::*;

verus! {

/// `v` reduced modulo 65536 into a 16-bit value, for `v` within one wrap step
/// of the 16-bit range.
pub open spec fn wrap16(v: int) -> u16
    recommends
        -0x10000 <= v < 0x20000,
{
    if v < 0 {
        (v + 0x10000) as u16
    } else if v < 0x10000 {
        v as u16
    } else {
        (v - 0x10000) as u16
    }
}

/// `v` reduced modulo 256 into an 8-bit value, for `v` within one wrap step
/// of the 8-bit range.
pub open spec fn wrap8(v: int) -> u8
    recommends
        -0x100 <= v < 0x200,
{
    if v < 0 {
        (v + 0x100) as u8
    } else if v < 0x100 {
        v as u8
    } else {
        (v - 0x100) as u8
    }
}

/// The low byte of a 16-bit value.
pub open spec fn word_lo(v: u16) -> u8 {
    (v % 0x100) as u8
}

/// The high byte of a 16-bit value.
pub open spec fn word_hi(v: u16) -> u8 {
    (v / 0x100) as u8
}

/// The 16-bit value whose low byte is `lo` and whose high byte is `hi`.
pub open spec fn word_from_bytes(lo: u8, hi: u8) -> u16 {
    (hi * 0x100 + lo) as u16
}

/// The absolute memory address of the stack slot at stack-pointer offset
/// `sp`: the stack lives in the fixed page starting at 0x0100.
pub open spec fn stack_addr(sp: u8) -> int {
    0x0100 + sp
}

/// Splitting a 16-bit value into its two bytes and joining them again gives
/// back exactly that value.
pub proof fn lemma_word_bytes_round_trip(v: u16)
    ensures
        word_from_bytes(word_lo(v), word_hi(v)) == v,
{
    vstd::arithmetic::div_mod::lemma_fundamental_div_mod(v as int, 0x100);
}

} // verus!
