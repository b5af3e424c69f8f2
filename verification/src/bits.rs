//! Bytes and words as numbers: the arithmetic reading of the bit positions,
//! halves and wrap-around that the contracts of the other modules use.

use vstd::prelude::*;

verus! {

/// The value of bit `k` of a byte: 1, 2, 4, ... 128 for `k` from 0 to 7.
pub open spec fn weight(k: int) -> int {
    if k == 0 {
        1
    } else if k == 1 {
        2
    } else if k == 2 {
        4
    } else if k == 3 {
        8
    } else if k == 4 {
        16
    } else if k == 5 {
        32
    } else if k == 6 {
        64
    } else {
        128
    }
}

/// Whether bit `k` of `byte` is set.
pub open spec fn bit_of(byte: u8, k: int) -> bool {
    (byte as int / weight(k)) % 2 == 1
}

/// The 16-bit word with the given halves.
pub open spec fn word(hi: u8, lo: u8) -> u16 {
    (256 * hi + lo) as u16
}

/// The upper half of a word.
pub open spec fn high_byte(w: u16) -> u8 {
    (w / 256) as u8
}

/// The lower half of a word.
pub open spec fn low_byte(w: u16) -> u8 {
    (w % 256) as u8
}

/// `w + d` in the 16-bit address space, which wraps at both ends.
pub open spec fn add16(w: u16, d: int) -> u16 {
    ((w + d) % 0x10000) as u16
}

/// `b + d` in 8 bits, wrapping at both ends.
pub open spec fn add8(b: u8, d: int) -> u8 {
    ((b + d) % 0x100) as u8
}

/// A byte read as a signed displacement: 0..127 as they are, 128..255 as
/// -128..-1.
pub open spec fn displacement(d: u8) -> int {
    if d < 128 {
        d as int
    } else {
        d - 256
    }
}

/// Joins two bytes into a word.
pub fn make_word(hi: u8, lo: u8) -> (w: u16)
    ensures
        w == word(hi, lo),
        high_byte(w) == hi,
        low_byte(w) == lo,
{
    let h: u16 = hi as u16;
    let l: u16 = lo as u16;
    assert((h << 8) | l == 256 * h + l) by (bit_vector)
        requires
            h <= 0xFF,
            l <= 0xFF,
    ;
    (h << 8) | l
}

/// Splits a word into its upper and lower byte.
pub fn split_word(w: u16) -> (r: (u8, u8))
    ensures
        r.0 == high_byte(w),
        r.1 == low_byte(w),
        word(r.0, r.1) == w,
{
    assert((w & 0xFF00) >> 8 == w / 256 && w & 0xFF == w % 256 && w / 256 <= 0xFF) by (bit_vector);
    let hi: u8 = ((w & 0xFF00) >> 8) as u8;
    let lo: u8 = (w & 0xFF) as u8;
    (hi, lo)
}

} // verus!
