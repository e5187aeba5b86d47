//! Width-limited arithmetic, stated over the mathematical integers.
//!
//! Every address and byte computation of the processor wraps at its natural
//! width. The functions here say what wrapping means, so that the rest of the
//! crate can speak of sums and differences of unbounded integers.
use vstd::prelude::*;

verus! {

/// The low eight bits of `n`: the byte congruent to `n` modulo 256.
pub open spec fn low_byte(n: int) -> u8 {
    (n % 0x100) as u8
}

/// The low sixteen bits of `n`: the address congruent to `n` modulo 65536.
pub open spec fn low_word(n: int) -> u16 {
    (n % 0x10000) as u16
}

/// The value of `b` read as a two's-complement number, in -128..=127.
pub open spec fn signed(b: u8) -> int {
    if b < 0x80 {
        b as int
    } else {
        b - 0x100
    }
}

/// The little-endian word with low byte `lo` and high byte `hi`.
pub open spec fn make_word(lo: u8, hi: u8) -> u16 {
    (lo + 0x100 * hi) as u16
}

/// Whether `n` cannot be held in a signed byte.
pub open spec fn signed_overflow(n: int) -> bool {
    n < -128 || n > 127
}

/// Adds `delta` to the byte `b`, wrapping modulo 256.
pub fn byte_add(b: u8, delta: u8) -> (r: u8)
    ensures
        r == low_byte(b + delta),
{
    b.wrapping_add(delta)
}

/// Subtracts `delta` from the byte `b`, wrapping modulo 256.
pub fn byte_sub(b: u8, delta: u8) -> (r: u8)
    ensures
        r == low_byte(b - delta),
{
    b.wrapping_sub(delta)
}

/// Adds `delta` to the address `w`, wrapping modulo 65536.
pub fn word_add(w: u16, delta: u16) -> (r: u16)
    ensures
        r == low_word(w + delta),
{
    w.wrapping_add(delta)
}

/// Adds the byte `d`, read as a signed displacement, to the address `w`,
/// wrapping modulo 65536.
pub fn word_add_signed(w: u16, d: u8) -> (r: u16)
    ensures
        r == low_word(w + signed(d)),
{
    if d < 0x80 {
        w.wrapping_add(d as u16)
    } else {
        w.wrapping_sub(0x100 - d as u16)
    }
}

/// Shifts `b` left by one place and brings `carry` in as bit 0.
pub fn shift_left(b: u8, carry: bool) -> (r: u8)
    ensures
        r == low_byte(2 * b + (if carry {
            1int
        } else {
            0int
        })),
{
    let low: u16 = if carry {
        1
    } else {
        0
    };
    ((2 * (b as u16) + low) % 0x100) as u8
}

/// Shifts `b` right by one place and brings `carry` in as bit 7.
pub fn shift_right(b: u8, carry: bool) -> (r: u8)
    ensures
        r == b / 2 + (if carry {
            0x80int
        } else {
            0int
        }),
{
    if carry {
        b / 2 + 0x80
    } else {
        b / 2
    }
}

/// Joins two bytes into a little-endian word.
pub fn join_word(lo: u8, hi: u8) -> (w: u16)
    ensures
        w == make_word(lo, hi),
{
    lo as u16 + 0x100 * (hi as u16)
}

/// The high byte of `w`.
pub fn high_byte(w: u16) -> (b: u8)
    ensures
        b == w / 0x100,
{
    (w / 0x100) as u8
}

/// The low byte of `w`.
pub fn low_byte_of(w: u16) -> (b: u8)
    ensures
        b == w % 0x100,
{
    (w % 0x100) as u8
}

} // verus!
