//! Bridges between the bitwise operators used by the executable code and the
//! integer arithmetic in which the models are written.
use vstd::prelude::*;

verus! {

/// `x` with bit 7 cleared.
pub open spec fn low_seven(x: u8) -> u8 {
    x % 128
}

/// `x` with bit 7 set.
pub open spec fn raise_bit_seven(x: u8) -> u8 {
    if x < 128 {
        (x + 128) as u8
    } else {
        x
    }
}

/// Masking with `0x7f` clears bit 7.
pub proof fn lemma_low_seven(x: u8)
    by (bit_vector)
    ensures
        x & 0x7f == x % 128,
{
}

/// Or-ing with `0x80` sets bit 7 and keeps the rest.
pub proof fn lemma_raise_bit_seven(x: u8)
    by (bit_vector)
    ensures
        x | 0x80 == (if x < 128 { (x + 128) as u8 } else { x }),
{
}

/// Bit 7 is set exactly in the bytes from 128 up.
pub proof fn lemma_bit_seven(x: u8)
    by (bit_vector)
    ensures
        (x & 0x80 == 0x80) == (x >= 128),
        (x & 0x80 == 0) == (x < 128),
{
}

/// Narrowing a 16-bit word to a byte keeps the remainder modulo 256.
pub proof fn lemma_low_byte(w: u16)
    by (bit_vector)
    ensures
        w as u8 == w % 256,
{
}

/// A word has a bit set in its high byte exactly when it exceeds 255.
pub proof fn lemma_high_byte(w: u16)
    by (bit_vector)
    ensures
        (w & 0xff00 > 0) == (w > 255),
{
}

/// The sign bit of `x ^ y` tells whether `x` and `y` differ in sign.
pub proof fn lemma_sign_of_xor(x: u8, y: u8)
    by (bit_vector)
    ensures
        ((x ^ y) & 0x80 == 0) == ((x >= 128) == (y >= 128)),
        ((x ^ y) & 0x80 == 0x80) == ((x >= 128) != (y >= 128)),
{
}

/// Shifting a byte right by one halves it; bit 0 is its parity.
pub proof fn lemma_shift_right(x: u8)
    by (bit_vector)
    ensures
        x >> 1 == x / 2,
        (x & 0x01 == 0x01) == (x % 2 == 1),
{
}

/// Shifting a widened byte left by one doubles it.
pub proof fn lemma_shift_left(x: u8)
    by (bit_vector)
    ensures
        (x as u16) << 1 == 2 * x,
{
}

/// Or-ing a carry of 0 or 1 into the bit that a shift left vacated adds it.
pub proof fn lemma_rotate_left(x: u8, carry: u16)
    by (bit_vector)
    requires
        carry <= 1,
    ensures
        ((x as u16) << 1) | carry == 2 * x + carry,
{
}

/// Or-ing a carry into bit 7 of a halved byte adds it.
pub proof fn lemma_carry_into_bit_seven(x: u8, carry: u8)
    by (bit_vector)
    requires
        carry == 0 || carry == 0x80,
    ensures
        carry | (x >> 1) == carry + x / 2,
{
}

/// Or-ing together flags that occupy different bits adds them.
pub proof fn lemma_pack(n: u8, v: u8, b: u8, d: u8, i: u8, z: u8, c: u8)
    by (bit_vector)
    requires
        n == 0 || n == 0x80,
        v == 0 || v == 0x40,
        b == 0 || b == 0x10,
        d == 0 || d == 0x08,
        i == 0 || i == 0x04,
        z == 0 || z == 0x02,
        c == 0 || c == 0x01,
    ensures
        n | v | 0x20 | b | d | i | z | c == n + v + 0x20 + b + d + i + z + c,
{
}

/// Testing a single bit with a mask agrees with dividing down to that bit.
pub proof fn lemma_unpack(p: u8)
    by (bit_vector)
    ensures
        (p & 0x80 == 0x80) == ((p / 128) % 2 == 1),
        (p & 0x40 == 0x40) == ((p / 64) % 2 == 1),
        (p & 0x10 == 0x10) == ((p / 16) % 2 == 1),
        (p & 0x08 == 0x08) == ((p / 8) % 2 == 1),
        (p & 0x04 == 0x04) == ((p / 4) % 2 == 1),
        (p & 0x02 == 0x02) == ((p / 2) % 2 == 1),
        (p & 0x01 == 0x01) == (p % 2 == 1),
{
}

/// Joining two bytes with a shift and an or gives the word they spell.
pub proof fn lemma_join(low: u8, high: u8)
    by (bit_vector)
    ensures
        (low as u16) | ((high as u16) << 8) == low + 256 * high,
{
}

/// Shifting a word right by eight leaves its high byte.
pub proof fn lemma_split(w: u16)
    by (bit_vector)
    ensures
        w >> 8 == w / 256,
        (w >> 8) as u8 == w / 256,
{
}

/// In a difference of two bytes, bit 7 and the low byte can be read off
/// without looking at the sign.
pub proof fn lemma_difference(d: i32)
    by (bit_vector)
    requires
        -255 <= d <= 255,
    ensures
        (d & 0x80 == 0x80) == (if d < 0 { d >= -128 } else { d >= 128 }),
        (d as u8 == 0) == (d == 0),
{
}

/// Bit 6 of a byte.
pub proof fn lemma_bit_six(x: u8)
    by (bit_vector)
    ensures
        (x & 0x40 == 0x40) == ((x / 64) % 2 == 1),
{
}

} // verus!
