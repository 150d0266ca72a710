//! Arithmetic reading of bytes and words, and the lemmas that tie the
//! shift-and-mask code of the emulator to it.

use vstd::prelude::*;

verus! {

/// The 16-bit word whose high byte is `hi` and whose low byte is `lo`.
pub open spec fn word(hi: u8, lo: u8) -> u16 {
    (hi * 256 + lo) as u16
}

/// The high byte of a word.
pub open spec fn high_byte(w: u16) -> u8 {
    (w / 256) as u8
}

/// The low byte of a word.
pub open spec fn low_byte(w: u16) -> u8 {
    (w % 256) as u8
}

/// Whether bit `n` (0 is the least significant) of `v` is set.
pub open spec fn test_bit(v: u8, n: u8) -> bool {
    if n == 0 {
        v % 2 == 1
    } else if n == 1 {
        (v / 2) % 2 == 1
    } else if n == 2 {
        (v / 4) % 2 == 1
    } else if n == 3 {
        (v / 8) % 2 == 1
    } else if n == 4 {
        (v / 16) % 2 == 1
    } else if n == 5 {
        (v / 32) % 2 == 1
    } else if n == 6 {
        (v / 64) % 2 == 1
    } else {
        v >= 128
    }
}

/// The value of bit `n` alone: two to the power `n`, for `n` below 8.
pub open spec fn bit_value(n: u8) -> u8 {
    if n == 0 {
        1
    } else if n == 1 {
        2
    } else if n == 2 {
        4
    } else if n == 3 {
        8
    } else if n == 4 {
        16
    } else if n == 5 {
        32
    } else if n == 6 {
        64
    } else {
        128
    }
}

/// `v` with bit `n` cleared.
pub open spec fn clear_bit(v: u8, n: u8) -> u8 {
    if test_bit(v, n) {
        (v - bit_value(n)) as u8
    } else {
        v
    }
}

/// `v` with bit `n` set.
pub open spec fn set_bit(v: u8, n: u8) -> u8 {
    if test_bit(v, n) {
        v
    } else {
        (v + bit_value(n)) as u8
    }
}

/// The flag byte F for the four flags: Z in bit 7, N in bit 6, H in bit 5,
/// C in bit 4, and a zero low nibble.
pub open spec fn flag_byte(z: bool, n: bool, h: bool, c: bool) -> u8 {
    ((if z { 128int } else { 0 }) + (if n { 64int } else { 0 }) + (if h { 32int } else { 0 }) + (if c {
        16int
    } else {
        0
    })) as u8
}

/// Composing and splitting words with shifts agrees with `word`,
/// `high_byte` and `low_byte`.
pub proof fn lemma_word_bits(hi: u8, lo: u8, w: u16)
    by (bit_vector)
    ensures
        ((hi as u16) << 8) | (lo as u16) == (hi as u16) * 256 + (lo as u16),
        (w >> 8) == w / 256,
        (w >> 8) < 256,
        (w & 0xFF) == w % 256,
        (w & 0xFF) < 256,
{
}

/// Testing a bit with a one-bit mask, or with a shift, agrees with `test_bit`.
pub proof fn lemma_bit_masks(v: u8)
    by (bit_vector)
    ensures
        (v & 0x01 != 0) <==> v % 2 == 1,
        (v & 0x02 != 0) <==> (v / 2) % 2 == 1,
        (v & 0x04 != 0) <==> (v / 4) % 2 == 1,
        (v & 0x08 != 0) <==> (v / 8) % 2 == 1,
        (v & 0x10 != 0) <==> (v / 16) % 2 == 1,
        (v & 0x20 != 0) <==> (v / 32) % 2 == 1,
        (v & 0x40 != 0) <==> (v / 64) % 2 == 1,
        (v & 0x80 != 0) <==> v >= 128,
        ((v >> 0) & 1 == 1) <==> v % 2 == 1,
        ((v >> 1) & 1 == 1) <==> (v / 2) % 2 == 1,
        ((v >> 2) & 1 == 1) <==> (v / 4) % 2 == 1,
        ((v >> 3) & 1 == 1) <==> (v / 8) % 2 == 1,
        ((v >> 4) & 1 == 1) <==> (v / 16) % 2 == 1,
        ((v >> 5) & 1 == 1) <==> (v / 32) % 2 == 1,
        ((v >> 6) & 1 == 1) <==> (v / 64) % 2 == 1,
        ((v >> 7) & 1 == 1) <==> v >= 128,
{
}

/// A shifted-out bit is 0 or 1, and two of them combine into a 2-bit number.
pub proof fn lemma_bit_pair(lo: u8, hi: u8, n: u8)
    by (bit_vector)
    requires
        n < 8,
    ensures
        (lo >> n) & 1 == 0 || (lo >> n) & 1 == 1,
        (((hi >> n) & 1) << 1) | ((lo >> n) & 1) == (if (hi >> n) & 1 == 1 {
            2u8
        } else {
            0u8
        }) + (if (lo >> n) & 1 == 1 {
            1u8
        } else {
            0u8
        }),
{
}

/// Setting and clearing one bit with a shifted mask agrees with `set_bit`
/// and `clear_bit`.
pub proof fn lemma_set_clear_bit(v: u8, n: u8)
    by (bit_vector)
    requires
        n < 8,
    ensures
        v | (1u8 << n) == set_bit(v, n),
        v & !(1u8 << n) == clear_bit(v, n),
        ((v >> n) & 1 == 1) <==> test_bit(v, n),
        (v >> n) & 1 == 0 || (v >> n) & 1 == 1,
{
}

/// The status byte with its low three bits replaced.
pub proof fn lemma_stat_bits(stat: u8, mode: u8)
    by (bit_vector)
    requires
        mode <= 3,
    ensures
        (stat & 0xF8) | (mode & 0x03) == (stat / 8) * 8 + mode,
        ((stat & 0xF8) | (mode & 0x03)) | 0x04 == (stat / 8) * 8 + mode + 4,
{
}

/// The low nibble of a byte, and its complement, read arithmetically.
pub proof fn lemma_nibble_bits(x: u8)
    by (bit_vector)
    ensures
        x & 0x0F == x % 16,
        !x == 255 - x,
{
}

/// The low 12 and the low 4 bits of a word, read arithmetically.
pub proof fn lemma_word_nibble_bits(w: u16)
    by (bit_vector)
    ensures
        w & 0x0FFF == w % 4096,
        w & 0x0F == w % 16,
{
}

/// Rotating and shifting left by one bit, read arithmetically.
pub proof fn lemma_left_shift_bits(x: u8, carry: u8)
    by (bit_vector)
    requires
        carry <= 1,
    ensures
        (x << 1) | (x >> 7) == (x * 2) % 256 + x / 128,
        (x << 1) | carry == (x * 2) % 256 + carry,
        x << 1 == (x * 2) % 256,
{
}

/// Rotating and shifting right by one bit, and exchanging the nibbles, read
/// arithmetically.
pub proof fn lemma_right_shift_bits(x: u8, carry: u8)
    by (bit_vector)
    requires
        carry <= 1,
    ensures
        (x >> 1) | (x << 7) == x / 2 + (x % 2) * 128,
        (x >> 1) | (carry << 7) == x / 2 + carry * 128,
        (x >> 1) | (x & 0x80) == x / 2 + (x / 128) * 128,
        x >> 1 == x / 2,
        (x >> 4) | (x << 4) == (x % 16) * 16 + x / 16,
{
}

/// The four 2-bit fields of a palette byte.
pub proof fn lemma_palette_bits(p: u8)
    by (bit_vector)
    ensures
        p & 3 == p % 4,
        (p >> 2) & 3 == (p / 4) % 4,
        (p >> 4) & 3 == (p / 16) % 4,
        (p >> 6) & 3 == p / 64,
{
}

/// The masks that the flag accessors use, read arithmetically.
pub proof fn lemma_flag_masks(f: u8)
    by (bit_vector)
    ensures
        (f & 0x80 != 0) <==> f >= 128,
        (f & 0x40 != 0) <==> (f / 64) % 2 == 1,
        (f & 0x20 != 0) <==> (f / 32) % 2 == 1,
        (f & 0x10 != 0) <==> (f / 16) % 2 == 1,
        f & 0xF0 == (f / 16) * 16,
        (f | 0x80) & 0xF0 == (if f >= 128 { (f / 16) * 16 } else { (f / 16) * 16 + 128 }),
        (f | 0x40) & 0xF0 == (if (f / 64) % 2 == 1 { (f / 16) * 16 } else { (f / 16) * 16 + 64 }),
        (f | 0x20) & 0xF0 == (if (f / 32) % 2 == 1 { (f / 16) * 16 } else { (f / 16) * 16 + 32 }),
        (f | 0x10) & 0xF0 == (if (f / 16) % 2 == 1 { (f / 16) * 16 } else { (f / 16) * 16 + 16 }),
        f & 0x70 == (if f >= 128 { (f / 16) * 16 - 128 } else { (f / 16) * 16 }),
        f & 0xB0 == (if (f / 64) % 2 == 1 { (f / 16) * 16 - 64 } else { (f / 16) * 16 }),
        f & 0xD0 == (if (f / 32) % 2 == 1 { (f / 16) * 16 - 32 } else { (f / 16) * 16 }),
        f & 0xE0 == (if (f / 16) % 2 == 1 { (f / 16) * 16 - 16 } else { (f / 16) * 16 }),
{
}

} // verus!
