//! Facts about the bit-level operations the emulator uses, proved with the
//! bit-vector solver and stated in the arithmetic terms of the model.

use vstd::prelude::*;

verus! {

/// Reading and shifting single bytes.
pub proof fn lemma_byte_ops(v: u8, w: u8)
    by (bit_vector)
    ensures
        (v & 0x80 > 0) == (v >= 128),
        (v & 0x80 != 0) == (v >= 128),
        (v & 0x40 != 0) == ((v / 64) % 2 == 1),
        (v & 0x01 > 0) == (v % 2 == 1),
        (v << 1u8) == ((2 * v) % 256) as u8,
        (v >> 1u8) == v / 2,
        ((v << 1u8) | 1u8) == ((2 * v + 1) % 256) as u8,
        ((v >> 1u8) | 0x80u8) == v / 2 + 128,
        !v == 255 - v,
        ((v ^ w) & 0x80 == 0) == ((v >= 128) == (w >= 128)),
        ((v ^ w) & 0x80 != 0) == ((v >= 128) != (w >= 128)),
{
}

/// Splitting a word into bytes and joining two bytes into a word.
pub proof fn lemma_word_ops(w: u16, lo: u16, hi: u16, u: u16)
    by (bit_vector)
    requires
        lo < 256,
        hi < 256,
    ensures
        (lo | (hi << 8u16)) == lo + 256 * hi,
        (w & 0xFF) == w % 256,
        (w >> 8u16) == w / 256,
        (0x100u16 | lo) == 0x100 + lo,
        (((w ^ u) >> 8u16) != 0) == (w / 256 != u / 256),
{
}

/// The byte that `PHP` and `BRK` push: the packed flags with bits 4 and 5 set.
pub proof fn lemma_status_with_break_bits(c: u8, z: u8, i: u8, d: u8, b: u8, u: u8, v: u8, n: u8)
    by (bit_vector)
    requires
        c <= 1,
        z <= 1,
        i <= 1,
        d <= 1,
        b <= 1,
        u <= 1,
        v <= 1,
        n <= 1,
    ensures
        ((c + 2 * z + 4 * i + 8 * d + 16 * b + 32 * u + 64 * v + 128 * n) as u8 | 0x10u8 | 0x20u8)
            == (c + 2 * z + 4 * i + 8 * d + 16 + 32 + 64 * v + 128 * n) as u8,
{
}

/// Reading a byte as a two's complement number.
pub proof fn lemma_signed_byte(v: u8)
    by (bit_vector)
    ensures
        v < 128 ==> (v as i8) as i16 == v as i16,
        v >= 128 ==> (v as i8) as i16 == (v as i16) - 256,
{
}

} // verus!
