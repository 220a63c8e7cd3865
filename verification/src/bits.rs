//! Bit-level facts about masks and shifts, proved once with the bit-vector
//! solver and used throughout the address decoding.

use vstd::prelude::*;

verus! {

/// Low-bit masks of a `usize` are remainders by powers of two.
pub proof fn lemma_usize_masks(a: usize)
    by (bit_vector)
    ensures
        a & 0x1 == a % 2,
        a & 0x3 == a % 4,
        a & 0x7 == a % 8,
        a & 0x3ff == a % 1024,
        a & 0x7ff == a % 2048,
        a & 0xfff == a % 4096,
        a & 0x1fff == a % 8192,
        a & 0x3fff == a % 16384,
        a & 0x7fff == a % 32768,
{
}

/// Low-bit masks of a `u16` are remainders by powers of two, and right
/// shifts are divisions.
pub proof fn lemma_u16_masks(x: u16)
    by (bit_vector)
    ensures
        x & 0x1 == x % 2,
        x & 0x3 == x % 4,
        x & 0x7 == x % 8,
        x & 0xf == x % 16,
        x & 0x1f == x % 32,
        x & 0x3f == x % 64,
        x & 0xff == x % 256,
        x & 0x3ff == x % 1024,
        x & 0x7ff == x % 2048,
        x & 0xfff == x % 4096,
        x & 0x1fff == x % 8192,
        x & 0x3fff == x % 16384,
        x >> 1u16 == x / 2,
        x >> 2u16 == x / 4,
        x >> 3u16 == x / 8,
        x >> 4u16 == x / 16,
        x >> 5u16 == x / 32,
        x >> 8u16 == x / 256,
        x >> 10u16 == x / 1024,
        x >> 12u16 == x / 4096,
        x >> 13u16 == x / 8192,
{
}

/// Low-bit masks of a `u8` are remainders by powers of two, and right
/// shifts are divisions.
pub proof fn lemma_u8_masks(x: u8)
    by (bit_vector)
    ensures
        x & 0x1 == x % 2,
        x & 0x3 == x % 4,
        x & 0x7 == x % 8,
        x & 0xf == x % 16,
        x & 0x1f == x % 32,
        x & 0x3f == x % 64,
        x & 0x7f == x % 128,
        x >> 1u8 == x / 2,
        x >> 2u8 == x / 4,
        x >> 3u8 == x / 8,
        x >> 4u8 == x / 16,
        x >> 5u8 == x / 32,
        x >> 6u8 == x / 64,
        x >> 7u8 == x / 128,
{
}

} // verus!

verus! {

/// Bit 13 (the nametable region of the PPU address space): setting it
/// keeps it set, and an address with it set masks into `$2000-$2FFF`.
pub proof fn lemma_u16_bit13(x: u16)
    by (bit_vector)
    ensures
        (0x2000u16 | x) & 0x2000 == 0x2000,
        x & 0x2000 == 0x2000 ==> 0x2000 <= x & 0x2FFF <= 0x2FFF,
{
}

} // verus!

verus! {

/// Low-bit masks of a `u32` are remainders by powers of two, and right
/// shifts are divisions.
pub proof fn lemma_u32_masks(x: u32)
    by (bit_vector)
    ensures
        x & 0x3f == x % 64,
        x & 0xff == x % 256,
        x >> 2u32 == x / 4,
        x >> 8u32 == x / 256,
        x >> 12u32 == x / 4096,
        x >> 16u32 == x / 65536,
{
}

/// A 9-bit F-Number keeps its range when either of its parts is replaced.
pub proof fn lemma_fnum_bits(f: u16, v: u8)
    by (bit_vector)
    ensures
        (f & 0x0100) | (v as u16) <= 0x1FF,
        (f & 0x00FF) | (((v as u16) & 0x01) << 8u16) <= 0x1FF,
{
}

} // verus!

verus! {

/// Shifting a 16-bit value left by 8 within 32 bits multiplies it by 256.
pub proof fn lemma_u16_shl8_u32(x: u16)
    by (bit_vector)
    ensures
        (x as u32) << 8u32 == (x as u32) * 256,
{
}

} // verus!
