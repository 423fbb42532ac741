use vstd::prelude::*;

verus! {

pub const BIT_0: u8 = 0x01;
pub const BIT_1: u8 = 0x02;
pub const BIT_2: u8 = 0x04;
pub const BIT_3: u8 = 0x08;
pub const BIT_4: u8 = 0x10;
pub const BIT_5: u8 = 0x20;
pub const BIT_6: u8 = 0x40;
pub const BIT_7: u8 = 0x80;

/// True when bit `n` of `value` is set.
pub open spec fn bit_set(value: u8, n: u8) -> bool {
    (value >> n) & 1 == 1
}

/// Shifting right never makes a 16-bit value larger.
pub proof fn lemma_u16_shr_le(f: u16, s: u8)
    by (bit_vector)
    ensures
        f >> s <= f,
{
}

/// Masks of a byte: bounded by the mask and by the byte, and commuting with widening.
proof fn lemma_u8_and_bits(x: u8, m: u8)
    by (bit_vector)
    ensures
        x & m <= m,
        x & m <= x,
        (x as usize) & (m as usize) == (x & m) as usize,
        (x as u16) & (m as u16) == (x & m) as u16,
{
}

/// A masked byte is bounded by the mask and by the byte.
pub proof fn lemma_u8_and_le(x: u8, m: u8)
    ensures
        x & m <= m,
        x & m <= x,
{
    lemma_u8_and_bits(x, m);
}

/// Masking commutes with widening a byte to `usize`.
pub proof fn lemma_u8_and_widen(x: u8, m: u8)
    ensures
        (x as usize) & (m as usize) == (x & m) as usize,
        (x as u16) & (m as u16) == (x & m) as u16,
{
    lemma_u8_and_bits(x, m);
}

/// Masks of a 16-bit value by low-bit runs, as remainders.
pub proof fn lemma_u16_low_bits(f: u16)
    by (bit_vector)
    ensures
        f & 0x000F == f % 16,
        f & 0x00FF == f % 256,
        f & 0x0FFF == f % 4096,
{
}

/// A remainder is no larger than the dividend.
pub proof fn lemma_mod_le(x: usize, d: usize)
    requires
        d >= 1,
    ensures
        x % d <= x,
        x % d < d,
{
    assert(x % d <= x) by (nonlinear_arith)
        requires
            d >= 1,
    ;
}

/// Bit-level facts of a byte, proved at once.
proof fn lemma_u8_bits(x: u8)
    by (bit_vector)
    ensures
        x & 0x01 == x % 2,
        x & 0x03 == x % 4,
        x & 0x07 == x % 8,
        x & 0x0F == x % 16,
        x & 0x1F == x % 32,
        x & 0x3F == x % 64,
        x & 0x7F == x % 128,
        (x & 0x80 != 0) == (x >= 0x80),
        x >> 0u8 == x,
        x >> 1u8 == x / 2,
        x >> 2u8 == x / 4,
        x >> 3u8 == x / 8,
        x >> 4u8 == x / 16,
        x >> 5u8 == x / 32,
        x >> 6u8 == x / 64,
        x >> 7u8 == x / 128,
        (x & 0xF0) % 16 == 0,
        (x & 0xF0) >> 4u8 == x / 16,
        (x & 0x80) >> 7u8 == x / 128,
        (x << 1u8) / 2 == x % 128,
        (x << 1u8) % 2 == 0,
        ((x << 1u8) | 1u8) / 2 == x % 128,
        ((x << 1u8) | 1u8) % 2 == 1,
        (x << 1u8) | 0u8 == x << 1u8,
        ((x >> 1u8) | 0x80u8) % 128 == x / 2,
        ((x >> 1u8) | 0x80u8) / 128 == 1,
        (x >> 1u8) % 128 == x / 2,
        (x >> 1u8) / 128 == 0,
        (x >> 1u8) | 0u8 == x / 2,
        (((x & 0xF0) >> 4u8) | ((x & 0x0F) << 4u8)) / 16 == x % 16,
        (((x & 0xF0) >> 4u8) | ((x & 0x0F) << 4u8)) % 16 == x / 16,
        (x & 1) << 7u8 == (if x % 2 == 1 { 0x80u8 } else { 0u8 }),
        x < 2 ==> x << 7u8 == (if x == 1 { 0x80u8 } else { 0u8 }),
        0x06u8 | 0x60u8 == 0x66u8,
        0x06u8 | 0u8 == 0x06u8,
        0u8 | 0x60u8 == 0x60u8,
        0u8 | 0u8 == 0u8,
{
}

/// Masks by low-bit runs and right shifts of a byte, as remainders and quotients.
pub proof fn lemma_u8_facts(x: u8)
    ensures
        x & 0x01 == x % 2,
        x & 0x03 == x % 4,
        x & 0x07 == x % 8,
        x & 0x0F == x % 16,
        x & 0x1F == x % 32,
        x & 0x3F == x % 64,
        x & 0x7F == x % 128,
        (x & 0x80 != 0) == (x >= 0x80),
        x >> 0u8 == x,
        x >> 1u8 == x / 2,
        x >> 2u8 == x / 4,
        x >> 3u8 == x / 8,
        x >> 4u8 == x / 16,
        x >> 5u8 == x / 32,
        x >> 6u8 == x / 64,
        x >> 7u8 == x / 128,
        (x & 0xF0) % 16 == 0,
{
    lemma_u8_bits(x);
}

/// Facts of one-place rotations and of the nibble swap of a byte, by division and remainder.
pub proof fn lemma_u8_rotation_facts(x: u8)
    ensures
        (x & 0xF0) >> 4u8 == x / 16,
        (x & 0x80) >> 7u8 == x / 128,
        (x << 1u8) / 2 == x % 128,
        (x << 1u8) % 2 == 0,
        ((x << 1u8) | 1u8) / 2 == x % 128,
        ((x << 1u8) | 1u8) % 2 == 1,
        (x << 1u8) | 0u8 == x << 1u8,
        ((x >> 1u8) | 0x80u8) % 128 == x / 2,
        ((x >> 1u8) | 0x80u8) / 128 == 1,
        (x >> 1u8) % 128 == x / 2,
        (x >> 1u8) / 128 == 0,
        (x >> 1u8) | 0u8 == x / 2,
        (((x & 0xF0) >> 4u8) | ((x & 0x0F) << 4u8)) / 16 == x % 16,
        (((x & 0xF0) >> 4u8) | ((x & 0x0F) << 4u8)) % 16 == x / 16,
        (x & 1) << 7u8 == (if x % 2 == 1 { 0x80u8 } else { 0u8 }),
        x < 2 ==> x << 7u8 == (if x == 1 { 0x80u8 } else { 0u8 }),
{
    lemma_u8_bits(x);
}

/// The decimal-adjust corrections combined by OR are their sums.
pub proof fn lemma_bcd_corrections()
    ensures
        0x06u8 | 0x60u8 == 0x66u8,
        0x06u8 | 0u8 == 0x06u8,
        0u8 | 0x60u8 == 0x60u8,
        0u8 | 0u8 == 0u8,
{
    lemma_u8_bits(0);
}

/// Two low bits combined into a 2-bit number stay below 4.
pub proof fn lemma_two_bits_lt4(x: u8, y: u8)
    by (bit_vector)
    ensures
        ((y & 1) << 1u8) | (x & 1) < 4,
{
}

} // verus!
