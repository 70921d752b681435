use vstd::prelude::*;

verus! {

/// Facts about masks of a byte, for the flag and register arithmetic.
pub proof fn lemma_u8_bits(x: u8)
    by (bit_vector)
    ensures
        x & 1 <= 1,
        x & 0x07 < 8,
        x & 0x3F < 64,
        x & 0x0F <= 15,
        x & 0x0E <= 14,
        x & 0x1E <= 30,
        (x | 0x20) & 0x80 == x & 0x80,
        (x | 0x40) & 0x80 == x & 0x80,
        (x | 0x80) & 0x80 != 0,
        (x | 0x20) & 0x20 != 0,
        (x & 0x1F) & 0xE0 == 0,
        x & 0x18 == 0 ==> x & 0x08 == 0 && x & 0x10 == 0,
        x & 0x20 != 0 ==> (x | 0x04) & 0x20 != 0,
        ((x & !0x10u8) | 0x20) & 0x20 != 0,
        ((x & !0x10u8) | 0x20) & 0x10 == 0,
        0u8 & 0x80 == 0,
        (0x04u8 | 0x20u8) & 0x20 != 0,
        0x20u8 & 0x20 != 0,
{
}

/// Facts about masks of a 16-bit value, for addresses.
pub proof fn lemma_u16_bits(v: u16)
    by (bit_vector)
    ensures
        v & 0x7FFF < 0x8000,
        v & 0x07FF < 0x0800,
        v & 0x0007 < 8,
        (v >> 12u16) & 7 <= 7,
        v & 0x0F < 16,
        v & 0x1F < 0x20,
        (v & 0x1F) & 0x0F < 0x20,
        (v & 0x0FFF) & 0x07FF < 0x0800,
        (((v & 0x0FFF) >> 1u16) & 0x0400) | ((v & 0x0FFF) & 0x03FF) < 0x0800,
        (v & 0x0FFF) & 0x03FF < 0x0800,
        (0x0400 | ((v & 0x0FFF) & 0x03FF)) < 0x0800,
        0u16 & 3 == 0,
        0u16 & 0xFF == 0,
        0u16 & 0x0F == 0,
        0u16 >> 4u16 == 0,
{
}

} // verus!
