use vstd::prelude::*;

verus! {

/// The value of the inclusive bit field `[high:low]` of `word`,
/// right-aligned: bit `low` of `word` becomes bit 0 of the result.
pub open spec fn bit_field(word: u32, high: u8, low: u8) -> u32
    recommends
        low <= high < 32,
{
    (((word as u64) >> (low as u64)) & (((1u64 << ((high - low + 1) as u64)) - 1) as u64)) as u32
}

/// Upper bounds for every bit field the six instruction formats read.
/// Each field of width `n` is below `1 << n`.
pub proof fn lemma_bit_field_ranges(w: u32)
    by (bit_vector)
    ensures
        bit_field(w, 6, 0) < 0x80,
        bit_field(w, 7, 7) < 0x2,
        bit_field(w, 11, 7) < 0x20,
        bit_field(w, 11, 8) < 0x10,
        bit_field(w, 14, 12) < 0x8,
        bit_field(w, 19, 12) < 0x100,
        bit_field(w, 19, 15) < 0x20,
        bit_field(w, 20, 20) < 0x2,
        bit_field(w, 24, 20) < 0x20,
        bit_field(w, 30, 21) < 0x400,
        bit_field(w, 30, 25) < 0x40,
        bit_field(w, 31, 12) < 0x100000,
        bit_field(w, 31, 20) < 0x1000,
        bit_field(w, 31, 25) < 0x80,
        bit_field(w, 31, 31) < 0x2,
{
}

/// A value is even exactly when its lowest bit is clear.
pub proof fn lemma_even_low_bit(x: u32)
    by (bit_vector)
    ensures
        x % 2 == 0 <==> (x & 1) == 0,
{
}

/// Extract the inclusive bit field `[high:low]` from `instruction`,
/// right-aligned.
pub fn extract_bits(instruction: u32, high: u8, low: u8) -> (r: u32)
    requires
        low <= high < 32,
    ensures
        r == bit_field(instruction, high, low),
{
    let width: u64 = (high - low) as u64 + 1;
    proof {
        assert(1u64 << width >= 1) by (bit_vector)
            requires
                width <= 32,
        ;
    }
    let mask: u64 = (1u64 << width) - 1;
    (((instruction as u64) >> (low as u64)) & mask) as u32
}

} // verus!
