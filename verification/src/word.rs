//! The storage word and the bit ranges inside it.
//!
//! Bit 0 is the least significant bit of the word. A range is given by the
//! position of its lowest bit and by its width; the bits of a range that
//! would lie above the top of the word do not exist and read as zero.

use vstd::prelude::*;
use vstd::arithmetic::div_mod::{lemma_basic_div, lemma_small_mod};
use vstd::arithmetic::power2::{lemma2_to64, lemma_pow2_pos, lemma_pow2_strictly_increases, pow2};
use vstd::bits::{
    lemma_u32_low_bits_mask_is_mod, lemma_u32_pow2_no_overflow, lemma_u32_shl_is_mul,
    lemma_u32_shr_is_div,
};

verus! {

/// The unsigned integer that holds every packed field.
pub type StorageType = u32;

/// The number of bits in a storage word.
pub const STORAGE_BITS: u32 = 32;

/// The word whose lowest `width` bits are set and whose other bits are clear.
pub open spec fn low_mask(width: u32) -> StorageType {
    if width >= STORAGE_BITS {
        StorageType::MAX
    } else {
        ((1u32 << width) - 1) as u32
    }
}

/// The unsigned value held by the `width` bits of `word` that start at bit `pos`.
pub open spec fn field_bits(word: StorageType, pos: u32, width: u32) -> StorageType {
    if pos >= STORAGE_BITS {
        0
    } else {
        (word >> pos) & low_mask(width)
    }
}

/// `value` moved up by `pos` bits; what is moved past the top of the word is lost.
pub open spec fn shifted(value: StorageType, pos: u32) -> StorageType {
    if pos >= STORAGE_BITS {
        0
    } else {
        value << pos
    }
}

/// `word` with the set bits of `value` added at bit `pos`. No bit of `word` is cleared.
pub open spec fn merged(word: StorageType, pos: u32, value: StorageType) -> StorageType {
    word | shifted(value, pos)
}

/// The range of `width` bits from `pos` and the range of `other_width` bits
/// from `other_pos` have no bit in common.
pub open spec fn apart(pos: u32, width: u32, other_pos: u32, other_width: u32) -> bool {
    ||| width == 0
    ||| other_width == 0
    ||| pos + width <= other_pos
    ||| other_pos + other_width <= pos
}

/// Computes the mask that selects the lowest `width` bits of a word.
pub fn mask(width: u32) -> (m: StorageType)
    ensures
        m == low_mask(width),
{
    if width >= STORAGE_BITS {
        StorageType::MAX
    } else {
        assert((1u32 << width) >= 1) by (bit_vector)
            requires
                width < 32,
        ;
        (1u32 << width) - 1
    }
}

/// Reads the `width` bits of `word` that start at bit `pos`: the mask is
/// moved up to the range, applied, and the result moved back down.
pub fn extract(word: StorageType, pos: u32, width: u32) -> (value: StorageType)
    ensures
        value == field_bits(word, pos, width),
{
    if pos >= STORAGE_BITS {
        return 0;
    }
    let low: StorageType = mask(width);
    let in_place: StorageType = low << pos;
    assert((word & (low << pos)) >> pos == (word >> pos) & low) by (bit_vector)
        requires
            pos < 32,
    ;
    (word & in_place) >> pos
}

/// Adds the set bits of `value` to `word` at bit `pos`.
pub fn merge(word: StorageType, pos: u32, value: StorageType) -> (out: StorageType)
    ensures
        out == merged(word, pos, value),
{
    if pos >= STORAGE_BITS {
        assert(word | 0u32 == word) by (bit_vector);
        word
    } else {
        word | (value << pos)
    }
}

/// A mask of at most a word's width is one less than a power of two.
pub proof fn lemma_low_mask_is_pow2(width: u32)
    requires
        width <= STORAGE_BITS,
    ensures
        low_mask(width) == pow2(width as nat) - 1,
{
    lemma2_to64();
    if width < STORAGE_BITS {
        lemma_u32_pow2_no_overflow(width as nat);
        lemma_u32_shl_is_mul(1u32, width);
    }
}

/// What is read from a range is the word divided by two to the position,
/// modulo two to the width.
pub proof fn lemma_field_bits_is_div_mod(word: StorageType, pos: u32, width: u32)
    ensures
        field_bits(word, pos, width) == (word as nat / pow2(pos as nat)) % pow2(width as nat),
{
    lemma2_to64();
    lemma_pow2_pos(pos as nat);
    lemma_pow2_pos(width as nat);
    if pos >= STORAGE_BITS {
        lemma_pow2_reaches_word(pos as nat);
        lemma_basic_div(word as int, pow2(pos as nat) as int);
        lemma_small_mod(0nat, pow2(width as nat));
    } else {
        lemma_u32_shr_is_div(word, pos);
        let down: u32 = word >> pos;
        if width >= STORAGE_BITS {
            lemma_pow2_reaches_word(width as nat);
            assert(down & 0xffff_ffffu32 == down) by (bit_vector);
            lemma_small_mod(down as nat, pow2(width as nat));
        } else {
            lemma_low_mask_is_pow2(width);
            lemma_u32_pow2_no_overflow(width as nat);
            lemma_u32_low_bits_mask_is_mod(down, width as nat);
        }
    }
}

/// From the width of the word on, a power of two exceeds every word.
proof fn lemma_pow2_reaches_word(e: nat)
    requires
        e >= 32,
    ensures
        pow2(e) >= 0x1_0000_0000,
{
    lemma2_to64();
    if e > 32 {
        lemma_pow2_strictly_increases(32, e);
    }
}

/// What is read from a range of `width` bits has no bit set beyond them.
pub proof fn lemma_field_bits_bounded(word: StorageType, pos: u32, width: u32)
    ensures
        field_bits(word, pos, width) <= low_mask(width),
        width <= STORAGE_BITS ==> field_bits(word, pos, width) < pow2(width as nat),
{
    if pos < STORAGE_BITS {
        let down: u32 = word >> pos;
        let low: u32 = low_mask(width);
        assert(down & low <= low) by (bit_vector);
    }
    if width <= STORAGE_BITS {
        lemma_low_mask_is_pow2(width);
    }
}

/// After a value that fits `width` bits is merged into a range, the range
/// holds the bits that it held before together with those of the value.
pub proof fn lemma_merge_then_extract(word: StorageType, pos: u32, width: u32, value: StorageType)
    requires
        pos + width <= STORAGE_BITS,
        value <= low_mask(width),
    ensures
        field_bits(merged(word, pos, value), pos, width) == field_bits(word, pos, width) | value,
{
    if pos >= STORAGE_BITS {
        assert(low_mask(0) == 0) by (bit_vector);
        assert(0u32 | 0u32 == 0u32) by (bit_vector);
    } else {
        assert(field_bits(merged(word, pos, value), pos, width) == field_bits(word, pos, width)
            | value) by (bit_vector)
            requires
                pos < 32,
                pos + width <= 32,
                value <= low_mask(width),
        ;
    }
}

/// Merging a value that fits `width` bits into one range leaves every range
/// that shares no bit with it as it was.
pub proof fn lemma_merge_keeps_disjoint(
    word: StorageType,
    pos: u32,
    width: u32,
    value: StorageType,
    other_pos: u32,
    other_width: u32,
)
    requires
        pos + width <= STORAGE_BITS,
        other_pos + other_width <= STORAGE_BITS,
        value <= low_mask(width),
        apart(pos, width, other_pos, other_width),
    ensures
        field_bits(merged(word, pos, value), other_pos, other_width) == field_bits(
            word,
            other_pos,
            other_width,
        ),
{
    if pos >= STORAGE_BITS {
        assert(word | 0u32 == word) by (bit_vector);
    } else if other_pos < STORAGE_BITS {
        assert(field_bits(merged(word, pos, value), other_pos, other_width) == field_bits(
            word,
            other_pos,
            other_width,
        )) by (bit_vector)
            requires
                pos < 32,
                other_pos < 32,
                pos + width <= 32,
                other_pos + other_width <= 32,
                value <= low_mask(width),
                apart(pos, width, other_pos, other_width),
        ;
    }
}

} // verus!
