//! Single bits and bit ranges of bytes and words.
//!
//! The executable functions of this module hand the work to the `bit_field`
//! crate. Their contracts are not proved: each states, in the shifts and masks
//! that `bit_field` itself computes with, what the call returns. The lemmas
//! below them are proved, and say in plain arithmetic what those shifts and
//! masks come to for the fields of a frame. Bit 0 is the least significant bit
//! throughout.

use bit_field::BitField;
use core::ops::Range;
use vstd::prelude::*;

verus! {

/// Whether bit `bit` of `byte` is set.
pub closed spec fn u8_bit(byte: u8, bit: usize) -> bool {
    byte & (1u8 << bit) != 0
}

/// `byte` with bit `bit` set to `value` and every other bit as it was.
pub closed spec fn u8_with_bit(byte: u8, bit: usize, value: bool) -> u8 {
    if value {
        byte | (1u8 << bit)
    } else {
        byte & !(1u8 << bit)
    }
}

/// Bits `start..end` of `byte`, moved down to bit 0.
pub closed spec fn u8_bits(byte: u8, start: usize, end: usize) -> u8 {
    ((byte << (8 - end)) >> (8 - end)) >> start
}

/// Whether `value` has no bit set at or above bit `width`.
pub closed spec fn u8_fits(value: u8, width: usize) -> bool {
    ((value << (8 - width)) >> (8 - width)) == value
}

/// `byte` with bits `start..end` replaced by the low bits of `value` and every
/// other bit as it was.
pub closed spec fn u8_with_bits(byte: u8, start: usize, end: usize, value: u8) -> u8 {
    (byte & !(((((!0u8) << (8 - end)) >> (8 - end)) >> start) << start)) | (value << start)
}

/// Bits `start..end` of `word`, moved down to bit 0.
pub closed spec fn u32_bits(word: u32, start: usize, end: usize) -> u32 {
    ((word << (32 - end)) >> (32 - end)) >> start
}

/// Whether `value` has no bit set at or above bit `width`.
pub closed spec fn u32_fits(value: u32, width: usize) -> bool {
    ((value << (32 - width)) >> (32 - width)) == value
}

/// `word` with bits `start..end` replaced by the low bits of `value` and every
/// other bit as it was.
pub closed spec fn u32_with_bits(word: u32, start: usize, end: usize, value: u32) -> u32 {
    (word & !(((((!0u32) << (32 - end)) >> (32 - end)) >> start) << start)) | (value << start)
}

/// `BitField::get_bit` on a `u8`: tells whether the byte has a one at the given
/// position. The call panics for a position past the byte's last bit, which the
/// precondition rules out.
#[verifier::external_body]
pub(crate) fn get_bit_u8(byte: u8, bit: usize) -> (set: bool)
    requires
        bit < 8,
    ensures
        set == u8_bit(byte, bit),
{
    byte.get_bit(bit)
}

/// `BitField::get_bits` on a `u8`: the bits of a non-empty range within the
/// byte, as a number. The call panics for a range that leaves the byte, which
/// the precondition rules out.
#[verifier::external_body]
pub(crate) fn get_bits_u8(byte: u8, range: Range<usize>) -> (bits: u8)
    requires
        range.start < range.end <= 8,
    ensures
        bits == u8_bits(byte, range.start, range.end),
{
    byte.get_bits(range)
}

/// `BitField::set_bit` on a `u8`: writes one bit and leaves the others alone.
/// The call panics for a position past the byte's last bit, which the
/// precondition rules out.
#[verifier::external_body]
pub(crate) fn set_bit_u8(byte: &mut u8, bit: usize, value: bool)
    requires
        bit < 8,
    ensures
        *final(byte) == u8_with_bit(*old(byte), bit, value),
{
    byte.set_bit(bit, value);
}

/// `BitField::set_bits` on a `u8`: writes the bits of a non-empty range within
/// the byte and leaves the others alone. The call panics for a range that
/// leaves the byte and for a value wider than the range; the precondition rules
/// out both.
#[verifier::external_body]
pub(crate) fn set_bits_u8(byte: &mut u8, range: Range<usize>, value: u8)
    requires
        range.start < range.end <= 8,
        u8_fits(value, (range.end - range.start) as usize),
    ensures
        *final(byte) == u8_with_bits(*old(byte), range.start, range.end, value),
{
    byte.set_bits(range, value);
}

/// `BitField::get_bits` on a `u32`: the bits of a non-empty range within the
/// word, as a number. The call panics for a range that leaves the word, which
/// the precondition rules out.
#[verifier::external_body]
pub(crate) fn get_bits_u32(word: u32, range: Range<usize>) -> (bits: u32)
    requires
        range.start < range.end <= 32,
    ensures
        bits == u32_bits(word, range.start, range.end),
{
    word.get_bits(range)
}

/// `BitField::set_bits` on a `u32`: writes the bits of a non-empty range within
/// the word and leaves the others alone. The call panics for a range that
/// leaves the word and for a value wider than the range; the precondition rules
/// out both.
#[verifier::external_body]
pub(crate) fn set_bits_u32(word: &mut u32, range: Range<usize>, value: u32)
    requires
        range.start < range.end <= 32,
        u32_fits(value, (range.end - range.start) as usize),
    ensures
        *final(word) == u32_with_bits(*old(word), range.start, range.end, value),
{
    word.set_bits(range, value);
}

/// One for a flag that is set, zero for one that is clear.
pub open spec fn bit_value(flag: bool) -> int {
    if flag {
        1
    } else {
        0
    }
}

/// Writing the two highest bits of a byte below 64 adds 128 for the one and
/// 64 for the other.
pub proof fn lemma_two_flags_above(low: u8, bit7: bool, bit6: bool)
    by (bit_vector)
    requires
        low < 64,
    ensures
        u8_with_bit(u8_with_bit(low, 7, bit7), 6, bit6) == 128 * bit_value(bit7) + 64 * bit_value(
            bit6,
        ) + low,
{
}

/// Writing bit 7, then a field of two bits at bits 5 and 6, then bits 4 down
/// to 0 into a zero byte gives the byte that has them as its binary digits.
pub proof fn lemma_flags_around_field(
    bit7: bool,
    field: u8,
    bit4: bool,
    bit3: bool,
    bit2: bool,
    bit1: bool,
    bit0: bool,
)
    by (bit_vector)
    requires
        field < 4,
    ensures
        u8_fits(field, 2),
        u8_with_bit(
            u8_with_bit(
                u8_with_bit(
                    u8_with_bit(
                        u8_with_bit(u8_with_bits(u8_with_bit(0, 7, bit7), 5, 7, field), 4, bit4),
                        3,
                        bit3,
                    ),
                    2,
                    bit2,
                ),
                1,
                bit1,
            ),
            0,
            bit0,
        ) == 128 * bit_value(bit7) + 32 * field + 16 * bit_value(bit4) + 8 * bit_value(bit3) + 4
            * bit_value(bit2) + 2 * bit_value(bit1) + bit_value(bit0),
{
}

/// Writing bits 7 down to 0 into a zero byte gives the byte that has them as
/// its binary digits.
pub proof fn lemma_eight_flags(
    bit7: bool,
    bit6: bool,
    bit5: bool,
    bit4: bool,
    bit3: bool,
    bit2: bool,
    bit1: bool,
    bit0: bool,
)
    by (bit_vector)
    ensures
        u8_with_bit(
            u8_with_bit(
                u8_with_bit(
                    u8_with_bit(
                        u8_with_bit(
                            u8_with_bit(u8_with_bit(u8_with_bit(0, 7, bit7), 6, bit6), 5, bit5),
                            4,
                            bit4,
                        ),
                        3,
                        bit3,
                    ),
                    2,
                    bit2,
                ),
                1,
                bit1,
            ),
            0,
            bit0,
        ) == 128 * bit_value(bit7) + 64 * bit_value(bit6) + 32 * bit_value(bit5) + 16
            * bit_value(bit4) + 8 * bit_value(bit3) + 4 * bit_value(bit2) + 2 * bit_value(bit1)
            + bit_value(bit0),
{
}

/// Bit 7 of a byte is set from 128 on; bit 6 is set where what is left of the
/// byte below 128 is 64 or more; bits 4 to 7 are the byte over 16.
pub proof fn lemma_byte_fields(byte: u8)
    by (bit_vector)
    ensures
        u8_bit(byte, 7) == (byte >= 128),
        u8_bit(byte, 6) == (byte % 128 >= 64),
        u8_bits(byte, 4, 8) == byte / 16,
{
}

/// Bits 8 to 13 of a word are the word over 256, below 64; bits 0 to 7 are
/// what is left of it below 256.
pub proof fn lemma_word_fields(word: u32)
    by (bit_vector)
    ensures
        u32_bits(word, 8, 14) == word / 256 % 64,
        u32_bits(word, 0, 8) == word % 256,
{
}

/// Clearing bits 6 and 7 of a byte leaves what there is of it below 64.
pub proof fn lemma_clear_two_above(byte: u8)
    by (bit_vector)
    ensures
        u8_fits(0, 2),
        u8_with_bits(byte, 6, 8, 0) == byte % 64,
{
}

/// Writing a number below 64 to bits 8 to 13 of a zero word, then a byte to
/// bits 0 to 7, gives 256 times the one plus the other.
pub proof fn lemma_join_word(high: u8, low: u8)
    by (bit_vector)
    requires
        high < 64,
    ensures
        u32_fits(high as u32, 6),
        u32_fits(low as u32, 8),
        u32_with_bits(u32_with_bits(0, 8, 14, high as u32), 0, 8, low as u32) == high * 256 + low,
{
}

} // verus!
