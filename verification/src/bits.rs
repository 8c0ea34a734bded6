//! Single-bit access to a 32-bit register value.

use vstd::prelude::*;

verus! {

/// The mask that selects bit `bit` of a 32-bit word.
pub open spec fn bit_mask(bit: u8) -> u32
    recommends
        bit < 32,
{
    1u32 << bit
}

/// Whether bit `bit` of `x` is set.
pub open spec fn bit_is_set(x: u32, bit: u8) -> bool
    recommends
        bit < 32,
{
    (x >> bit) & 1u32 != 0u32
}

/// `x` with bit `bit` forced to `value` and every other bit kept.
pub open spec fn with_bit(x: u32, bit: u8, value: bool) -> u32
    recommends
        bit < 32,
{
    if value {
        x | bit_mask(bit)
    } else {
        x & !bit_mask(bit)
    }
}

/// Sets (`value == true`) or clears (`value == false`) bit `bit` of `*x` in
/// place. Afterwards bit `bit` reads as `value` and every other bit reads as
/// it did before.
pub fn set_bit_value(x: &mut u32, bit: u8, value: bool)
    requires
        bit < 32,
    ensures
        *final(x) == with_bit(*old(x), bit, value),
        forall|other: u8|
            other < 32 ==> #[trigger] bit_is_set(*final(x), other) == if other == bit {
                value
            } else {
                bit_is_set(*old(x), other)
            },
{
    proof {
        lemma_written_bit_reads_back(*x, bit, value);
        assert forall|other: u8| other < 32 && other != bit implies #[trigger] bit_is_set(
            with_bit(*x, bit, value),
            other,
        ) == bit_is_set(*x, other) by {
            lemma_other_bits_kept(*x, bit, value, other);
        }
    }
    if value {
        *x |= 1u32 << bit
    } else {
        *x &= !(1u32 << bit)
    }
}

/// Reads bit `bit` of `x`.
pub fn bit_value(x: u32, bit: u8) -> (value: bool)
    requires
        bit < 32,
    ensures
        value == bit_is_set(x, bit),
{
    (x >> bit) & 1u32 != 0u32
}

/// A bit that was written reads back as written, whatever it was before.
pub proof fn lemma_written_bit_reads_back(x: u32, bit: u8, value: bool)
    requires
        bit < 32,
    ensures
        bit_is_set(with_bit(x, bit, value), bit) == value,
{
    assert(((x | (1u32 << bit)) >> bit) & 1u32 != 0u32) by (bit_vector)
        requires
            bit < 32,
    ;
    assert(((x & !(1u32 << bit)) >> bit) & 1u32 == 0u32) by (bit_vector)
        requires
            bit < 32,
    ;
}

/// Writing bit `bit` leaves every other bit as it was.
pub proof fn lemma_other_bits_kept(x: u32, bit: u8, value: bool, other: u8)
    requires
        bit < 32,
        other < 32,
        other != bit,
    ensures
        bit_is_set(with_bit(x, bit, value), other) == bit_is_set(x, other),
{
    assert(((x | (1u32 << bit)) >> other) & 1u32 == (x >> other) & 1u32) by (bit_vector)
        requires
            bit < 32,
            other < 32,
            other != bit,
    ;
    assert(((x & !(1u32 << bit)) >> other) & 1u32 == (x >> other) & 1u32) by (bit_vector)
        requires
            bit < 32,
            other < 32,
            other != bit,
    ;
}

/// Of two writes to the same bit only the second counts. In particular,
/// writing the same value twice is the same as writing it once.
pub proof fn lemma_last_write_wins(x: u32, bit: u8, first: bool, second: bool)
    requires
        bit < 32,
    ensures
        with_bit(with_bit(x, bit, first), bit, second) == with_bit(x, bit, second),
        with_bit(with_bit(x, bit, second), bit, second) == with_bit(x, bit, second),
{
    let m = 1u32 << bit;
    assert((x | m) | m == x | m) by (bit_vector);
    assert((x & !m) | m == x | m) by (bit_vector);
    assert((x | m) & !m == x & !m) by (bit_vector);
    assert((x & !m) & !m == x & !m) by (bit_vector);
}

/// Writing a bit to the value it already has changes nothing.
pub proof fn lemma_same_value_keeps_word(x: u32, bit: u8)
    requires
        bit < 32,
    ensures
        with_bit(x, bit, bit_is_set(x, bit)) == x,
{
    assert((x >> bit) & 1u32 != 0u32 ==> x | (1u32 << bit) == x) by (bit_vector)
        requires
            bit < 32,
    ;
    assert((x >> bit) & 1u32 == 0u32 ==> x & !(1u32 << bit) == x) by (bit_vector)
        requires
            bit < 32,
    ;
}

/// Setting a bit that was clear and clearing it again gives the word back.
pub proof fn lemma_set_then_clear(x: u32, bit: u8)
    requires
        bit < 32,
        !bit_is_set(x, bit),
    ensures
        with_bit(with_bit(x, bit, true), bit, false) == x,
{
    lemma_last_write_wins(x, bit, true, false);
    lemma_same_value_keeps_word(x, bit);
}

/// Clearing a bit that was set and setting it again gives the word back.
pub proof fn lemma_clear_then_set(x: u32, bit: u8)
    requires
        bit < 32,
        bit_is_set(x, bit),
    ensures
        with_bit(with_bit(x, bit, false), bit, true) == x,
{
    lemma_last_write_wins(x, bit, false, true);
    lemma_same_value_keeps_word(x, bit);
}

} // verus!
