//! Bit fields of a register byte.

use vstd::prelude::*;

verus! {

/// The byte that has the bits of `value` where `keep` is set, and on top of
/// them the bits of `set`.
pub open spec fn merge_bits(value: u8, keep: u8, set: u8) -> u8 {
    (value & keep) | set
}

/// `value` with the bits of `mask` raised if `on`, cleared if not.
pub open spec fn with_flag(value: u8, mask: u8, on: bool) -> u8 {
    if on {
        value | mask
    } else {
        value & !mask
    }
}

/// Whether `value` has any bit of `mask`.
pub open spec fn any_bit(value: u8, mask: u8) -> bool {
    value & mask != 0
}

/// Keeps the bits of `value` that `keep` has and raises those of `set`.
pub fn merged(value: u8, keep: u8, set: u8) -> (r: u8)
    ensures
        r == merge_bits(value, keep, set),
{
    (value & keep) | set
}

/// Whether `value` has any bit of `mask`.
pub fn has_any_bit(value: u8, mask: u8) -> (r: bool)
    ensures
        r == any_bit(value, mask),
{
    value & mask != 0
}

/// The pair `(keep, set)` with which `merge_bits` raises or clears `mask`.
pub open spec fn flag_operands(mask: u8, on: bool) -> (u8, u8) {
    if on {
        (0xFFu8, mask)
    } else {
        (!mask, 0u8)
    }
}

/// The operands that raise or clear `mask`.
pub fn flag_pair(mask: u8, on: bool) -> (r: (u8, u8))
    ensures
        r == flag_operands(mask, on),
{
    if on {
        (0xFF, mask)
    } else {
        (!mask, 0)
    }
}

/// Merging with the operands of a flag is setting that flag.
pub proof fn lemma_merge_is_with_flag(value: u8, mask: u8, on: bool)
    ensures
        merge_bits(value, flag_operands(mask, on).0, flag_operands(mask, on).1) == with_flag(
            value,
            mask,
            on,
        ),
{
    assert((value & 0xFFu8) | mask == value | mask) by (bit_vector);
    assert((value & !mask) | 0u8 == value & !mask) by (bit_vector);
}

/// Setting a flag gives the bits of `mask` the value `on` and leaves every
/// other bit as it was.
pub proof fn lemma_with_flag(value: u8, mask: u8, on: bool)
    ensures
        with_flag(value, mask, on) & mask == if on { mask } else { 0u8 },
        with_flag(value, mask, on) & !mask == value & !mask,
{
    assert((value | mask) & mask == mask) by (bit_vector);
    assert((value | mask) & !mask == value & !mask) by (bit_vector);
    assert((value & !mask) & mask == 0u8) by (bit_vector);
    assert((value & !mask) & !mask == value & !mask) by (bit_vector);
}

/// Setting a flag leaves the bits of `other` as they were, where `other`
/// shares no bit with `mask`.
pub proof fn lemma_with_flag_apart(value: u8, mask: u8, on: bool, other: u8)
    requires
        mask & other == 0,
    ensures
        with_flag(value, mask, on) & other == value & other,
{
    assert((value | mask) & other == value & other) by (bit_vector)
        requires
            mask & other == 0,
    ;
    assert((value & !mask) & other == value & other) by (bit_vector)
        requires
            mask & other == 0,
    ;
}

/// After a flag was set, the byte has a bit of `mask` exactly if the flag
/// is on.
pub proof fn lemma_with_flag_reads_back(value: u8, mask: u8, on: bool)
    requires
        mask != 0,
    ensures
        any_bit(with_flag(value, mask, on), mask) == on,
{
    lemma_with_flag(value, mask, on);
}

} // verus!
