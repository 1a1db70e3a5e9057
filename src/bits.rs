use bit_field::BitField;
use vstd::prelude::*;

verus! {

/// The mask that covers bits `start..end` of a 16-bit word.
pub open spec fn mask16(start: u16, end: u16) -> u16 {
    ((0xffffu16 >> (16 - (end - start)) as u16) << start) as u16
}

/// The mask that covers bits `start..end` of a 64-bit word.
pub open spec fn mask64(start: u64, end: u64) -> u64 {
    ((0xffff_ffff_ffff_ffffu64 >> (64 - (end - start)) as u64) << start) as u64
}

/// Relies on bit_field's `set_bit` for `u16`: sets or clears the one bit,
/// and panics only when the bit lies beyond the word.
#[verifier::external_body]
pub fn set_bit_u16(x: &mut u16, bit: usize, value: bool)
    requires
        bit < 16,
    ensures
        *final(x) == if value {
            *old(x) | (1u16 << bit as u16)
        } else {
            *old(x) & !(1u16 << bit as u16)
        },
{
    x.set_bit(bit, value);
}

/// Relies on bit_field's `set_bits` for `u16`: replaces bits `start..end` by
/// `value`, and panics when the range is empty or out of the word, or when
/// `value` does not fit in it.
#[verifier::external_body]
pub fn set_bits_u16(x: &mut u16, start: usize, end: usize, value: u16)
    requires
        start < end <= 16,
        value >> (end - start) as u16 == 0 || end - start == 16,
    ensures
        *final(x) == (*old(x) & !mask16(start as u16, end as u16)) | (value << start as u16),
{
    x.set_bits(start..end, value);
}

/// Relies on bit_field's `set_bits` for `u64`: replaces bits `start..end` by
/// `value`, and panics when the range is empty or out of the word, or when
/// `value` does not fit in it.
#[verifier::external_body]
pub fn set_bits_u64(x: &mut u64, start: usize, end: usize, value: u64)
    requires
        start < end <= 64,
        value >> (end - start) as u64 == 0 || end - start == 64,
    ensures
        *final(x) == (*old(x) & !mask64(start as u64, end as u64)) | (value << start as u64),
{
    x.set_bits(start..end, value);
}

} // verus!
