//! Named bit fields of a 64-bit word, through `ruspiro_register`'s field definitions.
use ruspiro_register::{RegisterField, RegisterFieldValue};
use vstd::prelude::*;

verus! {

/// The bits that a field value takes in its word: the value cut to the field's mask, moved to
/// the field's offset.
pub open spec fn field_bits(value: u64, mask: u64, shift: u64) -> u64 {
    (value & mask) << shift
}

/// The bits of a word that belong to a field, left where they stand.
pub open spec fn raw_field_bits(raw: u64, mask: u64, shift: u64) -> u64 {
    ((raw >> shift) & mask) << shift
}

/// The value of a field of a word, moved down to bit 0.
pub open spec fn field_value(raw: u64, mask: u64, shift: u64) -> u64 {
    raw_field_bits(raw, mask, shift) >> shift
}

/// Relies on `RegisterFieldValue::<u64>::new` and `raw_value` of ruspiro-register: `new` keeps
/// `value & mask`, and `raw_value` shifts it left by the field's offset (below 64, so
/// `checked_shl` does not fail).
#[verifier::external_body]
pub(crate) fn encode_field(mask: u64, shift: u64, value: u64) -> (r: u64)
    requires
        shift < 64,
    ensures
        r == field_bits(value, mask, shift),
{
    RegisterFieldValue::<u64>::new(RegisterField::<u64>::new(mask, shift), value).raw_value()
}

/// Relies on `RegisterFieldValue::<u64>::from_raw` and `raw_value` of ruspiro-register:
/// `from_raw` keeps `(raw >> shift) & mask`, and `raw_value` shifts it back by the field's
/// offset (below 64, so neither shift fails).
#[verifier::external_body]
pub(crate) fn extract_field(mask: u64, shift: u64, raw: u64) -> (r: u64)
    requires
        shift < 64,
    ensures
        r == raw_field_bits(raw, mask, shift),
{
    RegisterFieldValue::<u64>::from_raw(RegisterField::<u64>::new(mask, shift), raw).raw_value()
}

/// The value of one field of `raw`, moved down to bit 0.
pub(crate) fn read_field(mask: u64, shift: u64, raw: u64) -> (r: u64)
    requires
        shift < 64,
    ensures
        r == field_value(raw, mask, shift),
{
    extract_field(mask, shift, raw) >> shift
}

} // verus!
