//! Fields of a 64-bit register value, read and modified through
//! `tock_registers`.
use tock_registers::fields::{Field, FieldValue};
use vstd::prelude::*;

verus! {

/// The value of the field `mask << shift` of `v`, moved down to bit 0.
pub open spec fn field(v: u64, mask: u64, shift: u64) -> u64 {
    (v & (mask << shift)) >> shift
}

/// `v` with the field `mask << shift` replaced by `x` (cut to `mask`); all
/// other bits are kept.
pub open spec fn with_field(v: u64, mask: u64, shift: u64, x: u64) -> u64 {
    (v & !(mask << shift)) | ((x & mask) << shift)
}

/// Relies on tock_registers' `Field::read`, which returns
/// `(val & (mask << shift)) >> shift`.
#[verifier::external_body]
pub(crate) fn read_field(v: u64, mask: u64, shift: u64) -> (r: u64)
    requires
        shift < 64,
    ensures
        r == field(v, mask, shift),
{
    Field::<u64, ()>::new(mask, shift as usize).read(v)
}

/// Relies on tock_registers' `FieldValue::new` (mask `mask << shift`, value
/// `(x & mask) << shift`) and `FieldValue::modify`, which returns
/// `(val & !mask) | value`.
#[verifier::external_body]
pub(crate) fn modify_field(v: u64, mask: u64, shift: u64, x: u64) -> (r: u64)
    requires
        shift < 64,
    ensures
        r == with_field(v, mask, shift, x),
{
    FieldValue::<u64, ()>::new(mask, shift as usize, x).modify(v)
}

} // verus!
