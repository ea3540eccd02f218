//! Bit fields of device registers: writing a field keeps every other bit of
//! the register, and reading it back gives what was written.
use vstd::prelude::*;

verus! {

/// `v` with the field `mask << shift` replaced by the low bits of `x`.
pub open spec fn with_field64(v: u64, shift: u64, mask: u64, x: u64) -> u64 {
    (v & !(mask << shift)) | ((x & mask) << shift)
}

/// The field `mask << shift` of `v`, shifted down.
pub open spec fn field64(v: u64, shift: u64, mask: u64) -> u64 {
    (v >> shift) & mask
}

/// `v` with the field `mask << shift` replaced by the low bits of `x`.
pub open spec fn with_field32(v: u32, shift: u32, mask: u32, x: u32) -> u32 {
    (v & !(mask << shift)) | ((x & mask) << shift)
}

/// The field `mask << shift` of `v`, shifted down.
pub open spec fn field32(v: u32, shift: u32, mask: u32) -> u32 {
    (v >> shift) & mask
}

/// A one-bit value of a flag.
pub open spec fn flag64(b: bool) -> u64 {
    if b { 1 } else { 0 }
}

/// A one-bit value of a flag.
pub open spec fn flag32(b: bool) -> u32 {
    if b { 1 } else { 0 }
}

/// Law: reading a 64-bit field back gives the value written, cut to the field
/// width, when the field fits in the register.
pub proof fn law_field64_read_after_write(v: u64, shift: u64, mask: u64, x: u64)
    requires
        shift < 64,
        (mask << shift) >> shift == mask,
    ensures
        field64(with_field64(v, shift, mask, x), shift, mask) == x & mask,
{
    assert((((v & !(mask << shift)) | ((x & mask) << shift)) >> shift) & mask == x & mask) by (bit_vector)
        requires shift < 64, (mask << shift) >> shift == mask;
}

/// Law: writing a 64-bit field keeps every bit outside it.
pub proof fn law_field64_keeps_other_bits(v: u64, shift: u64, mask: u64, x: u64)
    requires
        shift < 64,
    ensures
        with_field64(v, shift, mask, x) & !(mask << shift) == v & !(mask << shift),
{
    assert(((v & !(mask << shift)) | ((x & mask) << shift)) & !(mask << shift) == v & !(mask << shift))
        by (bit_vector)
        requires shift < 64;
}

/// Law: of two writes to the same 64-bit field, the last one counts.
pub proof fn law_field64_last_write_wins(v: u64, shift: u64, mask: u64, x: u64, y: u64)
    requires
        shift < 64,
    ensures
        with_field64(with_field64(v, shift, mask, x), shift, mask, y) == with_field64(v, shift, mask, y),
{
    assert((((v & !(mask << shift)) | ((x & mask) << shift)) & !(mask << shift)) | ((y & mask) << shift)
        == (v & !(mask << shift)) | ((y & mask) << shift)) by (bit_vector)
        requires shift < 64;
}

/// Law: reading a 32-bit field back gives the value written, cut to the field
/// width, when the field fits in the register.
pub proof fn law_field32_read_after_write(v: u32, shift: u32, mask: u32, x: u32)
    requires
        shift < 32,
        (mask << shift) >> shift == mask,
    ensures
        field32(with_field32(v, shift, mask, x), shift, mask) == x & mask,
{
    assert((((v & !(mask << shift)) | ((x & mask) << shift)) >> shift) & mask == x & mask) by (bit_vector)
        requires shift < 32, (mask << shift) >> shift == mask;
}

/// Law: writing a 32-bit field keeps every bit outside it.
pub proof fn law_field32_keeps_other_bits(v: u32, shift: u32, mask: u32, x: u32)
    requires
        shift < 32,
    ensures
        with_field32(v, shift, mask, x) & !(mask << shift) == v & !(mask << shift),
{
    assert(((v & !(mask << shift)) | ((x & mask) << shift)) & !(mask << shift) == v & !(mask << shift))
        by (bit_vector)
        requires shift < 32;
}

/// Law: of two writes to the same 32-bit field, the last one counts.
pub proof fn law_field32_last_write_wins(v: u32, shift: u32, mask: u32, x: u32, y: u32)
    requires
        shift < 32,
    ensures
        with_field32(with_field32(v, shift, mask, x), shift, mask, y) == with_field32(v, shift, mask, y),
{
    assert((((v & !(mask << shift)) | ((x & mask) << shift)) & !(mask << shift)) | ((y & mask) << shift)
        == (v & !(mask << shift)) | ((y & mask) << shift)) by (bit_vector)
        requires shift < 32;
}

/// Replace one 64-bit field.
pub fn set_field64(v: u64, shift: u64, mask: u64, x: u64) -> (r: u64)
    requires
        shift < 64,
    ensures
        r == with_field64(v, shift, mask, x),
{
    (v & !(mask << shift)) | ((x & mask) << shift)
}

/// Replace one 32-bit field.
pub fn set_field32(v: u32, shift: u32, mask: u32, x: u32) -> (r: u32)
    requires
        shift < 32,
    ensures
        r == with_field32(v, shift, mask, x),
{
    (v & !(mask << shift)) | ((x & mask) << shift)
}

/// Read one 32-bit field.
pub fn get_field32(v: u32, shift: u32, mask: u32) -> (r: u32)
    requires
        shift < 32,
    ensures
        r == field32(v, shift, mask),
        r <= mask,
{
    let r = (v >> shift) & mask;
    assert((v >> shift) & mask <= mask) by (bit_vector);
    r
}

/// Read one 64-bit field.
pub fn get_field64(v: u64, shift: u64, mask: u64) -> (r: u64)
    requires
        shift < 64,
    ensures
        r == field64(v, shift, mask),
        r <= mask,
{
    let r = (v >> shift) & mask;
    assert((v >> shift) & mask <= mask) by (bit_vector);
    r
}

/// The value of a flag as a bit.
pub fn bit64(b: bool) -> (r: u64)
    ensures
        r == flag64(b),
{
    if b { 1 } else { 0 }
}

/// The value of a flag as a bit.
pub fn bit32(b: bool) -> (r: u32)
    ensures
        r == flag32(b),
{
    if b { 1 } else { 0 }
}

/// `v` with bit `bit` set to `value`.
pub fn set_bit(v: u32, bit: u8, value: bool) -> (r: u32)
    requires
        bit < 32,
    ensures
        r == with_field32(v, bit as u32, 1, flag32(value)),
{
    set_field32(v, bit as u32, 1, bit32(value))
}

/// Bit `bit` of `v`.
pub fn get_bit(v: u32, bit: u8) -> (r: bool)
    requires
        bit < 32,
    ensures
        r == (field32(v, bit as u32, 1) != 0),
{
    get_field32(v, bit as u32, 1) != 0
}

} // verus!
