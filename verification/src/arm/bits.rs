//! Bit-field facts shared by the register types: updating one field of a
//! 32-bit register word changes that field to the new value and leaves
//! every other bit as it was.

use vstd::prelude::*;

verus! {

/// The word `v` with the field `mask << shift` replaced by `x & mask`.
pub open spec fn with_field(v: u32, x: u32, mask: u32, shift: u32) -> u32 {
    (v & !(mask << shift)) | ((x & mask) << shift)
}

/// The word `v` with the single-bit flag `bit` set or cleared.
pub open spec fn with_flag(v: u32, bit: u32, enable: bool) -> u32 {
    if enable {
        v | bit
    } else {
        v & !bit
    }
}

/// Writing a field and reading it back gives the value written (cut to the
/// field's width); all bits outside the field are unchanged.
pub proof fn lemma_field_update(v: u32, x: u32, mask: u32, shift: u32)
    requires
        shift < 32,
        (mask << shift) >> shift == mask,
    ensures
        (with_field(v, x, mask, shift) >> shift) & mask == x & mask,
        with_field(v, x, mask, shift) & !(mask << shift) == v & !(mask << shift),
{
    assert((((v & !(mask << shift)) | ((x & mask) << shift)) >> shift) & mask == x & mask)
        by (bit_vector)
        requires
            shift < 32,
            (mask << shift) >> shift == mask,
    ;
    assert(((v & !(mask << shift)) | ((x & mask) << shift)) & !(mask << shift) == v & !(mask
        << shift)) by (bit_vector);
}

/// Setting or clearing a flag and reading it back gives the value written;
/// all other bits are unchanged.
pub proof fn lemma_flag_update(v: u32, bit: u32, enable: bool)
    requires
        bit != 0,
    ensures
        (with_flag(v, bit, enable) & bit != 0) == enable,
        with_flag(v, bit, enable) & !bit == v & !bit,
{
    assert((v | bit) & bit != 0 && (v | bit) & !bit == v & !bit) by (bit_vector)
        requires bit != 0;
    assert((v & !bit) & bit == 0 && (v & !bit) & !bit == v & !bit) by (bit_vector);
}

/// Shifting by zero leaves a word unchanged.
pub proof fn lemma_shift_zero(x: u32)
    ensures
        x >> 0u32 == x,
        x << 0u32 == x,
{
    assert(x >> 0u32 == x && x << 0u32 == x) by (bit_vector);
}

/// A masked word is no larger than the mask.
pub proof fn lemma_and_le(x: u32, m: u32)
    ensures
        x & m <= m,
{
    assert(x & m <= m) by (bit_vector);
}

} // verus!
