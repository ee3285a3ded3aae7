//! Bit-level model of a configuration field packed into a register byte.
use vstd::prelude::*;

verus! {

/// The byte written back when `bits` are merged into `current` under `mask`:
/// the bits outside `mask` come from `current`, those inside from `bits`.
pub open spec fn merged(current: u8, mask: u8, bits: u8) -> u8 {
    (current & !mask) | (bits & mask)
}

/// The raw code of the field at `mask`, shifted down by `shift`.
pub open spec fn extracted(byte: u8, mask: u8, shift: u8) -> u8 {
    (byte & mask) >> shift
}

/// The mask of a field `width` bits wide that starts at bit `shift`.
pub open spec fn field_mask(shift: u8, width: u8) -> u8 {
    ((((1u16 << width) - 1) as u8) << shift) as u8
}

/// Merge `bits` into `current` under `mask`.
pub fn merge_bits(current: u8, mask: u8, bits: u8) -> (r: u8)
    ensures
        r == merged(current, mask, bits),
{
    (current & !mask) | (bits & mask)
}

/// Extract the raw code of the field at `mask`, shifted down by `shift`.
pub fn extract_bits(byte: u8, mask: u8, shift: u8) -> (r: u8)
    requires
        shift < 8,
    ensures
        r == extracted(byte, mask, shift),
{
    (byte & mask) >> shift
}

/// Placing a code that fits in `width` bits at `shift` stays inside the field's
/// mask, and extracting it from any byte it was merged into gives the code back.
pub proof fn lemma_code_in_field(current: u8, code: u8, shift: u8, width: u8)
    requires
        1 <= width,
        shift + width <= 8,
        code <= field_mask(0, width),
    ensures
        ((code << shift) as u8) & !field_mask(shift, width) == 0,
        extracted(merged(current, field_mask(shift, width), (code << shift) as u8), field_mask(shift, width), shift) == code,
{
    assert(((code << shift) as u8) & !(((((1u16 << width) - 1) as u8) << shift) as u8) == 0
        && ((((current & !(((((1u16 << width) - 1) as u8) << shift) as u8)) | (((code << shift) as u8)
        & (((((1u16 << width) - 1) as u8) << shift) as u8))) & (((((1u16 << width) - 1) as u8) << shift) as u8))
        >> shift) == code) by (bit_vector)
        requires
            1 <= width,
            shift + width <= 8,
            code <= (((((1u16 << width) - 1) as u8) << 0u8) as u8),
    ;
}

/// Merging a field never changes the bits of another field whose mask is
/// disjoint from it.
pub proof fn lemma_mask_preservation(current: u8, mask_a: u8, bits_a: u8, mask_b: u8)
    requires
        mask_a & mask_b == 0,
    ensures
        merged(current, mask_a, bits_a) & mask_b == current & mask_b,
{
    assert(((current & !mask_a) | (bits_a & mask_a)) & mask_b == current & mask_b) by (bit_vector)
        requires
            mask_a & mask_b == 0,
    ;
}

} // verus!
