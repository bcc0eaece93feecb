//! Bit fields of a 32-bit register word, and the facts about them that the
//! drivers rest on.

use vstd::prelude::*;

verus! {

/// The field of `word` that lies under `mask` after a right shift by `shift`.
pub open spec fn field_get(word: u32, shift: u32, mask: u32) -> u32 {
    (word >> shift) & mask
}

/// `word` with the field at `shift` under `mask` replaced by `value`.
pub open spec fn field_set(word: u32, shift: u32, mask: u32, value: u32) -> u32 {
    (word & !(mask << shift)) | (value << shift)
}

/// Whether a field at `shift` under `mask` lies inside a 32-bit word.
pub open spec fn field_fits(shift: u32, mask: u32) -> bool {
    shift < 32 && (mask << shift) >> shift == mask
}

/// A field reads back what was written to it.
pub proof fn lemma_field_set_get(word: u32, shift: u32, mask: u32, value: u32)
    by (bit_vector)
    requires
        shift < 32,
        (mask << shift) >> shift == mask,
        value & !mask == 0,
    ensures
        (((word & !(mask << shift)) | (value << shift)) >> shift) & mask == value,
{
}

/// Writing a field leaves every bit outside it as it was.
pub proof fn lemma_field_set_keeps(word: u32, shift: u32, mask: u32, value: u32, keep: u32)
    by (bit_vector)
    requires
        shift < 32,
        (mask << shift) >> shift == mask,
        value & !mask == 0,
        keep & (mask << shift) == 0,
    ensures
        ((word & !(mask << shift)) | (value << shift)) & keep == word & keep,
{
}

/// A field depends only on the bits that lie under it.
pub proof fn lemma_field_get_local(a: u32, b: u32, shift: u32, mask: u32)
    by (bit_vector)
    requires
        shift < 32,
        a & (mask << shift) == b & (mask << shift),
        (mask << shift) >> shift == mask,
    ensures
        (a >> shift) & mask == (b >> shift) & mask,
{
}

/// Writing one field leaves a field that does not overlap it as it was.
pub proof fn lemma_field_set_other(
    word: u32,
    shift: u32,
    mask: u32,
    value: u32,
    other_shift: u32,
    other_mask: u32,
)
    requires
        field_fits(shift, mask),
        field_fits(other_shift, other_mask),
        value & !mask == 0,
        (other_mask << other_shift) & (mask << shift) == 0,
    ensures
        field_get(field_set(word, shift, mask, value), other_shift, other_mask) == field_get(
            word,
            other_shift,
            other_mask,
        ),
{
    let keep: u32 = other_mask << other_shift;
    let written: u32 = field_set(word, shift, mask, value);
    lemma_field_set_keeps(word, shift, mask, value, keep);
    lemma_field_get_local(written, word, other_shift, other_mask);
}

} // verus!
