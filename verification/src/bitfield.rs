use vstd::prelude::*;

verus! {

/// A mask of the low `width` bits.
pub open spec fn low_mask(width: u64) -> u64 {
    ((1u64 << width) - 1) as u64
}

/// The `width`-bit field of `word` starting at bit `lsb`.
pub open spec fn spec_get_field(word: u64, lsb: u64, width: u64) -> u64 {
    (word >> lsb) & low_mask(width)
}

/// `word` with its `width`-bit field at `lsb` replaced by the low `width` bits of `value`.
pub open spec fn spec_set_field(word: u64, lsb: u64, width: u64, value: u64) -> u64 {
    (word & !(low_mask(width) << lsb)) | ((value & low_mask(width)) << lsb)
}

/// Reads the `width`-bit field of `word` at bit `lsb`.
pub fn get_field(word: u64, lsb: u64, width: u64) -> (r: u64)
    requires
        0 < width < 64,
        lsb + width <= 64,
    ensures
        r == spec_get_field(word, lsb, width),
        r <= low_mask(width),
        r < 1u64 << width,
{
    assert(1u64 << width >= 1) by (bit_vector)
        requires
            0 < width < 64,
    ;
    let r = (word >> lsb) & ((1u64 << width) - 1);
    assert(((word >> lsb) & (((1u64 << width) - 1) as u64)) <= (((1u64 << width) - 1) as u64)
        && (((1u64 << width) - 1) as u64) < (1u64 << width) && 1u64 << width >= 1) by (bit_vector)
        requires
            0 < width < 64,
    ;
    r
}

/// Replaces the `width`-bit field of `word` at bit `lsb` with the low bits of `value`.
pub fn set_field(word: u64, lsb: u64, width: u64, value: u64) -> (r: u64)
    requires
        0 < width < 64,
        lsb + width <= 64,
    ensures
        r == spec_set_field(word, lsb, width, value),
{
    assert(1u64 << width >= 1) by (bit_vector)
        requires
            0 < width < 64,
    ;
    let mask = (1u64 << width) - 1;
    (word & !(mask << lsb)) | ((value & mask) << lsb)
}

/// Reading a field just written gives back the low bits of the value written.
pub proof fn lemma_get_set_same(word: u64, lsb: u64, width: u64, value: u64)
    requires
        0 < width < 64,
        lsb + width <= 64,
    ensures
        spec_get_field(spec_set_field(word, lsb, width, value), lsb, width) == value & low_mask(
            width,
        ),
        value < 1u64 << width ==> spec_get_field(spec_set_field(word, lsb, width, value), lsb, width)
            == value,
{
    assert(((((word & !((((1u64 << width) - 1) as u64) << lsb)) | ((value & (((1u64 << width)
        - 1) as u64)) << lsb)) >> lsb) & (((1u64 << width) - 1) as u64)) == (value & (((1u64
        << width) - 1) as u64)) && (value < (1u64 << width) ==> (value & (((1u64 << width) - 1)
        as u64)) == value)) by (bit_vector)
        requires
            0 < width < 64,
            lsb + width <= 64,
    ;
}

/// A field is no larger than its mask.
pub proof fn lemma_get_field_bound(word: u64, lsb: u64, width: u64)
    requires
        0 < width < 64,
        lsb + width <= 64,
    ensures
        spec_get_field(word, lsb, width) <= low_mask(width),
{
    assert(((word >> lsb) & (((1u64 << width) - 1) as u64)) <= (((1u64 << width) - 1) as u64))
        by (bit_vector);
}

/// Reading a one-bit field just written gives back the flag written.
pub proof fn lemma_get_set_flag(word: u64, lsb: u64, flag: bool)
    requires
        lsb < 64,
    ensures
        spec_get_field(spec_set_field(word, lsb, 1, if flag { 1 } else { 0 }), lsb, 1) == if flag {
            1u64
        } else {
            0u64
        },
{
    assert(1u64 << 1u64 == 2) by (bit_vector);
    lemma_get_set_same(word, lsb, 1, if flag { 1 } else { 0 });
}

/// Writing a field leaves every field that does not overlap it unchanged.
pub proof fn lemma_get_set_other(
    word: u64,
    lsb: u64,
    width: u64,
    value: u64,
    lsb2: u64,
    width2: u64,
)
    requires
        0 < width < 64,
        lsb + width <= 64,
        0 < width2 < 64,
        lsb2 + width2 <= 64,
        lsb2 + width2 <= lsb || lsb + width <= lsb2,
    ensures
        spec_get_field(spec_set_field(word, lsb, width, value), lsb2, width2) == spec_get_field(
            word,
            lsb2,
            width2,
        ),
{
    assert(((((word & !((((1u64 << width) - 1) as u64) << lsb)) | ((value & (((1u64 << width)
        - 1) as u64)) << lsb)) >> lsb2) & (((1u64 << width2) - 1) as u64)) == ((word >> lsb2) & (
    ((1u64 << width2) - 1) as u64))) by (bit_vector)
        requires
            0 < width < 64,
            lsb + width <= 64,
            0 < width2 < 64,
            lsb2 + width2 <= 64,
            lsb2 + width2 <= lsb || lsb + width <= lsb2,
    ;
}

/// The fields of zero are zero.
pub proof fn lemma_get_zero(lsb: u64, width: u64)
    requires
        0 < width < 64,
        lsb + width <= 64,
    ensures
        spec_get_field(0, lsb, width) == 0,
{
    assert(((0u64 >> lsb) & (((1u64 << width) - 1) as u64)) == 0) by (bit_vector);
}

} // verus!
