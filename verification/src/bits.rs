//! Single-bit and bit-range access on 32-bit words, the storage of every flag
//! set in this crate.

use vstd::prelude::*;

verus! {

/// Whether bit `bit` of `raw` is set.
pub open spec fn bit_at(raw: u32, bit: u32) -> bool {
    (raw >> bit) & 1u32 == 1u32
}

/// `raw` with bit `bit` set to `value`.
pub open spec fn with_bit(raw: u32, bit: u32, value: bool) -> u32 {
    if value {
        raw | (1u32 << bit)
    } else {
        raw & !(1u32 << bit)
    }
}

/// The `width` bits of `raw` that start at bit `lsb`.
pub open spec fn field_at(raw: u32, lsb: u32, width: u32) -> u32 {
    (raw >> lsb) & (((1u32 << width) - 1) as u32)
}

/// `raw` with the `width` bits that start at `lsb` replaced by the low bits of `value`.
pub open spec fn with_field(raw: u32, lsb: u32, width: u32, value: u32) -> u32 {
    let mask = ((((1u32 << width) - 1) as u32) << lsb);
    (raw & !mask) | ((value << lsb) & mask)
}

/// Reads one bit through `bitfield::Bit::bit` on a `u32`.
///
/// Trusted: the result is bit `bit` of `raw`. The outside shifts overflow for
/// `bit >= 32`, which the precondition leaves out.
#[verifier::external_body]
pub(crate) fn get_bit(raw: u32, bit: usize) -> (set: bool)
    requires
        bit < 32,
    ensures
        set == bit_at(raw, bit as u32),
{
    bitfield::Bit::bit(&raw, bit)
}

/// Writes one bit through `bitfield::BitMut::set_bit` on a `u32`.
///
/// Trusted: only bit `bit` changes, and it becomes `value`.
#[verifier::external_body]
pub(crate) fn set_bit(raw: &mut u32, bit: usize, value: bool)
    requires
        bit < 32,
    ensures
        *final(raw) == with_bit(*old(raw), bit as u32, value),
{
    bitfield::BitMut::set_bit(raw, bit, value)
}

/// Reads bits `lsb..=msb` through `bitfield::BitRange::<u8>::bit_range` on a `u32`.
///
/// Trusted: the result is the field, right-aligned. The range is at most eight
/// bits wide and lies inside the word.
#[verifier::external_body]
pub(crate) fn get_field(raw: u32, msb: usize, lsb: usize) -> (value: u8)
    requires
        lsb <= msb < 32,
        msb - lsb < 8,
    ensures
        value as u32 == field_at(raw, lsb as u32, (msb - lsb + 1) as u32),
{
    bitfield::BitRange::<u8>::bit_range(&raw, msb, lsb)
}

/// Writes bits `lsb..=msb` through `bitfield::BitRangeMut::<u8>::set_bit_range` on a `u32`.
///
/// Trusted: the field takes the low bits of `value`, every other bit stays.
#[verifier::external_body]
pub(crate) fn set_field(raw: &mut u32, msb: usize, lsb: usize, value: u8)
    requires
        lsb <= msb < 32,
        msb - lsb < 8,
    ensures
        *final(raw) == with_field(*old(raw), lsb as u32, (msb - lsb + 1) as u32, value as u32),
{
    bitfield::BitRangeMut::<u8>::set_bit_range(raw, msb, lsb, value)
}

/// Reading a bit after writing one: the written bit holds the new value, the others are unchanged.
pub proof fn lemma_bit_after_write(raw: u32, written: u32, value: bool, read: u32)
    requires
        written < 32,
        read < 32,
    ensures
        bit_at(with_bit(raw, written, value), read) == (if read == written {
            value
        } else {
            bit_at(raw, read)
        }),
{
    assert(((raw | (1u32 << written)) >> read) & 1u32 == (if read == written {
        1u32
    } else {
        (raw >> read) & 1u32
    })) by (bit_vector)
        requires
            written < 32,
            read < 32,
    ;
    assert(((raw & !(1u32 << written)) >> read) & 1u32 == (if read == written {
        0u32
    } else {
        (raw >> read) & 1u32
    })) by (bit_vector)
        requires
            written < 32,
            read < 32,
    ;
    assert((raw >> read) & 1u32 == 0u32 || (raw >> read) & 1u32 == 1u32) by (bit_vector);
}

/// A word is zero exactly when none of its bits is set.
pub proof fn lemma_zero_iff_no_bit(raw: u32)
    ensures
        raw == 0 <==> (forall|bit: u32| bit < 32 ==> !#[trigger] bit_at(raw, bit)),
{
    if raw == 0 {
        assert forall|bit: u32| bit < 32 implies !#[trigger] bit_at(raw, bit) by {
            assert((0u32 >> bit) & 1u32 == 0u32) by (bit_vector);
        }
    } else {
        let bit = choose_set_bit(raw);
    }
}

/// Some set bit of a word that is not zero.
pub proof fn choose_set_bit(raw: u32) -> (bit: u32)
    requires
        raw != 0,
    ensures
        bit < 32,
        bit_at(raw, bit),
{
    assert(raw != 0 ==> (raw >> 0u32) != 0u32) by (bit_vector);
    lowest_set_bit_from(raw, 0)
}

proof fn lowest_set_bit_from(raw: u32, start: u32) -> (bit: u32)
    requires
        start < 32,
        (raw >> start) != 0,
    ensures
        start <= bit < 32,
        bit_at(raw, bit),
    decreases 32 - start,
{
    if (raw >> start) & 1u32 == 1u32 {
        start
    } else {
        assert(start < 31 && (raw >> ((start + 1) as u32)) != 0) by (bit_vector)
            requires
                start < 32,
                (raw >> start) != 0,
                (raw >> start) & 1u32 != 1u32,
        ;
        lowest_set_bit_from(raw, (start + 1) as u32)
    }
}

} // verus!
