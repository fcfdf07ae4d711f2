//! What holds of the operations of a field set, stated over its model.

use vstd::prelude::*;
use vstd::arithmetic::power2::pow2;
use vstd::std_specs::convert::TryFromSpec;
use crate::error::Error;
use crate::model::{typed_outcome, FieldSetModel};
use crate::word::{
    apart, field_bits, lemma_field_bits_bounded, lemma_low_mask_is_pow2,
    lemma_merge_keeps_disjoint, lemma_merge_then_extract, low_mask, StorageType, STORAGE_BITS,
};

verus! {

/// Registering a field within the capacity keeps a valid set valid.
pub proof fn lemma_register_keeps_valid(set: FieldSetModel, pos: u32, width: u32)
    requires
        set.valid(),
        set.fits(pos, width),
    ensures
        set.register(pos, width).valid(),
{
}

/// Writing a field within the capacity keeps a valid set valid.
pub proof fn lemma_write_keeps_valid(set: FieldSetModel, pos: u32, width: u32, value: StorageType)
    requires
        set.valid(),
        set.fits(pos, width),
    ensures
        set.write(pos, width, value).valid(),
{
}

/// A field never reads as more than its width can hold.
pub proof fn lemma_read_fits_width(set: FieldSetModel, pos: u32)
    requires
        set.valid(),
        set.registered(pos),
    ensures
        set.read(pos) matches Some(value) && value < pow2(set.fields[pos] as nat),
{
    lemma_field_bits_bounded(set.storage, pos, set.fields[pos]);
}

/// Where no field is registered, nothing is read: neither plainly nor typed.
pub proof fn lemma_unregistered_reads_nothing<T: TryFrom<StorageType>>(
    set: FieldSetModel,
    pos: u32,
)
    requires
        !set.registered(pos),
    ensures
        set.read(pos) is None,
        set.read_as::<T>(pos) == Err::<T, Error>(Error::TryFromError),
{
}

/// After a value that fits the width is written, the field holds the bits
/// that its range held before together with those of the value: a write
/// clears nothing.
pub proof fn lemma_write_adds_bits(set: FieldSetModel, pos: u32, width: u32, value: StorageType)
    requires
        set.valid(),
        set.fits(pos, width),
        value < pow2(width as nat),
    ensures
        set.write(pos, width, value).read(pos) == Some(
            field_bits(set.storage, pos, width) | value,
        ),
{
    lemma_low_mask_is_pow2(width);
    lemma_merge_then_extract(set.storage, pos, width, value);
}

/// Round trip: a value that fits the width, written into a range in which no
/// bit is set that the value lacks, is read back as it was written.
pub proof fn lemma_write_then_read(set: FieldSetModel, pos: u32, width: u32, value: StorageType)
    requires
        set.valid(),
        set.fits(pos, width),
        value < pow2(width as nat),
        field_bits(set.storage, pos, width) | value == value,
    ensures
        set.write(pos, width, value).read(pos) == Some(value),
{
    lemma_write_adds_bits(set, pos, width, value);
}

/// Round trip in a set in which nothing was stored yet: every value that fits
/// the width is read back as it was written.
pub proof fn lemma_first_write_then_read(num_bits: u32, pos: u32, width: u32, value: StorageType)
    requires
        num_bits <= STORAGE_BITS,
        pos + width <= num_bits,
        value < pow2(width as nat),
    ensures
        FieldSetModel::empty(num_bits).write(pos, width, value).read(pos) == Some(value),
{
    let stored = field_bits(0, pos, width);
    assert(stored == 0) by {
        if pos < STORAGE_BITS {
            let low = low_mask(width);
            assert((0u32 >> pos) & low == 0) by (bit_vector);
        }
    }
    assert(0u32 | value == value) by (bit_vector);
    lemma_write_then_read(FieldSetModel::empty(num_bits), pos, width, value);
}

/// Typed round trip: where a value is read back as it was written, a typed
/// read gives what the conversion makes of that value, the typed value where
/// there is one and `TryFromError` where there is none.
pub proof fn lemma_typed_write_then_read<T: TryFrom<StorageType>>(
    set: FieldSetModel,
    pos: u32,
    width: u32,
    value: StorageType,
)
    requires
        set.valid(),
        set.fits(pos, width),
        value < pow2(width as nat),
        field_bits(set.storage, pos, width) | value == value,
    ensures
        set.write(pos, width, value).read_as::<T>(pos) == typed_outcome(T::try_from_spec(value)),
{
    lemma_write_then_read(set, pos, width, value);
}

/// Writing a value that fits the width of its field leaves every field that
/// shares no bit with that field as it was.
pub proof fn lemma_write_keeps_other_fields(
    set: FieldSetModel,
    pos: u32,
    width: u32,
    value: StorageType,
    other: u32,
)
    requires
        set.valid(),
        set.fits(pos, width),
        value < pow2(width as nat),
        set.registered(other),
        other != pos,
        apart(pos, width, other, set.fields[other]),
    ensures
        set.write(pos, width, value).read(other) == set.read(other),
{
    lemma_low_mask_is_pow2(width);
    lemma_merge_keeps_disjoint(set.storage, pos, width, value, other, set.fields[other]);
}

/// A word taken out of one set and made into a new set reads alike: a field
/// of the old set is accepted by the new one, and once it is registered there
/// it holds the same value.
pub proof fn lemma_reimport_reads_alike(set: FieldSetModel, pos: u32)
    requires
        set.valid(),
        set.registered(pos),
    ensures
        FieldSetModel::of_raw(set.storage).fits(pos, set.fields[pos]),
        FieldSetModel::of_raw(set.storage).register(pos, set.fields[pos]).read(pos) == set.read(
            pos,
        ),
{
}

} // verus!
