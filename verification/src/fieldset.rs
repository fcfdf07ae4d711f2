//! The field set: one storage word and the fields registered in it.

use vstd::prelude::*;
use std::collections::HashMap;
use vstd::std_specs::convert::{IntoSpec, TryFromSpec};
use crate::error::Error;
use crate::model::{typed_outcome, FieldSetModel};
use crate::word::{extract, merge, StorageType, STORAGE_BITS};

verus! {

/// Where one field lies in the storage word.
#[derive(Debug)]
struct BitField {
    /// The position of the field's lowest bit.
    pos: StorageType,
    /// The number of bits that the field occupies.
    width: StorageType,
}

/// A set of bit fields packed into one storage word.
///
/// The set is created with a capacity in bits, at most the width of the
/// storage word, and keeps it. A field is known by the position of its lowest
/// bit; fields are registered one by one, each with its width, and are never
/// removed.
///
/// Three things are deliberately simple:
/// - `add` looks for a field at the very position only. A field whose range
///   crosses that of another field which starts elsewhere is accepted.
/// - `insert` adds bits to the word and clears none, so a field that was
///   written before holds the bits of both values afterwards.
/// - `insert` does not hold a value to the width of its field. A wider value
///   reaches into the bits above the field.
#[derive(Debug)]
pub struct BitFieldSet {
    /// Total number of bits spanned by this set.
    num_bits: u32,
    /// The packed word.
    storage: StorageType,
    /// The registered fields, by position.
    entries: HashMap<u32, BitField>,
}

impl View for BitFieldSet {
    type V = FieldSetModel;

    closed spec fn view(&self) -> FieldSetModel {
        FieldSetModel {
            num_bits: self.num_bits,
            storage: self.storage,
            fields: Map::new(
                |pos: u32| self.entries@.contains_key(pos),
                |pos: u32| self.entries@[pos].width,
            ),
        }
    }
}

/// Turns the outcome of a conversion into the outcome of a typed read:
/// whatever the conversion objected to, the read reports `TryFromError`.
pub fn converted<T, E>(outcome: Result<T, E>) -> (typed: Result<T, Error>)
    ensures
        typed == typed_outcome(outcome),
{
    match outcome {
        Ok(value) => Ok(value),
        Err(_) => Err(Error::TryFromError),
    }
}

impl BitFieldSet {
    /// Every entry is kept under the position that it records.
    pub closed spec fn keyed_by_position(&self) -> bool {
        forall|pos: u32| #[trigger]
            self.entries@.contains_key(pos) ==> self.entries@[pos].pos == pos
    }

    /// The invariant of the set: its model is valid and its entries are
    /// consistent. Every constructor establishes it and every method keeps it.
    pub open spec fn wf(&self) -> bool {
        &&& self@.valid()
        &&& self.keyed_by_position()
    }

    /// Creates a set that holds at most `num_bits` bits, with nothing stored
    /// and no field registered. The capacity asked for is the capacity kept;
    /// one beyond the width of the storage word is refused.
    pub fn new(num_bits: u32) -> (made: Result<Self, Error>)
        ensures
            match made {
                Ok(set) => {
                    &&& num_bits <= STORAGE_BITS
                    &&& set.wf()
                    &&& set@ == FieldSetModel::empty(num_bits)
                },
                Err(e) => num_bits > STORAGE_BITS && e == Error::OutOfBounds,
            },
    {
        if num_bits > STORAGE_BITS {
            return Err(Error::OutOfBounds);
        }
        let set = BitFieldSet { num_bits, storage: 0, entries: HashMap::new() };
        assert(set@.fields =~= Map::<u32, u32>::empty());
        Ok(set)
    }

    /// Tells whether a range of `width` bits from `pos` lies within the
    /// capacity of the set. The end of the range is taken as a number, so no
    /// position or width is too large to be judged.
    pub fn check_overflow(&self, pos: u32, width: u32) -> (checked: Result<(), Error>)
        ensures
            match checked {
                Ok(()) => self@.fits(pos, width),
                Err(e) => !self@.fits(pos, width) && e == Error::OutOfBounds,
            },
    {
        match pos.checked_add(width) {
            Some(end) => if end > self.num_bits {
                Err(Error::OutOfBounds)
            } else {
                Ok(())
            },
            None => Err(Error::OutOfBounds),
        }
    }

    /// Registers a field of `width` bits at `pos` without writing any bit.
    ///
    /// A range that reaches past the capacity is refused with `OutOfBounds`,
    /// and then a position at which a field starts already with
    /// `WouldOverlap`. A refused field changes nothing: the field that is
    /// registered at `pos` stays, and reads as before.
    pub fn add(&mut self, pos: u32, width: u32) -> (added: Result<(), Error>)
        requires
            old(self).wf(),
        ensures
            final(self).wf(),
            match added {
                Ok(()) => {
                    &&& old(self)@.fits(pos, width)
                    &&& !old(self)@.registered(pos)
                    &&& final(self)@ == old(self)@.register(pos, width)
                },
                Err(e) => {
                    &&& final(self)@ == old(self)@
                    &&& if old(self)@.fits(pos, width) {
                        old(self)@.registered(pos) && e == Error::WouldOverlap
                    } else {
                        e == Error::OutOfBounds
                    }
                },
            },
    {
        broadcast use vstd::std_specs::hash::group_hash_axioms;

        if pos > self.num_bits {
            return Err(Error::OutOfBounds);
        }
        match self.check_overflow(pos, width) {
            Err(e) => {
                return Err(e);
            },
            Ok(()) => {},
        }
        if self.entries.contains_key(&pos) {
            return Err(Error::WouldOverlap);
        }
        self.entries.insert(pos, BitField { pos, width });
        assert(self@.fields =~= old(self)@.fields.insert(pos, width));
        Ok(())
    }

    /// Writes `data` at `pos` as a field of `width` bits and registers the
    /// field, in place of any field that started at `pos`. Returns the value
    /// that `data` was converted to.
    ///
    /// A range that reaches past the capacity is refused with `OutOfBounds`,
    /// and then a type `D` that takes more bytes than the set has bits with
    /// `DataTooLarge`. A refused value changes nothing. `data` is converted
    /// unless the position alone is past the capacity.
    pub fn insert<D: Into<StorageType>>(&mut self, pos: u32, width: u32, data: D) -> (written:
        Result<StorageType, Error>)
        requires
            old(self).wf(),
        ensures
            final(self).wf(),
            match written {
                Ok(value) => {
                    &&& old(self)@.fits(pos, width)
                    &&& vstd::layout::size_of::<D>() <= old(self)@.num_bits
                    &&& call_ensures(D::into, (data,), value)
                    &&& D::obeys_into_spec() ==> value == data.into_spec()
                    &&& final(self)@ == old(self)@.write(pos, width, value)
                },
                Err(e) => {
                    &&& final(self)@ == old(self)@
                    &&& if old(self)@.fits(pos, width) {
                        vstd::layout::size_of::<D>() > old(self)@.num_bits && e
                            == Error::DataTooLarge
                    } else {
                        e == Error::OutOfBounds
                    }
                },
            },
    {
        if pos > self.num_bits {
            return Err(Error::OutOfBounds);
        }
        let value: StorageType = data.into();
        self.insert_value(pos, width, value, core::mem::size_of::<D>())
    }

    /// Writes `value` at `pos` as a field of `width` bits and registers the
    /// field, for a value that was converted from a type of `source_bytes`
    /// bytes. This is what `insert` does once `data` is converted.
    pub fn insert_value(
        &mut self,
        pos: u32,
        width: u32,
        value: StorageType,
        source_bytes: usize,
    ) -> (written: Result<StorageType, Error>)
        requires
            old(self).wf(),
        ensures
            final(self).wf(),
            match written {
                Ok(stored) => {
                    &&& old(self)@.fits(pos, width)
                    &&& source_bytes <= old(self)@.num_bits
                    &&& stored == value
                    &&& final(self)@ == old(self)@.write(pos, width, value)
                },
                Err(e) => {
                    &&& final(self)@ == old(self)@
                    &&& if old(self)@.fits(pos, width) {
                        source_bytes > old(self)@.num_bits && e == Error::DataTooLarge
                    } else {
                        e == Error::OutOfBounds
                    }
                },
            },
    {
        broadcast use vstd::std_specs::hash::group_hash_axioms;

        let data_too_large = source_bytes > self.num_bits as usize;
        match self.check_overflow(pos, width) {
            Err(e) => {
                return Err(e);
            },
            Ok(()) => {},
        }
        if data_too_large {
            return Err(Error::DataTooLarge);
        }
        self.storage = merge(self.storage, pos, value);
        self.entries.insert(pos, BitField { pos, width });
        assert(self@.fields =~= old(self)@.fields.insert(pos, width));
        Ok(value)
    }

    /// Reads the field that starts at `pos`: the bits of its range, as an
    /// unsigned number. Where no field starts at `pos` there is nothing to
    /// read, whatever the word holds there.
    pub fn get(&self, pos: StorageType) -> (value: Option<StorageType>)
        requires
            self.wf(),
        ensures
            value == self@.read(pos),
    {
        broadcast use vstd::std_specs::hash::group_hash_axioms;

        match self.entries.get(&pos) {
            None => None,
            Some(entry) => Some(extract(self.storage, entry.pos, entry.width)),
        }
    }

    /// Reads the field that starts at `pos` as a value of type `T`.
    ///
    /// Fails with `TryFromError`, and with nothing else, where no field
    /// starts at `pos` and where the conversion refuses what the field holds.
    /// The conversion is handed the very value that `get` returns.
    pub fn get_as<T: TryFrom<StorageType>>(&self, pos: StorageType) -> (typed: Result<T, Error>)
        requires
            self.wf(),
        ensures
            T::obeys_try_from_spec() ==> typed == self@.read_as::<T>(pos),
            match self@.read(pos) {
                None => typed matches Err(e) && e == Error::TryFromError,
                Some(value) => exists|outcome: Result<T, T::Error>|
                    #[trigger] call_ensures(T::try_from, (value,), outcome) && typed
                        == typed_outcome(outcome),
            },
    {
        match self.get(pos) {
            None => Err(Error::TryFromError),
            Some(value) => converted(T::try_from(value)),
        }
    }

    /// Hands out the packed word as it is, with every bit that was ever
    /// stored, registered or not.
    pub fn get_raw(&self) -> (raw: StorageType)
        ensures
            raw == self@.storage,
    {
        self.storage
    }
}

/// A set over a word that was packed earlier: the capacity is the whole of the
/// storage word, and no field is known until it is registered with `add`.
impl From<StorageType> for BitFieldSet {
    fn from(raw: StorageType) -> (set: Self)
        ensures
            set.wf(),
            set@ == FieldSetModel::of_raw(raw),
    {
        let set = BitFieldSet { num_bits: STORAGE_BITS, storage: raw, entries: HashMap::new() };
        assert(set@.fields =~= Map::<u32, u32>::empty());
        set
    }
}

impl vstd::std_specs::convert::FromSpecImpl<StorageType> for BitFieldSet {
    /// Two sets with the same model need not be the same value, so `from` is
    /// described by the model of its result, and `from_spec` names no more
    /// than some set with that model.
    open spec fn obeys_from_spec() -> bool {
        false
    }

    open spec fn from_spec(raw: StorageType) -> Self {
        choose|set: BitFieldSet| set.wf() && set@ == FieldSetModel::of_raw(raw)
    }
}

} // verus!
