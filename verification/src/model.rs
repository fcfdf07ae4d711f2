//! The mathematical model of a field set.
//!
//! Every contract of the field set is stated over this model, and so are the
//! properties in `laws`.

use vstd::prelude::*;
use vstd::std_specs::convert::TryFromSpec;
use crate::error::Error;
use crate::word::{field_bits, merged, StorageType, STORAGE_BITS};

verus! {

/// What a field set is, as far as any operation can tell: its capacity, its
/// storage word, and the width of the field registered at each position.
pub struct FieldSetModel {
    /// The number of bits that fields may occupy.
    pub num_bits: u32,
    /// The packed word.
    pub storage: StorageType,
    /// For each position at which a field starts, the width of that field.
    pub fields: Map<u32, u32>,
}

impl FieldSetModel {
    /// A set of the given capacity with nothing stored and nothing registered.
    pub open spec fn empty(num_bits: u32) -> FieldSetModel {
        FieldSetModel { num_bits, storage: 0, fields: Map::empty() }
    }

    /// A set over a word that was packed earlier: the whole word is capacity,
    /// and no field is registered yet.
    pub open spec fn of_raw(raw: StorageType) -> FieldSetModel {
        FieldSetModel { num_bits: STORAGE_BITS, storage: raw, fields: Map::empty() }
    }

    /// The capacity fits the storage word, and every registered field lies
    /// within the capacity.
    pub open spec fn valid(self) -> bool {
        &&& self.num_bits <= STORAGE_BITS
        &&& forall|pos: u32| #[trigger]
            self.fields.contains_key(pos) ==> pos + self.fields[pos] <= self.num_bits
    }

    /// The range of `width` bits from `pos` lies within the capacity.
    pub open spec fn fits(self, pos: u32, width: u32) -> bool {
        pos + width <= self.num_bits
    }

    /// A field starts at `pos`.
    pub open spec fn registered(self, pos: u32) -> bool {
        self.fields.contains_key(pos)
    }

    /// The value of the field that starts at `pos`, if one is registered there.
    pub open spec fn read(self, pos: u32) -> Option<StorageType> {
        if self.fields.contains_key(pos) {
            Some(field_bits(self.storage, pos, self.fields[pos]))
        } else {
            None
        }
    }

    /// The field that starts at `pos` as a value of type `T`, for a `T` whose
    /// conversion from a word is `try_from_spec`.
    pub open spec fn read_as<T: TryFrom<StorageType>>(self, pos: u32) -> Result<T, Error> {
        match self.read(pos) {
            None => Err(Error::TryFromError),
            Some(value) => typed_outcome(T::try_from_spec(value)),
        }
    }

    /// The set with a field of `width` bits registered at `pos`, in place of
    /// any field that started there. The word is untouched.
    pub open spec fn register(self, pos: u32, width: u32) -> FieldSetModel {
        FieldSetModel {
            num_bits: self.num_bits,
            storage: self.storage,
            fields: self.fields.insert(pos, width),
        }
    }

    /// The set after `value` is written at `pos` as a field of `width` bits:
    /// the set bits of `value` are added to the word, none is cleared, and the
    /// field is registered.
    pub open spec fn write(self, pos: u32, width: u32, value: StorageType) -> FieldSetModel {
        FieldSetModel {
            num_bits: self.num_bits,
            storage: merged(self.storage, pos, value),
            fields: self.fields.insert(pos, width),
        }
    }
}

/// What a typed read makes of a conversion that ended in `outcome`: the typed
/// value where there is one, and `TryFromError` whatever the conversion
/// objected to.
pub open spec fn typed_outcome<T, E>(outcome: Result<T, E>) -> Result<T, Error> {
    match outcome {
        Ok(value) => Ok(value),
        Err(_) => Err(Error::TryFromError),
    }
}

} // verus!
