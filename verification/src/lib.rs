//! Sub-byte bit fields packed into a single storage word.
//!
//! A [`BitFieldSet`] carves one unsigned word into fields. A field is known by
//! the position of its lowest bit and has a width; values are written into
//! fields and read back, as plain numbers or as values of a type that can be
//! made from a number. The packed word can be taken out as it is, and a set
//! can be made from such a word again.
//!
//! - `word` holds the storage word, its bit ranges, and what holds of them.
//! - `model` holds the mathematical model over which every contract is stated.
//! - `fieldset` holds the set itself.
//! - `laws` holds what the operations of a set guarantee together.
//! - `error` holds the reasons for which an operation is refused.

pub mod error;
pub mod fieldset;
pub mod laws;
pub mod model;
pub mod word;

pub use crate::error::Error;
pub use crate::fieldset::BitFieldSet;
pub use crate::word::StorageType;
