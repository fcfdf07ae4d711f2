//! The ways in which an operation on a field set can be refused.

use vstd::prelude::*;

verus! {

/// Why an operation on a field set was refused. A refused operation leaves
/// the set as it was.
#[derive(Debug, Clone, Copy, PartialEq, Eq, Structural)]
pub enum Error {
    /// The type of the value handed to an insertion takes more bytes than the
    /// set has bits.
    DataTooLarge,
    /// A capacity, or the range of a field, reaches past what the set or the
    /// storage word can hold.
    OutOfBounds,
    /// A field is already registered at the position.
    WouldOverlap,
    /// No field is registered at the position that was read, or the field's
    /// value is none that the requested type has.
    TryFromError,
}

} // verus!
