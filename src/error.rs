//! Errors reported by the ledger and its registries.

use vstd::prelude::*;

verus! {

/// Why a ledger operation was refused. A refused operation changes nothing.
#[derive(Clone, Copy, PartialEq, Eq, Structural, Debug)]
pub enum LedgerError {
    /// An entry or tag position outside the current bounds.
    InvalidIndex,
    /// The name is already used by another tag.
    DuplicateTag,
    /// A tag name must not be empty.
    EmptyName,
    /// The color allocator reached its attempt bound without finding a
    /// free color, so a new tag would have shared a color with another.
    ColorSpaceExhausted,
}

} // verus!
