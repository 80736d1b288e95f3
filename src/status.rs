//! The outcome of a registry lookup.

use vstd::prelude::*;

verus! {

/// What a registry page says about a NIF.
#[derive(Debug, Clone, Copy, PartialEq, Eq, Structural)]
pub enum NifStatus {
    /// The number is valid and the entity that holds it is named.
    ValidKnown,
    /// The number is valid but no entity could be associated with it.
    ValidUnknown,
    /// The page reports an error: the number is not valid.
    Error,
    /// The page lists several entities and no single one for the number.
    MultipleResults,
    /// The lookup failed or the page could not be read.
    Unknown,
}

} // verus!
