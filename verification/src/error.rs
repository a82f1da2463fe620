//! What can go wrong while a feed is fetched, by how much of the result it costs.

use vstd::prelude::*;

verus! {

/// A failure that ends a fetch task without a result.
#[derive(Clone, Copy, Debug, PartialEq, Eq, Structural)]
pub enum TaskError {
    /// The feed document could not be fetched.
    FetchError,
    /// The fetched bytes are not a feed document.
    ParseError,
}

/// A failure that leaves a feed without an icon and the task otherwise intact.
#[derive(Clone, Copy, Debug, PartialEq, Eq, Structural)]
pub enum IconError {
    /// The document has no link from which an icon address can be made.
    IconDerivationError,
    /// The icon could not be fetched.
    IconFetchError,
    /// The fetched icon bytes are not an image.
    IconDecodeError,
}

/// An entry has no link; such an entry is left out of the item list.
#[derive(Clone, Copy, Debug, PartialEq, Eq, Structural)]
pub struct ItemLinkMissing;

} // verus!
