//! The errors of the relational store.

use vstd::prelude::*;

verus! {

/// Why reading or writing a product in the relational store failed.
#[derive(Clone, Copy, Debug, PartialEq, Eq, Structural, Hash)]
pub enum ProductRepositoryError {
    /// The product was changed by someone else since it was read.
    ConcurrencyConflict,
    /// Another product has the same shop and shop identifier.
    ProductKeyConflict,
    /// Another product has the same slug.
    SlugConflict,
    /// The store cannot be reached for now.
    TemporarilyUnavailable,
    /// A stored row does not describe a valid product.
    InvalidPersistedState,
    /// Any other failure.
    Internal,
}

/// Why appending an event to the store failed.
#[derive(Clone, Copy, Debug, PartialEq, Eq, Structural, Hash)]
pub enum ProductEventStoreError {
    /// An event with the same identifier is already stored.
    EventConflict,
    /// The store cannot be reached for now.
    TemporarilyUnavailable,
    /// The event cannot be stored as it is.
    InvalidEvent,
    /// Any other failure.
    Internal,
}

} // verus!
