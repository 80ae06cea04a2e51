//! The errors and results that the store's test kit reports.

use crate::domain::EventId;
use crate::postgres::errors::{ProductEventStoreError, ProductRepositoryError};
use crate::postgres::repository::{LoadedProduct, ProductStateSnapshot};
use vstd::prelude::*;
use vstd::std_specs::convert::FromSpecImpl;

verus! {

/// A product read by the test kit, with the identifier of its current event.
#[derive(Debug)]
pub struct LoadedProductForTest {
    pub product: ProductStateSnapshot,
    pub current_event_id: EventId,
}

impl From<LoadedProduct> for LoadedProductForTest {
    fn from(loaded: LoadedProduct) -> (value: Self) {
        LoadedProductForTest { product: loaded.product, current_event_id: loaded.current_event_id }
    }
}

impl FromSpecImpl<LoadedProduct> for LoadedProductForTest {
    open spec fn obeys_from_spec() -> bool {
        true
    }

    open spec fn from_spec(loaded: LoadedProduct) -> Self {
        LoadedProductForTest { product: loaded.product, current_event_id: loaded.current_event_id }
    }
}

/// A failure as the test kit reports it, whichever store it came from.
#[derive(Clone, Copy, Debug, PartialEq, Eq, Structural, Hash)]
pub enum ProductPostgresTestError {
    ConcurrencyConflict,
    ProductKeyConflict,
    ProductSlugConflict,
    EventConflict,
    InvalidPersistedState,
    TemporarilyUnavailable,
    Internal,
}

impl ProductPostgresTestError {
    /// The message of the failure.
    pub open spec fn spec_message(self) -> Seq<char> {
        match self {
            ProductPostgresTestError::ConcurrencyConflict => "concurrent product update"@,
            ProductPostgresTestError::ProductKeyConflict => "product key conflict"@,
            ProductPostgresTestError::ProductSlugConflict => "product slug conflict"@,
            ProductPostgresTestError::EventConflict => "product event already exists"@,
            ProductPostgresTestError::InvalidPersistedState => "invalid product persistence state"@,
            ProductPostgresTestError::TemporarilyUnavailable => "temporary product persistence failure"@,
            ProductPostgresTestError::Internal => "internal product persistence failure"@,
        }
    }

    pub fn message(&self) -> (message: &'static str)
        ensures
            message@ == self.spec_message(),
    {
        match self {
            ProductPostgresTestError::ConcurrencyConflict => "concurrent product update",
            ProductPostgresTestError::ProductKeyConflict => "product key conflict",
            ProductPostgresTestError::ProductSlugConflict => "product slug conflict",
            ProductPostgresTestError::EventConflict => "product event already exists",
            ProductPostgresTestError::InvalidPersistedState => "invalid product persistence state",
            ProductPostgresTestError::TemporarilyUnavailable => "temporary product persistence failure",
            ProductPostgresTestError::Internal => "internal product persistence failure",
        }
    }
}

/// How a failure of the product store is reported by the test kit.
pub open spec fn test_error_of_repository_error(error: ProductRepositoryError) -> ProductPostgresTestError {
    match error {
        ProductRepositoryError::ConcurrencyConflict => ProductPostgresTestError::ConcurrencyConflict,
        ProductRepositoryError::ProductKeyConflict => ProductPostgresTestError::ProductKeyConflict,
        ProductRepositoryError::SlugConflict => ProductPostgresTestError::ProductSlugConflict,
        ProductRepositoryError::TemporarilyUnavailable => ProductPostgresTestError::TemporarilyUnavailable,
        ProductRepositoryError::InvalidPersistedState => ProductPostgresTestError::InvalidPersistedState,
        ProductRepositoryError::Internal => ProductPostgresTestError::Internal,
    }
}

impl From<ProductRepositoryError> for ProductPostgresTestError {
    fn from(error: ProductRepositoryError) -> (mapped: Self) {
        match error {
            ProductRepositoryError::ConcurrencyConflict => ProductPostgresTestError::ConcurrencyConflict,
            ProductRepositoryError::ProductKeyConflict => ProductPostgresTestError::ProductKeyConflict,
            ProductRepositoryError::SlugConflict => ProductPostgresTestError::ProductSlugConflict,
            ProductRepositoryError::TemporarilyUnavailable => ProductPostgresTestError::TemporarilyUnavailable,
            ProductRepositoryError::InvalidPersistedState => ProductPostgresTestError::InvalidPersistedState,
            ProductRepositoryError::Internal => ProductPostgresTestError::Internal,
        }
    }
}

impl FromSpecImpl<ProductRepositoryError> for ProductPostgresTestError {
    open spec fn obeys_from_spec() -> bool {
        true
    }

    open spec fn from_spec(error: ProductRepositoryError) -> Self {
        test_error_of_repository_error(error)
    }
}

/// How a failure of the event store is reported by the test kit: an event that
/// cannot be stored counts as invalid persisted state.
pub open spec fn test_error_of_event_store_error(error: ProductEventStoreError) -> ProductPostgresTestError {
    match error {
        ProductEventStoreError::EventConflict => ProductPostgresTestError::EventConflict,
        ProductEventStoreError::TemporarilyUnavailable => ProductPostgresTestError::TemporarilyUnavailable,
        ProductEventStoreError::InvalidEvent => ProductPostgresTestError::InvalidPersistedState,
        ProductEventStoreError::Internal => ProductPostgresTestError::Internal,
    }
}

impl From<ProductEventStoreError> for ProductPostgresTestError {
    fn from(error: ProductEventStoreError) -> (mapped: Self) {
        match error {
            ProductEventStoreError::EventConflict => ProductPostgresTestError::EventConflict,
            ProductEventStoreError::TemporarilyUnavailable => ProductPostgresTestError::TemporarilyUnavailable,
            ProductEventStoreError::InvalidEvent => ProductPostgresTestError::InvalidPersistedState,
            ProductEventStoreError::Internal => ProductPostgresTestError::Internal,
        }
    }
}

impl FromSpecImpl<ProductEventStoreError> for ProductPostgresTestError {
    open spec fn obeys_from_spec() -> bool {
        true
    }

    open spec fn from_spec(error: ProductEventStoreError) -> Self {
        test_error_of_event_store_error(error)
    }
}

} // verus!
