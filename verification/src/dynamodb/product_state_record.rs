//! Stored form of [`ProductState`].

use crate::values::ProductState;
use vstd::prelude::*;
use vstd::std_specs::convert::FromSpecImpl;

verus! {

/// Sales state as written to a product or event record.
#[derive(Clone, Copy, Debug, PartialEq, Eq, Structural, Hash)]
pub enum ProductStateRecord {
    Listed,
    Available,
    Reserved,
    Sold,
    Removed,
    Unknown,
}

/// The domain value a stored sales state stands for.
pub open spec fn product_state_of_product_state_record(record: ProductStateRecord) -> ProductState {
    match record {
        ProductStateRecord::Listed => ProductState::Listed,
        ProductStateRecord::Available => ProductState::Available,
        ProductStateRecord::Reserved => ProductState::Reserved,
        ProductStateRecord::Sold => ProductState::Sold,
        ProductStateRecord::Removed => ProductState::Removed,
        ProductStateRecord::Unknown => ProductState::Unknown,
    }
}

impl From<ProductStateRecord> for ProductState {
    fn from(record: ProductStateRecord) -> (ret: Self) {
        match record {
            ProductStateRecord::Listed => ProductState::Listed,
            ProductStateRecord::Available => ProductState::Available,
            ProductStateRecord::Reserved => ProductState::Reserved,
            ProductStateRecord::Sold => ProductState::Sold,
            ProductStateRecord::Removed => ProductState::Removed,
            ProductStateRecord::Unknown => ProductState::Unknown,
        }
    }
}

impl FromSpecImpl<ProductStateRecord> for ProductState {
    open spec fn obeys_from_spec() -> bool {
        true
    }

    open spec fn from_spec(record: ProductStateRecord) -> Self {
        product_state_of_product_state_record(record)
    }
}

/// The stored form of a sales state.
pub open spec fn product_state_record_of_product_state(value: ProductState) -> ProductStateRecord {
    match value {
        ProductState::Listed => ProductStateRecord::Listed,
        ProductState::Available => ProductStateRecord::Available,
        ProductState::Reserved => ProductStateRecord::Reserved,
        ProductState::Sold => ProductStateRecord::Sold,
        ProductState::Removed => ProductStateRecord::Removed,
        ProductState::Unknown => ProductStateRecord::Unknown,
    }
}

impl From<ProductState> for ProductStateRecord {
    fn from(value: ProductState) -> (ret: Self) {
        match value {
            ProductState::Listed => ProductStateRecord::Listed,
            ProductState::Available => ProductStateRecord::Available,
            ProductState::Reserved => ProductStateRecord::Reserved,
            ProductState::Sold => ProductStateRecord::Sold,
            ProductState::Removed => ProductStateRecord::Removed,
            ProductState::Unknown => ProductStateRecord::Unknown,
        }
    }
}

impl FromSpecImpl<ProductState> for ProductStateRecord {
    open spec fn obeys_from_spec() -> bool {
        true
    }

    open spec fn from_spec(value: ProductState) -> Self {
        product_state_record_of_product_state(value)
    }
}

/// Storing a sales state and reading it back gives the same value, and every stored
/// value is the stored form of exactly one domain value.
pub proof fn lemma_product_state_record_round_trip(value: ProductState, record: ProductStateRecord)
    ensures
        product_state_of_product_state_record(product_state_record_of_product_state(value)) == value,
        product_state_record_of_product_state(product_state_of_product_state_record(record)) == record,
{
}

} // verus!
