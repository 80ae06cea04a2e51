//! Indexed form of [`ProductState`].

use crate::dynamodb::product_state_record::{ProductStateRecord, product_state_of_product_state_record};
use crate::values::ProductState;
use vstd::prelude::*;
use vstd::std_specs::convert::FromSpecImpl;

verus! {

/// Sales state as indexed in a product document.
#[derive(Clone, Copy, Debug, PartialEq, Eq, Structural, Hash)]
pub enum ProductStateDocument {
    Listed,
    Available,
    Reserved,
    Sold,
    Removed,
    Unknown,
}

impl ProductStateDocument {
    /// The name under which the value is stored and queried.
    pub open spec fn spec_as_str(self) -> Seq<char> {
        match self {
            ProductStateDocument::Listed => "LISTED"@,
            ProductStateDocument::Available => "AVAILABLE"@,
            ProductStateDocument::Reserved => "RESERVED"@,
            ProductStateDocument::Sold => "SOLD"@,
            ProductStateDocument::Removed => "REMOVED"@,
            ProductStateDocument::Unknown => "UNKNOWN"@,
        }
    }

    pub fn as_str(&self) -> (s: &'static str)
        ensures
            s@ == self.spec_as_str(),
    {
        match self {
            ProductStateDocument::Listed => "LISTED",
            ProductStateDocument::Available => "AVAILABLE",
            ProductStateDocument::Reserved => "RESERVED",
            ProductStateDocument::Sold => "SOLD",
            ProductStateDocument::Removed => "REMOVED",
            ProductStateDocument::Unknown => "UNKNOWN",
        }
    }
}

/// The indexed form of a stored sales state.
pub open spec fn product_state_document_of_product_state_record(record: ProductStateRecord) -> ProductStateDocument {
    match record {
        ProductStateRecord::Listed => ProductStateDocument::Listed,
        ProductStateRecord::Available => ProductStateDocument::Available,
        ProductStateRecord::Reserved => ProductStateDocument::Reserved,
        ProductStateRecord::Sold => ProductStateDocument::Sold,
        ProductStateRecord::Removed => ProductStateDocument::Removed,
        ProductStateRecord::Unknown => ProductStateDocument::Unknown,
    }
}

impl From<ProductStateRecord> for ProductStateDocument {
    fn from(record: ProductStateRecord) -> (ret: Self) {
        match record {
            ProductStateRecord::Listed => ProductStateDocument::Listed,
            ProductStateRecord::Available => ProductStateDocument::Available,
            ProductStateRecord::Reserved => ProductStateDocument::Reserved,
            ProductStateRecord::Sold => ProductStateDocument::Sold,
            ProductStateRecord::Removed => ProductStateDocument::Removed,
            ProductStateRecord::Unknown => ProductStateDocument::Unknown,
        }
    }
}

impl FromSpecImpl<ProductStateRecord> for ProductStateDocument {
    open spec fn obeys_from_spec() -> bool {
        true
    }

    open spec fn from_spec(record: ProductStateRecord) -> Self {
        product_state_document_of_product_state_record(record)
    }
}

/// The domain value an indexed sales state stands for.
pub open spec fn product_state_of_product_state_document(document: ProductStateDocument) -> ProductState {
    match document {
        ProductStateDocument::Listed => ProductState::Listed,
        ProductStateDocument::Available => ProductState::Available,
        ProductStateDocument::Reserved => ProductState::Reserved,
        ProductStateDocument::Sold => ProductState::Sold,
        ProductStateDocument::Removed => ProductState::Removed,
        ProductStateDocument::Unknown => ProductState::Unknown,
    }
}

impl From<ProductStateDocument> for ProductState {
    fn from(document: ProductStateDocument) -> (ret: Self) {
        match document {
            ProductStateDocument::Listed => ProductState::Listed,
            ProductStateDocument::Available => ProductState::Available,
            ProductStateDocument::Reserved => ProductState::Reserved,
            ProductStateDocument::Sold => ProductState::Sold,
            ProductStateDocument::Removed => ProductState::Removed,
            ProductStateDocument::Unknown => ProductState::Unknown,
        }
    }
}

impl FromSpecImpl<ProductStateDocument> for ProductState {
    open spec fn obeys_from_spec() -> bool {
        true
    }

    open spec fn from_spec(document: ProductStateDocument) -> Self {
        product_state_of_product_state_document(document)
    }
}

/// The indexed form of a sales state.
pub open spec fn product_state_document_of_product_state(value: ProductState) -> ProductStateDocument {
    match value {
        ProductState::Listed => ProductStateDocument::Listed,
        ProductState::Available => ProductStateDocument::Available,
        ProductState::Reserved => ProductStateDocument::Reserved,
        ProductState::Sold => ProductStateDocument::Sold,
        ProductState::Removed => ProductStateDocument::Removed,
        ProductState::Unknown => ProductStateDocument::Unknown,
    }
}

impl From<ProductState> for ProductStateDocument {
    fn from(value: ProductState) -> (ret: Self) {
        match value {
            ProductState::Listed => ProductStateDocument::Listed,
            ProductState::Available => ProductStateDocument::Available,
            ProductState::Reserved => ProductStateDocument::Reserved,
            ProductState::Sold => ProductStateDocument::Sold,
            ProductState::Removed => ProductStateDocument::Removed,
            ProductState::Unknown => ProductStateDocument::Unknown,
        }
    }
}

impl FromSpecImpl<ProductState> for ProductStateDocument {
    open spec fn obeys_from_spec() -> bool {
        true
    }

    open spec fn from_spec(value: ProductState) -> Self {
        product_state_document_of_product_state(value)
    }
}

/// Indexing a sales state and reading it back gives the same value, and indexing a stored
/// sales state directly agrees with reading it into the domain first.
pub proof fn lemma_product_state_document_round_trip(value: ProductState, document: ProductStateDocument, record: ProductStateRecord)
    ensures
        product_state_of_product_state_document(product_state_document_of_product_state(value)) == value,
        product_state_document_of_product_state(product_state_of_product_state_document(document)) == document,
        product_state_document_of_product_state_record(record) == product_state_document_of_product_state(product_state_of_product_state_record(record)),
{
}

/// Every value is stored and indexed as the variant of the same name: indexing its
/// stored form gives the indexed form of the value itself, and both read back as the
/// value.
pub proof fn lemma_product_state_forms_agree(value: crate::values::ProductState)
    ensures
        product_state_document_of_product_state_record(crate::dynamodb::product_state_record::product_state_record_of_product_state(value))
            == product_state_document_of_product_state(value),
        crate::dynamodb::product_state_record::product_state_of_product_state_record(crate::dynamodb::product_state_record::product_state_record_of_product_state(value)) == value,
        product_state_of_product_state_document(product_state_document_of_product_state(value)) == value,
{
}

} // verus!
