//! Indexed form of [`ProhibitedContent`].

use crate::dynamodb::prohibited_content_record::{ProhibitedContentRecord, prohibited_content_of_prohibited_content_record};
use crate::values::ProhibitedContent;
use vstd::prelude::*;
use vstd::std_specs::convert::FromSpecImpl;

verus! {

/// Screening outcome as indexed in a product or image document.
#[derive(Clone, Copy, Debug, PartialEq, Eq, Structural, Hash)]
pub enum ProhibitedContentDocument {
    Unknown,
    NoneDetected,
    NaziGermany,
}

/// The indexed form of a stored prohibited content decision.
pub open spec fn prohibited_content_document_of_prohibited_content_record(record: ProhibitedContentRecord) -> ProhibitedContentDocument {
    match record {
        ProhibitedContentRecord::Unknown => ProhibitedContentDocument::Unknown,
        ProhibitedContentRecord::NoneDetected => ProhibitedContentDocument::NoneDetected,
        ProhibitedContentRecord::NaziGermany => ProhibitedContentDocument::NaziGermany,
    }
}

impl From<ProhibitedContentRecord> for ProhibitedContentDocument {
    fn from(record: ProhibitedContentRecord) -> (ret: Self) {
        match record {
            ProhibitedContentRecord::Unknown => ProhibitedContentDocument::Unknown,
            ProhibitedContentRecord::NoneDetected => ProhibitedContentDocument::NoneDetected,
            ProhibitedContentRecord::NaziGermany => ProhibitedContentDocument::NaziGermany,
        }
    }
}

impl FromSpecImpl<ProhibitedContentRecord> for ProhibitedContentDocument {
    open spec fn obeys_from_spec() -> bool {
        true
    }

    open spec fn from_spec(record: ProhibitedContentRecord) -> Self {
        prohibited_content_document_of_prohibited_content_record(record)
    }
}

/// The domain value an indexed prohibited content decision stands for.
pub open spec fn prohibited_content_of_prohibited_content_document(document: ProhibitedContentDocument) -> ProhibitedContent {
    match document {
        ProhibitedContentDocument::Unknown => ProhibitedContent::Unknown,
        ProhibitedContentDocument::NoneDetected => ProhibitedContent::NoneDetected,
        ProhibitedContentDocument::NaziGermany => ProhibitedContent::NaziGermany,
    }
}

impl From<ProhibitedContentDocument> for ProhibitedContent {
    fn from(document: ProhibitedContentDocument) -> (ret: Self) {
        match document {
            ProhibitedContentDocument::Unknown => ProhibitedContent::Unknown,
            ProhibitedContentDocument::NoneDetected => ProhibitedContent::NoneDetected,
            ProhibitedContentDocument::NaziGermany => ProhibitedContent::NaziGermany,
        }
    }
}

impl FromSpecImpl<ProhibitedContentDocument> for ProhibitedContent {
    open spec fn obeys_from_spec() -> bool {
        true
    }

    open spec fn from_spec(document: ProhibitedContentDocument) -> Self {
        prohibited_content_of_prohibited_content_document(document)
    }
}

/// The indexed form of a prohibited content decision.
pub open spec fn prohibited_content_document_of_prohibited_content(value: ProhibitedContent) -> ProhibitedContentDocument {
    match value {
        ProhibitedContent::Unknown => ProhibitedContentDocument::Unknown,
        ProhibitedContent::NoneDetected => ProhibitedContentDocument::NoneDetected,
        ProhibitedContent::NaziGermany => ProhibitedContentDocument::NaziGermany,
    }
}

impl From<ProhibitedContent> for ProhibitedContentDocument {
    fn from(value: ProhibitedContent) -> (ret: Self) {
        match value {
            ProhibitedContent::Unknown => ProhibitedContentDocument::Unknown,
            ProhibitedContent::NoneDetected => ProhibitedContentDocument::NoneDetected,
            ProhibitedContent::NaziGermany => ProhibitedContentDocument::NaziGermany,
        }
    }
}

impl FromSpecImpl<ProhibitedContent> for ProhibitedContentDocument {
    open spec fn obeys_from_spec() -> bool {
        true
    }

    open spec fn from_spec(value: ProhibitedContent) -> Self {
        prohibited_content_document_of_prohibited_content(value)
    }
}

/// Indexing a prohibited content decision and reading it back gives the same value, and indexing a stored
/// prohibited content decision directly agrees with reading it into the domain first.
pub proof fn lemma_prohibited_content_document_round_trip(value: ProhibitedContent, document: ProhibitedContentDocument, record: ProhibitedContentRecord)
    ensures
        prohibited_content_of_prohibited_content_document(prohibited_content_document_of_prohibited_content(value)) == value,
        prohibited_content_document_of_prohibited_content(prohibited_content_of_prohibited_content_document(document)) == document,
        prohibited_content_document_of_prohibited_content_record(record) == prohibited_content_document_of_prohibited_content(prohibited_content_of_prohibited_content_record(record)),
{
}

/// Every value is stored and indexed as the variant of the same name: indexing its
/// stored form gives the indexed form of the value itself, and both read back as the
/// value.
pub proof fn lemma_prohibited_content_forms_agree(value: crate::values::ProhibitedContent)
    ensures
        prohibited_content_document_of_prohibited_content_record(crate::dynamodb::prohibited_content_record::prohibited_content_record_of_prohibited_content(value))
            == prohibited_content_document_of_prohibited_content(value),
        crate::dynamodb::prohibited_content_record::prohibited_content_of_prohibited_content_record(crate::dynamodb::prohibited_content_record::prohibited_content_record_of_prohibited_content(value)) == value,
        prohibited_content_of_prohibited_content_document(prohibited_content_document_of_prohibited_content(value)) == value,
{
}

} // verus!
