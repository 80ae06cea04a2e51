//! Stored form of [`ProhibitedContent`].

use crate::values::ProhibitedContent;
use vstd::prelude::*;
use vstd::std_specs::convert::FromSpecImpl;

verus! {

/// Screening outcome as written to a product or image record.
#[derive(Clone, Copy, Debug, PartialEq, Eq, Structural, Hash)]
pub enum ProhibitedContentRecord {
    Unknown,
    NoneDetected,
    NaziGermany,
}

/// The domain value a stored prohibited content decision stands for.
pub open spec fn prohibited_content_of_prohibited_content_record(record: ProhibitedContentRecord) -> ProhibitedContent {
    match record {
        ProhibitedContentRecord::Unknown => ProhibitedContent::Unknown,
        ProhibitedContentRecord::NoneDetected => ProhibitedContent::NoneDetected,
        ProhibitedContentRecord::NaziGermany => ProhibitedContent::NaziGermany,
    }
}

impl From<ProhibitedContentRecord> for ProhibitedContent {
    fn from(record: ProhibitedContentRecord) -> (ret: Self) {
        match record {
            ProhibitedContentRecord::Unknown => ProhibitedContent::Unknown,
            ProhibitedContentRecord::NoneDetected => ProhibitedContent::NoneDetected,
            ProhibitedContentRecord::NaziGermany => ProhibitedContent::NaziGermany,
        }
    }
}

impl FromSpecImpl<ProhibitedContentRecord> for ProhibitedContent {
    open spec fn obeys_from_spec() -> bool {
        true
    }

    open spec fn from_spec(record: ProhibitedContentRecord) -> Self {
        prohibited_content_of_prohibited_content_record(record)
    }
}

/// The stored form of a prohibited content decision.
pub open spec fn prohibited_content_record_of_prohibited_content(value: ProhibitedContent) -> ProhibitedContentRecord {
    match value {
        ProhibitedContent::Unknown => ProhibitedContentRecord::Unknown,
        ProhibitedContent::NoneDetected => ProhibitedContentRecord::NoneDetected,
        ProhibitedContent::NaziGermany => ProhibitedContentRecord::NaziGermany,
    }
}

impl From<ProhibitedContent> for ProhibitedContentRecord {
    fn from(value: ProhibitedContent) -> (ret: Self) {
        match value {
            ProhibitedContent::Unknown => ProhibitedContentRecord::Unknown,
            ProhibitedContent::NoneDetected => ProhibitedContentRecord::NoneDetected,
            ProhibitedContent::NaziGermany => ProhibitedContentRecord::NaziGermany,
        }
    }
}

impl FromSpecImpl<ProhibitedContent> for ProhibitedContentRecord {
    open spec fn obeys_from_spec() -> bool {
        true
    }

    open spec fn from_spec(value: ProhibitedContent) -> Self {
        prohibited_content_record_of_prohibited_content(value)
    }
}

/// Storing a prohibited content decision and reading it back gives the same value, and every stored
/// value is the stored form of exactly one domain value.
pub proof fn lemma_prohibited_content_record_round_trip(value: ProhibitedContent, record: ProhibitedContentRecord)
    ensures
        prohibited_content_of_prohibited_content_record(prohibited_content_record_of_prohibited_content(value)) == value,
        prohibited_content_record_of_prohibited_content(prohibited_content_of_prohibited_content_record(record)) == record,
{
}

} // verus!
