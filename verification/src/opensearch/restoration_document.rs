//! Indexed form of [`Restoration`].

use crate::dynamodb::restoration_record::{RestorationRecord, restoration_of_restoration_record};
use crate::values::Restoration;
use vstd::prelude::*;
use vstd::std_specs::convert::FromSpecImpl;

verus! {

/// Restoration as indexed in a product document.
#[derive(Clone, Copy, Debug, PartialEq, Eq, Structural, Hash)]
pub enum RestorationDocument {
    NoRestoration,
    Minor,
    Major,
    Unknown,
}

impl RestorationDocument {
    /// The name under which the value is stored and queried.
    pub open spec fn spec_as_str(self) -> Seq<char> {
        match self {
            RestorationDocument::NoRestoration => "NONE"@,
            RestorationDocument::Minor => "MINOR"@,
            RestorationDocument::Major => "MAJOR"@,
            RestorationDocument::Unknown => "UNKNOWN"@,
        }
    }

    pub fn as_str(&self) -> (s: &'static str)
        ensures
            s@ == self.spec_as_str(),
    {
        match self {
            RestorationDocument::NoRestoration => "NONE",
            RestorationDocument::Minor => "MINOR",
            RestorationDocument::Major => "MAJOR",
            RestorationDocument::Unknown => "UNKNOWN",
        }
    }
}

/// The indexed form of a stored restoration.
pub open spec fn restoration_document_of_restoration_record(record: RestorationRecord) -> RestorationDocument {
    match record {
        RestorationRecord::NoRestoration => RestorationDocument::NoRestoration,
        RestorationRecord::Minor => RestorationDocument::Minor,
        RestorationRecord::Major => RestorationDocument::Major,
        RestorationRecord::Unknown => RestorationDocument::Unknown,
    }
}

impl From<RestorationRecord> for RestorationDocument {
    fn from(record: RestorationRecord) -> (ret: Self) {
        match record {
            RestorationRecord::NoRestoration => RestorationDocument::NoRestoration,
            RestorationRecord::Minor => RestorationDocument::Minor,
            RestorationRecord::Major => RestorationDocument::Major,
            RestorationRecord::Unknown => RestorationDocument::Unknown,
        }
    }
}

impl FromSpecImpl<RestorationRecord> for RestorationDocument {
    open spec fn obeys_from_spec() -> bool {
        true
    }

    open spec fn from_spec(record: RestorationRecord) -> Self {
        restoration_document_of_restoration_record(record)
    }
}

/// The domain value an indexed restoration stands for.
pub open spec fn restoration_of_restoration_document(document: RestorationDocument) -> Restoration {
    match document {
        RestorationDocument::NoRestoration => Restoration::NoRestoration,
        RestorationDocument::Minor => Restoration::Minor,
        RestorationDocument::Major => Restoration::Major,
        RestorationDocument::Unknown => Restoration::Unknown,
    }
}

impl From<RestorationDocument> for Restoration {
    fn from(document: RestorationDocument) -> (ret: Self) {
        match document {
            RestorationDocument::NoRestoration => Restoration::NoRestoration,
            RestorationDocument::Minor => Restoration::Minor,
            RestorationDocument::Major => Restoration::Major,
            RestorationDocument::Unknown => Restoration::Unknown,
        }
    }
}

impl FromSpecImpl<RestorationDocument> for Restoration {
    open spec fn obeys_from_spec() -> bool {
        true
    }

    open spec fn from_spec(document: RestorationDocument) -> Self {
        restoration_of_restoration_document(document)
    }
}

/// The indexed form of a restoration.
pub open spec fn restoration_document_of_restoration(value: Restoration) -> RestorationDocument {
    match value {
        Restoration::NoRestoration => RestorationDocument::NoRestoration,
        Restoration::Minor => RestorationDocument::Minor,
        Restoration::Major => RestorationDocument::Major,
        Restoration::Unknown => RestorationDocument::Unknown,
    }
}

impl From<Restoration> for RestorationDocument {
    fn from(value: Restoration) -> (ret: Self) {
        match value {
            Restoration::NoRestoration => RestorationDocument::NoRestoration,
            Restoration::Minor => RestorationDocument::Minor,
            Restoration::Major => RestorationDocument::Major,
            Restoration::Unknown => RestorationDocument::Unknown,
        }
    }
}

impl FromSpecImpl<Restoration> for RestorationDocument {
    open spec fn obeys_from_spec() -> bool {
        true
    }

    open spec fn from_spec(value: Restoration) -> Self {
        restoration_document_of_restoration(value)
    }
}

/// Indexing a restoration and reading it back gives the same value, and indexing a stored
/// restoration directly agrees with reading it into the domain first.
pub proof fn lemma_restoration_document_round_trip(value: Restoration, document: RestorationDocument, record: RestorationRecord)
    ensures
        restoration_of_restoration_document(restoration_document_of_restoration(value)) == value,
        restoration_document_of_restoration(restoration_of_restoration_document(document)) == document,
        restoration_document_of_restoration_record(record) == restoration_document_of_restoration(restoration_of_restoration_record(record)),
{
}

impl Default for RestorationDocument {
    /// An assessment that was not made.
    fn default() -> (document: Self)
        ensures
            document == RestorationDocument::Unknown,
    {
        RestorationDocument::Unknown
    }
}

/// Every value is stored and indexed as the variant of the same name: indexing its
/// stored form gives the indexed form of the value itself, and both read back as the
/// value.
pub proof fn lemma_restoration_forms_agree(value: crate::values::Restoration)
    ensures
        restoration_document_of_restoration_record(crate::dynamodb::restoration_record::restoration_record_of_restoration(value))
            == restoration_document_of_restoration(value),
        crate::dynamodb::restoration_record::restoration_of_restoration_record(crate::dynamodb::restoration_record::restoration_record_of_restoration(value)) == value,
        restoration_of_restoration_document(restoration_document_of_restoration(value)) == value,
{
}

} // verus!
