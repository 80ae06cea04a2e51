//! Indexed form of [`Provenance`].

use crate::dynamodb::provenance_record::{ProvenanceRecord, provenance_of_provenance_record};
use crate::values::Provenance;
use vstd::prelude::*;
use vstd::std_specs::convert::FromSpecImpl;

verus! {

/// Provenance as indexed in a product document.
#[derive(Clone, Copy, Debug, PartialEq, Eq, Structural, Hash)]
pub enum ProvenanceDocument {
    Complete,
    Partial,
    Claimed,
    NoProvenance,
    Unknown,
}

impl ProvenanceDocument {
    /// The name under which the value is stored and queried.
    pub open spec fn spec_as_str(self) -> Seq<char> {
        match self {
            ProvenanceDocument::Complete => "COMPLETE"@,
            ProvenanceDocument::Partial => "PARTIAL"@,
            ProvenanceDocument::Claimed => "CLAIMED"@,
            ProvenanceDocument::NoProvenance => "NONE"@,
            ProvenanceDocument::Unknown => "UNKNOWN"@,
        }
    }

    pub fn as_str(&self) -> (s: &'static str)
        ensures
            s@ == self.spec_as_str(),
    {
        match self {
            ProvenanceDocument::Complete => "COMPLETE",
            ProvenanceDocument::Partial => "PARTIAL",
            ProvenanceDocument::Claimed => "CLAIMED",
            ProvenanceDocument::NoProvenance => "NONE",
            ProvenanceDocument::Unknown => "UNKNOWN",
        }
    }
}

/// The indexed form of a stored provenance.
pub open spec fn provenance_document_of_provenance_record(record: ProvenanceRecord) -> ProvenanceDocument {
    match record {
        ProvenanceRecord::Complete => ProvenanceDocument::Complete,
        ProvenanceRecord::Partial => ProvenanceDocument::Partial,
        ProvenanceRecord::Claimed => ProvenanceDocument::Claimed,
        ProvenanceRecord::NoProvenance => ProvenanceDocument::NoProvenance,
        ProvenanceRecord::Unknown => ProvenanceDocument::Unknown,
    }
}

impl From<ProvenanceRecord> for ProvenanceDocument {
    fn from(record: ProvenanceRecord) -> (ret: Self) {
        match record {
            ProvenanceRecord::Complete => ProvenanceDocument::Complete,
            ProvenanceRecord::Partial => ProvenanceDocument::Partial,
            ProvenanceRecord::Claimed => ProvenanceDocument::Claimed,
            ProvenanceRecord::NoProvenance => ProvenanceDocument::NoProvenance,
            ProvenanceRecord::Unknown => ProvenanceDocument::Unknown,
        }
    }
}

impl FromSpecImpl<ProvenanceRecord> for ProvenanceDocument {
    open spec fn obeys_from_spec() -> bool {
        true
    }

    open spec fn from_spec(record: ProvenanceRecord) -> Self {
        provenance_document_of_provenance_record(record)
    }
}

/// The domain value an indexed provenance stands for.
pub open spec fn provenance_of_provenance_document(document: ProvenanceDocument) -> Provenance {
    match document {
        ProvenanceDocument::Complete => Provenance::Complete,
        ProvenanceDocument::Partial => Provenance::Partial,
        ProvenanceDocument::Claimed => Provenance::Claimed,
        ProvenanceDocument::NoProvenance => Provenance::NoProvenance,
        ProvenanceDocument::Unknown => Provenance::Unknown,
    }
}

impl From<ProvenanceDocument> for Provenance {
    fn from(document: ProvenanceDocument) -> (ret: Self) {
        match document {
            ProvenanceDocument::Complete => Provenance::Complete,
            ProvenanceDocument::Partial => Provenance::Partial,
            ProvenanceDocument::Claimed => Provenance::Claimed,
            ProvenanceDocument::NoProvenance => Provenance::NoProvenance,
            ProvenanceDocument::Unknown => Provenance::Unknown,
        }
    }
}

impl FromSpecImpl<ProvenanceDocument> for Provenance {
    open spec fn obeys_from_spec() -> bool {
        true
    }

    open spec fn from_spec(document: ProvenanceDocument) -> Self {
        provenance_of_provenance_document(document)
    }
}

/// The indexed form of a provenance.
pub open spec fn provenance_document_of_provenance(value: Provenance) -> ProvenanceDocument {
    match value {
        Provenance::Complete => ProvenanceDocument::Complete,
        Provenance::Partial => ProvenanceDocument::Partial,
        Provenance::Claimed => ProvenanceDocument::Claimed,
        Provenance::NoProvenance => ProvenanceDocument::NoProvenance,
        Provenance::Unknown => ProvenanceDocument::Unknown,
    }
}

impl From<Provenance> for ProvenanceDocument {
    fn from(value: Provenance) -> (ret: Self) {
        match value {
            Provenance::Complete => ProvenanceDocument::Complete,
            Provenance::Partial => ProvenanceDocument::Partial,
            Provenance::Claimed => ProvenanceDocument::Claimed,
            Provenance::NoProvenance => ProvenanceDocument::NoProvenance,
            Provenance::Unknown => ProvenanceDocument::Unknown,
        }
    }
}

impl FromSpecImpl<Provenance> for ProvenanceDocument {
    open spec fn obeys_from_spec() -> bool {
        true
    }

    open spec fn from_spec(value: Provenance) -> Self {
        provenance_document_of_provenance(value)
    }
}

/// Indexing a provenance and reading it back gives the same value, and indexing a stored
/// provenance directly agrees with reading it into the domain first.
pub proof fn lemma_provenance_document_round_trip(value: Provenance, document: ProvenanceDocument, record: ProvenanceRecord)
    ensures
        provenance_of_provenance_document(provenance_document_of_provenance(value)) == value,
        provenance_document_of_provenance(provenance_of_provenance_document(document)) == document,
        provenance_document_of_provenance_record(record) == provenance_document_of_provenance(provenance_of_provenance_record(record)),
{
}

impl Default for ProvenanceDocument {
    /// An assessment that was not made.
    fn default() -> (document: Self)
        ensures
            document == ProvenanceDocument::Unknown,
    {
        ProvenanceDocument::Unknown
    }
}

/// Every value is stored and indexed as the variant of the same name: indexing its
/// stored form gives the indexed form of the value itself, and both read back as the
/// value.
pub proof fn lemma_provenance_forms_agree(value: crate::values::Provenance)
    ensures
        provenance_document_of_provenance_record(crate::dynamodb::provenance_record::provenance_record_of_provenance(value))
            == provenance_document_of_provenance(value),
        crate::dynamodb::provenance_record::provenance_of_provenance_record(crate::dynamodb::provenance_record::provenance_record_of_provenance(value)) == value,
        provenance_of_provenance_document(provenance_document_of_provenance(value)) == value,
{
}

} // verus!
