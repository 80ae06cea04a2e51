//! Indexed form of [`Authenticity`].

use crate::dynamodb::authenticity_record::{AuthenticityRecord, authenticity_of_authenticity_record};
use crate::values::Authenticity;
use vstd::prelude::*;
use vstd::std_specs::convert::FromSpecImpl;

verus! {

/// Authenticity as indexed in a product document.
#[derive(Clone, Copy, Debug, PartialEq, Eq, Structural, Hash)]
pub enum AuthenticityDocument {
    Original,
    LaterCopy,
    Reproduction,
    Questionable,
    Unknown,
}

impl AuthenticityDocument {
    /// The name under which the value is stored and queried.
    pub open spec fn spec_as_str(self) -> Seq<char> {
        match self {
            AuthenticityDocument::Original => "ORIGINAL"@,
            AuthenticityDocument::LaterCopy => "LATER_COPY"@,
            AuthenticityDocument::Reproduction => "REPRODUCTION"@,
            AuthenticityDocument::Questionable => "QUESTIONABLE"@,
            AuthenticityDocument::Unknown => "UNKNOWN"@,
        }
    }

    pub fn as_str(&self) -> (s: &'static str)
        ensures
            s@ == self.spec_as_str(),
    {
        match self {
            AuthenticityDocument::Original => "ORIGINAL",
            AuthenticityDocument::LaterCopy => "LATER_COPY",
            AuthenticityDocument::Reproduction => "REPRODUCTION",
            AuthenticityDocument::Questionable => "QUESTIONABLE",
            AuthenticityDocument::Unknown => "UNKNOWN",
        }
    }
}

/// The indexed form of a stored authenticity.
pub open spec fn authenticity_document_of_authenticity_record(record: AuthenticityRecord) -> AuthenticityDocument {
    match record {
        AuthenticityRecord::Original => AuthenticityDocument::Original,
        AuthenticityRecord::LaterCopy => AuthenticityDocument::LaterCopy,
        AuthenticityRecord::Reproduction => AuthenticityDocument::Reproduction,
        AuthenticityRecord::Questionable => AuthenticityDocument::Questionable,
        AuthenticityRecord::Unknown => AuthenticityDocument::Unknown,
    }
}

impl From<AuthenticityRecord> for AuthenticityDocument {
    fn from(record: AuthenticityRecord) -> (ret: Self) {
        match record {
            AuthenticityRecord::Original => AuthenticityDocument::Original,
            AuthenticityRecord::LaterCopy => AuthenticityDocument::LaterCopy,
            AuthenticityRecord::Reproduction => AuthenticityDocument::Reproduction,
            AuthenticityRecord::Questionable => AuthenticityDocument::Questionable,
            AuthenticityRecord::Unknown => AuthenticityDocument::Unknown,
        }
    }
}

impl FromSpecImpl<AuthenticityRecord> for AuthenticityDocument {
    open spec fn obeys_from_spec() -> bool {
        true
    }

    open spec fn from_spec(record: AuthenticityRecord) -> Self {
        authenticity_document_of_authenticity_record(record)
    }
}

/// The domain value an indexed authenticity stands for.
pub open spec fn authenticity_of_authenticity_document(document: AuthenticityDocument) -> Authenticity {
    match document {
        AuthenticityDocument::Original => Authenticity::Original,
        AuthenticityDocument::LaterCopy => Authenticity::LaterCopy,
        AuthenticityDocument::Reproduction => Authenticity::Reproduction,
        AuthenticityDocument::Questionable => Authenticity::Questionable,
        AuthenticityDocument::Unknown => Authenticity::Unknown,
    }
}

impl From<AuthenticityDocument> for Authenticity {
    fn from(document: AuthenticityDocument) -> (ret: Self) {
        match document {
            AuthenticityDocument::Original => Authenticity::Original,
            AuthenticityDocument::LaterCopy => Authenticity::LaterCopy,
            AuthenticityDocument::Reproduction => Authenticity::Reproduction,
            AuthenticityDocument::Questionable => Authenticity::Questionable,
            AuthenticityDocument::Unknown => Authenticity::Unknown,
        }
    }
}

impl FromSpecImpl<AuthenticityDocument> for Authenticity {
    open spec fn obeys_from_spec() -> bool {
        true
    }

    open spec fn from_spec(document: AuthenticityDocument) -> Self {
        authenticity_of_authenticity_document(document)
    }
}

/// The indexed form of a authenticity.
pub open spec fn authenticity_document_of_authenticity(value: Authenticity) -> AuthenticityDocument {
    match value {
        Authenticity::Original => AuthenticityDocument::Original,
        Authenticity::LaterCopy => AuthenticityDocument::LaterCopy,
        Authenticity::Reproduction => AuthenticityDocument::Reproduction,
        Authenticity::Questionable => AuthenticityDocument::Questionable,
        Authenticity::Unknown => AuthenticityDocument::Unknown,
    }
}

impl From<Authenticity> for AuthenticityDocument {
    fn from(value: Authenticity) -> (ret: Self) {
        match value {
            Authenticity::Original => AuthenticityDocument::Original,
            Authenticity::LaterCopy => AuthenticityDocument::LaterCopy,
            Authenticity::Reproduction => AuthenticityDocument::Reproduction,
            Authenticity::Questionable => AuthenticityDocument::Questionable,
            Authenticity::Unknown => AuthenticityDocument::Unknown,
        }
    }
}

impl FromSpecImpl<Authenticity> for AuthenticityDocument {
    open spec fn obeys_from_spec() -> bool {
        true
    }

    open spec fn from_spec(value: Authenticity) -> Self {
        authenticity_document_of_authenticity(value)
    }
}

/// Indexing a authenticity and reading it back gives the same value, and indexing a stored
/// authenticity directly agrees with reading it into the domain first.
pub proof fn lemma_authenticity_document_round_trip(value: Authenticity, document: AuthenticityDocument, record: AuthenticityRecord)
    ensures
        authenticity_of_authenticity_document(authenticity_document_of_authenticity(value)) == value,
        authenticity_document_of_authenticity(authenticity_of_authenticity_document(document)) == document,
        authenticity_document_of_authenticity_record(record) == authenticity_document_of_authenticity(authenticity_of_authenticity_record(record)),
{
}

impl Default for AuthenticityDocument {
    /// An assessment that was not made.
    fn default() -> (document: Self)
        ensures
            document == AuthenticityDocument::Unknown,
    {
        AuthenticityDocument::Unknown
    }
}

/// Every value is stored and indexed as the variant of the same name: indexing its
/// stored form gives the indexed form of the value itself, and both read back as the
/// value.
pub proof fn lemma_authenticity_forms_agree(value: crate::values::Authenticity)
    ensures
        authenticity_document_of_authenticity_record(crate::dynamodb::authenticity_record::authenticity_record_of_authenticity(value))
            == authenticity_document_of_authenticity(value),
        crate::dynamodb::authenticity_record::authenticity_of_authenticity_record(crate::dynamodb::authenticity_record::authenticity_record_of_authenticity(value)) == value,
        authenticity_of_authenticity_document(authenticity_document_of_authenticity(value)) == value,
{
}

} // verus!
