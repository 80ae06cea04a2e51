//! Indexed form of [`Condition`].

use crate::dynamodb::condition_record::{ConditionRecord, condition_of_condition_record};
use crate::values::Condition;
use vstd::prelude::*;
use vstd::std_specs::convert::FromSpecImpl;

verus! {

/// Condition as indexed in a product document.
#[derive(Clone, Copy, Debug, PartialEq, Eq, Structural, Hash)]
pub enum ConditionDocument {
    Excellent,
    Great,
    Good,
    Fair,
    Poor,
    Unknown,
}

impl ConditionDocument {
    /// The name under which the value is stored and queried.
    pub open spec fn spec_as_str(self) -> Seq<char> {
        match self {
            ConditionDocument::Excellent => "EXCELLENT"@,
            ConditionDocument::Great => "GREAT"@,
            ConditionDocument::Good => "GOOD"@,
            ConditionDocument::Fair => "FAIR"@,
            ConditionDocument::Poor => "POOR"@,
            ConditionDocument::Unknown => "UNKNOWN"@,
        }
    }

    pub fn as_str(&self) -> (s: &'static str)
        ensures
            s@ == self.spec_as_str(),
    {
        match self {
            ConditionDocument::Excellent => "EXCELLENT",
            ConditionDocument::Great => "GREAT",
            ConditionDocument::Good => "GOOD",
            ConditionDocument::Fair => "FAIR",
            ConditionDocument::Poor => "POOR",
            ConditionDocument::Unknown => "UNKNOWN",
        }
    }
}

/// The indexed form of a stored condition.
pub open spec fn condition_document_of_condition_record(record: ConditionRecord) -> ConditionDocument {
    match record {
        ConditionRecord::Excellent => ConditionDocument::Excellent,
        ConditionRecord::Great => ConditionDocument::Great,
        ConditionRecord::Good => ConditionDocument::Good,
        ConditionRecord::Fair => ConditionDocument::Fair,
        ConditionRecord::Poor => ConditionDocument::Poor,
        ConditionRecord::Unknown => ConditionDocument::Unknown,
    }
}

impl From<ConditionRecord> for ConditionDocument {
    fn from(record: ConditionRecord) -> (ret: Self) {
        match record {
            ConditionRecord::Excellent => ConditionDocument::Excellent,
            ConditionRecord::Great => ConditionDocument::Great,
            ConditionRecord::Good => ConditionDocument::Good,
            ConditionRecord::Fair => ConditionDocument::Fair,
            ConditionRecord::Poor => ConditionDocument::Poor,
            ConditionRecord::Unknown => ConditionDocument::Unknown,
        }
    }
}

impl FromSpecImpl<ConditionRecord> for ConditionDocument {
    open spec fn obeys_from_spec() -> bool {
        true
    }

    open spec fn from_spec(record: ConditionRecord) -> Self {
        condition_document_of_condition_record(record)
    }
}

/// The domain value an indexed condition stands for.
pub open spec fn condition_of_condition_document(document: ConditionDocument) -> Condition {
    match document {
        ConditionDocument::Excellent => Condition::Excellent,
        ConditionDocument::Great => Condition::Great,
        ConditionDocument::Good => Condition::Good,
        ConditionDocument::Fair => Condition::Fair,
        ConditionDocument::Poor => Condition::Poor,
        ConditionDocument::Unknown => Condition::Unknown,
    }
}

impl From<ConditionDocument> for Condition {
    fn from(document: ConditionDocument) -> (ret: Self) {
        match document {
            ConditionDocument::Excellent => Condition::Excellent,
            ConditionDocument::Great => Condition::Great,
            ConditionDocument::Good => Condition::Good,
            ConditionDocument::Fair => Condition::Fair,
            ConditionDocument::Poor => Condition::Poor,
            ConditionDocument::Unknown => Condition::Unknown,
        }
    }
}

impl FromSpecImpl<ConditionDocument> for Condition {
    open spec fn obeys_from_spec() -> bool {
        true
    }

    open spec fn from_spec(document: ConditionDocument) -> Self {
        condition_of_condition_document(document)
    }
}

/// The indexed form of a condition.
pub open spec fn condition_document_of_condition(value: Condition) -> ConditionDocument {
    match value {
        Condition::Excellent => ConditionDocument::Excellent,
        Condition::Great => ConditionDocument::Great,
        Condition::Good => ConditionDocument::Good,
        Condition::Fair => ConditionDocument::Fair,
        Condition::Poor => ConditionDocument::Poor,
        Condition::Unknown => ConditionDocument::Unknown,
    }
}

impl From<Condition> for ConditionDocument {
    fn from(value: Condition) -> (ret: Self) {
        match value {
            Condition::Excellent => ConditionDocument::Excellent,
            Condition::Great => ConditionDocument::Great,
            Condition::Good => ConditionDocument::Good,
            Condition::Fair => ConditionDocument::Fair,
            Condition::Poor => ConditionDocument::Poor,
            Condition::Unknown => ConditionDocument::Unknown,
        }
    }
}

impl FromSpecImpl<Condition> for ConditionDocument {
    open spec fn obeys_from_spec() -> bool {
        true
    }

    open spec fn from_spec(value: Condition) -> Self {
        condition_document_of_condition(value)
    }
}

/// Indexing a condition and reading it back gives the same value, and indexing a stored
/// condition directly agrees with reading it into the domain first.
pub proof fn lemma_condition_document_round_trip(value: Condition, document: ConditionDocument, record: ConditionRecord)
    ensures
        condition_of_condition_document(condition_document_of_condition(value)) == value,
        condition_document_of_condition(condition_of_condition_document(document)) == document,
        condition_document_of_condition_record(record) == condition_document_of_condition(condition_of_condition_record(record)),
{
}

impl Default for ConditionDocument {
    /// An assessment that was not made.
    fn default() -> (document: Self)
        ensures
            document == ConditionDocument::Unknown,
    {
        ConditionDocument::Unknown
    }
}

/// Every value is stored and indexed as the variant of the same name: indexing its
/// stored form gives the indexed form of the value itself, and both read back as the
/// value.
pub proof fn lemma_condition_forms_agree(value: crate::values::Condition)
    ensures
        condition_document_of_condition_record(crate::dynamodb::condition_record::condition_record_of_condition(value))
            == condition_document_of_condition(value),
        crate::dynamodb::condition_record::condition_of_condition_record(crate::dynamodb::condition_record::condition_record_of_condition(value)) == value,
        condition_of_condition_document(condition_document_of_condition(value)) == value,
{
}

} // verus!
