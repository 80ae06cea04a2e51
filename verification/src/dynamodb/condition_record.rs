//! Stored form of [`Condition`].

use crate::values::Condition;
use vstd::prelude::*;
use vstd::std_specs::convert::FromSpecImpl;

verus! {

/// Condition as written to a product record.
#[derive(Clone, Copy, Debug, PartialEq, Eq, Structural, Hash)]
pub enum ConditionRecord {
    Excellent,
    Great,
    Good,
    Fair,
    Poor,
    Unknown,
}

/// The domain value a stored condition stands for.
pub open spec fn condition_of_condition_record(record: ConditionRecord) -> Condition {
    match record {
        ConditionRecord::Excellent => Condition::Excellent,
        ConditionRecord::Great => Condition::Great,
        ConditionRecord::Good => Condition::Good,
        ConditionRecord::Fair => Condition::Fair,
        ConditionRecord::Poor => Condition::Poor,
        ConditionRecord::Unknown => Condition::Unknown,
    }
}

impl From<ConditionRecord> for Condition {
    fn from(record: ConditionRecord) -> (ret: Self) {
        match record {
            ConditionRecord::Excellent => Condition::Excellent,
            ConditionRecord::Great => Condition::Great,
            ConditionRecord::Good => Condition::Good,
            ConditionRecord::Fair => Condition::Fair,
            ConditionRecord::Poor => Condition::Poor,
            ConditionRecord::Unknown => Condition::Unknown,
        }
    }
}

impl FromSpecImpl<ConditionRecord> for Condition {
    open spec fn obeys_from_spec() -> bool {
        true
    }

    open spec fn from_spec(record: ConditionRecord) -> Self {
        condition_of_condition_record(record)
    }
}

/// The stored form of a condition.
pub open spec fn condition_record_of_condition(value: Condition) -> ConditionRecord {
    match value {
        Condition::Excellent => ConditionRecord::Excellent,
        Condition::Great => ConditionRecord::Great,
        Condition::Good => ConditionRecord::Good,
        Condition::Fair => ConditionRecord::Fair,
        Condition::Poor => ConditionRecord::Poor,
        Condition::Unknown => ConditionRecord::Unknown,
    }
}

impl From<Condition> for ConditionRecord {
    fn from(value: Condition) -> (ret: Self) {
        match value {
            Condition::Excellent => ConditionRecord::Excellent,
            Condition::Great => ConditionRecord::Great,
            Condition::Good => ConditionRecord::Good,
            Condition::Fair => ConditionRecord::Fair,
            Condition::Poor => ConditionRecord::Poor,
            Condition::Unknown => ConditionRecord::Unknown,
        }
    }
}

impl FromSpecImpl<Condition> for ConditionRecord {
    open spec fn obeys_from_spec() -> bool {
        true
    }

    open spec fn from_spec(value: Condition) -> Self {
        condition_record_of_condition(value)
    }
}

/// Storing a condition and reading it back gives the same value, and every stored
/// value is the stored form of exactly one domain value.
pub proof fn lemma_condition_record_round_trip(value: Condition, record: ConditionRecord)
    ensures
        condition_of_condition_record(condition_record_of_condition(value)) == value,
        condition_record_of_condition(condition_of_condition_record(record)) == record,
{
}

} // verus!
