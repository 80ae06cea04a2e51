//! Stored form of [`Authenticity`].

use crate::values::Authenticity;
use vstd::prelude::*;
use vstd::std_specs::convert::FromSpecImpl;

verus! {

/// Authenticity as written to a product record.
#[derive(Clone, Copy, Debug, PartialEq, Eq, Structural, Hash)]
pub enum AuthenticityRecord {
    Original,
    LaterCopy,
    Reproduction,
    Questionable,
    Unknown,
}

/// The domain value a stored authenticity stands for.
pub open spec fn authenticity_of_authenticity_record(record: AuthenticityRecord) -> Authenticity {
    match record {
        AuthenticityRecord::Original => Authenticity::Original,
        AuthenticityRecord::LaterCopy => Authenticity::LaterCopy,
        AuthenticityRecord::Reproduction => Authenticity::Reproduction,
        AuthenticityRecord::Questionable => Authenticity::Questionable,
        AuthenticityRecord::Unknown => Authenticity::Unknown,
    }
}

impl From<AuthenticityRecord> for Authenticity {
    fn from(record: AuthenticityRecord) -> (ret: Self) {
        match record {
            AuthenticityRecord::Original => Authenticity::Original,
            AuthenticityRecord::LaterCopy => Authenticity::LaterCopy,
            AuthenticityRecord::Reproduction => Authenticity::Reproduction,
            AuthenticityRecord::Questionable => Authenticity::Questionable,
            AuthenticityRecord::Unknown => Authenticity::Unknown,
        }
    }
}

impl FromSpecImpl<AuthenticityRecord> for Authenticity {
    open spec fn obeys_from_spec() -> bool {
        true
    }

    open spec fn from_spec(record: AuthenticityRecord) -> Self {
        authenticity_of_authenticity_record(record)
    }
}

/// The stored form of a authenticity.
pub open spec fn authenticity_record_of_authenticity(value: Authenticity) -> AuthenticityRecord {
    match value {
        Authenticity::Original => AuthenticityRecord::Original,
        Authenticity::LaterCopy => AuthenticityRecord::LaterCopy,
        Authenticity::Reproduction => AuthenticityRecord::Reproduction,
        Authenticity::Questionable => AuthenticityRecord::Questionable,
        Authenticity::Unknown => AuthenticityRecord::Unknown,
    }
}

impl From<Authenticity> for AuthenticityRecord {
    fn from(value: Authenticity) -> (ret: Self) {
        match value {
            Authenticity::Original => AuthenticityRecord::Original,
            Authenticity::LaterCopy => AuthenticityRecord::LaterCopy,
            Authenticity::Reproduction => AuthenticityRecord::Reproduction,
            Authenticity::Questionable => AuthenticityRecord::Questionable,
            Authenticity::Unknown => AuthenticityRecord::Unknown,
        }
    }
}

impl FromSpecImpl<Authenticity> for AuthenticityRecord {
    open spec fn obeys_from_spec() -> bool {
        true
    }

    open spec fn from_spec(value: Authenticity) -> Self {
        authenticity_record_of_authenticity(value)
    }
}

/// Storing a authenticity and reading it back gives the same value, and every stored
/// value is the stored form of exactly one domain value.
pub proof fn lemma_authenticity_record_round_trip(value: Authenticity, record: AuthenticityRecord)
    ensures
        authenticity_of_authenticity_record(authenticity_record_of_authenticity(value)) == value,
        authenticity_record_of_authenticity(authenticity_of_authenticity_record(record)) == record,
{
}

} // verus!
