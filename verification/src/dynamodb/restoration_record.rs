//! Stored form of [`Restoration`].

use crate::values::Restoration;
use vstd::prelude::*;
use vstd::std_specs::convert::FromSpecImpl;

verus! {

/// Restoration as written to a product record.
#[derive(Clone, Copy, Debug, PartialEq, Eq, Structural, Hash)]
pub enum RestorationRecord {
    NoRestoration,
    Minor,
    Major,
    Unknown,
}

/// The domain value a stored restoration stands for.
pub open spec fn restoration_of_restoration_record(record: RestorationRecord) -> Restoration {
    match record {
        RestorationRecord::NoRestoration => Restoration::NoRestoration,
        RestorationRecord::Minor => Restoration::Minor,
        RestorationRecord::Major => Restoration::Major,
        RestorationRecord::Unknown => Restoration::Unknown,
    }
}

impl From<RestorationRecord> for Restoration {
    fn from(record: RestorationRecord) -> (ret: Self) {
        match record {
            RestorationRecord::NoRestoration => Restoration::NoRestoration,
            RestorationRecord::Minor => Restoration::Minor,
            RestorationRecord::Major => Restoration::Major,
            RestorationRecord::Unknown => Restoration::Unknown,
        }
    }
}

impl FromSpecImpl<RestorationRecord> for Restoration {
    open spec fn obeys_from_spec() -> bool {
        true
    }

    open spec fn from_spec(record: RestorationRecord) -> Self {
        restoration_of_restoration_record(record)
    }
}

/// The stored form of a restoration.
pub open spec fn restoration_record_of_restoration(value: Restoration) -> RestorationRecord {
    match value {
        Restoration::NoRestoration => RestorationRecord::NoRestoration,
        Restoration::Minor => RestorationRecord::Minor,
        Restoration::Major => RestorationRecord::Major,
        Restoration::Unknown => RestorationRecord::Unknown,
    }
}

impl From<Restoration> for RestorationRecord {
    fn from(value: Restoration) -> (ret: Self) {
        match value {
            Restoration::NoRestoration => RestorationRecord::NoRestoration,
            Restoration::Minor => RestorationRecord::Minor,
            Restoration::Major => RestorationRecord::Major,
            Restoration::Unknown => RestorationRecord::Unknown,
        }
    }
}

impl FromSpecImpl<Restoration> for RestorationRecord {
    open spec fn obeys_from_spec() -> bool {
        true
    }

    open spec fn from_spec(value: Restoration) -> Self {
        restoration_record_of_restoration(value)
    }
}

/// Storing a restoration and reading it back gives the same value, and every stored
/// value is the stored form of exactly one domain value.
pub proof fn lemma_restoration_record_round_trip(value: Restoration, record: RestorationRecord)
    ensures
        restoration_of_restoration_record(restoration_record_of_restoration(value)) == value,
        restoration_record_of_restoration(restoration_of_restoration_record(record)) == record,
{
}

} // verus!
