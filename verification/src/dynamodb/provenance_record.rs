//! Stored form of [`Provenance`].

use crate::values::Provenance;
use vstd::prelude::*;
use vstd::std_specs::convert::FromSpecImpl;

verus! {

/// Provenance as written to a product record.
#[derive(Clone, Copy, Debug, PartialEq, Eq, Structural, Hash)]
pub enum ProvenanceRecord {
    Complete,
    Partial,
    Claimed,
    NoProvenance,
    Unknown,
}

/// The domain value a stored provenance stands for.
pub open spec fn provenance_of_provenance_record(record: ProvenanceRecord) -> Provenance {
    match record {
        ProvenanceRecord::Complete => Provenance::Complete,
        ProvenanceRecord::Partial => Provenance::Partial,
        ProvenanceRecord::Claimed => Provenance::Claimed,
        ProvenanceRecord::NoProvenance => Provenance::NoProvenance,
        ProvenanceRecord::Unknown => Provenance::Unknown,
    }
}

impl From<ProvenanceRecord> for Provenance {
    fn from(record: ProvenanceRecord) -> (ret: Self) {
        match record {
            ProvenanceRecord::Complete => Provenance::Complete,
            ProvenanceRecord::Partial => Provenance::Partial,
            ProvenanceRecord::Claimed => Provenance::Claimed,
            ProvenanceRecord::NoProvenance => Provenance::NoProvenance,
            ProvenanceRecord::Unknown => Provenance::Unknown,
        }
    }
}

impl FromSpecImpl<ProvenanceRecord> for Provenance {
    open spec fn obeys_from_spec() -> bool {
        true
    }

    open spec fn from_spec(record: ProvenanceRecord) -> Self {
        provenance_of_provenance_record(record)
    }
}

/// The stored form of a provenance.
pub open spec fn provenance_record_of_provenance(value: Provenance) -> ProvenanceRecord {
    match value {
        Provenance::Complete => ProvenanceRecord::Complete,
        Provenance::Partial => ProvenanceRecord::Partial,
        Provenance::Claimed => ProvenanceRecord::Claimed,
        Provenance::NoProvenance => ProvenanceRecord::NoProvenance,
        Provenance::Unknown => ProvenanceRecord::Unknown,
    }
}

impl From<Provenance> for ProvenanceRecord {
    fn from(value: Provenance) -> (ret: Self) {
        match value {
            Provenance::Complete => ProvenanceRecord::Complete,
            Provenance::Partial => ProvenanceRecord::Partial,
            Provenance::Claimed => ProvenanceRecord::Claimed,
            Provenance::NoProvenance => ProvenanceRecord::NoProvenance,
            Provenance::Unknown => ProvenanceRecord::Unknown,
        }
    }
}

impl FromSpecImpl<Provenance> for ProvenanceRecord {
    open spec fn obeys_from_spec() -> bool {
        true
    }

    open spec fn from_spec(value: Provenance) -> Self {
        provenance_record_of_provenance(value)
    }
}

/// Storing a provenance and reading it back gives the same value, and every stored
/// value is the stored form of exactly one domain value.
pub proof fn lemma_provenance_record_round_trip(value: Provenance, record: ProvenanceRecord)
    ensures
        provenance_of_provenance_record(provenance_record_of_provenance(value)) == value,
        provenance_record_of_provenance(provenance_of_provenance_record(record)) == record,
{
}

} // verus!
