//! Indexed form of [`DistanceUnit`].

use crate::values::DistanceUnit;
use vstd::prelude::*;
use vstd::std_specs::convert::FromSpecImpl;

verus! {

/// Distance unit as written into a stored search.
#[derive(Clone, Copy, Debug, PartialEq, Eq, Structural, Hash)]
pub enum DistanceUnitDocument {
    Miles,
    Yards,
    Feet,
    Inches,
    Kilometers,
    Meters,
    Centimeters,
    Millimeters,
    NauticalMiles,
}

/// The stored form of a distance unit.
pub open spec fn distance_unit_document_of_distance_unit(unit: DistanceUnit) -> DistanceUnitDocument {
    match unit {
        DistanceUnit::Miles => DistanceUnitDocument::Miles,
        DistanceUnit::Yards => DistanceUnitDocument::Yards,
        DistanceUnit::Feet => DistanceUnitDocument::Feet,
        DistanceUnit::Inches => DistanceUnitDocument::Inches,
        DistanceUnit::Kilometers => DistanceUnitDocument::Kilometers,
        DistanceUnit::Meters => DistanceUnitDocument::Meters,
        DistanceUnit::Centimeters => DistanceUnitDocument::Centimeters,
        DistanceUnit::Millimeters => DistanceUnitDocument::Millimeters,
        DistanceUnit::NauticalMiles => DistanceUnitDocument::NauticalMiles,
    }
}

impl From<DistanceUnit> for DistanceUnitDocument {
    fn from(unit: DistanceUnit) -> (ret: Self) {
        match unit {
            DistanceUnit::Miles => DistanceUnitDocument::Miles,
            DistanceUnit::Yards => DistanceUnitDocument::Yards,
            DistanceUnit::Feet => DistanceUnitDocument::Feet,
            DistanceUnit::Inches => DistanceUnitDocument::Inches,
            DistanceUnit::Kilometers => DistanceUnitDocument::Kilometers,
            DistanceUnit::Meters => DistanceUnitDocument::Meters,
            DistanceUnit::Centimeters => DistanceUnitDocument::Centimeters,
            DistanceUnit::Millimeters => DistanceUnitDocument::Millimeters,
            DistanceUnit::NauticalMiles => DistanceUnitDocument::NauticalMiles,
        }
    }
}

impl FromSpecImpl<DistanceUnit> for DistanceUnitDocument {
    open spec fn obeys_from_spec() -> bool {
        true
    }

    open spec fn from_spec(unit: DistanceUnit) -> Self {
        distance_unit_document_of_distance_unit(unit)
    }
}

/// The distance unit a stored unit stands for.
pub open spec fn distance_unit_of_distance_unit_document(unit: DistanceUnitDocument) -> DistanceUnit {
    match unit {
        DistanceUnitDocument::Miles => DistanceUnit::Miles,
        DistanceUnitDocument::Yards => DistanceUnit::Yards,
        DistanceUnitDocument::Feet => DistanceUnit::Feet,
        DistanceUnitDocument::Inches => DistanceUnit::Inches,
        DistanceUnitDocument::Kilometers => DistanceUnit::Kilometers,
        DistanceUnitDocument::Meters => DistanceUnit::Meters,
        DistanceUnitDocument::Centimeters => DistanceUnit::Centimeters,
        DistanceUnitDocument::Millimeters => DistanceUnit::Millimeters,
        DistanceUnitDocument::NauticalMiles => DistanceUnit::NauticalMiles,
    }
}

impl From<DistanceUnitDocument> for DistanceUnit {
    fn from(unit: DistanceUnitDocument) -> (ret: Self) {
        match unit {
            DistanceUnitDocument::Miles => DistanceUnit::Miles,
            DistanceUnitDocument::Yards => DistanceUnit::Yards,
            DistanceUnitDocument::Feet => DistanceUnit::Feet,
            DistanceUnitDocument::Inches => DistanceUnit::Inches,
            DistanceUnitDocument::Kilometers => DistanceUnit::Kilometers,
            DistanceUnitDocument::Meters => DistanceUnit::Meters,
            DistanceUnitDocument::Centimeters => DistanceUnit::Centimeters,
            DistanceUnitDocument::Millimeters => DistanceUnit::Millimeters,
            DistanceUnitDocument::NauticalMiles => DistanceUnit::NauticalMiles,
        }
    }
}

impl FromSpecImpl<DistanceUnitDocument> for DistanceUnit {
    open spec fn obeys_from_spec() -> bool {
        true
    }

    open spec fn from_spec(unit: DistanceUnitDocument) -> Self {
        distance_unit_of_distance_unit_document(unit)
    }
}

/// Storing a distance unit and reading it back gives the same unit.
pub proof fn lemma_distance_unit_document_round_trip(unit: DistanceUnit, document: DistanceUnitDocument)
    ensures
        distance_unit_of_distance_unit_document(distance_unit_document_of_distance_unit(unit)) == unit,
        distance_unit_document_of_distance_unit(distance_unit_of_distance_unit_document(document)) == document,
{
}

} // verus!
