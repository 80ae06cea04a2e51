//! Domain value types shared by every storage representation.

use vstd::prelude::*;

verus! {

/// Languages a title or a description can be written in.
#[derive(Clone, Copy, Debug, PartialEq, Eq, Structural, Hash)]
pub enum Language {
    De,
    En,
    Fr,
    Es,
    It,
    Zh,
    Pt,
    Pl,
    Tr,
    Nl,
    Cs,
    Ja,
    Ru,
    Ar,
}

/// Currencies a price can be expressed in.
#[derive(Clone, Copy, Debug, PartialEq, Eq, Structural, Hash)]
pub enum Currency {
    Eur,
    Gbp,
    Usd,
    Aud,
    Cad,
    Nzd,
    Cny,
    Brl,
    Pln,
    Try,
    Jpy,
    Czk,
    Rub,
    Aed,
    Sar,
    Hkd,
    Sgd,
    Chf,
}

/// Sales state of a product at its shop.
#[derive(Clone, Copy, Debug, PartialEq, Eq, Structural, Hash)]
pub enum ProductState {
    Listed,
    Available,
    Reserved,
    Sold,
    Removed,
    Unknown,
}

/// Whether a product is still part of the catalogue.
#[derive(Clone, Copy, Debug, PartialEq, Eq, Structural, Hash)]
pub enum ProductLifecycle {
    Active,
    Deleted,
}

/// Outcome of the prohibited-content screening of a product or an image.
#[derive(Clone, Copy, Debug, PartialEq, Eq, Structural, Hash)]
pub enum ProhibitedContent {
    Unknown,
    NoneDetected,
    NaziGermany,
}

/// Authenticity classification of an item.
#[derive(Clone, Copy, Debug, PartialEq, Eq, Structural, Hash)]
pub enum Authenticity {
    Original,
    LaterCopy,
    Reproduction,
    Questionable,
    Unknown,
}

/// Physical condition of an item.
#[derive(Clone, Copy, Debug, PartialEq, Eq, Structural, Hash)]
pub enum Condition {
    Excellent,
    Great,
    Good,
    Fair,
    Poor,
    Unknown,
}

/// How well the ownership history of an item is documented.
#[derive(Clone, Copy, Debug, PartialEq, Eq, Structural, Hash)]
pub enum Provenance {
    Complete,
    Partial,
    Claimed,
    NoProvenance,
    Unknown,
}

/// How much an item has been restored.
#[derive(Clone, Copy, Debug, PartialEq, Eq, Structural, Hash)]
pub enum Restoration {
    NoRestoration,
    Minor,
    Major,
    Unknown,
}

/// Kind of seller that offers a product.
#[derive(Clone, Copy, Debug, PartialEq, Eq, Structural, Hash)]
pub enum ShopType {
    AuctionHouse,
    AuctionPlatform,
    CommercialDealer,
    Marketplace,
}

/// Units of a geographic distance.
#[derive(Clone, Copy, Debug, PartialEq, Eq, Structural, Hash)]
pub enum DistanceUnit {
    Miles,
    Yards,
    Feet,
    Inches,
    Kilometers,
    Meters,
    Centimeters,
    Millimeters,
    NauticalMiles,
}

impl ShopType {
    /// The name under which the kind of seller is stored and indexed.
    pub open spec fn spec_as_str(self) -> Seq<char> {
        match self {
            ShopType::AuctionHouse => "AUCTION_HOUSE"@,
            ShopType::AuctionPlatform => "AUCTION_PLATFORM"@,
            ShopType::CommercialDealer => "COMMERCIAL_DEALER"@,
            ShopType::Marketplace => "MARKETPLACE"@,
        }
    }

    pub fn as_str(&self) -> (name: &'static str)
        ensures
            name@ == self.spec_as_str(),
    {
        match self {
            ShopType::AuctionHouse => "AUCTION_HOUSE",
            ShopType::AuctionPlatform => "AUCTION_PLATFORM",
            ShopType::CommercialDealer => "COMMERCIAL_DEALER",
            ShopType::Marketplace => "MARKETPLACE",
        }
    }
}

impl ProductLifecycle {
    /// The name under which the lifecycle is stored and indexed.
    pub open spec fn spec_as_str(self) -> Seq<char> {
        match self {
            ProductLifecycle::Active => "ACTIVE"@,
            ProductLifecycle::Deleted => "DELETED"@,
        }
    }

    pub fn as_str(&self) -> (name: &'static str)
        ensures
            name@ == self.spec_as_str(),
    {
        match self {
            ProductLifecycle::Active => "ACTIVE",
            ProductLifecycle::Deleted => "DELETED",
        }
    }
}

} // verus!
