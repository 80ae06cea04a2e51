//! Event types of domain events.

use crate::domain::ProductDomainEventPayload;
use vstd::prelude::*;
use vstd::std_specs::convert::FromSpecImpl;

verus! {

/// The kind of a stored domain event.
#[derive(Clone, Copy, Debug, PartialEq, Eq, Structural, Hash)]
pub enum ProductDomainEventTypeRecord {
    DomainCreated,
    DomainStateChanged,
    DomainPriceChanged,
    DomainEstimatePriceChanged,
    DomainUrlChanged,
    DomainImagesChanged,
    DomainAuctionTimeChanged,
}

impl ProductDomainEventTypeRecord {
    /// The name under which the event type is stored.
    pub open spec fn spec_as_str(self) -> Seq<char> {
        match self {
            ProductDomainEventTypeRecord::DomainCreated => "DOMAIN_CREATED"@,
            ProductDomainEventTypeRecord::DomainStateChanged => "DOMAIN_STATE_CHANGED"@,
            ProductDomainEventTypeRecord::DomainPriceChanged => "DOMAIN_PRICE_CHANGED"@,
            ProductDomainEventTypeRecord::DomainEstimatePriceChanged => "DOMAIN_ESTIMATE_PRICE_CHANGED"@,
            ProductDomainEventTypeRecord::DomainUrlChanged => "DOMAIN_URL_CHANGED"@,
            ProductDomainEventTypeRecord::DomainImagesChanged => "DOMAIN_IMAGES_CHANGED"@,
            ProductDomainEventTypeRecord::DomainAuctionTimeChanged => "DOMAIN_AUCTION_TIME_CHANGED"@,
        }
    }

    pub fn as_str(&self) -> (s: &'static str)
        ensures
            s@ == self.spec_as_str(),
    {
        match self {
            ProductDomainEventTypeRecord::DomainCreated => "DOMAIN_CREATED",
            ProductDomainEventTypeRecord::DomainStateChanged => "DOMAIN_STATE_CHANGED",
            ProductDomainEventTypeRecord::DomainPriceChanged => "DOMAIN_PRICE_CHANGED",
            ProductDomainEventTypeRecord::DomainEstimatePriceChanged => "DOMAIN_ESTIMATE_PRICE_CHANGED",
            ProductDomainEventTypeRecord::DomainUrlChanged => "DOMAIN_URL_CHANGED",
            ProductDomainEventTypeRecord::DomainImagesChanged => "DOMAIN_IMAGES_CHANGED",
            ProductDomainEventTypeRecord::DomainAuctionTimeChanged => "DOMAIN_AUCTION_TIME_CHANGED",
        }
    }
}

/// The event type that records a payload of this kind.
pub open spec fn domain_event_type_of(payload: ProductDomainEventPayload) -> ProductDomainEventTypeRecord {
    match payload {
        ProductDomainEventPayload::Created(_) => ProductDomainEventTypeRecord::DomainCreated,
        ProductDomainEventPayload::StateChanged(_) => ProductDomainEventTypeRecord::DomainStateChanged,
        ProductDomainEventPayload::PriceChanged(_) => ProductDomainEventTypeRecord::DomainPriceChanged,
        ProductDomainEventPayload::EstimatePriceChanged(_) => ProductDomainEventTypeRecord::DomainEstimatePriceChanged,
        ProductDomainEventPayload::UrlChanged(_) => ProductDomainEventTypeRecord::DomainUrlChanged,
        ProductDomainEventPayload::ImagesChanged(_) => ProductDomainEventTypeRecord::DomainImagesChanged,
        ProductDomainEventPayload::AuctionTimeChanged(_) => ProductDomainEventTypeRecord::DomainAuctionTimeChanged,
    }
}

impl<'a> From<&'a ProductDomainEventPayload> for ProductDomainEventTypeRecord {
    fn from(payload: &'a ProductDomainEventPayload) -> (ret: Self) {
        match payload {
            ProductDomainEventPayload::Created(_) => ProductDomainEventTypeRecord::DomainCreated,
            ProductDomainEventPayload::StateChanged(_) => ProductDomainEventTypeRecord::DomainStateChanged,
            ProductDomainEventPayload::PriceChanged(_) => ProductDomainEventTypeRecord::DomainPriceChanged,
            ProductDomainEventPayload::EstimatePriceChanged(_) => ProductDomainEventTypeRecord::DomainEstimatePriceChanged,
            ProductDomainEventPayload::UrlChanged(_) => ProductDomainEventTypeRecord::DomainUrlChanged,
            ProductDomainEventPayload::ImagesChanged(_) => ProductDomainEventTypeRecord::DomainImagesChanged,
            ProductDomainEventPayload::AuctionTimeChanged(_) => ProductDomainEventTypeRecord::DomainAuctionTimeChanged,
        }
    }
}

impl<'a> FromSpecImpl<&'a ProductDomainEventPayload> for ProductDomainEventTypeRecord {
    open spec fn obeys_from_spec() -> bool {
        true
    }

    open spec fn from_spec(payload: &'a ProductDomainEventPayload) -> Self {
        domain_event_type_of(*payload)
    }
}

} // verus!
