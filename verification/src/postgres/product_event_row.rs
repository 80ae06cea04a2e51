//! The rows of the event table: one per event of any kind.

use crate::domain::{
    Actor, EventId, ProductDomainEventPayload, ProductEnrichmentEventPayload, ProductEvent,
    ProductEventPayload, ProductId, ProductLifecycleEventPayload, ProductPolicyEventPayload,
    ShopId, Timestamp,
};
use crate::dynamodb::product_event_type_record::domain::{domain_event_type_of, ProductDomainEventTypeRecord};
use crate::dynamodb::product_event_type_record::enrichment::{enrichment_event_type_of, ProductEnrichmentEventTypeRecord};
use crate::dynamodb::product_event_type_record::lifecycle::ProductLifecycleEventTypeRecord;
use crate::dynamodb::product_event_type_record::policy::ProductPolicyEventTypeRecord;
use vstd::prelude::*;

verus! {

/// The kind of change an event row records.
#[derive(Clone, Copy, Debug, PartialEq, Eq, Structural, Hash)]
pub enum ProductEventGroup {
    Domain,
    Enrichment,
    Policy,
    Lifecycle,
}

impl ProductEventGroup {
    /// The name under which the group is stored.
    pub open spec fn spec_as_str(self) -> Seq<char> {
        match self {
            ProductEventGroup::Domain => "DOMAIN"@,
            ProductEventGroup::Enrichment => "ENRICHMENT"@,
            ProductEventGroup::Policy => "POLICY"@,
            ProductEventGroup::Lifecycle => "LIFECYCLE"@,
        }
    }

    pub fn as_str(self) -> (name: &'static str)
        ensures
            name@ == self.spec_as_str(),
    {
        match self {
            ProductEventGroup::Domain => "DOMAIN",
            ProductEventGroup::Enrichment => "ENRICHMENT",
            ProductEventGroup::Policy => "POLICY",
            ProductEventGroup::Lifecycle => "LIFECYCLE",
        }
    }
}

/// The group of an event.
pub open spec fn spec_event_group(payload: ProductEventPayload) -> ProductEventGroup {
    match payload {
        ProductEventPayload::ProductDomainEvent(_) => ProductEventGroup::Domain,
        ProductEventPayload::ProductEnrichmentEvent(_) => ProductEventGroup::Enrichment,
        ProductEventPayload::ProductPolicyEvent(_) => ProductEventGroup::Policy,
        ProductEventPayload::ProductLifecycleEvent(_) => ProductEventGroup::Lifecycle,
    }
}

/// The group of the event that `payload` records.
pub fn event_group(payload: &ProductEventPayload) -> (group: ProductEventGroup)
    ensures
        group == spec_event_group(*payload),
{
    match payload {
        ProductEventPayload::ProductDomainEvent(_) => ProductEventGroup::Domain,
        ProductEventPayload::ProductEnrichmentEvent(_) => ProductEventGroup::Enrichment,
        ProductEventPayload::ProductPolicyEvent(_) => ProductEventGroup::Policy,
        ProductEventPayload::ProductLifecycleEvent(_) => ProductEventGroup::Lifecycle,
    }
}

/// The type name of an event, as its record type names it.
pub open spec fn spec_event_type_name(payload: ProductEventPayload) -> Seq<char> {
    match payload {
        ProductEventPayload::ProductDomainEvent(p) => domain_event_type_of(p).spec_as_str(),
        ProductEventPayload::ProductEnrichmentEvent(p) => enrichment_event_type_of(p).spec_as_str(),
        ProductEventPayload::ProductPolicyEvent(_) => ProductPolicyEventTypeRecord::PolicyProhibitedContentDecision.spec_as_str(),
        ProductEventPayload::ProductLifecycleEvent(_) => ProductLifecycleEventTypeRecord::LifecycleDeleted.spec_as_str(),
    }
}

fn event_type_name(payload: &ProductEventPayload) -> (name: &'static str)
    ensures
        name@ == spec_event_type_name(*payload),
{
    match payload {
        ProductEventPayload::ProductDomainEvent(p) => ProductDomainEventTypeRecord::from(p).as_str(),
        ProductEventPayload::ProductEnrichmentEvent(p) => ProductEnrichmentEventTypeRecord::from(p).as_str(),
        ProductEventPayload::ProductPolicyEvent(p) => ProductPolicyEventTypeRecord::from(p).as_str(),
        ProductEventPayload::ProductLifecycleEvent(p) => ProductLifecycleEventTypeRecord::from(p).as_str(),
    }
}

/// The shop and the shop's identifier of the product an event is about.
pub open spec fn spec_event_key(payload: ProductEventPayload) -> (ShopId, String) {
    match payload {
        ProductEventPayload::ProductDomainEvent(p) => match p {
            ProductDomainEventPayload::Created(p) => (p.shop_id, p.shops_product_id),
            ProductDomainEventPayload::StateChanged(p) => (p.shop_id, p.shops_product_id),
            ProductDomainEventPayload::PriceChanged(p) => (p.shop_id, p.shops_product_id),
            ProductDomainEventPayload::EstimatePriceChanged(p) => (p.shop_id, p.shops_product_id),
            ProductDomainEventPayload::UrlChanged(p) => (p.shop_id, p.shops_product_id),
            ProductDomainEventPayload::ImagesChanged(p) => (p.shop_id, p.shops_product_id),
            ProductDomainEventPayload::AuctionTimeChanged(p) => (p.shop_id, p.shops_product_id),
        },
        ProductEventPayload::ProductEnrichmentEvent(p) => match p {
            ProductEnrichmentEventPayload::TranslatedTitle(p) => (p.shop_id, p.shops_product_id),
            ProductEnrichmentEventPayload::Embedded(p) => (p.shop_id, p.shops_product_id),
        },
        ProductEventPayload::ProductPolicyEvent(p) => match p {
            ProductPolicyEventPayload::ProhibitedContentDecision(p) => (p.shop_id, p.shops_product_id),
        },
        ProductEventPayload::ProductLifecycleEvent(p) => match p {
            ProductLifecycleEventPayload::Deleted(p) => (p.shop_id, p.shops_product_id),
        },
    }
}

fn event_key(payload: &ProductEventPayload) -> (key: (ShopId, String))
    ensures
        key == spec_event_key(*payload),
{
    match payload {
        ProductEventPayload::ProductDomainEvent(p) => match p {
            ProductDomainEventPayload::Created(p) => (p.shop_id, p.shops_product_id.clone()),
            ProductDomainEventPayload::StateChanged(p) => (p.shop_id, p.shops_product_id.clone()),
            ProductDomainEventPayload::PriceChanged(p) => (p.shop_id, p.shops_product_id.clone()),
            ProductDomainEventPayload::EstimatePriceChanged(p) => (p.shop_id, p.shops_product_id.clone()),
            ProductDomainEventPayload::UrlChanged(p) => (p.shop_id, p.shops_product_id.clone()),
            ProductDomainEventPayload::ImagesChanged(p) => (p.shop_id, p.shops_product_id.clone()),
            ProductDomainEventPayload::AuctionTimeChanged(p) => (p.shop_id, p.shops_product_id.clone()),
        },
        ProductEventPayload::ProductEnrichmentEvent(p) => match p {
            ProductEnrichmentEventPayload::TranslatedTitle(p) => (p.shop_id, p.shops_product_id.clone()),
            ProductEnrichmentEventPayload::Embedded(p) => (p.shop_id, p.shops_product_id.clone()),
        },
        ProductEventPayload::ProductPolicyEvent(p) => match p {
            ProductPolicyEventPayload::ProhibitedContentDecision(p) => (p.shop_id, p.shops_product_id.clone()),
        },
        ProductEventPayload::ProductLifecycleEvent(p) => match p {
            ProductLifecycleEventPayload::Deleted(p) => (p.shop_id, p.shops_product_id.clone()),
        },
    }
}

/// A row of the event table. The payload is kept as the event's own payload; the
/// table holds it as a JSON object of its fields, without the keys of the row.
#[derive(Debug)]
pub struct ProductEventRow {
    pub event_id: EventId,
    pub product_id: ProductId,
    pub shop_id: ShopId,
    pub shops_product_id: String,
    pub event_type: String,
    pub event_group: ProductEventGroup,
    pub event_type_schema_version: i32,
    pub payload: ProductEventPayload,
    pub event_time: Timestamp,
    pub created_by: Actor,
}

impl ProductEventRow {
    /// The row of an event: its identifiers, the key of its product, its type and
    /// group, the first schema version, its payload and time, written by the system.
    pub fn from_event(event: ProductEvent) -> (row: Self)
        ensures
            row.event_id == event.event_id,
            row.product_id == event.aggregate_id,
            (row.shop_id, row.shops_product_id) == spec_event_key(event.payload),
            row.event_type@ == spec_event_type_name(event.payload),
            row.event_group == spec_event_group(event.payload),
            row.event_type_schema_version == 1,
            row.payload == event.payload,
            row.event_time == event.timestamp,
            row.created_by == Actor::System,
    {
        let (shop_id, shops_product_id) = event_key(&event.payload);
        let event_type = String::from_str(event_type_name(&event.payload));
        let event_group = event_group(&event.payload);
        ProductEventRow {
            event_id: event.event_id,
            product_id: event.aggregate_id,
            shop_id,
            shops_product_id,
            event_type,
            event_group,
            event_type_schema_version: 1,
            payload: event.payload,
            event_time: event.timestamp,
            created_by: Actor::System,
        }
    }
}

} // verus!
