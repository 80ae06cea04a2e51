//! Stored forms of the events of a product.

use crate::domain::{
    EventId, ProductDomainEvent, ProductEnrichmentEvent, ProductEvent, ProductEventPayload, ProductId,
    ProductKey, ProductLifecycleEvent, ProductPolicyEvent,
};
use crate::ids::spec_uuid_text;
use crate::timefmt::spec_rfc3339;
use vstd::prelude::*;
use vstd::std_specs::convert::FromSpecImpl;

pub mod domain;
pub mod enrichment;
pub mod lifecycle;
pub mod policy;

use domain::{records_domain_event, ProductDomainEventRecord};
use enrichment::{records_enrichment_event, ProductEnrichmentEventRecord};
use lifecycle::{records_lifecycle_event, ProductLifecycleEventRecord};
use policy::{records_policy_event, FormatError, ProductPolicyEventRecord};

verus! {

/// `key` ends with the text of the event id `event_id`.
pub open spec fn ends_with_event_id(key: Seq<char>, event_id: EventId) -> bool {
    let id = spec_uuid_text(event_id);
    key.len() >= id.len() && key.subrange(key.len() - id.len(), key.len() as int) == id
}

/// A key made of any prefix followed by the text of an event id ends with that id.
pub proof fn lemma_ends_with_event_id(prefix: Seq<char>, event_id: EventId)
    ensures
        ends_with_event_id(prefix + spec_uuid_text(event_id), event_id),
{
    let id = spec_uuid_text(event_id);
    let key = prefix + id;
    assert(key.subrange(key.len() - id.len(), key.len() as int) =~= id);
}

/// The sort key of a stored event.
pub open spec fn record_sort_key(record: ProductEventRecord) -> Seq<char> {
    match record {
        ProductEventRecord::Domain(r) => r.sk@,
        ProductEventRecord::Enrichment(r) => r.sk@,
        ProductEventRecord::Policy(r) => r.sk@,
        ProductEventRecord::Lifecycle(r) => r.sk@,
    }
}

/// The id of a stored event.
pub open spec fn record_event_id(record: ProductEventRecord) -> EventId {
    match record {
        ProductEventRecord::Domain(r) => r.event_id,
        ProductEventRecord::Enrichment(r) => r.event_id,
        ProductEventRecord::Policy(r) => r.event_id,
        ProductEventRecord::Lifecycle(r) => r.event_id,
    }
}

/// Any stored event of a product. The event types of the kinds are disjoint, so the
/// kind of a stored item is known from its `event_type` alone.
#[derive(Debug)]
pub enum ProductEventRecord {
    Domain(ProductDomainEventRecord),
    Enrichment(ProductEnrichmentEventRecord),
    Policy(ProductPolicyEventRecord),
    Lifecycle(ProductLifecycleEventRecord),
}

impl ProductEventRecord {
    /// The product the event is about.
    pub fn product_id(&self) -> (id: ProductId)
        ensures
            id == match self {
                ProductEventRecord::Domain(r) => r.product_id,
                ProductEventRecord::Enrichment(r) => r.product_id,
                ProductEventRecord::Policy(r) => r.product_id,
                ProductEventRecord::Lifecycle(r) => r.product_id,
            },
    {
        match self {
            ProductEventRecord::Domain(r) => r.product_id,
            ProductEventRecord::Enrichment(r) => r.product_id,
            ProductEventRecord::Policy(r) => r.product_id,
            ProductEventRecord::Lifecycle(r) => r.product_id,
        }
    }

    /// The key of the product the event is about.
    pub fn key(&self) -> (key: ProductKey)
        ensures
            match self {
                ProductEventRecord::Domain(r) => key.shop_id == r.shop_id && key.shops_product_id == r.shops_product_id,
                ProductEventRecord::Enrichment(r) => key.shop_id == r.shop_id && key.shops_product_id == r.shops_product_id,
                ProductEventRecord::Policy(r) => key.shop_id == r.shop_id && key.shops_product_id == r.shops_product_id,
                ProductEventRecord::Lifecycle(r) => key.shop_id == r.shop_id && key.shops_product_id == r.shops_product_id,
            },
    {
        match self {
            ProductEventRecord::Domain(r) => r.key(),
            ProductEventRecord::Enrichment(r) => r.key(),
            ProductEventRecord::Policy(r) => r.key(),
            ProductEventRecord::Lifecycle(r) => r.key(),
        }
    }

    /// Records an event of any kind with the record of its kind; only a policy event,
    /// whose sort key holds its time, can fail, when that time cannot be written. The
    /// sort key of every record ends with the id of its event.
    pub fn try_from_event(event: ProductEvent) -> (result: Result<ProductEventRecord, FormatError>)
        ensures
            result is Ok ==> record_event_id(result->Ok_0) == event.event_id,
            result is Ok ==> ends_with_event_id(record_sort_key(result->Ok_0), event.event_id),
            match event.payload {
                ProductEventPayload::ProductDomainEvent(payload) => result matches Ok(ProductEventRecord::Domain(record))
                    && records_domain_event(
                        ProductDomainEvent { aggregate_id: event.aggregate_id, event_id: event.event_id, timestamp: event.timestamp, payload },
                        record,
                    ),
                ProductEventPayload::ProductEnrichmentEvent(payload) => result matches Ok(ProductEventRecord::Enrichment(record))
                    && records_enrichment_event(
                        ProductEnrichmentEvent { aggregate_id: event.aggregate_id, event_id: event.event_id, timestamp: event.timestamp, payload },
                        record,
                    ),
                ProductEventPayload::ProductLifecycleEvent(payload) => result matches Ok(ProductEventRecord::Lifecycle(record))
                    && records_lifecycle_event(
                        ProductLifecycleEvent { aggregate_id: event.aggregate_id, event_id: event.event_id, timestamp: event.timestamp, payload },
                        record,
                    ),
                ProductEventPayload::ProductPolicyEvent(payload) => {
                    let policy_event = ProductPolicyEvent { aggregate_id: event.aggregate_id, event_id: event.event_id, timestamp: event.timestamp, payload };
                    match result {
                        Ok(ProductEventRecord::Policy(record)) => records_policy_event(policy_event, Ok(record)),
                        Err(error) => records_policy_event(policy_event, Err(error)),
                        Ok(_) => false,
                    }
                },
            },
    {
        let ghost event_id = event.event_id;
        let ghost timestamp = event.timestamp;
        let result = match event.payload {
            ProductEventPayload::ProductDomainEvent(payload) => Ok(ProductEventRecord::Domain(ProductDomainEventRecord::from_event(
                ProductDomainEvent { aggregate_id: event.aggregate_id, event_id: event.event_id, timestamp: event.timestamp, payload },
            ))),
            ProductEventPayload::ProductEnrichmentEvent(payload) => Ok(ProductEventRecord::Enrichment(ProductEnrichmentEventRecord::from_event(
                ProductEnrichmentEvent { aggregate_id: event.aggregate_id, event_id: event.event_id, timestamp: event.timestamp, payload },
            ))),
            ProductEventPayload::ProductLifecycleEvent(payload) => Ok(ProductEventRecord::Lifecycle(ProductLifecycleEventRecord::from_event(
                ProductLifecycleEvent { aggregate_id: event.aggregate_id, event_id: event.event_id, timestamp: event.timestamp, payload },
            ))),
            ProductEventPayload::ProductPolicyEvent(payload) => {
                match ProductPolicyEventRecord::try_from_event(
                    ProductPolicyEvent { aggregate_id: event.aggregate_id, event_id: event.event_id, timestamp: event.timestamp, payload },
                ) {
                    Ok(record) => Ok(ProductEventRecord::Policy(record)),
                    Err(error) => Err(error),
                }
            },
        };
        proof {
            match result {
                Ok(ProductEventRecord::Domain(_)) => {
                    lemma_ends_with_event_id("product#event#domain#"@, event_id);
                },
                Ok(ProductEventRecord::Enrichment(_)) => {
                    lemma_ends_with_event_id("product#event#enrichment#"@, event_id);
                },
                Ok(ProductEventRecord::Lifecycle(_)) => {
                    lemma_ends_with_event_id("product#event#lifecycle#"@, event_id);
                },
                Ok(ProductEventRecord::Policy(_)) => {
                    let text = spec_rfc3339(timestamp.unix_nanos, timestamp.offset_seconds)->0;
                    let prefix = "product#event#policy#"@ + text + "#"@;
                    assert(prefix + spec_uuid_text(event_id) =~= "product#event#policy#"@ + text + "#"@ + spec_uuid_text(event_id));
                    lemma_ends_with_event_id(prefix, event_id);
                },
                Err(_) => {},
            }
        }
        result
    }
}

impl From<ProductDomainEventRecord> for ProductEventRecord {
    fn from(record: ProductDomainEventRecord) -> (event: Self) {
        ProductEventRecord::Domain(record)
    }
}

impl FromSpecImpl<ProductDomainEventRecord> for ProductEventRecord {
    open spec fn obeys_from_spec() -> bool {
        true
    }

    open spec fn from_spec(record: ProductDomainEventRecord) -> Self {
        ProductEventRecord::Domain(record)
    }
}

impl From<ProductEnrichmentEventRecord> for ProductEventRecord {
    fn from(record: ProductEnrichmentEventRecord) -> (event: Self) {
        ProductEventRecord::Enrichment(record)
    }
}

impl FromSpecImpl<ProductEnrichmentEventRecord> for ProductEventRecord {
    open spec fn obeys_from_spec() -> bool {
        true
    }

    open spec fn from_spec(record: ProductEnrichmentEventRecord) -> Self {
        ProductEventRecord::Enrichment(record)
    }
}

impl From<ProductPolicyEventRecord> for ProductEventRecord {
    fn from(record: ProductPolicyEventRecord) -> (event: Self) {
        ProductEventRecord::Policy(record)
    }
}

impl FromSpecImpl<ProductPolicyEventRecord> for ProductEventRecord {
    open spec fn obeys_from_spec() -> bool {
        true
    }

    open spec fn from_spec(record: ProductPolicyEventRecord) -> Self {
        ProductEventRecord::Policy(record)
    }
}

impl From<ProductLifecycleEventRecord> for ProductEventRecord {
    fn from(record: ProductLifecycleEventRecord) -> (event: Self) {
        ProductEventRecord::Lifecycle(record)
    }
}

impl FromSpecImpl<ProductLifecycleEventRecord> for ProductEventRecord {
    open spec fn obeys_from_spec() -> bool {
        true
    }

    open spec fn from_spec(record: ProductLifecycleEventRecord) -> Self {
        ProductEventRecord::Lifecycle(record)
    }
}

} // verus!
