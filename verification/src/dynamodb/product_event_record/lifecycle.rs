//! Stored form of the lifecycle events of a product.

use crate::domain::{
    EventId, ProductId, ProductKey, ProductLifecycleEvent, ProductLifecycleEventPayload, ShopId,
    Timestamp,
};
use crate::dynamodb::product_event_type_record::lifecycle::ProductLifecycleEventTypeRecord;
use crate::ids::{spec_uuid_text, uuid_to_string};
use crate::text::concat;
use crate::values::ProductLifecycle;
use vstd::prelude::*;

verus! {

/// A lifecycle event as written to the product partition.
#[derive(Debug)]
pub struct ProductLifecycleEventRecord {
    pub pk: String,
    pub sk: String,
    pub product_id: ProductId,
    pub event_id: EventId,
    pub event_type: ProductLifecycleEventTypeRecord,
    pub event_type_schema_version: u8,
    pub shop_id: ShopId,
    pub seller_id: ShopId,
    pub shops_product_id: String,
    pub new_lifecycle: ProductLifecycle,
    pub old_lifecycle: ProductLifecycle,
    pub timestamp: Timestamp,
}

/// The partition key of every record of a product.
pub fn mk_pk(shop_id: ShopId, shops_product_id: &str) -> (pk: String)
    ensures
        pk@ == crate::dynamodb::product_event_record::domain::spec_pk(shop_id, shops_product_id@),
{
    crate::dynamodb::product_event_record::domain::mk_pk(shop_id, shops_product_id)
}

/// `product#event#lifecycle#{event_id}`.
pub open spec fn spec_sk(event_id: EventId) -> Seq<char> {
    "product#event#lifecycle#"@ + spec_uuid_text(event_id)
}

/// The sort key of a stored lifecycle event; it ends with the event id.
pub fn mk_sk(event_id: EventId) -> (sk: String)
    ensures
        sk@ == spec_sk(event_id),
{
    let event = uuid_to_string(event_id);
    concat("product#event#lifecycle#", event.as_str())
}

/// `record` is the record of the lifecycle event `event`.
pub open spec fn records_lifecycle_event(event: ProductLifecycleEvent, record: ProductLifecycleEventRecord) -> bool {
    match event.payload {
        ProductLifecycleEventPayload::Deleted(p) => {
            &&& record.pk@ == crate::dynamodb::product_event_record::domain::spec_pk(p.shop_id, p.shops_product_id@)
            &&& record.sk@ == spec_sk(event.event_id)
            &&& record == (ProductLifecycleEventRecord {
                pk: record.pk,
                sk: record.sk,
                product_id: event.aggregate_id,
                event_id: event.event_id,
                event_type: ProductLifecycleEventTypeRecord::LifecycleDeleted,
                event_type_schema_version: 0,
                shop_id: p.shop_id,
                seller_id: p.seller_id,
                shops_product_id: p.shops_product_id,
                new_lifecycle: p.new_lifecycle,
                old_lifecycle: p.old_lifecycle,
                timestamp: event.timestamp,
            })
        },
    }
}

impl ProductLifecycleEventRecord {
    /// Records a lifecycle event.
    pub fn from_event(event: ProductLifecycleEvent) -> (record: Self)
        ensures
            records_lifecycle_event(event, record),
    {
        let event_type = ProductLifecycleEventTypeRecord::from(&event.payload);
        let sk = mk_sk(event.event_id);
        match event.payload {
            ProductLifecycleEventPayload::Deleted(p) => ProductLifecycleEventRecord {
                pk: mk_pk(p.shop_id, p.shops_product_id.as_str()),
                sk,
                product_id: event.aggregate_id,
                event_id: event.event_id,
                event_type,
                event_type_schema_version: 0,
                shop_id: p.shop_id,
                seller_id: p.seller_id,
                shops_product_id: p.shops_product_id,
                new_lifecycle: p.new_lifecycle,
                old_lifecycle: p.old_lifecycle,
                timestamp: event.timestamp,
            },
        }
    }

    /// The key of the product the event is about.
    pub fn key(&self) -> (key: ProductKey)
        ensures
            key.shop_id == self.shop_id,
            key.shops_product_id == self.shops_product_id,
    {
        ProductKey { shop_id: self.shop_id, shops_product_id: self.shops_product_id.clone() }
    }
}

} // verus!
