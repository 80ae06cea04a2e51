//! Stored form of the policy events of a product.

use crate::domain::{
    EventId, ProductId, ProductKey, ProductPolicyEvent, ProductPolicyEventPayload,
    ProhibitedContentDecisionPayload, ShopId, Timestamp,
};
use crate::dynamodb::product_event_type_record::policy::ProductPolicyEventTypeRecord;
use crate::dynamodb::prohibited_content_record::{
    lemma_prohibited_content_record_round_trip, prohibited_content_of_prohibited_content_record,
    prohibited_content_record_of_prohibited_content, ProhibitedContentRecord,
};
use crate::ids::{spec_uuid_text, uuid_to_string};
use crate::text::concat;
use crate::timefmt::{format_rfc3339, spec_rfc3339};
use crate::values::ProhibitedContent;
use vstd::prelude::*;

verus! {

/// A policy event as written to the product partition.
#[derive(Debug)]
pub struct ProductPolicyEventRecord {
    pub pk: String,
    pub sk: String,
    pub product_id: ProductId,
    pub event_id: EventId,
    pub event_type: ProductPolicyEventTypeRecord,
    pub event_type_schema_version: u8,
    pub shop_id: ShopId,
    pub shops_product_id: String,
    pub prohibited_content_decision: ProhibitedContentRecord,
    pub prohibited_content_reason: String,
    pub timestamp: Timestamp,
}

/// The timestamp of an event cannot be written as RFC 3339 text.
#[derive(Clone, Copy, Debug, PartialEq, Eq, Structural, Hash)]
pub struct FormatError;

/// The partition key of every record of a product.
pub fn mk_pk(shop_id: ShopId, shops_product_id: &str) -> (pk: String)
    ensures
        pk@ == crate::dynamodb::product_event_record::domain::spec_pk(shop_id, shops_product_id@),
{
    crate::dynamodb::product_event_record::domain::mk_pk(shop_id, shops_product_id)
}

/// `product#event#policy#{timestamp as RFC 3339}#{event_id}`, when the timestamp can
/// be written: the events of a product sort by time, and each key ends with its event id.
pub open spec fn spec_sk(timestamp: Timestamp, event_id: EventId) -> Option<Seq<char>> {
    match spec_rfc3339(timestamp.unix_nanos, timestamp.offset_seconds) {
        Some(text) => Some("product#event#policy#"@ + text + "#"@ + spec_uuid_text(event_id)),
        None => None,
    }
}

/// The sort key of a stored policy event; it ends with the event id.
pub fn mk_sk(timestamp: Timestamp, event_id: EventId) -> (sk: Result<String, FormatError>)
    ensures
        sk is Ok <==> spec_sk(timestamp, event_id) is Some,
        sk is Ok ==> sk->Ok_0@ == spec_sk(timestamp, event_id)->0,
        sk is Ok ==> sk->Ok_0@.len() >= 36
            && sk->Ok_0@.subrange(sk->Ok_0@.len() - 36, sk->Ok_0@.len() as int) == spec_uuid_text(event_id),
{
    match format_rfc3339(timestamp) {
        Some(text) => {
            let with_time = concat("product#event#policy#", text.as_str());
            let with_separator = concat(with_time.as_str(), "#");
            let event = uuid_to_string(event_id);
            let sk = concat(with_separator.as_str(), event.as_str());
            assert(sk@.subrange(sk@.len() - 36, sk@.len() as int) =~= spec_uuid_text(event_id));
            Ok(sk)
        },
        None => Err(FormatError),
    }
}

/// `result` is the record of the policy event `event`, or the failure to write its
/// time.
pub open spec fn records_policy_event(event: ProductPolicyEvent, result: Result<ProductPolicyEventRecord, FormatError>) -> bool {
    &&& result is Ok <==> spec_sk(event.timestamp, event.event_id) is Some
    &&& match event.payload {
        ProductPolicyEventPayload::ProhibitedContentDecision(p) => result is Ok ==> {
            let record = result->Ok_0;
            &&& record.pk@ == crate::dynamodb::product_event_record::domain::spec_pk(p.shop_id, p.shops_product_id@)
            &&& record.sk@ == spec_sk(event.timestamp, event.event_id)->0
            &&& record == (ProductPolicyEventRecord {
                pk: record.pk,
                sk: record.sk,
                product_id: event.aggregate_id,
                event_id: event.event_id,
                event_type: ProductPolicyEventTypeRecord::PolicyProhibitedContentDecision,
                event_type_schema_version: 0,
                shop_id: p.shop_id,
                shops_product_id: p.shops_product_id,
                prohibited_content_decision: prohibited_content_record_of_prohibited_content(p.decision),
                prohibited_content_reason: p.reason,
                timestamp: event.timestamp,
            })
        },
    }
}

impl ProductPolicyEventRecord {
    /// Records a policy event; fails when its timestamp cannot be written.
    pub fn try_from_event(event: ProductPolicyEvent) -> (result: Result<Self, FormatError>)
        ensures
            records_policy_event(event, result),
    {
        match event.payload {
            ProductPolicyEventPayload::ProhibitedContentDecision(p) => {
                let sk = match mk_sk(event.timestamp, event.event_id) {
                    Ok(sk) => sk,
                    Err(error) => return Err(error),
                };
                Ok(ProductPolicyEventRecord {
                    pk: mk_pk(p.shop_id, p.shops_product_id.as_str()),
                    sk,
                    product_id: event.aggregate_id,
                    event_id: event.event_id,
                    event_type: ProductPolicyEventTypeRecord::PolicyProhibitedContentDecision,
                    event_type_schema_version: 0,
                    shop_id: p.shop_id,
                    shops_product_id: p.shops_product_id,
                    prohibited_content_decision: ProhibitedContentRecord::from(p.decision),
                    prohibited_content_reason: p.reason,
                    timestamp: event.timestamp,
                })
            },
        }
    }

    /// The key of the product the event is about.
    pub fn key(&self) -> (key: ProductKey)
        ensures
            key.shop_id == self.shop_id,
            key.shops_product_id == self.shops_product_id,
    {
        ProductKey { shop_id: self.shop_id, shops_product_id: self.shops_product_id.clone() }
    }
}

/// The policy event a record stands for.
pub open spec fn spec_policy_of_record(record: ProductPolicyEventRecord) -> ProductPolicyEvent {
    ProductPolicyEvent {
        aggregate_id: record.product_id,
        event_id: record.event_id,
        timestamp: record.timestamp,
        payload: ProductPolicyEventPayload::ProhibitedContentDecision(ProhibitedContentDecisionPayload {
            shop_id: record.shop_id,
            shops_product_id: record.shops_product_id,
            decision: prohibited_content_of_prohibited_content_record(record.prohibited_content_decision),
            reason: record.prohibited_content_reason,
        }),
    }
}

impl ProductPolicyEvent {
    /// Reads a policy event back from its record.
    pub fn from_record(record: ProductPolicyEventRecord) -> (event: Self)
        ensures
            event == spec_policy_of_record(record),
    {
        ProductPolicyEvent {
            aggregate_id: record.product_id,
            event_id: record.event_id,
            timestamp: record.timestamp,
            payload: ProductPolicyEventPayload::ProhibitedContentDecision(ProhibitedContentDecisionPayload {
                shop_id: record.shop_id,
                shops_product_id: record.shops_product_id,
                decision: ProhibitedContent::from(record.prohibited_content_decision),
                reason: record.prohibited_content_reason,
            }),
        }
    }
}

/// Writing a policy event and reading its record back gives the event again.
pub proof fn lemma_policy_record_round_trip(event: ProductPolicyEvent, record: ProductPolicyEventRecord)
    requires
        match event.payload {
            ProductPolicyEventPayload::ProhibitedContentDecision(p) => record == (ProductPolicyEventRecord {
                pk: record.pk,
                sk: record.sk,
                product_id: event.aggregate_id,
                event_id: event.event_id,
                event_type: ProductPolicyEventTypeRecord::PolicyProhibitedContentDecision,
                event_type_schema_version: 0,
                shop_id: p.shop_id,
                shops_product_id: p.shops_product_id,
                prohibited_content_decision: prohibited_content_record_of_prohibited_content(p.decision),
                prohibited_content_reason: p.reason,
                timestamp: event.timestamp,
            }),
        },
    ensures
        spec_policy_of_record(record) == event,
{
    match event.payload {
        ProductPolicyEventPayload::ProhibitedContentDecision(p) => {
            lemma_prohibited_content_record_round_trip(p.decision, ProhibitedContentRecord::Unknown);
        },
    }
}

} // verus!
