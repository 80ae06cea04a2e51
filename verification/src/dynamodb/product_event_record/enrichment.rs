//! Stored form of the enrichment events of a product.

use crate::domain::{
    EmbeddedPayload, EventId, ProductEnrichmentEvent, ProductEnrichmentEventPayload, ProductId,
    ProductKey, ShopId, Timestamp, TranslationPayload,
};
use crate::dynamodb::missing_field::{missing, MissingPersistenceField, RecordField};
use crate::dynamodb::product_event_type_record::enrichment::ProductEnrichmentEventTypeRecord;
use crate::ids::{spec_uuid_text, uuid_to_string};
use crate::text::concat;
use crate::values::Language;
use vstd::prelude::*;

verus! {

/// An enrichment event as written to the product partition.
#[derive(Debug)]
pub struct ProductEnrichmentEventRecord {
    pub pk: String,
    pub sk: String,
    pub product_id: ProductId,
    pub event_id: EventId,
    pub event_type: ProductEnrichmentEventTypeRecord,
    pub event_type_schema_version: u8,
    pub shop_id: ShopId,
    pub seller_id: ShopId,
    pub shops_product_id: String,
    pub source_language: Option<Language>,
    pub target_language: Option<Language>,
    pub target: Option<String>,
    pub embedding: Option<Vec<u32>>,
    pub native_title: Option<String>,
    /// Language of the native title, present with it on embedding records so that
    /// later stages know the source language without another lookup.
    pub native_title_language: Option<Language>,
    pub timestamp: Timestamp,
}

/// The partition key of every record of a product.
pub fn mk_pk(shop_id: ShopId, shops_product_id: &str) -> (pk: String)
    ensures
        pk@ == crate::dynamodb::product_event_record::domain::spec_pk(shop_id, shops_product_id@),
{
    crate::dynamodb::product_event_record::domain::mk_pk(shop_id, shops_product_id)
}

/// `product#event#enrichment#{event_id}`.
pub open spec fn spec_sk(event_id: EventId) -> Seq<char> {
    "product#event#enrichment#"@ + spec_uuid_text(event_id)
}

/// The sort key of a stored enrichment event; it ends with the event id.
pub fn mk_sk(event_id: EventId) -> (sk: String)
    ensures
        sk@ == spec_sk(event_id),
{
    let event = uuid_to_string(event_id);
    concat("product#event#enrichment#", event.as_str())
}

/// The record of an enrichment event, given its keys.
pub open spec fn spec_record_of_enrichment(event: ProductEnrichmentEvent, pk: String, sk: String) -> ProductEnrichmentEventRecord {
    match event.payload {
        ProductEnrichmentEventPayload::TranslatedTitle(p) => ProductEnrichmentEventRecord {
            pk,
            sk,
            product_id: event.aggregate_id,
            event_id: event.event_id,
            event_type: ProductEnrichmentEventTypeRecord::EnrichmentTranslatedTitle,
            event_type_schema_version: 0,
            shop_id: p.shop_id,
            seller_id: p.seller_id,
            shops_product_id: p.shops_product_id,
            source_language: Some(p.source_language),
            target_language: Some(p.target_language),
            target: Some(p.target),
            embedding: None,
            native_title: None,
            native_title_language: None,
            timestamp: event.timestamp,
        },
        ProductEnrichmentEventPayload::Embedded(p) => ProductEnrichmentEventRecord {
            pk,
            sk,
            product_id: event.aggregate_id,
            event_id: event.event_id,
            event_type: ProductEnrichmentEventTypeRecord::EnrichmentEmbedded,
            event_type_schema_version: 0,
            shop_id: p.shop_id,
            seller_id: p.seller_id,
            shops_product_id: p.shops_product_id,
            source_language: None,
            target_language: None,
            target: None,
            embedding: Some(p.embedding),
            native_title: p.native_title,
            native_title_language: p.native_title_language,
            timestamp: event.timestamp,
        },
    }
}

/// The shop and the shop's product id of an enrichment payload.
pub open spec fn enrichment_product(payload: ProductEnrichmentEventPayload) -> (ShopId, String) {
    match payload {
        ProductEnrichmentEventPayload::TranslatedTitle(p) => (p.shop_id, p.shops_product_id),
        ProductEnrichmentEventPayload::Embedded(p) => (p.shop_id, p.shops_product_id),
    }
}

/// Reads an enrichment event back from its record; the first attribute the event
/// type needs and the record lacks is reported.
pub open spec fn spec_enrichment_of_record(record: ProductEnrichmentEventRecord) -> Result<ProductEnrichmentEvent, MissingPersistenceField> {
    let event = |payload: ProductEnrichmentEventPayload| Ok(ProductEnrichmentEvent {
        aggregate_id: record.product_id,
        event_id: record.event_id,
        timestamp: record.timestamp,
        payload,
    });
    match record.event_type {
        ProductEnrichmentEventTypeRecord::EnrichmentTranslatedTitle => {
            if record.source_language is None {
                Err(MissingPersistenceField { field: RecordField::SourceLanguage })
            } else if record.target_language is None {
                Err(MissingPersistenceField { field: RecordField::TargetLanguage })
            } else if record.target is None {
                Err(MissingPersistenceField { field: RecordField::Target })
            } else {
                event(ProductEnrichmentEventPayload::TranslatedTitle(TranslationPayload {
                    shop_id: record.shop_id,
                    seller_id: record.seller_id,
                    shops_product_id: record.shops_product_id,
                    source_language: record.source_language->0,
                    target_language: record.target_language->0,
                    target: record.target->0,
                }))
            }
        },
        ProductEnrichmentEventTypeRecord::EnrichmentEmbedded => {
            if record.embedding is None {
                Err(MissingPersistenceField { field: RecordField::Embedding })
            } else {
                event(ProductEnrichmentEventPayload::Embedded(EmbeddedPayload {
                    shop_id: record.shop_id,
                    seller_id: record.seller_id,
                    shops_product_id: record.shops_product_id,
                    embedding: record.embedding->0,
                    native_title: record.native_title,
                    native_title_language: record.native_title_language,
                }))
            }
        },
    }
}

/// `record` is the record of the enrichment event `event`.
pub open spec fn records_enrichment_event(event: ProductEnrichmentEvent, record: ProductEnrichmentEventRecord) -> bool {
    &&& record == spec_record_of_enrichment(event, record.pk, record.sk)
    &&& record.pk@ == crate::dynamodb::product_event_record::domain::spec_pk(
        enrichment_product(event.payload).0,
        enrichment_product(event.payload).1@,
    )
    &&& record.sk@ == spec_sk(event.event_id)
}

impl ProductEnrichmentEventRecord {
    /// Records an enrichment event.
    pub fn from_event(event: ProductEnrichmentEvent) -> (record: Self)
        ensures
            records_enrichment_event(event, record),
    {
        let sk = mk_sk(event.event_id);
        match event.payload {
            ProductEnrichmentEventPayload::TranslatedTitle(p) => ProductEnrichmentEventRecord {
                pk: mk_pk(p.shop_id, p.shops_product_id.as_str()),
                sk,
                product_id: event.aggregate_id,
                event_id: event.event_id,
                event_type: ProductEnrichmentEventTypeRecord::EnrichmentTranslatedTitle,
                event_type_schema_version: 0,
                shop_id: p.shop_id,
                seller_id: p.seller_id,
                shops_product_id: p.shops_product_id,
                source_language: Some(p.source_language),
                target_language: Some(p.target_language),
                target: Some(p.target),
                embedding: None,
                native_title: None,
                native_title_language: None,
                timestamp: event.timestamp,
            },
            ProductEnrichmentEventPayload::Embedded(p) => ProductEnrichmentEventRecord {
                pk: mk_pk(p.shop_id, p.shops_product_id.as_str()),
                sk,
                product_id: event.aggregate_id,
                event_id: event.event_id,
                event_type: ProductEnrichmentEventTypeRecord::EnrichmentEmbedded,
                event_type_schema_version: 0,
                shop_id: p.shop_id,
                seller_id: p.seller_id,
                shops_product_id: p.shops_product_id,
                source_language: None,
                target_language: None,
                target: None,
                embedding: Some(p.embedding),
                native_title: p.native_title,
                native_title_language: p.native_title_language,
                timestamp: event.timestamp,
            },
        }
    }

    /// The key of the product the event is about.
    pub fn key(&self) -> (key: ProductKey)
        ensures
            key.shop_id == self.shop_id,
            key.shops_product_id == self.shops_product_id,
    {
        ProductKey { shop_id: self.shop_id, shops_product_id: self.shops_product_id.clone() }
    }
}

impl ProductEnrichmentEvent {
    /// Reads an enrichment event back from its record.
    pub fn try_from_record(record: ProductEnrichmentEventRecord) -> (result: Result<ProductEnrichmentEvent, MissingPersistenceField>)
        ensures
            result == spec_enrichment_of_record(record),
    {
        let payload = match record.event_type {
            ProductEnrichmentEventTypeRecord::EnrichmentTranslatedTitle => {
                let source_language = match record.source_language {
                    Some(v) => v,
                    None => return Err(missing(RecordField::SourceLanguage)),
                };
                let target_language = match record.target_language {
                    Some(v) => v,
                    None => return Err(missing(RecordField::TargetLanguage)),
                };
                let target = match record.target {
                    Some(v) => v,
                    None => return Err(missing(RecordField::Target)),
                };
                ProductEnrichmentEventPayload::TranslatedTitle(TranslationPayload {
                    shop_id: record.shop_id,
                    seller_id: record.seller_id,
                    shops_product_id: record.shops_product_id,
                    source_language,
                    target_language,
                    target,
                })
            },
            ProductEnrichmentEventTypeRecord::EnrichmentEmbedded => {
                let embedding = match record.embedding {
                    Some(v) => v,
                    None => return Err(missing(RecordField::Embedding)),
                };
                ProductEnrichmentEventPayload::Embedded(EmbeddedPayload {
                    shop_id: record.shop_id,
                    seller_id: record.seller_id,
                    shops_product_id: record.shops_product_id,
                    embedding,
                    native_title: record.native_title,
                    native_title_language: record.native_title_language,
                })
            },
        };
        Ok(ProductEnrichmentEvent {
            aggregate_id: record.product_id,
            event_id: record.event_id,
            timestamp: record.timestamp,
            payload,
        })
    }
}

/// Writing an enrichment event and reading its record back gives the event again.
pub proof fn lemma_enrichment_record_round_trip(event: ProductEnrichmentEvent, pk: String, sk: String)
    ensures
        spec_enrichment_of_record(spec_record_of_enrichment(event, pk, sk)) == Ok::<ProductEnrichmentEvent, MissingPersistenceField>(event),
{
}

} // verus!
