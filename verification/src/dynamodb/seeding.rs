//! Seeding a table with materialized records as if they had been created by events:
//! each record becomes the record of its creation event and a meta record.

use crate::domain::{duplicate_localized, Actor, CurrencyAmounts};
use crate::dynamodb::product_event_record::domain::{mk_pk, mk_sk, spec_pk, spec_sk, ProductDomainEventRecord};
use crate::dynamodb::product_event_type_record::domain::ProductDomainEventTypeRecord;
use crate::dynamodb::product_image_record::duplicate_image_records;
use crate::dynamodb::product_meta_record::ProductMetaRecord;
use crate::dynamodb::product_record::{
    mk_gsi2_pk, mk_gsi2_sk, spec_gsi2_pk, spec_product_record_of_event_record, ProductRecord,
};
use crate::values::ProductLifecycle;
use vstd::prelude::*;

verus! {

/// The record of the creation event that a materialized record stands for, given
/// the keys it is written under: every attribute the record has, no old price nor
/// old state, schema version zero, at the time the product was created.
pub open spec fn spec_created_event_record_of(record: ProductRecord, pk: String, sk: String, images: Vec<crate::dynamodb::product_image_record::ProductImageRecord>) -> ProductDomainEventRecord {
    ProductDomainEventRecord {
        pk,
        sk,
        product_id: record.product_id,
        product_slug_id: Some(record.product_slug_id),
        shop_slug_id: Some(record.shop_slug_id),
        seller_slug_id: Some(record.seller_slug_id),
        event_id: record.event_id,
        event_type: ProductDomainEventTypeRecord::DomainCreated,
        event_type_schema_version: 0,
        shop_id: record.shop_id,
        seller_id: record.seller_id,
        shops_product_id: record.shops_product_id,
        shop_name: Some(record.shop_name),
        seller_name: Some(record.seller_name),
        shop_type: Some(record.shop_type),
        structured_address: record.structured_address,
        geo_address_lat: record.geo_address_lat,
        geo_address_lon: record.geo_address_lon,
        title_native: Some(record.title_native),
        titles: record.titles,
        description_native: record.description_native,
        new_price_native: record.price_native,
        new_price: record.price,
        new_price_estimate_min_native: record.price_estimate_min_native,
        new_price_estimate_min: record.price_estimate_min,
        new_price_estimate_max_native: record.price_estimate_max_native,
        new_price_estimate_max: record.price_estimate_max,
        old_price_native: None,
        old_price: CurrencyAmounts::spec_empty(),
        new_state: Some(record.state),
        old_state: None,
        url: Some(record.url),
        view_url: Some(record.view_url),
        images: Some(images),
        auction_start: record.auction_start,
        auction_end: record.auction_end,
        timestamp: record.created,
    }
}

/// The record of the creation event of a materialized record.
pub fn product_record_to_created_event_record(record: &ProductRecord) -> (event: ProductDomainEventRecord)
    ensures
        event == spec_created_event_record_of(*record, event.pk, event.sk, event.images->0),
        event.pk@ == spec_pk(record.shop_id, record.shops_product_id@),
        event.sk@ == spec_sk(record.event_id),
        event.images is Some,
        event.images->0@ == record.images@,
{
    ProductDomainEventRecord {
        pk: mk_pk(record.shop_id, record.shops_product_id.as_str()),
        sk: mk_sk(record.event_id),
        product_id: record.product_id,
        product_slug_id: Some(record.product_slug_id.clone()),
        shop_slug_id: Some(record.shop_slug_id.clone()),
        seller_slug_id: Some(record.seller_slug_id.clone()),
        event_id: record.event_id,
        event_type: ProductDomainEventTypeRecord::DomainCreated,
        event_type_schema_version: 0,
        shop_id: record.shop_id,
        seller_id: record.seller_id,
        shops_product_id: record.shops_product_id.clone(),
        shop_name: Some(record.shop_name.clone()),
        seller_name: Some(record.seller_name.clone()),
        shop_type: Some(record.shop_type),
        structured_address: record.structured_address.duplicate(),
        geo_address_lat: record.geo_address_lat,
        geo_address_lon: record.geo_address_lon,
        title_native: Some(record.title_native.duplicate()),
        titles: record.titles.duplicate(),
        description_native: duplicate_localized(&record.description_native),
        new_price_native: record.price_native,
        new_price: record.price,
        new_price_estimate_min_native: record.price_estimate_min_native,
        new_price_estimate_min: record.price_estimate_min,
        new_price_estimate_max_native: record.price_estimate_max_native,
        new_price_estimate_max: record.price_estimate_max,
        old_price_native: None,
        old_price: CurrencyAmounts::empty(),
        new_state: Some(record.state),
        old_state: None,
        url: Some(record.url.clone()),
        view_url: Some(record.view_url.clone()),
        images: Some(duplicate_image_records(&record.images)),
        auction_start: record.auction_start,
        auction_end: record.auction_end,
        timestamp: record.created,
    }
}

/// The meta record of a materialized record at `event_version`.
pub fn product_record_to_meta_record(record: &ProductRecord, event_version: u64) -> (meta: ProductMetaRecord)
    ensures
        meta.pk@ == spec_pk(record.shop_id, record.shops_product_id@),
        meta.sk@ == "product#meta"@,
        meta.gsi2_pk@ == spec_gsi2_pk(record.shop_slug_id@, record.product_slug_id@),
        meta.gsi2_sk@ == "product#lookup#shop_id#shops_product_id"@,
        meta.product_id == record.product_id,
        meta.product_slug_id == record.product_slug_id,
        meta.shop_slug_id == record.shop_slug_id,
        meta.seller_slug_id == record.seller_slug_id,
        meta.shop_id == record.shop_id,
        meta.shops_product_id == record.shops_product_id,
        meta.event_version == event_version,
{
    ProductMetaRecord {
        pk: crate::dynamodb::product_record::mk_pk(record.shop_id, record.shops_product_id.as_str()),
        sk: String::from_str(crate::dynamodb::product_meta_record::mk_sk()),
        gsi2_pk: mk_gsi2_pk(record.shop_slug_id.as_str(), record.product_slug_id.as_str()),
        gsi2_sk: String::from_str(mk_gsi2_sk()),
        product_id: record.product_id,
        product_slug_id: record.product_slug_id.clone(),
        shop_slug_id: record.shop_slug_id.clone(),
        seller_slug_id: record.seller_slug_id.clone(),
        shop_id: record.shop_id,
        shops_product_id: record.shops_product_id.clone(),
        event_version,
    }
}

/// Seeding a materialized record as its creation event and starting a record from
/// that event gives the record back as a fresh, active product: the same attributes,
/// with no embedding, created and updated by the system at its creation time.
pub proof fn lemma_seed_round_trip(record: ProductRecord, pk: String, sk: String)
    ensures
        spec_product_record_of_event_record(
            spec_created_event_record_of(record, pk, sk, record.images),
            record.sk,
            record.gsi2_pk,
            record.gsi2_sk,
            record.images,
        ) == Ok::<ProductRecord, crate::dynamodb::missing_field::MissingPersistenceField>(ProductRecord {
            pk,
            lifecycle: ProductLifecycle::Active,
            embedding: None,
            created_by: Actor::System,
            updated_by: Actor::System,
            updated: record.created,
            ..record
        }),
{
}

/// The creation event recorded for a materialized record carries each of its values
/// as the attribute of the same meaning: the price as the new price, the lower and
/// upper estimates as the new lower and upper estimates, the state as the new state,
/// the links and the auction times as they are, at the time the product was created.
pub proof fn lemma_seeded_event_keeps_meaning(
    record: ProductRecord,
    pk: String,
    sk: String,
    images: Vec<crate::dynamodb::product_image_record::ProductImageRecord>,
)
    ensures
        ({
            let event = spec_created_event_record_of(record, pk, sk, images);
            &&& event.new_price_native == record.price_native
            &&& event.new_price == record.price
            &&& event.new_price_estimate_min_native == record.price_estimate_min_native
            &&& event.new_price_estimate_min == record.price_estimate_min
            &&& event.new_price_estimate_max_native == record.price_estimate_max_native
            &&& event.new_price_estimate_max == record.price_estimate_max
            &&& event.old_price_native is None
            &&& event.new_state == Some(record.state)
            &&& event.old_state is None
            &&& event.url == Some(record.url)
            &&& event.view_url == Some(record.view_url)
            &&& event.auction_start == record.auction_start
            &&& event.auction_end == record.auction_end
            &&& event.timestamp == record.created
        }),
{
}

} // verus!
