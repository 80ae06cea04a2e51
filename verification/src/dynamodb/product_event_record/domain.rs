//! Stored form of the domain events of a product.

use crate::domain::{
    CurrencyAmounts, EventId, GeoAddress, ImageSet, LocalizedText, Price, ProductAuctionTimeChangePayload,
    ProductCreatedPayload, ProductDomainEvent, ProductDomainEventPayload,
    ProductEstimatePriceChangePayload, ProductId, ProductImage, ProductImagesChangePayload,
    ProductKey, ProductPriceChangePayload, ProductStateChangePayload, ProductUrlChangePayload,
    ShopId, StructuredAddress, Timestamp, TitleTranslations,
};
use crate::dynamodb::missing_field::{missing, MissingPersistenceField, RecordField};
use crate::dynamodb::product_event_type_record::domain::{
    domain_event_type_of, ProductDomainEventTypeRecord,
};
use crate::dynamodb::product_image_record::{
    dedup_images, image_of_record, image_record_of, image_records_of, images_distinct,
    images_of_records, lemma_images_round_trip, ProductImageRecord,
};
use crate::dynamodb::product_state_record::{
    lemma_product_state_record_round_trip, product_state_of_product_state_record,
    product_state_record_of_product_state, ProductStateRecord,
};
use crate::dynamodb::utm::{append_utm_params, spec_append_utm_params};
use crate::ids::{spec_uuid_text, uuid_to_string};
use crate::text::concat;
use crate::values::{Language, ProductState, ShopType};
use vstd::prelude::*;

verus! {

/// A domain event as written to the product partition. Which attributes are set
/// depends on the event type.
#[derive(Debug)]
pub struct ProductDomainEventRecord {
    pub pk: String,
    pub sk: String,
    pub product_id: ProductId,
    pub product_slug_id: Option<String>,
    pub shop_slug_id: Option<String>,
    pub seller_slug_id: Option<String>,
    pub event_id: EventId,
    pub event_type: ProductDomainEventTypeRecord,
    pub event_type_schema_version: u8,
    pub shop_id: ShopId,
    pub seller_id: ShopId,
    pub shops_product_id: String,
    pub shop_name: Option<String>,
    pub seller_name: Option<String>,
    pub shop_type: Option<ShopType>,
    pub structured_address: StructuredAddress,
    pub geo_address_lat: Option<u64>,
    pub geo_address_lon: Option<u64>,
    pub title_native: Option<LocalizedText>,
    pub titles: TitleTranslations,
    pub description_native: Option<LocalizedText>,
    pub new_price_native: Option<Price>,
    pub new_price: CurrencyAmounts,
    pub new_price_estimate_min_native: Option<Price>,
    pub new_price_estimate_min: CurrencyAmounts,
    pub new_price_estimate_max_native: Option<Price>,
    pub new_price_estimate_max: CurrencyAmounts,
    pub old_price_native: Option<Price>,
    pub old_price: CurrencyAmounts,
    pub new_state: Option<ProductStateRecord>,
    pub old_state: Option<ProductStateRecord>,
    pub url: Option<String>,
    pub view_url: Option<String>,
    pub images: Option<Vec<ProductImageRecord>>,
    pub auction_start: Option<Timestamp>,
    pub auction_end: Option<Timestamp>,
    pub timestamp: Timestamp,
}

/// `product#shop_id#{shop_id}#shops_product_id#{shops_product_id}`.
pub open spec fn spec_pk(shop_id: ShopId, shops_product_id: Seq<char>) -> Seq<char> {
    "product#shop_id#"@ + spec_uuid_text(shop_id) + "#shops_product_id#"@ + shops_product_id
}

/// The partition key of every record of a product.
pub fn mk_pk(shop_id: ShopId, shops_product_id: &str) -> (pk: String)
    ensures
        pk@ == spec_pk(shop_id, shops_product_id@),
{
    let shop = uuid_to_string(shop_id);
    let a = concat("product#shop_id#", shop.as_str());
    let b = concat(a.as_str(), "#shops_product_id#");
    concat(b.as_str(), shops_product_id)
}

/// `product#event#domain#{event_id}`.
pub open spec fn spec_sk(event_id: EventId) -> Seq<char> {
    "product#event#domain#"@ + spec_uuid_text(event_id)
}

/// The sort key of a stored domain event; it ends with the event id.
pub fn mk_sk(event_id: EventId) -> (sk: String)
    ensures
        sk@ == spec_sk(event_id),
{
    let event = uuid_to_string(event_id);
    concat("product#event#domain#", event.as_str())
}

/// The shop of the product a payload is about.
pub open spec fn payload_shop_id(payload: ProductDomainEventPayload) -> ShopId {
    match payload {
        ProductDomainEventPayload::Created(p) => p.shop_id,
        ProductDomainEventPayload::StateChanged(p) => p.shop_id,
        ProductDomainEventPayload::PriceChanged(p) => p.shop_id,
        ProductDomainEventPayload::EstimatePriceChanged(p) => p.shop_id,
        ProductDomainEventPayload::UrlChanged(p) => p.shop_id,
        ProductDomainEventPayload::ImagesChanged(p) => p.shop_id,
        ProductDomainEventPayload::AuctionTimeChanged(p) => p.shop_id,
    }
}

/// The shop's identifier of the product a payload is about.
pub open spec fn payload_shops_product_id(payload: ProductDomainEventPayload) -> String {
    match payload {
        ProductDomainEventPayload::Created(p) => p.shops_product_id,
        ProductDomainEventPayload::StateChanged(p) => p.shops_product_id,
        ProductDomainEventPayload::PriceChanged(p) => p.shops_product_id,
        ProductDomainEventPayload::EstimatePriceChanged(p) => p.shops_product_id,
        ProductDomainEventPayload::UrlChanged(p) => p.shops_product_id,
        ProductDomainEventPayload::ImagesChanged(p) => p.shops_product_id,
        ProductDomainEventPayload::AuctionTimeChanged(p) => p.shops_product_id,
    }
}

/// The title fields of a record: the native title in the field of its language,
/// when that language has one.
pub open spec fn titles_for(title: LocalizedText) -> TitleTranslations {
    let none = TitleTranslations { de: None, en: None, fr: None, es: None, it: None };
    match title.language {
        Language::De => TitleTranslations { de: Some(title.text), ..none },
        Language::En => TitleTranslations { en: Some(title.text), ..none },
        Language::Fr => TitleTranslations { fr: Some(title.text), ..none },
        Language::Es => TitleTranslations { es: Some(title.text), ..none },
        Language::It => TitleTranslations { it: Some(title.text), ..none },
        _ => none,
    }
}

/// No title field set.
pub open spec fn spec_no_titles() -> TitleTranslations {
    TitleTranslations { de: None, en: None, fr: None, es: None, it: None }
}

/// No address field set.
pub open spec fn spec_no_address() -> StructuredAddress {
    StructuredAddress {
        addressline: None,
        addressline_extra: None,
        locality: None,
        region: None,
        postal_code: None,
        country: None,
    }
}

/// A record with only the attributes every domain event has.
pub open spec fn spec_empty_record(
    pk: String,
    sk: String,
    product_id: ProductId,
    event_id: EventId,
    event_type: ProductDomainEventTypeRecord,
    shop_id: ShopId,
    seller_id: ShopId,
    shops_product_id: String,
    timestamp: Timestamp,
) -> ProductDomainEventRecord {
    ProductDomainEventRecord {
        pk,
        sk,
        product_id,
        product_slug_id: None,
        shop_slug_id: None,
        seller_slug_id: None,
        event_id,
        event_type,
        event_type_schema_version: 0,
        shop_id,
        seller_id,
        shops_product_id,
        shop_name: None,
        seller_name: None,
        shop_type: None,
        structured_address: spec_no_address(),
        geo_address_lat: None,
        geo_address_lon: None,
        title_native: None,
        titles: spec_no_titles(),
        description_native: None,
        new_price_native: None,
        new_price: CurrencyAmounts::spec_empty(),
        new_price_estimate_min_native: None,
        new_price_estimate_min: CurrencyAmounts::spec_empty(),
        new_price_estimate_max_native: None,
        new_price_estimate_max: CurrencyAmounts::spec_empty(),
        old_price_native: None,
        old_price: CurrencyAmounts::spec_empty(),
        new_state: None,
        old_state: None,
        url: None,
        view_url: None,
        images: None,
        auction_start: None,
        auction_end: None,
        timestamp,
    }
}

/// The record of a domain event, given the keys and the image list it is written
/// with.
pub open spec fn spec_record_of_event(
    event: ProductDomainEvent,
    pk: String,
    sk: String,
    images: Option<Vec<ProductImageRecord>>,
) -> ProductDomainEventRecord {
    let event_type = domain_event_type_of(event.payload);
    match event.payload {
        ProductDomainEventPayload::Created(p) => ProductDomainEventRecord {
            pk,
            sk,
            product_id: event.aggregate_id,
            product_slug_id: Some(p.product_slug_id),
            shop_slug_id: Some(p.shop_slug_id),
            seller_slug_id: Some(p.seller_slug_id),
            event_id: event.event_id,
            event_type,
            event_type_schema_version: 0,
            shop_id: p.shop_id,
            seller_id: p.seller_id,
            shops_product_id: p.shops_product_id,
            shop_name: Some(p.shop_name),
            seller_name: Some(p.seller_name),
            shop_type: Some(p.shop_type),
            structured_address: p.structured_address,
            geo_address_lat: match p.geo_address {
                Some(g) => Some(g.lat_bits),
                None => None,
            },
            geo_address_lon: match p.geo_address {
                Some(g) => Some(g.lon_bits),
                None => None,
            },
            title_native: Some(p.native_title),
            titles: titles_for(p.native_title),
            description_native: p.native_description,
            new_price_native: p.native_price,
            new_price: p.other_price,
            new_price_estimate_min_native: p.native_price_estimate_min,
            new_price_estimate_min: p.other_price_estimate_min,
            new_price_estimate_max_native: p.native_price_estimate_max,
            new_price_estimate_max: p.other_price_estimate_max,
            old_price_native: None,
            old_price: CurrencyAmounts::spec_empty(),
            new_state: Some(product_state_record_of_product_state(p.state)),
            old_state: None,
            url: Some(p.url),
            view_url: Some(p.view_url),
            images,
            auction_start: p.auction_start,
            auction_end: p.auction_end,
            timestamp: event.timestamp,
        },
        ProductDomainEventPayload::StateChanged(p) => ProductDomainEventRecord {
            new_state: Some(product_state_record_of_product_state(p.new_state)),
            old_state: Some(product_state_record_of_product_state(p.old_state)),
            ..spec_empty_record(pk, sk, event.aggregate_id, event.event_id, event_type, p.shop_id, p.seller_id, p.shops_product_id, event.timestamp)
        },
        ProductDomainEventPayload::PriceChanged(p) => ProductDomainEventRecord {
            new_price_native: p.new_native_price,
            new_price: p.new_other_price,
            old_price_native: p.old_native_price,
            old_price: p.old_other_price,
            ..spec_empty_record(pk, sk, event.aggregate_id, event.event_id, event_type, p.shop_id, p.seller_id, p.shops_product_id, event.timestamp)
        },
        ProductDomainEventPayload::EstimatePriceChanged(p) => ProductDomainEventRecord {
            new_price_estimate_min_native: p.native_price_estimate_min,
            new_price_estimate_min: p.other_price_estimate_min,
            new_price_estimate_max_native: p.native_price_estimate_max,
            new_price_estimate_max: p.other_price_estimate_max,
            ..spec_empty_record(pk, sk, event.aggregate_id, event.event_id, event_type, p.shop_id, p.seller_id, p.shops_product_id, event.timestamp)
        },
        ProductDomainEventPayload::UrlChanged(p) => ProductDomainEventRecord {
            url: Some(p.url),
            view_url: Some(p.view_url),
            ..spec_empty_record(pk, sk, event.aggregate_id, event.event_id, event_type, p.shop_id, p.seller_id, p.shops_product_id, event.timestamp)
        },
        ProductDomainEventPayload::ImagesChanged(p) => ProductDomainEventRecord {
            images,
            ..spec_empty_record(pk, sk, event.aggregate_id, event.event_id, event_type, p.shop_id, p.seller_id, p.shops_product_id, event.timestamp)
        },
        ProductDomainEventPayload::AuctionTimeChanged(p) => ProductDomainEventRecord {
            auction_start: p.auction_start,
            auction_end: p.auction_end,
            ..spec_empty_record(pk, sk, event.aggregate_id, event.event_id, event_type, p.shop_id, p.seller_id, p.shops_product_id, event.timestamp)
        },
    }
}

/// The images a payload carries; no images for payloads without them.
pub open spec fn payload_images(payload: ProductDomainEventPayload) -> Seq<ProductImage> {
    match payload {
        ProductDomainEventPayload::Created(p) => p.images@,
        ProductDomainEventPayload::ImagesChanged(p) => p.images@,
        _ => Seq::empty(),
    }
}

/// The payload carries an image list.
pub open spec fn payload_has_images(payload: ProductDomainEventPayload) -> bool {
    payload is Created || payload is ImagesChanged
}

/// The stored image list of a record matches the images of the payload it records.
pub open spec fn images_recorded(payload: ProductDomainEventPayload, images: Option<Vec<ProductImageRecord>>) -> bool {
    payload_has_images(payload) ==> (images is Some && images->0@ == payload_images(payload).map_values(|image: ProductImage| image_record_of(image)))
}

/// A record with the attributes every domain event has and nothing else.
fn mk_empty_event_record(
    pk: String,
    sk: String,
    product_id: ProductId,
    event_id: EventId,
    event_type: ProductDomainEventTypeRecord,
    shop_id: ShopId,
    seller_id: ShopId,
    shops_product_id: String,
    timestamp: Timestamp,
) -> (record: ProductDomainEventRecord)
    ensures
        record == spec_empty_record(pk, sk, product_id, event_id, event_type, shop_id, seller_id, shops_product_id, timestamp),
{
    ProductDomainEventRecord {
        pk,
        sk,
        product_id,
        product_slug_id: None,
        shop_slug_id: None,
        seller_slug_id: None,
        event_id,
        event_type,
        event_type_schema_version: 0,
        shop_id,
        seller_id,
        shops_product_id,
        shop_name: None,
        seller_name: None,
        shop_type: None,
        structured_address: StructuredAddress {
            addressline: None,
            addressline_extra: None,
            locality: None,
            region: None,
            postal_code: None,
            country: None,
        },
        geo_address_lat: None,
        geo_address_lon: None,
        title_native: None,
        titles: TitleTranslations { de: None, en: None, fr: None, es: None, it: None },
        description_native: None,
        new_price_native: None,
        new_price: CurrencyAmounts::empty(),
        new_price_estimate_min_native: None,
        new_price_estimate_min: CurrencyAmounts::empty(),
        new_price_estimate_max_native: None,
        new_price_estimate_max: CurrencyAmounts::empty(),
        old_price_native: None,
        old_price: CurrencyAmounts::empty(),
        new_state: None,
        old_state: None,
        url: None,
        view_url: None,
        images: None,
        auction_start: None,
        auction_end: None,
        timestamp,
    }
}

/// The record of a change of the sales state.
fn mk_state_event_record(
    new_state: ProductStateRecord,
    old_state: ProductStateRecord,
    pk: String,
    sk: String,
    product_id: ProductId,
    event_id: EventId,
    event_type: ProductDomainEventTypeRecord,
    shop_id: ShopId,
    seller_id: ShopId,
    shops_product_id: String,
    timestamp: Timestamp,
) -> (record: ProductDomainEventRecord)
    ensures
        record == (ProductDomainEventRecord {
            new_state: Some(new_state),
            old_state: Some(old_state),
            ..spec_empty_record(pk, sk, product_id, event_id, event_type, shop_id, seller_id, shops_product_id, timestamp)
        }),
{
    let mut record = mk_empty_event_record(pk, sk, product_id, event_id, event_type, shop_id, seller_id, shops_product_id, timestamp);
    record.new_state = Some(new_state);
    record.old_state = Some(old_state);
    record
}

/// The record of a change of the price.
fn mk_price_change_event_record(
    payload: ProductPriceChangePayload,
    pk: String,
    sk: String,
    product_id: ProductId,
    event_id: EventId,
    event_type: ProductDomainEventTypeRecord,
    timestamp: Timestamp,
) -> (record: ProductDomainEventRecord)
    ensures
        record == (ProductDomainEventRecord {
            new_price_native: payload.new_native_price,
            new_price: payload.new_other_price,
            old_price_native: payload.old_native_price,
            old_price: payload.old_other_price,
            ..spec_empty_record(pk, sk, product_id, event_id, event_type, payload.shop_id, payload.seller_id, payload.shops_product_id, timestamp)
        }),
{
    let mut record = mk_empty_event_record(
        pk,
        sk,
        product_id,
        event_id,
        event_type,
        payload.shop_id,
        payload.seller_id,
        payload.shops_product_id,
        timestamp,
    );
    record.new_price_native = payload.new_native_price;
    record.new_price = payload.new_other_price;
    record.old_price_native = payload.old_native_price;
    record.old_price = payload.old_other_price;
    record
}

/// The title fields for a native title.
fn titles_of(title: &LocalizedText) -> (titles: TitleTranslations)
    ensures
        titles == titles_for(*title),
{
    let mut titles = TitleTranslations { de: None, en: None, fr: None, es: None, it: None };
    match title.language {
        Language::De => titles.de = Some(title.text.clone()),
        Language::En => titles.en = Some(title.text.clone()),
        Language::Fr => titles.fr = Some(title.text.clone()),
        Language::Es => titles.es = Some(title.text.clone()),
        Language::It => titles.it = Some(title.text.clone()),
        _ => {},
    }
    titles
}

/// `record` is the record of the domain event `event`: the keys of its product, the
/// event type, and the attributes of its payload.
pub open spec fn records_domain_event(event: ProductDomainEvent, record: ProductDomainEventRecord) -> bool {
    &&& record == spec_record_of_event(event, record.pk, record.sk, record.images)
    &&& record.pk@ == spec_pk(payload_shop_id(event.payload), payload_shops_product_id(event.payload)@)
    &&& record.sk@ == spec_sk(event.event_id)
    &&& images_recorded(event.payload, record.images)
}

impl ProductDomainEventRecord {
    /// Records a domain event: the keys of its product, the event type, and the
    /// attributes of its payload. Reading the record back gives the event again, with
    /// the same images in the same order.
    pub fn from_event(event: ProductDomainEvent) -> (record: Self)
        ensures
            records_domain_event(event, record),
            forall|fallback_view_url: String|
                #[trigger] spec_event_of_record(record, result_images(Ok(event)), fallback_view_url)
                    == Ok::<ProductDomainEvent, MissingPersistenceField>(event),
            payload_has_images(event.payload) ==> spec_images_read(record.images) == payload_images(event.payload),
    {
        let ghost given = event;
        match &event.payload {
            ProductDomainEventPayload::Created(p) => {
                proof {
                    use_type_invariant(&p.images);
                }
            },
            ProductDomainEventPayload::ImagesChanged(p) => {
                proof {
                    use_type_invariant(&p.images);
                }
            },
            _ => {},
        }
        assert(domain_event_well_formed(given));
        let event_type = ProductDomainEventTypeRecord::from(&event.payload);
        let sk = mk_sk(event.event_id);
        let product_id = event.aggregate_id;
        let event_id = event.event_id;
        let timestamp = event.timestamp;
        let record = match event.payload {
            ProductDomainEventPayload::Created(p) => {
                let pk = mk_pk(p.shop_id, p.shops_product_id.as_str());
                let titles = titles_of(&p.native_title);
                let images = image_records_of(p.images.as_vec());
                let (lat, lon) = match p.geo_address {
                    Some(g) => (Some(g.lat_bits), Some(g.lon_bits)),
                    None => (None, None),
                };
                ProductDomainEventRecord {
                    pk,
                    sk,
                    product_id,
                    product_slug_id: Some(p.product_slug_id),
                    shop_slug_id: Some(p.shop_slug_id),
                    seller_slug_id: Some(p.seller_slug_id),
                    event_id,
                    event_type,
                    event_type_schema_version: 0,
                    shop_id: p.shop_id,
                    seller_id: p.seller_id,
                    shops_product_id: p.shops_product_id,
                    shop_name: Some(p.shop_name),
                    seller_name: Some(p.seller_name),
                    shop_type: Some(p.shop_type),
                    structured_address: p.structured_address,
                    geo_address_lat: lat,
                    geo_address_lon: lon,
                    title_native: Some(p.native_title),
                    titles,
                    description_native: p.native_description,
                    new_price_native: p.native_price,
                    new_price: p.other_price,
                    new_price_estimate_min_native: p.native_price_estimate_min,
                    new_price_estimate_min: p.other_price_estimate_min,
                    new_price_estimate_max_native: p.native_price_estimate_max,
                    new_price_estimate_max: p.other_price_estimate_max,
                    old_price_native: None,
                    old_price: CurrencyAmounts::empty(),
                    new_state: Some(ProductStateRecord::from(p.state)),
                    old_state: None,
                    url: Some(p.url),
                    view_url: Some(p.view_url),
                    images: Some(images),
                    auction_start: p.auction_start,
                    auction_end: p.auction_end,
                    timestamp,
                }
            },
            ProductDomainEventPayload::StateChanged(p) => {
                let pk = mk_pk(p.shop_id, p.shops_product_id.as_str());
                mk_state_event_record(
                    ProductStateRecord::from(p.new_state),
                    ProductStateRecord::from(p.old_state),
                    pk,
                    sk,
                    product_id,
                    event_id,
                    event_type,
                    p.shop_id,
                    p.seller_id,
                    p.shops_product_id,
                    timestamp,
                )
            },
            ProductDomainEventPayload::PriceChanged(p) => {
                let pk = mk_pk(p.shop_id, p.shops_product_id.as_str());
                mk_price_change_event_record(p, pk, sk, product_id, event_id, event_type, timestamp)
            },
            ProductDomainEventPayload::EstimatePriceChanged(p) => {
                let pk = mk_pk(p.shop_id, p.shops_product_id.as_str());
                let mut record = mk_empty_event_record(pk, sk, product_id, event_id, event_type, p.shop_id, p.seller_id, p.shops_product_id, timestamp);
                record.new_price_estimate_min_native = p.native_price_estimate_min;
                record.new_price_estimate_min = p.other_price_estimate_min;
                record.new_price_estimate_max_native = p.native_price_estimate_max;
                record.new_price_estimate_max = p.other_price_estimate_max;
                record
            },
            ProductDomainEventPayload::UrlChanged(p) => {
                let pk = mk_pk(p.shop_id, p.shops_product_id.as_str());
                let mut record = mk_empty_event_record(pk, sk, product_id, event_id, event_type, p.shop_id, p.seller_id, p.shops_product_id, timestamp);
                record.url = Some(p.url);
                record.view_url = Some(p.view_url);
                record
            },
            ProductDomainEventPayload::ImagesChanged(p) => {
                let pk = mk_pk(p.shop_id, p.shops_product_id.as_str());
                let images = image_records_of(p.images.as_vec());
                let mut record = mk_empty_event_record(pk, sk, product_id, event_id, event_type, p.shop_id, p.seller_id, p.shops_product_id, timestamp);
                record.images = Some(images);
                record
            },
            ProductDomainEventPayload::AuctionTimeChanged(p) => {
                let pk = mk_pk(p.shop_id, p.shops_product_id.as_str());
                let mut record = mk_empty_event_record(pk, sk, product_id, event_id, event_type, p.shop_id, p.seller_id, p.shops_product_id, timestamp);
                record.auction_start = p.auction_start;
                record.auction_end = p.auction_end;
                record
            },
        };
        proof {
            assert forall|fallback_view_url: String|
                #[trigger] spec_event_of_record(record, result_images(Ok(given)), fallback_view_url)
                    == Ok::<ProductDomainEvent, MissingPersistenceField>(given) by {
                lemma_domain_event_record_round_trip(given, record.pk, record.sk, record.images, fallback_view_url);
            }
            lemma_domain_event_record_round_trip(given, record.pk, record.sk, record.images, record.pk);
        }
        record
    }

    /// The key of the product the event is about.
    pub fn key(&self) -> (key: ProductKey)
        ensures
            key.shop_id == self.shop_id,
            key.shops_product_id == self.shops_product_id,
    {
        ProductKey { shop_id: self.shop_id, shops_product_id: self.shops_product_id.clone() }
    }

    /// The key of the product the event is about.
    pub fn into_product_key(self) -> (key: ProductKey)
        ensures
            key.shop_id == self.shop_id,
            key.shops_product_id == self.shops_product_id,
    {
        ProductKey { shop_id: self.shop_id, shops_product_id: self.shops_product_id }
    }
}

/// The geographic position held by a latitude and a longitude attribute: present
/// when both are.
pub open spec fn spec_geo_address_from_record(lat: Option<u64>, lon: Option<u64>) -> Option<GeoAddress> {
    match (lat, lon) {
        (Some(lat_bits), Some(lon_bits)) => Some(GeoAddress { lat_bits, lon_bits }),
        _ => None,
    }
}

/// The position held by the latitude and longitude attributes of a record.
pub fn geo_address_from_record(lat: Option<u64>, lon: Option<u64>) -> (geo: Option<GeoAddress>)
    ensures
        geo == spec_geo_address_from_record(lat, lon),
{
    match (lat, lon) {
        (Some(lat_bits), Some(lon_bits)) => Some(GeoAddress { lat_bits, lon_bits }),
        _ => None,
    }
}

/// The stored images of a record; none when the attribute is absent.
pub open spec fn record_images_view(images: Option<Vec<ProductImageRecord>>) -> Seq<ProductImageRecord> {
    match images {
        Some(v) => v@,
        None => Seq::empty(),
    }
}

/// The images read from a record: in order, without repetitions.
pub open spec fn spec_images_read(images: Option<Vec<ProductImageRecord>>) -> Seq<ProductImage> {
    dedup_images(record_images_view(images).map_values(|record: ProductImageRecord| image_of_record(record)))
}

/// Reads a domain event back from its record, given the image list and the fallback
/// view address the reading produces. The first attribute, in the order the payload
/// lists them, that the event type needs and the record lacks is reported.
pub open spec fn spec_event_of_record(
    record: ProductDomainEventRecord,
    images: ImageSet,
    fallback_view_url: String,
) -> Result<ProductDomainEvent, MissingPersistenceField> {
    let missing = |field: RecordField| Err(MissingPersistenceField { field });
    let event = |payload: ProductDomainEventPayload| Ok(ProductDomainEvent {
        aggregate_id: record.product_id,
        event_id: record.event_id,
        timestamp: record.timestamp,
        payload,
    });
    let view_url = match record.view_url {
        Some(v) => v,
        None => fallback_view_url,
    };
    match record.event_type {
        ProductDomainEventTypeRecord::DomainCreated => {
            if record.product_slug_id is None {
                missing(RecordField::ProductSlugId)
            } else if record.shop_slug_id is None {
                missing(RecordField::ShopSlugId)
            } else if record.seller_slug_id is None {
                missing(RecordField::SellerSlugId)
            } else if record.shop_name is None {
                missing(RecordField::ShopName)
            } else if record.seller_name is None {
                missing(RecordField::SellerName)
            } else if record.shop_type is None {
                missing(RecordField::ShopType)
            } else if record.title_native is None {
                missing(RecordField::TitleNative)
            } else if record.new_state is None {
                missing(RecordField::NewState)
            } else if record.url is None {
                missing(RecordField::Url)
            } else {
                event(ProductDomainEventPayload::Created(ProductCreatedPayload {
                    product_slug_id: record.product_slug_id->0,
                    shop_slug_id: record.shop_slug_id->0,
                    seller_slug_id: record.seller_slug_id->0,
                    shop_id: record.shop_id,
                    seller_id: record.seller_id,
                    shops_product_id: record.shops_product_id,
                    shop_name: record.shop_name->0,
                    seller_name: record.seller_name->0,
                    shop_type: record.shop_type->0,
                    structured_address: record.structured_address,
                    geo_address: spec_geo_address_from_record(record.geo_address_lat, record.geo_address_lon),
                    native_title: record.title_native->0,
                    native_description: record.description_native,
                    native_price: record.new_price_native,
                    other_price: record.new_price,
                    native_price_estimate_min: record.new_price_estimate_min_native,
                    other_price_estimate_min: record.new_price_estimate_min,
                    native_price_estimate_max: record.new_price_estimate_max_native,
                    other_price_estimate_max: record.new_price_estimate_max,
                    state: product_state_of_product_state_record(record.new_state->0),
                    url: record.url->0,
                    view_url,
                    images,
                    auction_start: record.auction_start,
                    auction_end: record.auction_end,
                }))
            }
        },
        ProductDomainEventTypeRecord::DomainStateChanged => {
            if record.old_state is None {
                missing(RecordField::OldState)
            } else if record.new_state is None {
                missing(RecordField::NewState)
            } else {
                event(ProductDomainEventPayload::StateChanged(ProductStateChangePayload {
                    shop_id: record.shop_id,
                    seller_id: record.seller_id,
                    shops_product_id: record.shops_product_id,
                    old_state: product_state_of_product_state_record(record.old_state->0),
                    new_state: product_state_of_product_state_record(record.new_state->0),
                }))
            }
        },
        ProductDomainEventTypeRecord::DomainPriceChanged => event(ProductDomainEventPayload::PriceChanged(ProductPriceChangePayload {
            shop_id: record.shop_id,
            seller_id: record.seller_id,
            shops_product_id: record.shops_product_id,
            new_native_price: record.new_price_native,
            new_other_price: record.new_price,
            old_native_price: record.old_price_native,
            old_other_price: record.old_price,
        })),
        ProductDomainEventTypeRecord::DomainEstimatePriceChanged => event(ProductDomainEventPayload::EstimatePriceChanged(ProductEstimatePriceChangePayload {
            shop_id: record.shop_id,
            seller_id: record.seller_id,
            shops_product_id: record.shops_product_id,
            native_price_estimate_min: record.new_price_estimate_min_native,
            other_price_estimate_min: record.new_price_estimate_min,
            native_price_estimate_max: record.new_price_estimate_max_native,
            other_price_estimate_max: record.new_price_estimate_max,
        })),
        ProductDomainEventTypeRecord::DomainUrlChanged => {
            if record.url is None {
                missing(RecordField::Url)
            } else {
                event(ProductDomainEventPayload::UrlChanged(ProductUrlChangePayload {
                    shop_id: record.shop_id,
                    seller_id: record.seller_id,
                    shops_product_id: record.shops_product_id,
                    url: record.url->0,
                    view_url,
                }))
            }
        },
        ProductDomainEventTypeRecord::DomainImagesChanged => event(ProductDomainEventPayload::ImagesChanged(ProductImagesChangePayload {
            shop_id: record.shop_id,
            seller_id: record.seller_id,
            shops_product_id: record.shops_product_id,
            images,
        })),
        ProductDomainEventTypeRecord::DomainAuctionTimeChanged => event(ProductDomainEventPayload::AuctionTimeChanged(ProductAuctionTimeChangePayload {
            shop_id: record.shop_id,
            seller_id: record.seller_id,
            shops_product_id: record.shops_product_id,
            auction_start: record.auction_start,
            auction_end: record.auction_end,
        })),
    }
}

/// The image list of a successfully read event that carries one.
pub open spec fn result_images(result: Result<ProductDomainEvent, MissingPersistenceField>) -> ImageSet {
    match result {
        Ok(event) => match event.payload {
            ProductDomainEventPayload::Created(p) => p.images,
            ProductDomainEventPayload::ImagesChanged(p) => p.images,
            _ => vstd::pervasive::arbitrary(),
        },
        Err(_) => vstd::pervasive::arbitrary(),
    }
}

/// The view address of a successfully read event that carries one.
pub open spec fn result_view_url(result: Result<ProductDomainEvent, MissingPersistenceField>) -> String {
    match result {
        Ok(event) => match event.payload {
            ProductDomainEventPayload::Created(p) => p.view_url,
            ProductDomainEventPayload::UrlChanged(p) => p.view_url,
            _ => vstd::pervasive::arbitrary(),
        },
        Err(_) => vstd::pervasive::arbitrary(),
    }
}

/// The record's address marked as a referral, read when the record has no view
/// address.
fn view_url_or_marked(view_url: Option<String>, raw: String) -> (view: String)
    ensures
        view_url is Some ==> view == view_url->0,
        view_url is None ==> view@ == spec_append_utm_params(raw@),
{
    match view_url {
        Some(view) => view,
        None => append_utm_params(raw),
    }
}

impl ProductDomainEvent {
    /// Reads a domain event back from its record. A record without a view address
    /// gets the shop address marked as a referral in its place.
    pub fn try_from_record(record: ProductDomainEventRecord) -> (result: Result<ProductDomainEvent, MissingPersistenceField>)
        ensures
            result == spec_event_of_record(record, result_images(result), result_view_url(result)),
            result is Ok && payload_has_images(result->Ok_0.payload) ==> result_images(result)@ == spec_images_read(record.images),
            result is Ok && record.view_url is None && (result->Ok_0.payload is Created || result->Ok_0.payload is UrlChanged)
                ==> result_view_url(result)@ == spec_append_utm_params(record.url->0@),
    {
        let ghost stored = record;
        let shop_id = record.shop_id;
        let seller_id = record.seller_id;
        let shops_product_id = record.shops_product_id;
        let images = match &record.images {
            Some(v) => images_of_records(v),
            None => ImageSet::new(),
        };
        assert(images@ == spec_images_read(stored.images)) by {
            if stored.images is None {
                assert(record_images_view(stored.images).map_values(|r: ProductImageRecord| image_of_record(r)) =~= Seq::<ProductImage>::empty());
            }
        }
        let payload = match record.event_type {
            ProductDomainEventTypeRecord::DomainCreated => {
                let product_slug_id = match record.product_slug_id {
                    Some(v) => v,
                    None => return Err(missing(RecordField::ProductSlugId)),
                };
                let shop_slug_id = match record.shop_slug_id {
                    Some(v) => v,
                    None => return Err(missing(RecordField::ShopSlugId)),
                };
                let seller_slug_id = match record.seller_slug_id {
                    Some(v) => v,
                    None => return Err(missing(RecordField::SellerSlugId)),
                };
                let shop_name = match record.shop_name {
                    Some(v) => v,
                    None => return Err(missing(RecordField::ShopName)),
                };
                let seller_name = match record.seller_name {
                    Some(v) => v,
                    None => return Err(missing(RecordField::SellerName)),
                };
                let shop_type = match record.shop_type {
                    Some(v) => v,
                    None => return Err(missing(RecordField::ShopType)),
                };
                let native_title = match record.title_native {
                    Some(v) => v,
                    None => return Err(missing(RecordField::TitleNative)),
                };
                let state = match record.new_state {
                    Some(v) => ProductState::from(v),
                    None => return Err(missing(RecordField::NewState)),
                };
                let url = match record.url {
                    Some(v) => v,
                    None => return Err(missing(RecordField::Url)),
                };
                let view_url = view_url_or_marked(record.view_url, url.clone());
                ProductDomainEventPayload::Created(ProductCreatedPayload {
                    product_slug_id,
                    shop_slug_id,
                    seller_slug_id,
                    shop_id,
                    seller_id,
                    shops_product_id,
                    shop_name,
                    seller_name,
                    shop_type,
                    structured_address: record.structured_address,
                    geo_address: geo_address_from_record(record.geo_address_lat, record.geo_address_lon),
                    native_title,
                    native_description: record.description_native,
                    native_price: record.new_price_native,
                    other_price: record.new_price,
                    native_price_estimate_min: record.new_price_estimate_min_native,
                    other_price_estimate_min: record.new_price_estimate_min,
                    native_price_estimate_max: record.new_price_estimate_max_native,
                    other_price_estimate_max: record.new_price_estimate_max,
                    state,
                    url,
                    view_url,
                    images,
                    auction_start: record.auction_start,
                    auction_end: record.auction_end,
                })
            },
            ProductDomainEventTypeRecord::DomainStateChanged => {
                let old_state = match record.old_state {
                    Some(v) => ProductState::from(v),
                    None => return Err(missing(RecordField::OldState)),
                };
                let new_state = match record.new_state {
                    Some(v) => ProductState::from(v),
                    None => return Err(missing(RecordField::NewState)),
                };
                ProductDomainEventPayload::StateChanged(ProductStateChangePayload {
                    shop_id,
                    seller_id,
                    shops_product_id,
                    old_state,
                    new_state,
                })
            },
            ProductDomainEventTypeRecord::DomainPriceChanged => {
                ProductDomainEventPayload::PriceChanged(ProductPriceChangePayload {
                    shop_id,
                    seller_id,
                    shops_product_id,
                    new_native_price: record.new_price_native,
                    new_other_price: record.new_price,
                    old_native_price: record.old_price_native,
                    old_other_price: record.old_price,
                })
            },
            ProductDomainEventTypeRecord::DomainEstimatePriceChanged => {
                ProductDomainEventPayload::EstimatePriceChanged(ProductEstimatePriceChangePayload {
                    shop_id,
                    seller_id,
                    shops_product_id,
                    native_price_estimate_min: record.new_price_estimate_min_native,
                    other_price_estimate_min: record.new_price_estimate_min,
                    native_price_estimate_max: record.new_price_estimate_max_native,
                    other_price_estimate_max: record.new_price_estimate_max,
                })
            },
            ProductDomainEventTypeRecord::DomainUrlChanged => {
                let url = match record.url {
                    Some(v) => v,
                    None => return Err(missing(RecordField::Url)),
                };
                let view_url = view_url_or_marked(record.view_url, url.clone());
                ProductDomainEventPayload::UrlChanged(ProductUrlChangePayload {
                    shop_id,
                    seller_id,
                    shops_product_id,
                    url,
                    view_url,
                })
            },
            ProductDomainEventTypeRecord::DomainImagesChanged => {
                ProductDomainEventPayload::ImagesChanged(ProductImagesChangePayload {
                    shop_id,
                    seller_id,
                    shops_product_id,
                    images,
                })
            },
            ProductDomainEventTypeRecord::DomainAuctionTimeChanged => {
                ProductDomainEventPayload::AuctionTimeChanged(ProductAuctionTimeChangePayload {
                    shop_id,
                    seller_id,
                    shops_product_id,
                    auction_start: record.auction_start,
                    auction_end: record.auction_end,
                })
            },
        };
        Ok(ProductDomainEvent {
            aggregate_id: record.product_id,
            event_id: record.event_id,
            timestamp: record.timestamp,
            payload,
        })
    }
}

/// A domain event whose image lists hold no image twice, as every image set does.
pub open spec fn domain_event_well_formed(event: ProductDomainEvent) -> bool {
    images_distinct(payload_images(event.payload))
}

/// Writing a domain event whose image lists hold no image twice and reading its record
/// back gives the event again, with the same images in the same order.
proof fn lemma_domain_event_record_round_trip(
    event: ProductDomainEvent,
    pk: String,
    sk: String,
    images: Option<Vec<ProductImageRecord>>,
    fallback_view_url: String,
)
    requires
        domain_event_well_formed(event),
        images_recorded(event.payload, images),
    ensures
        ({
            let record = spec_record_of_event(event, pk, sk, images);
            &&& spec_event_of_record(record, result_images(Ok(event)), fallback_view_url) == Ok::<ProductDomainEvent, MissingPersistenceField>(event)
            &&& payload_has_images(event.payload) ==> spec_images_read(record.images) == payload_images(event.payload)
        }),
{
    let record = spec_record_of_event(event, pk, sk, images);
    match event.payload {
        ProductDomainEventPayload::Created(p) => {
            lemma_product_state_record_round_trip(p.state, ProductStateRecord::Unknown);
            lemma_images_round_trip(p.images@);
            match p.geo_address {
                Some(g) => {},
                None => {},
            }
        },
        ProductDomainEventPayload::StateChanged(p) => {
            lemma_product_state_record_round_trip(p.old_state, ProductStateRecord::Unknown);
            lemma_product_state_record_round_trip(p.new_state, ProductStateRecord::Unknown);
        },
        ProductDomainEventPayload::ImagesChanged(p) => {
            lemma_images_round_trip(p.images@);
        },
        _ => {},
    }
}

/// Each attribute of a recorded domain event holds the payload value of the same
/// meaning: the prices as new and old prices, the estimates as the lower and upper
/// estimates, the states as new and old states, the links and the auction times as
/// they are, and every event keeps its product, its id, its time and its shop.
pub proof fn lemma_domain_record_attributes(event: ProductDomainEvent, record: ProductDomainEventRecord)
    requires
        records_domain_event(event, record),
    ensures
        record.product_id == event.aggregate_id,
        record.event_id == event.event_id,
        record.timestamp == event.timestamp,
        record.shop_id == payload_shop_id(event.payload),
        match event.payload {
            ProductDomainEventPayload::Created(p) => {
                &&& record.new_price_native == p.native_price
                &&& record.new_price == p.other_price
                &&& record.new_price_estimate_min_native == p.native_price_estimate_min
                &&& record.new_price_estimate_min == p.other_price_estimate_min
                &&& record.new_price_estimate_max_native == p.native_price_estimate_max
                &&& record.new_price_estimate_max == p.other_price_estimate_max
                &&& record.new_state == Some(product_state_record_of_product_state(p.state))
                &&& record.old_state is None
                &&& record.url == Some(p.url)
                &&& record.view_url == Some(p.view_url)
                &&& record.auction_start == p.auction_start
                &&& record.auction_end == p.auction_end
                &&& record.seller_id == p.seller_id
                &&& record.product_slug_id == Some(p.product_slug_id)
                &&& record.shop_slug_id == Some(p.shop_slug_id)
                &&& record.seller_slug_id == Some(p.seller_slug_id)
                &&& record.shop_name == Some(p.shop_name)
                &&& record.seller_name == Some(p.seller_name)
                &&& record.title_native == Some(p.native_title)
                &&& record.description_native == p.native_description
            },
            ProductDomainEventPayload::StateChanged(p) => {
                &&& record.new_state == Some(product_state_record_of_product_state(p.new_state))
                &&& record.old_state == Some(product_state_record_of_product_state(p.old_state))
            },
            ProductDomainEventPayload::PriceChanged(p) => {
                &&& record.new_price_native == p.new_native_price
                &&& record.new_price == p.new_other_price
                &&& record.old_price_native == p.old_native_price
                &&& record.old_price == p.old_other_price
                &&& record.new_price_estimate_min_native is None
                &&& record.new_price_estimate_max_native is None
            },
            ProductDomainEventPayload::EstimatePriceChanged(p) => {
                &&& record.new_price_estimate_min_native == p.native_price_estimate_min
                &&& record.new_price_estimate_min == p.other_price_estimate_min
                &&& record.new_price_estimate_max_native == p.native_price_estimate_max
                &&& record.new_price_estimate_max == p.other_price_estimate_max
                &&& record.new_price_native is None
                &&& record.old_price_native is None
            },
            ProductDomainEventPayload::UrlChanged(p) => {
                &&& record.url == Some(p.url)
                &&& record.view_url == Some(p.view_url)
            },
            ProductDomainEventPayload::ImagesChanged(p) => record.images is Some,
            ProductDomainEventPayload::AuctionTimeChanged(p) => {
                &&& record.auction_start == p.auction_start
                &&& record.auction_end == p.auction_end
            },
        },
{
}

/// Reading a domain event from its record takes each payload value from the attribute
/// of the same meaning: the new and old prices, the lower and upper estimates, the new
/// and old states, the link and the auction times.
pub proof fn lemma_domain_record_read_attributes(
    record: ProductDomainEventRecord,
    images: ImageSet,
    fallback_view_url: String,
    event: ProductDomainEvent,
)
    requires
        spec_event_of_record(record, images, fallback_view_url) == Ok::<ProductDomainEvent, MissingPersistenceField>(event),
    ensures
        event.aggregate_id == record.product_id,
        event.event_id == record.event_id,
        event.timestamp == record.timestamp,
        match event.payload {
            ProductDomainEventPayload::Created(p) => {
                &&& p.native_price == record.new_price_native
                &&& p.other_price == record.new_price
                &&& p.native_price_estimate_min == record.new_price_estimate_min_native
                &&& p.other_price_estimate_min == record.new_price_estimate_min
                &&& p.native_price_estimate_max == record.new_price_estimate_max_native
                &&& p.other_price_estimate_max == record.new_price_estimate_max
                &&& p.state == product_state_of_product_state_record(record.new_state->0)
                &&& Some(p.url) == record.url
                &&& p.auction_start == record.auction_start
                &&& p.auction_end == record.auction_end
                &&& p.shop_id == record.shop_id
                &&& p.seller_id == record.seller_id
            },
            ProductDomainEventPayload::StateChanged(p) => {
                &&& p.new_state == product_state_of_product_state_record(record.new_state->0)
                &&& p.old_state == product_state_of_product_state_record(record.old_state->0)
            },
            ProductDomainEventPayload::PriceChanged(p) => {
                &&& p.new_native_price == record.new_price_native
                &&& p.new_other_price == record.new_price
                &&& p.old_native_price == record.old_price_native
                &&& p.old_other_price == record.old_price
            },
            ProductDomainEventPayload::EstimatePriceChanged(p) => {
                &&& p.native_price_estimate_min == record.new_price_estimate_min_native
                &&& p.other_price_estimate_min == record.new_price_estimate_min
                &&& p.native_price_estimate_max == record.new_price_estimate_max_native
                &&& p.other_price_estimate_max == record.new_price_estimate_max
            },
            ProductDomainEventPayload::UrlChanged(p) => Some(p.url) == record.url,
            ProductDomainEventPayload::ImagesChanged(p) => p.images == images,
            ProductDomainEventPayload::AuctionTimeChanged(p) => {
                &&& p.auction_start == record.auction_start
                &&& p.auction_end == record.auction_end
            },
        },
{
}

} // verus!
