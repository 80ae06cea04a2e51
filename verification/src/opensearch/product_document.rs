//! The document that represents a product in the search index.

use crate::domain::{
    CurrencyAmounts, EventId, GeoAddress, ImageSet, LocalizedText, OriginYear, Product, ProductId,
    ProductImage, ProductKey, ShopId, StructuredAddress, Timestamp, TitleTranslations,
};
use crate::dynamodb::missing_field::{missing, MissingPersistenceField, RecordField};
use crate::dynamodb::product_event_record::domain::{
    record_images_view, spec_no_titles, ProductDomainEventRecord,
};
use crate::dynamodb::product_image_record::ProductImageRecord;
use crate::dynamodb::product_record::ProductRecord;
use crate::dynamodb::product_image_record::{dedup_images, images_distinct};
use crate::dynamodb::product_state_record::ProductStateRecord;
use crate::dynamodb::utm::{append_utm_params, spec_append_utm_params};
use crate::domain::{amount_for, Actor, Price};
use crate::opensearch::authenticity_document::{
    authenticity_document_of_authenticity, authenticity_of_authenticity_document,
    AuthenticityDocument,
};
use crate::opensearch::condition_document::{
    condition_document_of_condition, condition_of_condition_document, ConditionDocument,
};
use crate::opensearch::product_image_document::{
    image_document_of, image_document_of_record, image_documents_of, image_documents_of_record_list,
    image_of_document, images_of_documents, ProductImageDocument,
};
use crate::opensearch::product_state_document::{
    product_state_document_of_product_state, product_state_document_of_product_state_record,
    product_state_of_product_state_document, ProductStateDocument,
};
use crate::opensearch::provenance_document::{
    provenance_document_of_provenance, provenance_of_provenance_document, ProvenanceDocument,
};
use crate::opensearch::restoration_document::{
    restoration_document_of_restoration, restoration_of_restoration_document,
    RestorationDocument,
};
use crate::values::{
    Authenticity, Condition, Currency, ProductLifecycle, ProductState, Provenance, Restoration,
    ShopType,
};
pub use crate::opensearch::product_document_field::ProductDocumentSerdeField;
use vstd::prelude::*;

verus! {

/// A product as indexed for search. Converted prices are indexed per currency and
/// titles per language; the origin year is split into an exact year and the ends of
/// an estimated range.
#[derive(Debug)]
pub struct ProductDocument {
    pub product_id: ProductId,
    pub product_slug_id: String,
    pub shop_slug_id: String,
    pub seller_slug_id: String,
    pub event_id: EventId,
    pub shop_id: ShopId,
    pub seller_id: ShopId,
    pub shops_product_id: String,
    pub shop_name: String,
    pub seller_name: String,
    pub shop_type: ShopType,
    pub structured_address: StructuredAddress,
    /// The continent of the address's country; set only with a country.
    pub structured_address_continent: Option<String>,
    pub geo_address: Option<GeoAddress>,
    pub category_id: Option<String>,
    pub period_id: Option<String>,
    pub category_name: TitleTranslations,
    pub period_name: TitleTranslations,
    pub title_native: LocalizedText,
    pub titles: TitleTranslations,
    pub price: CurrencyAmounts,
    pub price_estimate_min: CurrencyAmounts,
    pub price_estimate_max: CurrencyAmounts,
    pub state: ProductStateDocument,
    pub lifecycle: ProductLifecycle,
    pub url: String,
    pub images: Vec<ProductImageDocument>,
    pub embedding: Option<Vec<u32>>,
    pub origin_year_min: Option<i32>,
    pub origin_year: Option<i32>,
    pub origin_year_max: Option<i32>,
    pub authenticity: AuthenticityDocument,
    pub condition: ConditionDocument,
    pub provenance: ProvenanceDocument,
    pub restoration: RestorationDocument,
    pub auction_start: Option<Timestamp>,
    pub auction_end: Option<Timestamp>,
    pub created: Timestamp,
    pub updated: Timestamp,
}

impl ProductDocument {
    /// The identifier of the document in the index: the product's.
    pub fn _id(&self) -> (id: ProductId)
        ensures
            id == self.product_id,
    {
        self.product_id
    }

    /// The key of the product.
    pub fn key(&self) -> (key: ProductKey)
        ensures
            key.shop_id == self.shop_id,
            key.shops_product_id == self.shops_product_id,
    {
        ProductKey { shop_id: self.shop_id, shops_product_id: self.shops_product_id.clone() }
    }
}

/// The continent that goes with an address: the given one when the address names a
/// country, none otherwise.
pub open spec fn continent_for(address: StructuredAddress, continent: Option<String>) -> Option<String> {
    if address.country is Some {
        continent
    } else {
        None
    }
}

fn continent_of(address: &StructuredAddress, continent: Option<String>) -> (chosen: Option<String>)
    ensures
        chosen == continent_for(*address, continent),
{
    if address.country.is_some() {
        continent
    } else {
        None
    }
}

/// The document that the record of a product's creation event indexes, given the
/// continent of its country and its indexed images; the first attribute, in the
/// order the document is built, that the record lacks is reported. The product starts
/// active; fields the event does not carry (categories, periods, origin years,
/// embedding) are left empty and the assessments unknown.
pub open spec fn spec_document_of_domain_record(
    event: ProductDomainEventRecord,
    continent: Option<String>,
    images: Vec<ProductImageDocument>,
) -> Result<ProductDocument, MissingPersistenceField> {
    if event.new_state is None {
        Err(MissingPersistenceField { field: RecordField::NewState })
    } else if event.product_slug_id is None {
        Err(MissingPersistenceField { field: RecordField::ProductSlugId })
    } else if event.shop_slug_id is None {
        Err(MissingPersistenceField { field: RecordField::ShopSlugId })
    } else if event.seller_slug_id is None {
        Err(MissingPersistenceField { field: RecordField::SellerSlugId })
    } else if event.shop_name is None {
        Err(MissingPersistenceField { field: RecordField::ShopName })
    } else if event.seller_name is None {
        Err(MissingPersistenceField { field: RecordField::SellerName })
    } else if event.shop_type is None {
        Err(MissingPersistenceField { field: RecordField::ShopType })
    } else if event.title_native is None {
        Err(MissingPersistenceField { field: RecordField::TitleNative })
    } else if event.url is None {
        Err(MissingPersistenceField { field: RecordField::Url })
    } else {
        Ok(ProductDocument {
            product_id: event.product_id,
            product_slug_id: event.product_slug_id->0,
            shop_slug_id: event.shop_slug_id->0,
            seller_slug_id: event.seller_slug_id->0,
            event_id: event.event_id,
            shop_id: event.shop_id,
            seller_id: event.seller_id,
            shops_product_id: event.shops_product_id,
            shop_name: event.shop_name->0,
            seller_name: event.seller_name->0,
            shop_type: event.shop_type->0,
            structured_address: event.structured_address,
            structured_address_continent: continent_for(event.structured_address, continent),
            geo_address: match (event.geo_address_lat, event.geo_address_lon) {
                (Some(lat), Some(lon)) => Some(GeoAddress { lat_bits: lat, lon_bits: lon }),
                _ => None,
            },
            category_id: None,
            period_id: None,
            category_name: spec_no_titles(),
            period_name: spec_no_titles(),
            title_native: event.title_native->0,
            titles: event.titles,
            price: event.new_price,
            price_estimate_min: event.new_price_estimate_min,
            price_estimate_max: event.new_price_estimate_max,
            state: product_state_document_of_product_state_record(event.new_state->0),
            lifecycle: ProductLifecycle::Active,
            url: event.url->0,
            images,
            embedding: None,
            origin_year_min: None,
            origin_year: None,
            origin_year_max: None,
            authenticity: AuthenticityDocument::Unknown,
            condition: ConditionDocument::Unknown,
            provenance: ProvenanceDocument::Unknown,
            restoration: RestorationDocument::Unknown,
            auction_start: event.auction_start,
            auction_end: event.auction_end,
            created: event.timestamp,
            updated: event.timestamp,
        })
    }
}

impl ProductDocument {
    /// Indexes a product from the record of its creation event. `continent` is the
    /// continent of the record's country, looked up by the caller.
    pub fn try_from_domain_record(event: ProductDomainEventRecord, continent: Option<String>) -> (result: Result<ProductDocument, MissingPersistenceField>)
        ensures
            match result {
                Ok(document) => {
                    &&& result == spec_document_of_domain_record(event, continent, document.images)
                    &&& document.images@ == record_images_view(event.images).map_values(
                        |record: ProductImageRecord| image_document_of_record(record),
                    )
                },
                Err(_) => result == spec_document_of_domain_record(event, continent, arbitrary()),
            },
    {
        let state = match event.new_state {
            Some(state) => ProductStateDocument::from(state),
            None => return Err(missing(RecordField::NewState)),
        };
        let product_slug_id = match event.product_slug_id {
            Some(v) => v,
            None => return Err(missing(RecordField::ProductSlugId)),
        };
        let shop_slug_id = match event.shop_slug_id {
            Some(v) => v,
            None => return Err(missing(RecordField::ShopSlugId)),
        };
        let seller_slug_id = match event.seller_slug_id {
            Some(v) => v,
            None => return Err(missing(RecordField::SellerSlugId)),
        };
        let shop_name = match event.shop_name {
            Some(v) => v,
            None => return Err(missing(RecordField::ShopName)),
        };
        let seller_name = match event.seller_name {
            Some(v) => v,
            None => return Err(missing(RecordField::SellerName)),
        };
        let shop_type = match event.shop_type {
            Some(v) => v,
            None => return Err(missing(RecordField::ShopType)),
        };
        let title_native = match event.title_native {
            Some(v) => v,
            None => return Err(missing(RecordField::TitleNative)),
        };
        let url = match event.url {
            Some(v) => v,
            None => return Err(missing(RecordField::Url)),
        };
        let images = match &event.images {
            Some(records) => image_documents_of_record_list(records),
            None => Vec::new(),
        };
        let geo_address = match (event.geo_address_lat, event.geo_address_lon) {
            (Some(lat), Some(lon)) => Some(GeoAddress { lat_bits: lat, lon_bits: lon }),
            _ => None,
        };
        let structured_address_continent = continent_of(&event.structured_address, continent);
        Ok(ProductDocument {
            product_id: event.product_id,
            product_slug_id,
            shop_slug_id,
            seller_slug_id,
            event_id: event.event_id,
            shop_id: event.shop_id,
            seller_id: event.seller_id,
            shops_product_id: event.shops_product_id,
            shop_name,
            seller_name,
            shop_type,
            structured_address: event.structured_address,
            structured_address_continent,
            geo_address,
            category_id: None,
            period_id: None,
            category_name: TitleTranslations { de: None, en: None, fr: None, es: None, it: None },
            period_name: TitleTranslations { de: None, en: None, fr: None, es: None, it: None },
            title_native,
            titles: event.titles,
            price: event.new_price,
            price_estimate_min: event.new_price_estimate_min,
            price_estimate_max: event.new_price_estimate_max,
            state,
            lifecycle: ProductLifecycle::Active,
            url,
            images,
            embedding: None,
            origin_year_min: None,
            origin_year: None,
            origin_year_max: None,
            authenticity: AuthenticityDocument::default(),
            condition: ConditionDocument::default(),
            provenance: ProvenanceDocument::default(),
            restoration: RestorationDocument::default(),
            auction_start: event.auction_start,
            auction_end: event.auction_end,
            created: event.timestamp,
            updated: event.timestamp,
        })
    }
}

/// The geographic position a record's coordinates give: both or none.
pub open spec fn geo_of_coordinates(lat: Option<u64>, lon: Option<u64>) -> Option<GeoAddress> {
    match (lat, lon) {
        (Some(lat), Some(lon)) => Some(GeoAddress { lat_bits: lat, lon_bits: lon }),
        _ => None,
    }
}

/// The document that indexes a materialized record, given the continent of its
/// country and its indexed images. A record carries no categories, periods, origin
/// year nor assessments, and its embedding is not indexed from it.
pub open spec fn spec_document_of_record(
    record: ProductRecord,
    continent: Option<String>,
    images: Vec<ProductImageDocument>,
) -> ProductDocument {
    ProductDocument {
        product_id: record.product_id,
        product_slug_id: record.product_slug_id,
        shop_slug_id: record.shop_slug_id,
        seller_slug_id: record.seller_slug_id,
        event_id: record.event_id,
        shop_id: record.shop_id,
        seller_id: record.seller_id,
        shops_product_id: record.shops_product_id,
        shop_name: record.shop_name,
        seller_name: record.seller_name,
        shop_type: record.shop_type,
        structured_address: record.structured_address,
        structured_address_continent: continent_for(record.structured_address, continent),
        geo_address: geo_of_coordinates(record.geo_address_lat, record.geo_address_lon),
        category_id: None,
        period_id: None,
        category_name: spec_no_titles(),
        period_name: spec_no_titles(),
        title_native: record.title_native,
        titles: record.titles,
        price: record.price,
        price_estimate_min: record.price_estimate_min,
        price_estimate_max: record.price_estimate_max,
        state: product_state_document_of_product_state_record(record.state),
        lifecycle: record.lifecycle,
        url: record.url,
        images,
        embedding: None,
        origin_year_min: None,
        origin_year: None,
        origin_year_max: None,
        authenticity: AuthenticityDocument::Unknown,
        condition: ConditionDocument::Unknown,
        provenance: ProvenanceDocument::Unknown,
        restoration: RestorationDocument::Unknown,
        auction_start: record.auction_start,
        auction_end: record.auction_end,
        created: record.created,
        updated: record.updated,
    }
}

impl ProductDocument {
    /// Indexes a materialized record. `continent` is the continent of the record's
    /// country, looked up by the caller.
    pub fn from_record(record: ProductRecord, continent: Option<String>) -> (document: Self)
        ensures
            document == spec_document_of_record(record, continent, document.images),
            document.images@ == record.images@.map_values(|r: ProductImageRecord| image_document_of_record(r)),
    {
        let images = image_documents_of_record_list(&record.images);
        let geo_address = match (record.geo_address_lat, record.geo_address_lon) {
            (Some(lat), Some(lon)) => Some(GeoAddress { lat_bits: lat, lon_bits: lon }),
            _ => None,
        };
        let structured_address_continent = continent_of(&record.structured_address, continent);
        ProductDocument {
            product_id: record.product_id,
            product_slug_id: record.product_slug_id,
            shop_slug_id: record.shop_slug_id,
            seller_slug_id: record.seller_slug_id,
            event_id: record.event_id,
            shop_id: record.shop_id,
            seller_id: record.seller_id,
            shops_product_id: record.shops_product_id,
            shop_name: record.shop_name,
            seller_name: record.seller_name,
            shop_type: record.shop_type,
            structured_address: record.structured_address,
            structured_address_continent,
            geo_address,
            category_id: None,
            period_id: None,
            category_name: TitleTranslations { de: None, en: None, fr: None, es: None, it: None },
            period_name: TitleTranslations { de: None, en: None, fr: None, es: None, it: None },
            title_native: record.title_native,
            titles: record.titles,
            price: record.price,
            price_estimate_min: record.price_estimate_min,
            price_estimate_max: record.price_estimate_max,
            state: ProductStateDocument::from(record.state),
            lifecycle: record.lifecycle,
            url: record.url,
            images,
            embedding: None,
            origin_year_min: None,
            origin_year: None,
            origin_year_max: None,
            authenticity: AuthenticityDocument::default(),
            condition: ConditionDocument::default(),
            provenance: ProvenanceDocument::default(),
            restoration: RestorationDocument::default(),
            auction_start: record.auction_start,
            auction_end: record.auction_end,
            created: record.created,
            updated: record.updated,
        }
    }
}

/// The amount indexed for `currency`: the native price when it is in that currency,
/// else the converted amount for it.
pub open spec fn extracted_amount(currency: Currency, native: Option<Price>, other: CurrencyAmounts) -> Option<u64> {
    if native is Some && native->0.currency == currency {
        Some(native->0.amount)
    } else {
        amount_for(other, currency)
    }
}

/// The amounts indexed per currency for a native price and its conversions.
pub open spec fn extracted_amounts(native: Option<Price>, other: CurrencyAmounts) -> CurrencyAmounts {
    CurrencyAmounts {
        eur: extracted_amount(Currency::Eur, native, other),
        gbp: extracted_amount(Currency::Gbp, native, other),
        usd: extracted_amount(Currency::Usd, native, other),
        aud: extracted_amount(Currency::Aud, native, other),
        cad: extracted_amount(Currency::Cad, native, other),
        nzd: extracted_amount(Currency::Nzd, native, other),
        cny: extracted_amount(Currency::Cny, native, other),
        brl: extracted_amount(Currency::Brl, native, other),
        pln: extracted_amount(Currency::Pln, native, other),
        try_: extracted_amount(Currency::Try, native, other),
        jpy: extracted_amount(Currency::Jpy, native, other),
        czk: extracted_amount(Currency::Czk, native, other),
        rub: extracted_amount(Currency::Rub, native, other),
        aed: extracted_amount(Currency::Aed, native, other),
        sar: extracted_amount(Currency::Sar, native, other),
        hkd: extracted_amount(Currency::Hkd, native, other),
        sgd: extracted_amount(Currency::Sgd, native, other),
        chf: extracted_amount(Currency::Chf, native, other),
    }
}

fn extract_amount(currency: Currency, native: Option<Price>, other: &CurrencyAmounts) -> (amount: Option<u64>)
    ensures
        amount == extracted_amount(currency, native, *other),
{
    match native {
        Some(price) => {
            if price.currency == currency {
                Some(price.amount)
            } else {
                other.get(currency)
            }
        },
        None => other.get(currency),
    }
}

fn extract_amounts(native: Option<Price>, other: &CurrencyAmounts) -> (amounts: CurrencyAmounts)
    ensures
        amounts == extracted_amounts(native, *other),
{
    CurrencyAmounts {
        eur: extract_amount(Currency::Eur, native, other),
        gbp: extract_amount(Currency::Gbp, native, other),
        usd: extract_amount(Currency::Usd, native, other),
        aud: extract_amount(Currency::Aud, native, other),
        cad: extract_amount(Currency::Cad, native, other),
        nzd: extract_amount(Currency::Nzd, native, other),
        cny: extract_amount(Currency::Cny, native, other),
        brl: extract_amount(Currency::Brl, native, other),
        pln: extract_amount(Currency::Pln, native, other),
        try_: extract_amount(Currency::Try, native, other),
        jpy: extract_amount(Currency::Jpy, native, other),
        czk: extract_amount(Currency::Czk, native, other),
        rub: extract_amount(Currency::Rub, native, other),
        aed: extract_amount(Currency::Aed, native, other),
        sar: extract_amount(Currency::Sar, native, other),
        hkd: extract_amount(Currency::Hkd, native, other),
        sgd: extract_amount(Currency::Sgd, native, other),
        chf: extract_amount(Currency::Chf, native, other),
    }
}

/// How an origin year is indexed: an exact year in its own field, the ends of an
/// estimated range in theirs.
pub open spec fn origin_year_fields(origin_year: Option<OriginYear>) -> (Option<i32>, Option<i32>, Option<i32>) {
    match origin_year {
        Some(OriginYear::ExactYear(year)) => (None, Some(year), None),
        Some(OriginYear::EstimatedRange { min, max }) => (min, None, max),
        None => (None, None, None),
    }
}

fn split_origin_year(origin_year: Option<OriginYear>) -> (fields: (Option<i32>, Option<i32>, Option<i32>))
    ensures
        fields == origin_year_fields(origin_year),
{
    match origin_year {
        Some(OriginYear::ExactYear(year)) => (None, Some(year), None),
        Some(OriginYear::EstimatedRange { min, max }) => (min, None, max),
        None => (None, None, None),
    }
}

/// The document that indexes a product, given the continent of its country and its
/// indexed images. Prices are indexed per currency, the native price standing for
/// its own currency; the native description, the view address and who changed the
/// product are not indexed.
pub open spec fn spec_document_of_product(
    product: Product,
    continent: Option<String>,
    images: Vec<ProductImageDocument>,
) -> ProductDocument {
    ProductDocument {
        product_id: product.product_id,
        product_slug_id: product.product_slug_id,
        shop_slug_id: product.shop_slug_id,
        seller_slug_id: product.seller_slug_id,
        event_id: product.event_id,
        shop_id: product.shop_id,
        seller_id: product.seller_id,
        shops_product_id: product.shops_product_id,
        shop_name: product.shop_name,
        seller_name: product.seller_name,
        shop_type: product.shop_type,
        structured_address: product.structured_address,
        structured_address_continent: continent_for(product.structured_address, continent),
        geo_address: product.geo_address,
        category_id: product.category_id,
        period_id: product.period_id,
        category_name: product.category_name,
        period_name: product.period_name,
        title_native: product.native_title,
        titles: product.other_title,
        price: extracted_amounts(product.native_price, product.other_price),
        price_estimate_min: extracted_amounts(product.native_price_estimate_min, product.other_price_estimate_min),
        price_estimate_max: extracted_amounts(product.native_price_estimate_max, product.other_price_estimate_max),
        state: product_state_document_of_product_state(product.state),
        lifecycle: product.lifecycle,
        url: product.url,
        images,
        embedding: product.embedding,
        origin_year_min: origin_year_fields(product.origin_year).0,
        origin_year: origin_year_fields(product.origin_year).1,
        origin_year_max: origin_year_fields(product.origin_year).2,
        authenticity: authenticity_document_of_authenticity(product.authenticity),
        condition: condition_document_of_condition(product.condition),
        provenance: provenance_document_of_provenance(product.provenance),
        restoration: restoration_document_of_restoration(product.restoration),
        auction_start: product.auction_start,
        auction_end: product.auction_end,
        created: product.created,
        updated: product.updated,
    }
}

impl ProductDocument {
    /// Indexes a product. `continent` is the continent of the product's country,
    /// looked up by the caller.
    pub fn from_product(product: Product, continent: Option<String>) -> (document: Self)
        ensures
            document == spec_document_of_product(product, continent, document.images),
            document.images@ == product.images@.map_values(|image: ProductImage| image_document_of(image)),
    {
        let price = extract_amounts(product.native_price, &product.other_price);
        let price_estimate_min = extract_amounts(product.native_price_estimate_min, &product.other_price_estimate_min);
        let price_estimate_max = extract_amounts(product.native_price_estimate_max, &product.other_price_estimate_max);
        let (origin_year_min, origin_year, origin_year_max) = split_origin_year(product.origin_year);
        let structured_address_continent = continent_of(&product.structured_address, continent);
        let images = image_documents_of(product.images.into_vec());
        ProductDocument {
            product_id: product.product_id,
            product_slug_id: product.product_slug_id,
            shop_slug_id: product.shop_slug_id,
            seller_slug_id: product.seller_slug_id,
            event_id: product.event_id,
            shop_id: product.shop_id,
            seller_id: product.seller_id,
            shops_product_id: product.shops_product_id,
            shop_name: product.shop_name,
            seller_name: product.seller_name,
            shop_type: product.shop_type,
            structured_address: product.structured_address,
            structured_address_continent,
            geo_address: product.geo_address,
            category_id: product.category_id,
            period_id: product.period_id,
            category_name: product.category_name,
            period_name: product.period_name,
            title_native: product.native_title,
            titles: product.other_title,
            price,
            price_estimate_min,
            price_estimate_max,
            state: ProductStateDocument::from(product.state),
            lifecycle: product.lifecycle,
            url: product.url,
            images,
            embedding: product.embedding,
            origin_year_min,
            origin_year,
            origin_year_max,
            authenticity: AuthenticityDocument::from(product.authenticity),
            condition: ConditionDocument::from(product.condition),
            provenance: ProvenanceDocument::from(product.provenance),
            restoration: RestorationDocument::from(product.restoration),
            auction_start: product.auction_start,
            auction_end: product.auction_end,
            created: product.created,
            updated: product.updated,
        }
    }
}

/// The origin year that indexed origin fields stand for: the exact year when there is
/// one, else the range of the indexed ends, else none.
pub open spec fn origin_year_of_fields(min: Option<i32>, exact: Option<i32>, max: Option<i32>) -> Option<OriginYear> {
    if exact is Some {
        Some(OriginYear::ExactYear(exact->0))
    } else if min is None && max is None {
        None
    } else {
        Some(OriginYear::EstimatedRange { min, max })
    }
}

fn join_origin_year(min: Option<i32>, exact: Option<i32>, max: Option<i32>) -> (origin_year: Option<OriginYear>)
    ensures
        origin_year == origin_year_of_fields(min, exact, max),
{
    match exact {
        Some(year) => Some(OriginYear::ExactYear(year)),
        None => match (min, max) {
            (None, None) => None,
            _ => Some(OriginYear::EstimatedRange { min, max }),
        },
    }
}

/// The product a document stands for, given its address marked as a referral and the
/// images read from it. The document's per-currency amounts become the converted
/// prices, without a native price; the index keeps no description, view address nor
/// authors of changes, so the marked address serves as the view address too and the
/// system is taken as the author.
pub open spec fn spec_product_of_document(document: ProductDocument, url: String, images: ImageSet) -> Product {
    Product {
        product_id: document.product_id,
        product_slug_id: document.product_slug_id,
        shop_slug_id: document.shop_slug_id,
        seller_slug_id: document.seller_slug_id,
        event_id: document.event_id,
        shop_id: document.shop_id,
        seller_id: document.seller_id,
        shops_product_id: document.shops_product_id,
        shop_name: document.shop_name,
        seller_name: document.seller_name,
        shop_type: document.shop_type,
        structured_address: document.structured_address,
        geo_address: document.geo_address,
        category_id: document.category_id,
        category_name: document.category_name,
        period_id: document.period_id,
        period_name: document.period_name,
        native_title: document.title_native,
        other_title: document.titles,
        native_description: None,
        native_price: None,
        other_price: document.price,
        native_price_estimate_min: None,
        other_price_estimate_min: document.price_estimate_min,
        native_price_estimate_max: None,
        other_price_estimate_max: document.price_estimate_max,
        state: product_state_of_product_state_document(document.state),
        lifecycle: document.lifecycle,
        url,
        view_url: url,
        images,
        embedding: document.embedding,
        origin_year: origin_year_of_fields(document.origin_year_min, document.origin_year, document.origin_year_max),
        authenticity: authenticity_of_authenticity_document(document.authenticity),
        condition: condition_of_condition_document(document.condition),
        provenance: provenance_of_provenance_document(document.provenance),
        restoration: restoration_of_restoration_document(document.restoration),
        auction_start: document.auction_start,
        auction_end: document.auction_end,
        created_by: Actor::System,
        updated_by: Actor::System,
        created: document.created,
        updated: document.updated,
    }
}

impl Product {
    /// The product an indexed document stands for.
    pub fn from_document(document: ProductDocument) -> (product: Self)
        ensures
            product == spec_product_of_document(document, product.url, product.images),
            product.url@ == spec_append_utm_params(document.url@),
            product.images@ == dedup_images(
                document.images@.map_values(|d: ProductImageDocument| image_of_document(d)),
            ),
    {
        let url = append_utm_params(document.url);
        let view_url = url.clone();
        let images = images_of_documents(document.images);
        let origin_year = join_origin_year(document.origin_year_min, document.origin_year, document.origin_year_max);
        Product {
            product_id: document.product_id,
            product_slug_id: document.product_slug_id,
            shop_slug_id: document.shop_slug_id,
            seller_slug_id: document.seller_slug_id,
            event_id: document.event_id,
            shop_id: document.shop_id,
            seller_id: document.seller_id,
            shops_product_id: document.shops_product_id,
            shop_name: document.shop_name,
            seller_name: document.seller_name,
            shop_type: document.shop_type,
            structured_address: document.structured_address,
            geo_address: document.geo_address,
            category_id: document.category_id,
            category_name: document.category_name,
            period_id: document.period_id,
            period_name: document.period_name,
            native_title: document.title_native,
            other_title: document.titles,
            native_description: None,
            native_price: None,
            other_price: document.price,
            native_price_estimate_min: None,
            other_price_estimate_min: document.price_estimate_min,
            native_price_estimate_max: None,
            other_price_estimate_max: document.price_estimate_max,
            state: ProductState::from(document.state),
            lifecycle: document.lifecycle,
            url,
            view_url,
            images,
            embedding: document.embedding,
            origin_year,
            authenticity: Authenticity::from(document.authenticity),
            condition: Condition::from(document.condition),
            provenance: Provenance::from(document.provenance),
            restoration: Restoration::from(document.restoration),
            auction_start: document.auction_start,
            auction_end: document.auction_end,
            created_by: Actor::System,
            updated_by: Actor::System,
            created: document.created,
            updated: document.updated,
        }
    }
}

/// An estimated range with neither end: indexed, it reads back as no origin year.
pub open spec fn is_open_range(origin_year: Option<OriginYear>) -> bool {
    origin_year matches Some(OriginYear::EstimatedRange { min: None, max: None })
}

/// Indexing a product and reading its document back keeps what the index holds of it:
/// identity, names, address, position, categories, periods, titles, state, lifecycle,
/// images, embedding, origin year, assessments, auction times and times of change. The
/// prices come back as the amounts indexed per currency, the address marked as a
/// referral. Images are distinct, as every image set keeps them; an estimated range
/// with neither end reads back as no origin year, and is left out.
pub proof fn lemma_product_index_round_trip(
    product: Product,
    continent: Option<String>,
    indexed_images: Vec<ProductImageDocument>,
    url: String,
    images: ImageSet,
)
    requires
        indexed_images@ == product.images@.map_values(|image: ProductImage| image_document_of(image)),
        url@ == spec_append_utm_params(product.url@),
        images@ == dedup_images(indexed_images@.map_values(|d: ProductImageDocument| image_of_document(d))),
        images_distinct(product.images@),
        !is_open_range(product.origin_year),
    ensures
        ({
            let back = spec_product_of_document(spec_document_of_product(product, continent, indexed_images), url, images);
            &&& back.product_id == product.product_id
            &&& back.product_slug_id == product.product_slug_id
            &&& back.shop_slug_id == product.shop_slug_id
            &&& back.seller_slug_id == product.seller_slug_id
            &&& back.event_id == product.event_id
            &&& back.shop_id == product.shop_id
            &&& back.seller_id == product.seller_id
            &&& back.shops_product_id == product.shops_product_id
            &&& back.shop_name == product.shop_name
            &&& back.seller_name == product.seller_name
            &&& back.shop_type == product.shop_type
            &&& back.structured_address == product.structured_address
            &&& back.geo_address == product.geo_address
            &&& back.category_id == product.category_id
            &&& back.category_name == product.category_name
            &&& back.period_id == product.period_id
            &&& back.period_name == product.period_name
            &&& back.native_title == product.native_title
            &&& back.other_title == product.other_title
            &&& back.other_price == extracted_amounts(product.native_price, product.other_price)
            &&& back.other_price_estimate_min == extracted_amounts(product.native_price_estimate_min, product.other_price_estimate_min)
            &&& back.other_price_estimate_max == extracted_amounts(product.native_price_estimate_max, product.other_price_estimate_max)
            &&& back.state == product.state
            &&& back.lifecycle == product.lifecycle
            &&& back.url@ == spec_append_utm_params(product.url@)
            &&& back.images@ == product.images@
            &&& back.embedding == product.embedding
            &&& back.origin_year == product.origin_year
            &&& back.authenticity == product.authenticity
            &&& back.condition == product.condition
            &&& back.provenance == product.provenance
            &&& back.restoration == product.restoration
            &&& back.auction_start == product.auction_start
            &&& back.auction_end == product.auction_end
            &&& back.created == product.created
            &&& back.updated == product.updated
        }),
{
    let back_images = indexed_images@.map_values(|d: ProductImageDocument| image_of_document(d));
    assert forall|k: int| 0 <= k < product.images@.len() implies #[trigger] back_images[k] == product.images@[k] by {
        crate::opensearch::prohibited_content_document::lemma_prohibited_content_document_round_trip(
            product.images@[k].prohibited_content,
            crate::opensearch::prohibited_content_document::ProhibitedContentDocument::Unknown,
            crate::dynamodb::prohibited_content_record::ProhibitedContentRecord::Unknown,
        );
    }
    assert(back_images =~= product.images@);
    crate::dynamodb::product_image_record::lemma_dedup_distinct_images(product.images@);
    crate::opensearch::product_state_document::lemma_product_state_document_round_trip(
        product.state,
        ProductStateDocument::Listed,
        ProductStateRecord::Listed,
    );
    crate::opensearch::authenticity_document::lemma_authenticity_document_round_trip(
        product.authenticity,
        AuthenticityDocument::Unknown,
        crate::dynamodb::authenticity_record::AuthenticityRecord::Unknown,
    );
    crate::opensearch::condition_document::lemma_condition_document_round_trip(
        product.condition,
        ConditionDocument::Unknown,
        crate::dynamodb::condition_record::ConditionRecord::Unknown,
    );
    crate::opensearch::provenance_document::lemma_provenance_document_round_trip(
        product.provenance,
        ProvenanceDocument::Unknown,
        crate::dynamodb::provenance_record::ProvenanceRecord::Unknown,
    );
    crate::opensearch::restoration_document::lemma_restoration_document_round_trip(
        product.restoration,
        RestorationDocument::Unknown,
        crate::dynamodb::restoration_record::RestorationRecord::Unknown,
    );
}

/// The amount a price is indexed with in `currency`: the native price's amount when the
/// native price is in that currency, else the amount converted to it.
pub open spec fn amount_indexed_in(native: Option<Price>, other: CurrencyAmounts, currency: Currency) -> Option<u64> {
    match native {
        Some(price) => if price.currency == currency { Some(price.amount) } else { amount_for(other, currency) },
        None => amount_for(other, currency),
    }
}

/// A product is indexed, in every currency, with its price as the price, its lower
/// estimate as the lower estimate and its upper estimate as the upper estimate; and a
/// document reads back with each of the three as the converted amounts of the same
/// meaning.
pub proof fn lemma_indexed_prices_keep_their_meaning(
    product: Product,
    continent: Option<String>,
    images: Vec<ProductImageDocument>,
    document: ProductDocument,
    url: String,
    read_images: ImageSet,
    currency: Currency,
)
    ensures
        ({
            let indexed = spec_document_of_product(product, continent, images);
            &&& amount_for(indexed.price, currency) == amount_indexed_in(product.native_price, product.other_price, currency)
            &&& amount_for(indexed.price_estimate_min, currency)
                == amount_indexed_in(product.native_price_estimate_min, product.other_price_estimate_min, currency)
            &&& amount_for(indexed.price_estimate_max, currency)
                == amount_indexed_in(product.native_price_estimate_max, product.other_price_estimate_max, currency)
        }),
        ({
            let read = spec_product_of_document(document, url, read_images);
            &&& read.other_price == document.price
            &&& read.other_price_estimate_min == document.price_estimate_min
            &&& read.other_price_estimate_max == document.price_estimate_max
        }),
{
    match currency {
        Currency::Eur => {},
        Currency::Gbp => {},
        Currency::Usd => {},
        Currency::Aud => {},
        Currency::Cad => {},
        Currency::Nzd => {},
        Currency::Cny => {},
        Currency::Brl => {},
        Currency::Pln => {},
        Currency::Try => {},
        Currency::Jpy => {},
        Currency::Czk => {},
        Currency::Rub => {},
        Currency::Aed => {},
        Currency::Sar => {},
        Currency::Hkd => {},
        Currency::Sgd => {},
        Currency::Chf => {},
    }
}

/// A stored product, and the record of a product's creation, are indexed with their
/// converted prices, lower estimates and upper estimates each as the amounts of the
/// same meaning.
pub proof fn lemma_stored_prices_keep_their_meaning(
    record: ProductRecord,
    event: ProductDomainEventRecord,
    continent: Option<String>,
    images: Vec<ProductImageDocument>,
)
    ensures
        ({
            let indexed = spec_document_of_record(record, continent, images);
            &&& indexed.price == record.price
            &&& indexed.price_estimate_min == record.price_estimate_min
            &&& indexed.price_estimate_max == record.price_estimate_max
        }),
        spec_document_of_domain_record(event, continent, images) matches Ok(indexed) ==> {
            &&& indexed.price == event.new_price
            &&& indexed.price_estimate_min == event.new_price_estimate_min
            &&& indexed.price_estimate_max == event.new_price_estimate_max
        },
{
}

} // verus!
