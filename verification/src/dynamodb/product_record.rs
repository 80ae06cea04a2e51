//! The materialized record of a product.

use crate::domain::{
    Actor, CurrencyAmounts, EventId, ImageSet, LocalizedText, Price, Product, ProductId,
    ProductKey, ShopId, StructuredAddress, Timestamp, TitleTranslations,
};
use crate::dynamodb::missing_field::{missing, MissingPersistenceField, RecordField};
use crate::dynamodb::product_event_record::domain::{
    geo_address_from_record, record_images_view, spec_geo_address_from_record, spec_no_titles, spec_pk,
    ProductDomainEventRecord,
};
use crate::dynamodb::product_image_record::{
    dedup_images, image_of_record, images_of_records, ProductImageRecord,
};
use crate::dynamodb::product_key::{
    decode, decode_result_view, encode, spec_decode, spec_encode, DecodeError,
};
use crate::dynamodb::product_state_record::{
    product_state_of_product_state_record, ProductStateRecord,
};
use crate::text::{concat, has_prefix, trim_prefix_repeatedly, trim_start_matches};
use crate::values::{
    Authenticity, Condition, ProductLifecycle, ProductState, Provenance, Restoration, ShopType,
};
use vstd::prelude::*;

verus! {

/// The materialized record of a product: its current state, kept next to its events
/// in the product partition.
#[derive(Debug)]
pub struct ProductRecord {
    pub pk: String,
    pub sk: String,
    pub gsi2_pk: String,
    pub gsi2_sk: String,
    pub product_id: ProductId,
    pub product_slug_id: String,
    pub shop_slug_id: String,
    pub seller_slug_id: String,
    pub event_id: EventId,
    pub shop_id: ShopId,
    pub seller_id: ShopId,
    pub shops_product_id: String,
    pub shop_name: String,
    pub seller_name: String,
    pub shop_type: ShopType,
    pub structured_address: StructuredAddress,
    pub geo_address_lat: Option<u64>,
    pub geo_address_lon: Option<u64>,
    pub title_native: LocalizedText,
    pub titles: TitleTranslations,
    pub description_native: Option<LocalizedText>,
    pub price_native: Option<Price>,
    pub price: CurrencyAmounts,
    pub price_estimate_min_native: Option<Price>,
    pub price_estimate_min: CurrencyAmounts,
    pub price_estimate_max_native: Option<Price>,
    pub price_estimate_max: CurrencyAmounts,
    pub state: ProductStateRecord,
    pub lifecycle: ProductLifecycle,
    pub url: String,
    pub view_url: String,
    pub images: Vec<ProductImageRecord>,
    pub embedding: Option<Vec<u32>>,
    pub auction_start: Option<Timestamp>,
    pub auction_end: Option<Timestamp>,
    pub created_by: Actor,
    pub updated_by: Actor,
    pub created: Timestamp,
    pub updated: Timestamp,
}

/// The partition key of a product: `product#` and the encoded product key. It is the
/// partition key the event records of the product carry too.
pub fn mk_pk(shop_id: ShopId, shops_product_id: &str) -> (pk: String)
    ensures
        pk@ == "product#"@ + spec_encode(shop_id, shops_product_id@),
        pk@ == spec_pk(shop_id, shops_product_id@),
{
    proof {
        reveal_strlit("product#");
        reveal_strlit("shop_id#");
        reveal_strlit("product#shop_id#");
        assert("product#"@ + "shop_id#"@ =~= "product#shop_id#"@);
    }
    let encoded = encode(shop_id, shops_product_id);
    concat("product#", encoded.as_str())
}

/// The sort key of the materialized record.
pub fn mk_sk() -> (sk: &'static str)
    ensures
        sk@ == "product#materialized"@,
{
    "product#materialized"
}

/// `shop_slug_id#{shop_slug_id}#product_slug_id#{product_slug_id}`.
pub open spec fn spec_gsi2_pk(shop_slug_id: Seq<char>, product_slug_id: Seq<char>) -> Seq<char> {
    "shop_slug_id#"@ + shop_slug_id + "#product_slug_id#"@ + product_slug_id
}

/// The partition key of the index that finds a product by its slugs.
pub fn mk_gsi2_pk(shop_slug_id: &str, product_slug_id: &str) -> (pk: String)
    ensures
        pk@ == spec_gsi2_pk(shop_slug_id@, product_slug_id@),
{
    let a = concat("shop_slug_id#", shop_slug_id);
    let b = concat(a.as_str(), "#product_slug_id#");
    concat(b.as_str(), product_slug_id)
}

/// The sort key of the index that finds a product by its slugs.
pub fn mk_gsi2_sk() -> (sk: &'static str)
    ensures
        sk@ == "product#lookup#shop_id#shops_product_id"@,
{
    "product#lookup#shop_id#shops_product_id"
}

/// Why a partition key does not name a product.
#[derive(Debug)]
pub enum ExtractKeyError {
    /// The item has no `pk` attribute.
    MissingPk,
    /// The `pk` attribute is not a string.
    PkNotAString,
    /// The text after `product#` is not an encoded product key.
    Decode(DecodeError),
}

/// What extracting a product key from a `pk` attribute gives, in the shape of
/// [`spec_decode`].
pub open spec fn spec_extract_product_key(pk: Seq<char>) -> Result<(u128, Seq<char>), Option<Seq<char>>> {
    spec_decode(trim_prefix_repeatedly(pk, "product#"@))
}

/// The product key named by the `pk` attribute of an item: `None` when the item has
/// no such attribute, `Some(None)` when it is not a string. Leading `product#`
/// prefixes are dropped and the rest is decoded.
pub fn extract_product_key(pk: Option<Option<&str>>) -> (key: Result<ProductKey, ExtractKeyError>)
    ensures
        pk is None ==> key matches Err(ExtractKeyError::MissingPk),
        pk matches Some(None) ==> key matches Err(ExtractKeyError::PkNotAString),
        pk matches Some(Some(text)) ==> match key {
            Ok(k) => spec_extract_product_key(text@) == Ok::<(u128, Seq<char>), Option<Seq<char>>>((k.shop_id, k.shops_product_id@)),
            Err(ExtractKeyError::Decode(e)) => spec_extract_product_key(text@) == decode_result_view(Err(e)),
            Err(_) => false,
        },
{
    match pk {
        None => Err(ExtractKeyError::MissingPk),
        Some(None) => Err(ExtractKeyError::PkNotAString),
        Some(Some(text)) => {
            let rest = trim_start_matches(text, "product#");
            match decode(rest) {
                Ok(k) => Ok(k),
                Err(e) => Err(ExtractKeyError::Decode(e)),
            }
        },
    }
}

/// The product key of a partition key built by [`mk_pk`] is extracted unchanged.
pub proof fn lemma_extract_product_key_of_pk(shop_id: ShopId, shops_product_id: Seq<char>)
    requires
        spec_decode(spec_encode(shop_id, shops_product_id)) == Ok::<(u128, Seq<char>), Option<Seq<char>>>((shop_id, shops_product_id)),
    ensures
        spec_extract_product_key("product#"@ + spec_encode(shop_id, shops_product_id))
            == Ok::<(u128, Seq<char>), Option<Seq<char>>>((shop_id, shops_product_id)),
{
    reveal_strlit("product#");
    reveal_strlit("shop_id#");
    let prefix = "product#"@;
    let encoded = spec_encode(shop_id, shops_product_id);
    let pk = prefix + encoded;
    assert(pk.subrange(0, prefix.len() as int) =~= prefix);
    assert(pk.subrange(prefix.len() as int, pk.len() as int) =~= encoded);
    assert(encoded[0] == 's');
    assert(!has_prefix(encoded, prefix)) by {
        if has_prefix(encoded, prefix) {
            assert(encoded.subrange(0, prefix.len() as int)[0] == encoded[0]);
            assert(prefix[0] == 'p');
        }
    }
    assert(has_prefix(pk, prefix));
    assert(trim_prefix_repeatedly(encoded, prefix) == encoded);
    assert(trim_prefix_repeatedly(pk, prefix) == trim_prefix_repeatedly(pk.subrange(prefix.len() as int, pk.len() as int), prefix));
}

impl ProductRecord {
    /// The key of the product.
    pub fn key(&self) -> (key: ProductKey)
        ensures
            key.shop_id == self.shop_id,
            key.shops_product_id == self.shops_product_id,
    {
        ProductKey { shop_id: self.shop_id, shops_product_id: self.shops_product_id.clone() }
    }
}

/// The product a materialized record stands for, given the images read from it.
pub open spec fn spec_product_of_record(record: ProductRecord, images: ImageSet) -> Product {
    Product {
        product_id: record.product_id,
        product_slug_id: record.product_slug_id,
        shop_slug_id: record.shop_slug_id,
        seller_slug_id: record.seller_slug_id,
        event_id: record.event_id,
        shop_id: record.shop_id,
        seller_id: record.seller_id,
        shops_product_id: record.shops_product_id,
        shop_name: record.shop_name,
        seller_name: record.seller_name,
        shop_type: record.shop_type,
        structured_address: record.structured_address,
        geo_address: spec_geo_address_from_record(record.geo_address_lat, record.geo_address_lon),
        category_id: None,
        category_name: spec_no_titles(),
        period_id: None,
        period_name: spec_no_titles(),
        native_title: record.title_native,
        other_title: record.titles,
        native_description: record.description_native,
        native_price: record.price_native,
        other_price: record.price,
        native_price_estimate_min: record.price_estimate_min_native,
        other_price_estimate_min: record.price_estimate_min,
        native_price_estimate_max: record.price_estimate_max_native,
        other_price_estimate_max: record.price_estimate_max,
        state: product_state_of_product_state_record(record.state),
        lifecycle: record.lifecycle,
        url: record.url,
        view_url: record.view_url,
        images,
        embedding: record.embedding,
        origin_year: None,
        authenticity: Authenticity::Unknown,
        condition: Condition::Unknown,
        provenance: Provenance::Unknown,
        restoration: Restoration::Unknown,
        auction_start: record.auction_start,
        auction_end: record.auction_end,
        created_by: record.created_by,
        updated_by: record.updated_by,
        created: record.created,
        updated: record.updated,
    }
}

impl Product {
    /// The product a materialized record stands for; the address it links to is kept
    /// as stored, and so is the view address.
    pub fn from_record(record: ProductRecord) -> (product: Self)
        ensures
            product == spec_product_of_record(record, product.images),
            product.images@ == dedup_images(record.images@.map_values(|r: ProductImageRecord| image_of_record(r))),
    {
        let images = images_of_records(&record.images);
        Product {
            product_id: record.product_id,
            product_slug_id: record.product_slug_id,
            shop_slug_id: record.shop_slug_id,
            seller_slug_id: record.seller_slug_id,
            event_id: record.event_id,
            shop_id: record.shop_id,
            seller_id: record.seller_id,
            shops_product_id: record.shops_product_id,
            shop_name: record.shop_name,
            seller_name: record.seller_name,
            shop_type: record.shop_type,
            structured_address: record.structured_address,
            geo_address: geo_address_from_record(record.geo_address_lat, record.geo_address_lon),
            category_id: None,
            category_name: TitleTranslations { de: None, en: None, fr: None, es: None, it: None },
            period_id: None,
            period_name: TitleTranslations { de: None, en: None, fr: None, es: None, it: None },
            native_title: record.title_native,
            other_title: record.titles,
            native_description: record.description_native,
            native_price: record.price_native,
            other_price: record.price,
            native_price_estimate_min: record.price_estimate_min_native,
            other_price_estimate_min: record.price_estimate_min,
            native_price_estimate_max: record.price_estimate_max_native,
            other_price_estimate_max: record.price_estimate_max,
            state: ProductState::from(record.state),
            lifecycle: record.lifecycle,
            url: record.url,
            view_url: record.view_url,
            images,
            embedding: record.embedding,
            origin_year: None,
            authenticity: Authenticity::Unknown,
            condition: Condition::Unknown,
            provenance: Provenance::Unknown,
            restoration: Restoration::Unknown,
            auction_start: record.auction_start,
            auction_end: record.auction_end,
            created_by: record.created_by,
            updated_by: record.updated_by,
            created: record.created,
            updated: record.updated,
        }
    }
}

/// The materialized record that a creation event's record starts a product with,
/// given the keys and image list it gets; the first attribute, in the order of the
/// record's fields, that the creation needs and the event record lacks is reported.
pub open spec fn spec_product_record_of_event_record(
    event: ProductDomainEventRecord,
    sk: String,
    gsi2_pk: String,
    gsi2_sk: String,
    images: Vec<ProductImageRecord>,
) -> Result<ProductRecord, MissingPersistenceField> {
    if event.product_slug_id is None {
        Err(MissingPersistenceField { field: RecordField::ProductSlugId })
    } else if event.shop_slug_id is None {
        Err(MissingPersistenceField { field: RecordField::ShopSlugId })
    } else if event.seller_slug_id is None {
        Err(MissingPersistenceField { field: RecordField::SellerSlugId })
    } else if event.shop_name is None {
        Err(MissingPersistenceField { field: RecordField::ShopName })
    } else if event.seller_name is None {
        Err(MissingPersistenceField { field: RecordField::SellerName })
    } else if event.shop_type is None {
        Err(MissingPersistenceField { field: RecordField::ShopType })
    } else if event.title_native is None {
        Err(MissingPersistenceField { field: RecordField::TitleNative })
    } else if event.new_state is None {
        Err(MissingPersistenceField { field: RecordField::NewState })
    } else if event.url is None {
        Err(MissingPersistenceField { field: RecordField::Url })
    } else if event.view_url is None {
        Err(MissingPersistenceField { field: RecordField::ViewUrl })
    } else {
        Ok(ProductRecord {
            pk: event.pk,
            sk,
            gsi2_pk,
            gsi2_sk,
            product_id: event.product_id,
            product_slug_id: event.product_slug_id->0,
            shop_slug_id: event.shop_slug_id->0,
            seller_slug_id: event.seller_slug_id->0,
            event_id: event.event_id,
            shop_id: event.shop_id,
            seller_id: event.seller_id,
            shops_product_id: event.shops_product_id,
            shop_name: event.shop_name->0,
            seller_name: event.seller_name->0,
            shop_type: event.shop_type->0,
            structured_address: event.structured_address,
            geo_address_lat: event.geo_address_lat,
            geo_address_lon: event.geo_address_lon,
            title_native: event.title_native->0,
            titles: event.titles,
            description_native: event.description_native,
            price_native: event.new_price_native,
            price: event.new_price,
            price_estimate_min_native: event.new_price_estimate_min_native,
            price_estimate_min: event.new_price_estimate_min,
            price_estimate_max_native: event.new_price_estimate_max_native,
            price_estimate_max: event.new_price_estimate_max,
            state: event.new_state->0,
            lifecycle: ProductLifecycle::Active,
            url: event.url->0,
            view_url: event.view_url->0,
            images,
            embedding: None,
            auction_start: event.auction_start,
            auction_end: event.auction_end,
            created_by: Actor::System,
            updated_by: Actor::System,
            created: event.timestamp,
            updated: event.timestamp,
        })
    }
}

impl ProductRecord {
    /// Starts the materialized record of a product from the record of its creation
    /// event: active, created and updated by the system at the event's time, with the
    /// event's images, or none when the event has none.
    pub fn try_from_event_record(event: ProductDomainEventRecord) -> (result: Result<ProductRecord, MissingPersistenceField>)
        ensures
            match result {
                Ok(record) => {
                    &&& result == spec_product_record_of_event_record(event, record.sk, record.gsi2_pk, record.gsi2_sk, record.images)
                    &&& record.sk@ == "product#materialized"@
                    &&& record.gsi2_pk@ == spec_gsi2_pk(event.shop_slug_id->0@, event.product_slug_id->0@)
                    &&& record.gsi2_sk@ == "product#lookup#shop_id#shops_product_id"@
                    &&& record.images@ == record_images_view(event.images)
                },
                Err(e) => result == spec_product_record_of_event_record(event, arbitrary(), arbitrary(), arbitrary(), arbitrary()),
            },
    {
        let product_slug_id = match event.product_slug_id {
            Some(v) => v,
            None => return Err(missing(RecordField::ProductSlugId)),
        };
        let shop_slug_id = match event.shop_slug_id {
            Some(v) => v,
            None => return Err(missing(RecordField::ShopSlugId)),
        };
        let seller_slug_id = match event.seller_slug_id {
            Some(v) => v,
            None => return Err(missing(RecordField::SellerSlugId)),
        };
        let shop_name = match event.shop_name {
            Some(v) => v,
            None => return Err(missing(RecordField::ShopName)),
        };
        let seller_name = match event.seller_name {
            Some(v) => v,
            None => return Err(missing(RecordField::SellerName)),
        };
        let shop_type = match event.shop_type {
            Some(v) => v,
            None => return Err(missing(RecordField::ShopType)),
        };
        let title_native = match event.title_native {
            Some(v) => v,
            None => return Err(missing(RecordField::TitleNative)),
        };
        let state = match event.new_state {
            Some(v) => v,
            None => return Err(missing(RecordField::NewState)),
        };
        let url = match event.url {
            Some(v) => v,
            None => return Err(missing(RecordField::Url)),
        };
        let view_url = match event.view_url {
            Some(v) => v,
            None => return Err(missing(RecordField::ViewUrl)),
        };
        let gsi2_pk = mk_gsi2_pk(shop_slug_id.as_str(), product_slug_id.as_str());
        let images = match event.images {
            Some(v) => v,
            None => Vec::new(),
        };
        Ok(ProductRecord {
            pk: event.pk,
            sk: String::from_str(mk_sk()),
            gsi2_pk,
            gsi2_sk: String::from_str(mk_gsi2_sk()),
            product_id: event.product_id,
            product_slug_id,
            shop_slug_id,
            seller_slug_id,
            event_id: event.event_id,
            shop_id: event.shop_id,
            seller_id: event.seller_id,
            shops_product_id: event.shops_product_id,
            shop_name,
            seller_name,
            shop_type,
            structured_address: event.structured_address,
            geo_address_lat: event.geo_address_lat,
            geo_address_lon: event.geo_address_lon,
            title_native,
            titles: event.titles,
            description_native: event.description_native,
            price_native: event.new_price_native,
            price: event.new_price,
            price_estimate_min_native: event.new_price_estimate_min_native,
            price_estimate_min: event.new_price_estimate_min,
            price_estimate_max_native: event.new_price_estimate_max_native,
            price_estimate_max: event.new_price_estimate_max,
            state,
            lifecycle: ProductLifecycle::Active,
            url,
            view_url,
            images,
            embedding: None,
            auction_start: event.auction_start,
            auction_end: event.auction_end,
            created_by: Actor::System,
            updated_by: Actor::System,
            created: event.timestamp,
            updated: event.timestamp,
        })
    }
}

/// A materialized record keeps each value of the creation it starts from in the place
/// of the same meaning, and reads back as a product with each in the place of the same
/// meaning: the price, the lower estimate and the upper estimate, the state, the
/// links and the auction times.
pub proof fn lemma_materialized_prices_keep_their_meaning(
    event: ProductDomainEventRecord,
    sk: String,
    gsi2_pk: String,
    gsi2_sk: String,
    images: Vec<ProductImageRecord>,
    record: ProductRecord,
    read_images: ImageSet,
)
    ensures
        spec_product_record_of_event_record(event, sk, gsi2_pk, gsi2_sk, images) matches Ok(started) ==> {
            &&& started.price_native == event.new_price_native
            &&& started.price == event.new_price
            &&& started.price_estimate_min_native == event.new_price_estimate_min_native
            &&& started.price_estimate_min == event.new_price_estimate_min
            &&& started.price_estimate_max_native == event.new_price_estimate_max_native
            &&& started.price_estimate_max == event.new_price_estimate_max
            &&& Some(started.state) == event.new_state
            &&& Some(started.url) == event.url
            &&& Some(started.view_url) == event.view_url
            &&& started.auction_start == event.auction_start
            &&& started.auction_end == event.auction_end
        },
        ({
            let product = spec_product_of_record(record, read_images);
            &&& product.native_price == record.price_native
            &&& product.other_price == record.price
            &&& product.native_price_estimate_min == record.price_estimate_min_native
            &&& product.other_price_estimate_min == record.price_estimate_min
            &&& product.native_price_estimate_max == record.price_estimate_max_native
            &&& product.other_price_estimate_max == record.price_estimate_max
            &&& product.state == product_state_of_product_state_record(record.state)
            &&& product.url == record.url
            &&& product.view_url == record.view_url
            &&& product.auction_start == record.auction_start
            &&& product.auction_end == record.auction_end
        }),
{
}

} // verus!
