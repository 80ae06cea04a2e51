//! Product rows of the relational store: how a stored row is read back into the
//! state of a product, and which column values a product's state is written as.

use crate::countries::{alpha2_of_alpha3, spec_alpha2_of_alpha3};
use crate::domain::{EventId, GeoAddress, ImageSet, LocalizedText, Price, ProductId, ProductImage, ShopId, StructuredAddress, Timestamp, Uuid};
use crate::dynamodb::product_image_record::{dedup_images, image_key, images_distinct};
use crate::opensearch::product_state_document::product_state_document_of_product_state;
use crate::postgres::codes::{
    currency_as_str, language_as_str, parse_currency, parse_language, parse_product_lifecycle,
    parse_product_state, parse_prohibited_content, product_lifecycle_as_str, product_state_as_str,
    prohibited_content_as_str, spec_currency_code, spec_language_code, spec_parse_currency,
    spec_parse_language, spec_parse_product_lifecycle, spec_parse_product_state,
    spec_parse_prohibited_content, spec_product_lifecycle_code, spec_product_state_code,
    spec_prohibited_content_code,
};
use crate::postgres::errors::ProductRepositoryError;
use crate::urls::{parse_url, spec_parse_url};
use crate::values::{ProductLifecycle, ProductState};
use vstd::prelude::*;

verus! {

/// An image as kept in the JSON column of a product row.
#[derive(Debug)]
pub struct ProductImageRow {
    pub url: String,
    pub prohibited_content: String,
}

/// A product row as the store returns it, its images decoded from their JSON column
/// and its coordinates carried as the bit patterns of their double-precision values.
#[derive(Debug)]
pub struct ProductRow {
    pub product_id: Uuid,
    pub product_slug_id: String,
    pub event_id: Uuid,
    pub shop_id: Uuid,
    pub seller_id: Uuid,
    pub shops_product_id: String,
    pub structured_address_addressline: Option<String>,
    pub structured_address_addressline_extra: Option<String>,
    pub structured_address_locality: Option<String>,
    pub structured_address_region: Option<String>,
    pub structured_address_postal_code: Option<String>,
    pub structured_address_country: Option<String>,
    pub geo_address_lat: Option<u64>,
    pub geo_address_lon: Option<u64>,
    pub title_text: Option<String>,
    pub title_language: Option<String>,
    pub description_text: Option<String>,
    pub description_language: Option<String>,
    pub price_native_amount: Option<i64>,
    pub price_native_currency: Option<String>,
    pub price_estimate_min_native_amount: Option<i64>,
    pub price_estimate_min_native_currency: Option<String>,
    pub price_estimate_max_native_amount: Option<i64>,
    pub price_estimate_max_native_currency: Option<String>,
    pub fx_rate_id: Option<Uuid>,
    pub state: String,
    pub lifecycle: String,
    pub url: String,
    pub product_images: Vec<ProductImageRow>,
    pub auction_start: Option<Timestamp>,
    pub auction_end: Option<Timestamp>,
    pub created: Timestamp,
    pub updated: Timestamp,
}

/// Where a product is: a postal address and a geographic position, each optional.
#[derive(Debug)]
pub struct ProductAddress {
    pub structured: Option<StructuredAddress>,
    pub geo: Option<GeoAddress>,
}

/// The prices of a product in their own currencies, and the exchange rates used to
/// convert them.
#[derive(Clone, Copy, Debug, PartialEq, Eq, Structural, Hash)]
pub struct ProductPricing {
    pub native_price: Option<Price>,
    pub native_price_estimate_min: Option<Price>,
    pub native_price_estimate_max: Option<Price>,
    pub fx_rate_id: Option<Uuid>,
}

/// When a product's auction starts and ends.
#[derive(Clone, Copy, Debug, PartialEq, Eq, Structural, Hash)]
pub struct ProductAuction {
    pub start: Option<Timestamp>,
    pub end: Option<Timestamp>,
}

/// The state of a product as the relational store keeps it.
#[derive(Debug)]
pub struct ProductStateSnapshot {
    pub id: ProductId,
    pub slug_id: String,
    pub shop_id: ShopId,
    pub seller_id: ShopId,
    pub shops_product_id: String,
    pub address: ProductAddress,
    pub title: Option<LocalizedText>,
    pub description: Option<LocalizedText>,
    pub pricing: ProductPricing,
    pub state: ProductState,
    pub lifecycle: ProductLifecycle,
    pub url: String,
    pub images: ImageSet,
    pub embedding: Option<Vec<u32>>,
    pub auction: ProductAuction,
}

/// A product read from the store, with the identifier of the last event applied to
/// it, against which a later update is checked.
#[derive(Debug)]
pub struct LoadedProduct {
    pub product: ProductStateSnapshot,
    pub current_event_id: EventId,
}

/// The view of an optional text.
pub open spec fn opt_view(text: Option<String>) -> Option<Seq<char>> {
    match text {
        Some(t) => Some(t@),
        None => None,
    }
}

/// An amount as the store's signed column holds it: unchanged when it fits, the
/// largest value otherwise.
pub open spec fn spec_amount_to_i64(amount: u64) -> i64 {
    if amount <= i64::MAX as u64 {
        amount as i64
    } else {
        i64::MAX
    }
}

/// The stored form of an amount.
pub fn amount_to_i64(amount: u64) -> (stored: i64)
    ensures
        stored == spec_amount_to_i64(amount),
{
    if amount <= i64::MAX as u64 {
        amount as i64
    } else {
        i64::MAX
    }
}

/// The price two columns hold: both set, a non-negative amount and a known currency;
/// both empty, no price; anything else is invalid.
pub open spec fn spec_price_from_parts(amount: Option<i64>, currency: Option<Seq<char>>) -> Result<Option<Price>, ProductRepositoryError> {
    match (amount, currency) {
        (Some(amount), Some(currency)) => if amount < 0 {
            Err(ProductRepositoryError::InvalidPersistedState)
        } else {
            match spec_parse_currency(currency) {
                Ok(currency) => Ok(Some(Price { amount: amount as u64, currency })),
                Err(e) => Err(e),
            }
        },
        (None, None) => Ok(None),
        _ => Err(ProductRepositoryError::InvalidPersistedState),
    }
}

/// Reads a price from its amount and currency columns.
pub fn price_from_parts(amount: Option<i64>, currency: Option<String>) -> (price: Result<Option<Price>, ProductRepositoryError>)
    ensures
        price == spec_price_from_parts(amount, opt_view(currency)),
{
    match (amount, currency) {
        (Some(amount), Some(currency)) => {
            if amount < 0 {
                return Err(ProductRepositoryError::InvalidPersistedState);
            }
            match parse_currency(currency.as_str()) {
                Ok(currency) => Ok(Some(Price { amount: amount as u64, currency })),
                Err(e) => Err(e),
            }
        },
        (None, None) => Ok(None),
        _ => Err(ProductRepositoryError::InvalidPersistedState),
    }
}

/// The localized text two columns hold: both set and a known language; both empty,
/// none; anything else is invalid.
pub open spec fn spec_localized_from_parts(text: Option<String>, language: Option<String>) -> Result<Option<LocalizedText>, ProductRepositoryError> {
    match (text, language) {
        (Some(text), Some(language)) => match spec_parse_language(language@) {
            Ok(language) => Ok(Some(LocalizedText { language, text })),
            Err(e) => Err(e),
        },
        (None, None) => Ok(None),
        _ => Err(ProductRepositoryError::InvalidPersistedState),
    }
}

fn localized_from_parts(text: Option<String>, language: Option<String>) -> (localized: Result<Option<LocalizedText>, ProductRepositoryError>)
    ensures
        localized == spec_localized_from_parts(text, language),
{
    match (text, language) {
        (Some(text), Some(language)) => match parse_language(language.as_str()) {
            Ok(language) => Ok(Some(LocalizedText { language, text })),
            Err(e) => Err(e),
        },
        (None, None) => Ok(None),
        _ => Err(ProductRepositoryError::InvalidPersistedState),
    }
}

/// Reads the title of a row from its text and language columns.
pub fn localized_title_from_row(row: &ProductRow) -> (title: Result<Option<LocalizedText>, ProductRepositoryError>)
    ensures
        title == spec_localized_from_parts(row.title_text, row.title_language),
{
    localized_from_parts(row.title_text.clone(), row.title_language.clone())
}

/// Reads the description of a row from its text and language columns.
pub fn localized_description_from_row(row: &ProductRow) -> (description: Result<Option<LocalizedText>, ProductRepositoryError>)
    ensures
        description == spec_localized_from_parts(row.description_text, row.description_language),
{
    localized_from_parts(row.description_text.clone(), row.description_language.clone())
}

/// The postal address of a row: present when the row has an address line; a country
/// whose alpha-3 code is not known is dropped.
pub open spec fn spec_structured_address_of_row(row: ProductRow) -> Option<StructuredAddress> {
    if row.structured_address_addressline is None {
        None
    } else {
        Some(StructuredAddress {
            addressline: row.structured_address_addressline,
            addressline_extra: row.structured_address_addressline_extra,
            locality: row.structured_address_locality,
            region: row.structured_address_region,
            postal_code: row.structured_address_postal_code,
            country: match row.structured_address_country {
                Some(country) => if spec_alpha2_of_alpha3(country@) is Some { Some(country) } else { None },
                None => None,
            },
        })
    }
}

/// Reads the postal address of a row.
pub fn structured_address_from_row(row: &ProductRow) -> (address: Option<StructuredAddress>)
    ensures
        address == spec_structured_address_of_row(*row),
{
    if row.structured_address_addressline.is_none() {
        return None;
    }
    let country = match &row.structured_address_country {
        Some(country) => match alpha2_of_alpha3(country.as_str()) {
            Some(_) => Some(country.clone()),
            None => None,
        },
        None => None,
    };
    Some(StructuredAddress {
        addressline: row.structured_address_addressline.clone(),
        addressline_extra: row.structured_address_addressline_extra.clone(),
        locality: row.structured_address_locality.clone(),
        region: row.structured_address_region.clone(),
        postal_code: row.structured_address_postal_code.clone(),
        country,
    })
}

/// The geographic position of a row: both coordinates, or none.
pub open spec fn spec_geo_of_row(row: ProductRow) -> Option<GeoAddress> {
    match (row.geo_address_lat, row.geo_address_lon) {
        (Some(lat), Some(lon)) => Some(GeoAddress { lat_bits: lat, lon_bits: lon }),
        _ => None,
    }
}

/// Reads the geographic position of a row.
pub fn geo_address_from_row(row: &ProductRow) -> (geo: Option<GeoAddress>)
    ensures
        geo == spec_geo_of_row(*row),
{
    match (row.geo_address_lat, row.geo_address_lon) {
        (Some(lat), Some(lon)) => Some(GeoAddress { lat_bits: lat, lon_bits: lon }),
        _ => None,
    }
}

/// A stored image can be read: its address parses and its outcome is known.
pub open spec fn image_row_valid(row: ProductImageRow) -> bool {
    spec_parse_url(row.url@) is Some && spec_parse_prohibited_content(row.prohibited_content@) is Ok
}

/// `image` is what the stored image reads as.
pub open spec fn image_row_read(row: ProductImageRow, image: ProductImage) -> bool {
    &&& spec_parse_url(row.url@) == Some(image.url@)
    &&& spec_parse_prohibited_content(row.prohibited_content@) == Ok::<_, ProductRepositoryError>(image.prohibited_content)
}

/// Every stored image can be read.
pub open spec fn image_rows_valid(rows: Seq<ProductImageRow>) -> bool {
    forall|i: int| 0 <= i < rows.len() ==> image_row_valid(#[trigger] rows[i])
}

/// `images` are the stored images read one by one, then collected into an
/// insertion-ordered set.
pub open spec fn image_rows_read(rows: Seq<ProductImageRow>, images: Seq<ProductImage>) -> bool {
    exists|parsed: Seq<ProductImage>|
        parsed.len() == rows.len()
            && (forall|i: int| 0 <= i < rows.len() ==> image_row_read(#[trigger] rows[i], parsed[i]))
            && images == dedup_images(parsed)
}

/// Reads the images of a row.
pub fn images_from_rows(rows: &Vec<ProductImageRow>) -> (images: Result<ImageSet, ProductRepositoryError>)
    ensures
        images is Ok <==> image_rows_valid(rows@),
        images is Ok ==> image_rows_read(rows@, images->Ok_0@),
        images is Err ==> images->Err_0 == ProductRepositoryError::InvalidPersistedState,
{
    let mut parsed: Vec<ProductImage> = Vec::new();
    let n = rows.len();
    for i in 0..n
        invariant
            n == rows@.len(),
            parsed@.len() == i,
            forall|k: int| 0 <= k < i ==> image_row_valid(#[trigger] rows@[k]),
            forall|k: int| 0 <= k < i ==> image_row_read(#[trigger] rows@[k], parsed@[k]),
    {
        let row = &rows[i];
        let url = match parse_url(row.url.as_str()) {
            Some(url) => url,
            None => return Err(ProductRepositoryError::InvalidPersistedState),
        };
        let prohibited_content = match parse_prohibited_content(row.prohibited_content.as_str()) {
            Ok(value) => value,
            Err(_) => return Err(ProductRepositoryError::InvalidPersistedState),
        };
        parsed.push(ProductImage { url, prohibited_content });
    }
    let ghost all = parsed@;
    let images = ImageSet::from_images(parsed);
    assert(image_rows_read(rows@, images@));
    Ok(images)
}

/// The stored form of an image.
pub open spec fn image_row_describes(row: ProductImageRow, image: ProductImage) -> bool {
    &&& row.url@ == image.url@
    &&& row.prohibited_content@ == spec_prohibited_content_code(image.prohibited_content)
}

/// Writes the images of a product in the form of the JSON column.
pub fn images_to_rows(images: &Vec<ProductImage>) -> (rows: Vec<ProductImageRow>)
    ensures
        rows@.len() == images@.len(),
        forall|i: int| 0 <= i < images@.len() ==> image_row_describes(#[trigger] rows@[i], images@[i]),
{
    let mut rows: Vec<ProductImageRow> = Vec::new();
    let n = images.len();
    for i in 0..n
        invariant
            n == images@.len(),
            rows@.len() == i,
            forall|k: int| 0 <= k < i ==> image_row_describes(#[trigger] rows@[k], images@[k]),
    {
        let image = &images[i];
        rows.push(ProductImageRow {
            url: image.url.clone(),
            prohibited_content: String::from_str(prohibited_content_as_str(image.prohibited_content)),
        });
    }
    rows
}

/// Every column of a row can be read.
pub open spec fn row_valid(row: ProductRow) -> bool {
    &&& spec_localized_from_parts(row.title_text, row.title_language) is Ok
    &&& spec_localized_from_parts(row.description_text, row.description_language) is Ok
    &&& spec_price_from_parts(row.price_native_amount, opt_view(row.price_native_currency)) is Ok
    &&& spec_price_from_parts(row.price_estimate_min_native_amount, opt_view(row.price_estimate_min_native_currency)) is Ok
    &&& spec_price_from_parts(row.price_estimate_max_native_amount, opt_view(row.price_estimate_max_native_currency)) is Ok
    &&& spec_parse_product_state(row.state@) is Ok
    &&& spec_parse_product_lifecycle(row.lifecycle@) is Ok
    &&& spec_parse_url(row.url@) is Some
    &&& image_rows_valid(row.product_images@)
}

/// `loaded` is what a valid row reads as: its identifiers, address, texts, prices,
/// state, lifecycle, parsed address, images and auction times, and the identifier
/// of its last event. The row holds no embedding.
pub open spec fn row_reads_as(row: ProductRow, loaded: LoadedProduct) -> bool {
    let product = loaded.product;
    &&& loaded.current_event_id == row.event_id
    &&& product.id == row.product_id
    &&& product.slug_id == row.product_slug_id
    &&& product.shop_id == row.shop_id
    &&& product.seller_id == row.seller_id
    &&& product.shops_product_id == row.shops_product_id
    &&& product.address.structured == spec_structured_address_of_row(row)
    &&& product.address.geo == spec_geo_of_row(row)
    &&& product.title == spec_localized_from_parts(row.title_text, row.title_language)->Ok_0
    &&& product.description == spec_localized_from_parts(row.description_text, row.description_language)->Ok_0
    &&& product.pricing == (ProductPricing {
        native_price: spec_price_from_parts(row.price_native_amount, opt_view(row.price_native_currency))->Ok_0,
        native_price_estimate_min: spec_price_from_parts(row.price_estimate_min_native_amount, opt_view(row.price_estimate_min_native_currency))->Ok_0,
        native_price_estimate_max: spec_price_from_parts(row.price_estimate_max_native_amount, opt_view(row.price_estimate_max_native_currency))->Ok_0,
        fx_rate_id: row.fx_rate_id,
    })
    &&& product.state == spec_parse_product_state(row.state@)->Ok_0
    &&& product.lifecycle == spec_parse_product_lifecycle(row.lifecycle@)->Ok_0
    &&& product.url@ == spec_parse_url(row.url@)->0
    &&& image_rows_read(row.product_images@, product.images@)
    &&& product.embedding is None
    &&& product.auction == (ProductAuction { start: row.auction_start, end: row.auction_end })
}

impl LoadedProduct {
    /// Reads a product back from its row; any column that cannot be read makes the
    /// row invalid.
    pub fn try_from_row(row: ProductRow) -> (loaded: Result<LoadedProduct, ProductRepositoryError>)
        ensures
            loaded is Ok <==> row_valid(row),
            loaded is Ok ==> row_reads_as(row, loaded->Ok_0),
            loaded is Err ==> loaded->Err_0 == ProductRepositoryError::InvalidPersistedState,
    {
        let structured = structured_address_from_row(&row);
        let geo = geo_address_from_row(&row);
        let title = match localized_title_from_row(&row) {
            Ok(title) => title,
            Err(_) => return Err(ProductRepositoryError::InvalidPersistedState),
        };
        let description = match localized_description_from_row(&row) {
            Ok(description) => description,
            Err(_) => return Err(ProductRepositoryError::InvalidPersistedState),
        };
        let native_price = match price_from_parts(row.price_native_amount, row.price_native_currency.clone()) {
            Ok(price) => price,
            Err(_) => return Err(ProductRepositoryError::InvalidPersistedState),
        };
        let native_price_estimate_min = match price_from_parts(
            row.price_estimate_min_native_amount,
            row.price_estimate_min_native_currency.clone(),
        ) {
            Ok(price) => price,
            Err(_) => return Err(ProductRepositoryError::InvalidPersistedState),
        };
        let native_price_estimate_max = match price_from_parts(
            row.price_estimate_max_native_amount,
            row.price_estimate_max_native_currency.clone(),
        ) {
            Ok(price) => price,
            Err(_) => return Err(ProductRepositoryError::InvalidPersistedState),
        };
        let state = match parse_product_state(row.state.as_str()) {
            Ok(state) => state,
            Err(_) => return Err(ProductRepositoryError::InvalidPersistedState),
        };
        let lifecycle = match parse_product_lifecycle(row.lifecycle.as_str()) {
            Ok(lifecycle) => lifecycle,
            Err(_) => return Err(ProductRepositoryError::InvalidPersistedState),
        };
        let url = match parse_url(row.url.as_str()) {
            Some(url) => url,
            None => return Err(ProductRepositoryError::InvalidPersistedState),
        };
        let images = match images_from_rows(&row.product_images) {
            Ok(images) => images,
            Err(_) => return Err(ProductRepositoryError::InvalidPersistedState),
        };
        Ok(LoadedProduct {
            product: ProductStateSnapshot {
                id: row.product_id,
                slug_id: row.product_slug_id,
                shop_id: row.shop_id,
                seller_id: row.seller_id,
                shops_product_id: row.shops_product_id,
                address: ProductAddress { structured, geo },
                title,
                description,
                pricing: ProductPricing {
                    native_price,
                    native_price_estimate_min,
                    native_price_estimate_max,
                    fx_rate_id: row.fx_rate_id,
                },
                state,
                lifecycle,
                url,
                images,
                embedding: None,
                auction: ProductAuction { start: row.auction_start, end: row.auction_end },
            },
            current_event_id: row.event_id,
        })
    }
}

/// The column values written for a product: what an insert binds, and an update
/// sets, before the store stamps the times of the change.
#[derive(Debug)]
pub struct ProductRowValues {
    pub product_id: Uuid,
    pub product_slug_id: String,
    pub event_id: Uuid,
    pub shop_id: Uuid,
    pub seller_id: Uuid,
    pub shops_product_id: String,
    pub structured_address_addressline: Option<String>,
    pub structured_address_addressline_extra: Option<String>,
    pub structured_address_locality: Option<String>,
    pub structured_address_region: Option<String>,
    pub structured_address_postal_code: Option<String>,
    pub structured_address_country: Option<String>,
    pub geo_address_lat: Option<u64>,
    pub geo_address_lon: Option<u64>,
    pub title_text: Option<String>,
    pub title_language: Option<String>,
    pub description_text: Option<String>,
    pub description_language: Option<String>,
    pub price_native_amount: Option<i64>,
    pub price_native_currency: Option<String>,
    pub price_estimate_min_native_amount: Option<i64>,
    pub price_estimate_min_native_currency: Option<String>,
    pub price_estimate_max_native_amount: Option<i64>,
    pub price_estimate_max_native_currency: Option<String>,
    pub fx_rate_id: Option<Uuid>,
    pub state: String,
    pub lifecycle: String,
    pub url: String,
    pub product_images: Vec<ProductImageRow>,
    pub auction_start: Option<Timestamp>,
    pub auction_end: Option<Timestamp>,
}

/// A field of the postal address, none without an address.
pub open spec fn address_field(address: Option<StructuredAddress>, field: spec_fn(StructuredAddress) -> Option<String>) -> Option<String> {
    match address {
        Some(address) => field(address),
        None => None,
    }
}

/// The text of a localized text.
pub open spec fn text_column(localized: Option<LocalizedText>) -> Option<String> {
    match localized {
        Some(l) => Some(l.text),
        None => None,
    }
}

/// The language column of a localized text holds its code.
pub open spec fn language_column(column: Option<String>, localized: Option<LocalizedText>) -> bool {
    match localized {
        Some(l) => column is Some && column->0@ == spec_language_code(l.language),
        None => column is None,
    }
}

/// The amount column of a price.
pub open spec fn amount_column(price: Option<Price>) -> Option<i64> {
    match price {
        Some(p) => Some(spec_amount_to_i64(p.amount)),
        None => None,
    }
}

/// The currency column of a price holds its code.
pub open spec fn currency_column(column: Option<String>, price: Option<Price>) -> bool {
    match price {
        Some(p) => column is Some && column->0@ == spec_currency_code(p.currency),
        None => column is None,
    }
}

/// `values` are the columns written for `product` as of the event `event_id`.
pub open spec fn row_values_describe(values: ProductRowValues, product: ProductStateSnapshot, event_id: EventId) -> bool {
    let structured = product.address.structured;
    &&& values.product_id == product.id
    &&& values.product_slug_id == product.slug_id
    &&& values.event_id == event_id
    &&& values.shop_id == product.shop_id
    &&& values.seller_id == product.seller_id
    &&& values.shops_product_id == product.shops_product_id
    &&& values.structured_address_addressline == address_field(structured, |a: StructuredAddress| a.addressline)
    &&& values.structured_address_addressline_extra == address_field(structured, |a: StructuredAddress| a.addressline_extra)
    &&& values.structured_address_locality == address_field(structured, |a: StructuredAddress| a.locality)
    &&& values.structured_address_region == address_field(structured, |a: StructuredAddress| a.region)
    &&& values.structured_address_postal_code == address_field(structured, |a: StructuredAddress| a.postal_code)
    &&& values.structured_address_country == address_field(structured, |a: StructuredAddress| a.country)
    &&& values.geo_address_lat == (match product.address.geo { Some(g) => Some(g.lat_bits), None => None })
    &&& values.geo_address_lon == (match product.address.geo { Some(g) => Some(g.lon_bits), None => None })
    &&& values.title_text == text_column(product.title)
    &&& language_column(values.title_language, product.title)
    &&& values.description_text == text_column(product.description)
    &&& language_column(values.description_language, product.description)
    &&& values.price_native_amount == amount_column(product.pricing.native_price)
    &&& currency_column(values.price_native_currency, product.pricing.native_price)
    &&& values.price_estimate_min_native_amount == amount_column(product.pricing.native_price_estimate_min)
    &&& currency_column(values.price_estimate_min_native_currency, product.pricing.native_price_estimate_min)
    &&& values.price_estimate_max_native_amount == amount_column(product.pricing.native_price_estimate_max)
    &&& currency_column(values.price_estimate_max_native_currency, product.pricing.native_price_estimate_max)
    &&& values.fx_rate_id == product.pricing.fx_rate_id
    &&& values.state@ == spec_product_state_code(product.state)
    &&& values.lifecycle@ == spec_product_lifecycle_code(product.lifecycle)
    &&& values.url == product.url
    &&& values.product_images@.len() == product.images@.len()
    &&& forall|i: int| 0 <= i < product.images@.len() ==> image_row_describes(#[trigger] values.product_images@[i], product.images@[i])
    &&& values.auction_start == product.auction.start
    &&& values.auction_end == product.auction.end
}

fn localized_columns(localized: &Option<LocalizedText>) -> (columns: (Option<String>, Option<String>))
    ensures
        columns.0 == text_column(*localized),
        language_column(columns.1, *localized),
{
    match localized {
        Some(l) => (Some(l.text.clone()), Some(String::from_str(language_as_str(l.language)))),
        None => (None, None),
    }
}

fn price_columns(price: Option<Price>) -> (columns: (Option<i64>, Option<String>))
    ensures
        columns.0 == amount_column(price),
        currency_column(columns.1, price),
{
    match price {
        Some(p) => (Some(amount_to_i64(p.amount)), Some(String::from_str(currency_as_str(p.currency)))),
        None => (None, None),
    }
}

fn address_columns(address: &Option<StructuredAddress>) -> (columns: (Option<String>, Option<String>, Option<String>, Option<String>, Option<String>, Option<String>))
    ensures
        columns.0 == address_field(*address, |a: StructuredAddress| a.addressline),
        columns.1 == address_field(*address, |a: StructuredAddress| a.addressline_extra),
        columns.2 == address_field(*address, |a: StructuredAddress| a.locality),
        columns.3 == address_field(*address, |a: StructuredAddress| a.region),
        columns.4 == address_field(*address, |a: StructuredAddress| a.postal_code),
        columns.5 == address_field(*address, |a: StructuredAddress| a.country),
{
    match address {
        Some(a) => (
            a.addressline.clone(),
            a.addressline_extra.clone(),
            a.locality.clone(),
            a.region.clone(),
            a.postal_code.clone(),
            a.country.clone(),
        ),
        None => (None, None, None, None, None, None),
    }
}

/// The column values written for `product` as of the event `event_id`.
pub fn row_values_of(product: &ProductStateSnapshot, event_id: EventId) -> (values: ProductRowValues)
    ensures
        row_values_describe(values, *product, event_id),
{
    let (addressline, addressline_extra, locality, region, postal_code, country) = address_columns(&product.address.structured);
    let (title_text, title_language) = localized_columns(&product.title);
    let (description_text, description_language) = localized_columns(&product.description);
    let (price_native_amount, price_native_currency) = price_columns(product.pricing.native_price);
    let (price_estimate_min_native_amount, price_estimate_min_native_currency) = price_columns(product.pricing.native_price_estimate_min);
    let (price_estimate_max_native_amount, price_estimate_max_native_currency) = price_columns(product.pricing.native_price_estimate_max);
    let (geo_address_lat, geo_address_lon) = match product.address.geo {
        Some(g) => (Some(g.lat_bits), Some(g.lon_bits)),
        None => (None, None),
    };
    ProductRowValues {
        product_id: product.id,
        product_slug_id: product.slug_id.clone(),
        event_id,
        shop_id: product.shop_id,
        seller_id: product.seller_id,
        shops_product_id: product.shops_product_id.clone(),
        structured_address_addressline: addressline,
        structured_address_addressline_extra: addressline_extra,
        structured_address_locality: locality,
        structured_address_region: region,
        structured_address_postal_code: postal_code,
        structured_address_country: country,
        geo_address_lat,
        geo_address_lon,
        title_text,
        title_language,
        description_text,
        description_language,
        price_native_amount,
        price_native_currency,
        price_estimate_min_native_amount,
        price_estimate_min_native_currency,
        price_estimate_max_native_amount,
        price_estimate_max_native_currency,
        fx_rate_id: product.pricing.fx_rate_id,
        state: String::from_str(product_state_as_str(product.state)),
        lifecycle: String::from_str(product_lifecycle_as_str(product.lifecycle)),
        url: product.url.clone(),
        product_images: images_to_rows(product.images.as_vec()),
        auction_start: product.auction.start,
        auction_end: product.auction.end,
    }
}

/// The error an insert that the store refused is reported as: a violated key or slug
/// constraint names its conflict; anything else keeps the error it was mapped to.
pub open spec fn spec_insert_error(constraint: Option<Seq<char>>, otherwise: ProductRepositoryError) -> ProductRepositoryError {
    if constraint == Some("products_shop_product_unique"@) {
        ProductRepositoryError::ProductKeyConflict
    } else if constraint == Some("products_slug_unique"@) {
        ProductRepositoryError::SlugConflict
    } else {
        otherwise
    }
}

/// Maps a refused insert by the constraint it violated, if the store named one.
pub fn map_insert_error(constraint: Option<&str>, otherwise: ProductRepositoryError) -> (error: ProductRepositoryError)
    ensures
        error == spec_insert_error(
            match constraint { Some(c) => Some(c@), None => None },
            otherwise,
        ),
{
    match constraint {
        Some(name) => {
            if crate::text::str_eq(name, "products_shop_product_unique") {
                ProductRepositoryError::ProductKeyConflict
            } else if crate::text::str_eq(name, "products_slug_unique") {
                ProductRepositoryError::SlugConflict
            } else {
                otherwise
            }
        },
        None => otherwise,
    }
}

/// The row the store gives back for written column values and the times it stamped.
pub open spec fn spec_row_of_values(values: ProductRowValues, created: Timestamp, updated: Timestamp) -> ProductRow {
    ProductRow {
        product_id: values.product_id,
        product_slug_id: values.product_slug_id,
        event_id: values.event_id,
        shop_id: values.shop_id,
        seller_id: values.seller_id,
        shops_product_id: values.shops_product_id,
        structured_address_addressline: values.structured_address_addressline,
        structured_address_addressline_extra: values.structured_address_addressline_extra,
        structured_address_locality: values.structured_address_locality,
        structured_address_region: values.structured_address_region,
        structured_address_postal_code: values.structured_address_postal_code,
        structured_address_country: values.structured_address_country,
        geo_address_lat: values.geo_address_lat,
        geo_address_lon: values.geo_address_lon,
        title_text: values.title_text,
        title_language: values.title_language,
        description_text: values.description_text,
        description_language: values.description_language,
        price_native_amount: values.price_native_amount,
        price_native_currency: values.price_native_currency,
        price_estimate_min_native_amount: values.price_estimate_min_native_amount,
        price_estimate_min_native_currency: values.price_estimate_min_native_currency,
        price_estimate_max_native_amount: values.price_estimate_max_native_amount,
        price_estimate_max_native_currency: values.price_estimate_max_native_currency,
        fx_rate_id: values.fx_rate_id,
        state: values.state,
        lifecycle: values.lifecycle,
        url: values.url,
        product_images: values.product_images,
        auction_start: values.auction_start,
        auction_end: values.auction_end,
        created,
        updated,
    }
}

/// A price whose amount fits the store's signed column.
pub open spec fn price_fits(price: Option<Price>) -> bool {
    price is None || price->0.amount <= i64::MAX as u64
}

/// What the store keeps of a product exactly: amounts that fit its signed columns, a
/// postal address that has an address line and a known country if any, and addresses
/// (of the product and of its images, each held once as every image set does) that the
/// URL parser gives back as they are.
pub open spec fn product_storable(product: ProductStateSnapshot) -> bool {
    &&& price_fits(product.pricing.native_price)
    &&& price_fits(product.pricing.native_price_estimate_min)
    &&& price_fits(product.pricing.native_price_estimate_max)
    &&& (product.address.structured is Some ==> {
        let a = product.address.structured->0;
        &&& a.addressline is Some
        &&& (a.country is Some ==> spec_alpha2_of_alpha3(a.country->0@) is Some)
    })
    &&& spec_parse_url(product.url@) == Some(product.url@)
    &&& (forall|i: int| 0 <= i < product.images@.len() ==> spec_parse_url((#[trigger] product.images@[i]).url@) == Some(product.images@[i].url@))
    &&& images_distinct(product.images@)
}

proof fn lemma_localized_round_trip(localized: Option<LocalizedText>, text: Option<String>, language: Option<String>)
    requires
        text == text_column(localized),
        language_column(language, localized),
    ensures
        spec_localized_from_parts(text, language) == Ok::<_, ProductRepositoryError>(localized),
{
    if localized is Some {
        crate::postgres::codes::lemma_language_code_round_trip(localized->0.language);
    }
}

proof fn lemma_price_round_trip(price: Option<Price>, amount: Option<i64>, currency: Option<String>)
    requires
        price_fits(price),
        amount == amount_column(price),
        currency_column(currency, price),
    ensures
        spec_price_from_parts(amount, opt_view(currency)) == Ok::<_, ProductRepositoryError>(price),
{
    if price is Some {
        crate::postgres::codes::lemma_currency_code_round_trip(price->0.currency);
    }
}

/// Writing a product and reading its row back gives the product again, with the
/// event it was written as of as its current event: every column comes back as it
/// was, the addresses by their text and the images by address and outcome. This holds
/// for the products the store keeps exactly (see [`product_storable`]).
pub proof fn lemma_row_round_trip(
    product: ProductStateSnapshot,
    event_id: EventId,
    values: ProductRowValues,
    created: Timestamp,
    updated: Timestamp,
    loaded: LoadedProduct,
)
    requires
        row_values_describe(values, product, event_id),
        product_storable(product),
        row_reads_as(spec_row_of_values(values, created, updated), loaded),
    ensures
        row_valid(spec_row_of_values(values, created, updated)),
        loaded.current_event_id == event_id,
        loaded.product.id == product.id,
        loaded.product.slug_id == product.slug_id,
        loaded.product.shop_id == product.shop_id,
        loaded.product.seller_id == product.seller_id,
        loaded.product.shops_product_id == product.shops_product_id,
        loaded.product.address.structured == product.address.structured,
        loaded.product.address.geo == product.address.geo,
        loaded.product.title == product.title,
        loaded.product.description == product.description,
        loaded.product.pricing == product.pricing,
        loaded.product.state == product.state,
        loaded.product.lifecycle == product.lifecycle,
        loaded.product.url@ == product.url@,
        loaded.product.images@.map_values(|image: ProductImage| image_key(image))
            == product.images@.map_values(|image: ProductImage| image_key(image)),
        loaded.product.auction == product.auction,
{
    let row = spec_row_of_values(values, created, updated);
    lemma_localized_round_trip(product.title, values.title_text, values.title_language);
    lemma_localized_round_trip(product.description, values.description_text, values.description_language);
    lemma_price_round_trip(product.pricing.native_price, values.price_native_amount, values.price_native_currency);
    lemma_price_round_trip(
        product.pricing.native_price_estimate_min,
        values.price_estimate_min_native_amount,
        values.price_estimate_min_native_currency,
    );
    lemma_price_round_trip(
        product.pricing.native_price_estimate_max,
        values.price_estimate_max_native_amount,
        values.price_estimate_max_native_currency,
    );
    crate::postgres::codes::lemma_product_state_code_round_trip(product.state);
    crate::postgres::codes::lemma_product_lifecycle_code_round_trip(product.lifecycle);
    assert forall|i: int| 0 <= i < row.product_images@.len() implies image_row_valid(#[trigger] row.product_images@[i]) by {
        assert(image_row_describes(values.product_images@[i], product.images@[i]));
        assert(spec_parse_url(product.images@[i].url@) == Some(product.images@[i].url@));
        crate::postgres::codes::lemma_prohibited_content_code_round_trip(product.images@[i].prohibited_content);
    }
    assert(row.product_images@ == values.product_images@);
    if let Some(a) = product.address.structured {
        assert(spec_structured_address_of_row(row) == product.address.structured);
    } else {
        assert(spec_structured_address_of_row(row) == product.address.structured);
    }
    let parsed = choose|parsed: Seq<ProductImage>|
        parsed.len() == row.product_images@.len()
            && (forall|i: int| 0 <= i < row.product_images@.len() ==> image_row_read(#[trigger] row.product_images@[i], parsed[i]))
            && loaded.product.images@ == dedup_images(parsed);
    assert forall|i: int| 0 <= i < parsed.len() implies image_key(#[trigger] parsed[i]) == image_key(product.images@[i]) by {
        assert(image_row_read(row.product_images@[i], parsed[i]));
        assert(image_row_describes(values.product_images@[i], product.images@[i]));
        crate::postgres::codes::lemma_prohibited_content_code_round_trip(product.images@[i].prohibited_content);
    }
    assert(images_distinct(parsed)) by {
        assert forall|i: int, j: int| 0 <= i < j < parsed.len() implies image_key(#[trigger] parsed[i]) != image_key(#[trigger] parsed[j]) by {
            assert(image_key(parsed[i]) == image_key(product.images@[i]));
            assert(image_key(parsed[j]) == image_key(product.images@[j]));
        }
    }
    crate::dynamodb::product_image_record::lemma_dedup_distinct_images(parsed);
    assert(loaded.product.images@.map_values(|image: ProductImage| image_key(image))
        =~= product.images@.map_values(|image: ProductImage| image_key(image)));
}

/// The amount column written for a native price: its amount, or the largest amount the
/// signed column holds when it is larger; none without a price.
pub open spec fn amount_written(price: Option<Price>) -> Option<i64> {
    match price {
        Some(p) => Some(if p.amount <= 9_223_372_036_854_775_807u64 { p.amount as i64 } else { 9_223_372_036_854_775_807i64 }),
        None => None,
    }
}

/// Each column written for a product holds the part of the same meaning: the price,
/// the lower estimate and the upper estimate in their own amount and currency columns,
/// the state and lifecycle under the names they are indexed under, the link and the
/// auction times as they are.
pub proof fn lemma_row_columns_keep_their_meaning(values: ProductRowValues, product: ProductStateSnapshot, event_id: EventId)
    requires
        row_values_describe(values, product, event_id),
    ensures
        values.price_native_amount == amount_written(product.pricing.native_price),
        values.price_estimate_min_native_amount == amount_written(product.pricing.native_price_estimate_min),
        values.price_estimate_max_native_amount == amount_written(product.pricing.native_price_estimate_max),
        product.pricing.native_price_estimate_min matches Some(p)
            ==> values.price_estimate_min_native_currency matches Some(c) && c@ == spec_currency_code(p.currency),
        product.pricing.native_price_estimate_max matches Some(p)
            ==> values.price_estimate_max_native_currency matches Some(c) && c@ == spec_currency_code(p.currency),
        values.state@ == product_state_document_of_product_state(product.state).spec_as_str(),
        values.lifecycle@ == product.lifecycle.spec_as_str(),
        values.url == product.url,
        values.auction_start == product.auction.start,
        values.auction_end == product.auction.end,
{
    crate::postgres::codes::lemma_product_state_code_is_its_name(product.state);
    crate::postgres::codes::lemma_product_lifecycle_code_is_its_name(product.lifecycle);
}

/// A row reads back with each part from the columns of the same meaning: the lower and
/// upper estimates from their own columns, the state and lifecycle from their names,
/// the auction times as they are.
pub proof fn lemma_row_read_keeps_its_meaning(row: ProductRow, loaded: LoadedProduct)
    requires
        row_valid(row),
        row_reads_as(row, loaded),
    ensures
        loaded.product.pricing.native_price_estimate_min
            == spec_price_from_parts(row.price_estimate_min_native_amount, opt_view(row.price_estimate_min_native_currency))->Ok_0,
        loaded.product.pricing.native_price_estimate_max
            == spec_price_from_parts(row.price_estimate_max_native_amount, opt_view(row.price_estimate_max_native_currency))->Ok_0,
        product_state_document_of_product_state(loaded.product.state).spec_as_str() == row.state@,
        loaded.product.lifecycle.spec_as_str() == row.lifecycle@,
        loaded.product.auction.start == row.auction_start,
        loaded.product.auction.end == row.auction_end,
{
    crate::postgres::codes::lemma_product_state_code_is_its_name(loaded.product.state);
    crate::postgres::codes::lemma_product_lifecycle_code_is_its_name(loaded.product.lifecycle);
}

} // verus!
