//! What a product search asks for: texts, filters and exclusions.

use crate::domain::{ProductId, Timestamp};
use crate::values::{Currency, DistanceUnit, Language, ProductLifecycle, ProductState, ShopType};
use vstd::prelude::*;

verus! {

/// Bounds on an amount; an absent bound leaves that side open.
#[derive(Clone, Copy, Debug, PartialEq, Eq, Structural, Hash)]
pub struct AmountRange {
    pub min: Option<u64>,
    pub max: Option<u64>,
}

/// Bounds on a point in time; an absent bound leaves that side open.
#[derive(Clone, Copy, Debug, PartialEq, Eq, Structural, Hash)]
pub struct TimeRange {
    pub min: Option<Timestamp>,
    pub max: Option<Timestamp>,
}

/// A distance. The amount is carried as the bit pattern of its IEEE 754
/// double-precision value; no computation is made on it.
#[derive(Clone, Copy, Debug, PartialEq, Eq, Structural, Hash)]
pub struct Distance {
    pub amount_bits: u64,
    pub unit: DistanceUnit,
}

/// Products within a distance of a position, the coordinates carried as the bit
/// patterns of their double-precision values.
#[derive(Clone, Copy, Debug, PartialEq, Eq, Structural, Hash)]
pub struct GeoDistanceQuery {
    pub lat_bits: u64,
    pub lon_bits: u64,
    pub distance: Distance,
}

/// A product search. Each `..._query` list is a set of accepted (or, for `exclude_`,
/// rejected) values, kept in the order given; an empty list does not restrict.
#[derive(Debug)]
pub struct ProductSearch {
    pub language: Language,
    pub currency: Currency,
    pub product_query: Vec<String>,
    pub lifecycle_query: Vec<ProductLifecycle>,
    pub shop_name_query: Vec<String>,
    pub exclude_shop_name_query: Vec<String>,
    pub seller_name_query: Vec<String>,
    pub exclude_seller_name_query: Vec<String>,
    pub shop_slug_id_query: Vec<String>,
    pub exclude_shop_slug_id_query: Vec<String>,
    pub seller_slug_id_query: Vec<String>,
    pub exclude_seller_slug_id_query: Vec<String>,
    pub exclude_product_id_query: Vec<ProductId>,
    pub shop_type_query: Vec<ShopType>,
    /// Countries by their ISO 3166-1 alpha-3 codes.
    pub country_query: Vec<String>,
    pub continent_query: Vec<String>,
    pub geo_address_distance_query: Option<GeoDistanceQuery>,
    pub price_query: Option<AmountRange>,
    pub state_query: Vec<ProductState>,
    pub created_query: Option<TimeRange>,
    pub updated_query: Option<TimeRange>,
    pub auction_start_query: Option<TimeRange>,
    pub auction_end_query: Option<TimeRange>,
}

impl ProductSearch {
    /// A search in `language` and `currency` that restricts nothing.
    pub fn new(language: Language, currency: Currency) -> (search: Self)
        ensures
            search.language == language,
            search.currency == currency,
            search.product_query@.len() == 0,
            search.lifecycle_query@.len() == 0,
            search.shop_name_query@.len() == 0,
            search.exclude_shop_name_query@.len() == 0,
            search.seller_name_query@.len() == 0,
            search.exclude_seller_name_query@.len() == 0,
            search.shop_slug_id_query@.len() == 0,
            search.exclude_shop_slug_id_query@.len() == 0,
            search.seller_slug_id_query@.len() == 0,
            search.exclude_seller_slug_id_query@.len() == 0,
            search.exclude_product_id_query@.len() == 0,
            search.shop_type_query@.len() == 0,
            search.country_query@.len() == 0,
            search.continent_query@.len() == 0,
            search.geo_address_distance_query is None,
            search.price_query is None,
            search.state_query@.len() == 0,
            search.created_query is None,
            search.updated_query is None,
            search.auction_start_query is None,
            search.auction_end_query is None,
    {
        ProductSearch {
            language,
            currency,
            product_query: Vec::new(),
            lifecycle_query: Vec::new(),
            shop_name_query: Vec::new(),
            exclude_shop_name_query: Vec::new(),
            seller_name_query: Vec::new(),
            exclude_seller_name_query: Vec::new(),
            shop_slug_id_query: Vec::new(),
            exclude_shop_slug_id_query: Vec::new(),
            seller_slug_id_query: Vec::new(),
            exclude_seller_slug_id_query: Vec::new(),
            exclude_product_id_query: Vec::new(),
            shop_type_query: Vec::new(),
            country_query: Vec::new(),
            continent_query: Vec::new(),
            geo_address_distance_query: None,
            price_query: None,
            state_query: Vec::new(),
            created_query: None,
            updated_query: None,
            auction_start_query: None,
            auction_end_query: None,
        }
    }

    /// The search with one more text that a product may match.
    pub fn with_product_query(self, product_query: String) -> (search: Self)
        ensures
            search.product_query@ == self.product_query@.push(product_query),
            search == (ProductSearch { product_query: search.product_query, ..self }),
    {
        let mut search = self;
        search.product_query.push(product_query);
        search
    }
}

/// What search results are ordered by.
#[derive(Clone, Copy, Debug, PartialEq, Eq, Structural, Hash)]
pub enum SortProductField {
    Score,
    Price,
    Created,
    Updated,
}

/// The direction of an order.
#[derive(Clone, Copy, Debug, PartialEq, Eq, Structural, Hash)]
pub enum SortOrder {
    Asc,
    Desc,
}

/// The order of search results.
#[derive(Clone, Copy, Debug, PartialEq, Eq, Structural, Hash)]
pub struct Sort {
    pub sort: SortProductField,
    pub order: SortOrder,
}

} // verus!
