//! Stored form of a product search, as kept for matching new products against it.

use crate::domain::ProductId;
use crate::opensearch::distance_unit_document::{
    distance_unit_document_of_distance_unit, distance_unit_of_distance_unit_document,
    lemma_distance_unit_document_round_trip, DistanceUnitDocument,
};
use crate::opensearch::product_state_document::{
    lemma_product_state_document_round_trip, product_state_document_of_product_state,
    product_state_of_product_state_document, ProductStateDocument,
};
use crate::dynamodb::product_state_record::ProductStateRecord;
use crate::search::{AmountRange, Distance, GeoDistanceQuery, ProductSearch, TimeRange};
use crate::values::{Currency, Language, ProductLifecycle, ProductState, ShopType};
use vstd::prelude::*;
use vstd::std_specs::convert::FromSpecImpl;

verus! {

/// A distance as stored, its amount the bit pattern of a double-precision value.
#[derive(Clone, Copy, Debug, PartialEq, Eq, Structural, Hash)]
pub struct DistanceDocument {
    pub amount_bits: u64,
    pub unit: DistanceUnitDocument,
}

/// A distance filter as stored.
#[derive(Clone, Copy, Debug, PartialEq, Eq, Structural, Hash)]
pub struct GeoDistanceQueryDocument {
    pub lat_bits: u64,
    pub lon_bits: u64,
    pub distance: DistanceDocument,
}

/// The stored form of a distance.
pub open spec fn distance_document_of(distance: Distance) -> DistanceDocument {
    DistanceDocument { amount_bits: distance.amount_bits, unit: distance_unit_document_of_distance_unit(distance.unit) }
}

/// The distance a stored distance stands for.
pub open spec fn distance_of_document(document: DistanceDocument) -> Distance {
    Distance { amount_bits: document.amount_bits, unit: distance_unit_of_distance_unit_document(document.unit) }
}

impl From<Distance> for DistanceDocument {
    fn from(distance: Distance) -> (document: Self) {
        DistanceDocument { amount_bits: distance.amount_bits, unit: DistanceUnitDocument::from(distance.unit) }
    }
}

impl FromSpecImpl<Distance> for DistanceDocument {
    open spec fn obeys_from_spec() -> bool {
        true
    }

    open spec fn from_spec(distance: Distance) -> Self {
        distance_document_of(distance)
    }
}

impl From<DistanceDocument> for Distance {
    fn from(document: DistanceDocument) -> (distance: Self) {
        Distance { amount_bits: document.amount_bits, unit: document.unit.into() }
    }
}

impl FromSpecImpl<DistanceDocument> for Distance {
    open spec fn obeys_from_spec() -> bool {
        true
    }

    open spec fn from_spec(document: DistanceDocument) -> Self {
        distance_of_document(document)
    }
}

/// The stored form of a distance filter.
pub open spec fn geo_distance_document_of(query: GeoDistanceQuery) -> GeoDistanceQueryDocument {
    GeoDistanceQueryDocument { lat_bits: query.lat_bits, lon_bits: query.lon_bits, distance: distance_document_of(query.distance) }
}

/// The distance filter a stored one stands for.
pub open spec fn geo_distance_of_document(document: GeoDistanceQueryDocument) -> GeoDistanceQuery {
    GeoDistanceQuery { lat_bits: document.lat_bits, lon_bits: document.lon_bits, distance: distance_of_document(document.distance) }
}

impl From<GeoDistanceQuery> for GeoDistanceQueryDocument {
    fn from(query: GeoDistanceQuery) -> (document: Self) {
        GeoDistanceQueryDocument { lat_bits: query.lat_bits, lon_bits: query.lon_bits, distance: DistanceDocument::from(query.distance) }
    }
}

impl FromSpecImpl<GeoDistanceQuery> for GeoDistanceQueryDocument {
    open spec fn obeys_from_spec() -> bool {
        true
    }

    open spec fn from_spec(query: GeoDistanceQuery) -> Self {
        geo_distance_document_of(query)
    }
}

impl From<GeoDistanceQueryDocument> for GeoDistanceQuery {
    fn from(document: GeoDistanceQueryDocument) -> (query: Self) {
        GeoDistanceQuery { lat_bits: document.lat_bits, lon_bits: document.lon_bits, distance: Distance::from(document.distance) }
    }
}

impl FromSpecImpl<GeoDistanceQueryDocument> for GeoDistanceQuery {
    open spec fn obeys_from_spec() -> bool {
        true
    }

    open spec fn from_spec(document: GeoDistanceQueryDocument) -> Self {
        geo_distance_of_document(document)
    }
}

/// A stored product search. Its lists hold the same values as the search's, in the
/// same order; states are stored in their indexed form.
#[derive(Debug)]
pub struct ProductSearchDocument {
    pub language: Language,
    pub currency: Currency,
    pub product_query: Vec<String>,
    pub lifecycle_query: Vec<ProductLifecycle>,
    pub shop_name_query: Vec<String>,
    pub exclude_shop_name_query: Vec<String>,
    pub seller_name_query: Vec<String>,
    pub exclude_seller_name_query: Vec<String>,
    pub shop_slug_id_query: Vec<String>,
    pub exclude_shop_slug_id_query: Vec<String>,
    pub seller_slug_id_query: Vec<String>,
    pub exclude_seller_slug_id_query: Vec<String>,
    pub exclude_product_id_query: Vec<ProductId>,
    pub shop_type_query: Vec<ShopType>,
    pub country_query: Vec<String>,
    pub continent_query: Vec<String>,
    pub geo_address_distance_query: Option<GeoDistanceQueryDocument>,
    pub price_query: Option<AmountRange>,
    pub state_query: Vec<ProductStateDocument>,
    pub created_query: Option<TimeRange>,
    pub updated_query: Option<TimeRange>,
    pub auction_start_query: Option<TimeRange>,
    pub auction_end_query: Option<TimeRange>,
}

/// The stored form of a search, given its stored states.
pub open spec fn spec_document_of_search(search: ProductSearch, states: Vec<ProductStateDocument>) -> ProductSearchDocument {
    ProductSearchDocument {
        language: search.language,
        currency: search.currency,
        product_query: search.product_query,
        lifecycle_query: search.lifecycle_query,
        shop_name_query: search.shop_name_query,
        exclude_shop_name_query: search.exclude_shop_name_query,
        seller_name_query: search.seller_name_query,
        exclude_seller_name_query: search.exclude_seller_name_query,
        shop_slug_id_query: search.shop_slug_id_query,
        exclude_shop_slug_id_query: search.exclude_shop_slug_id_query,
        seller_slug_id_query: search.seller_slug_id_query,
        exclude_seller_slug_id_query: search.exclude_seller_slug_id_query,
        exclude_product_id_query: search.exclude_product_id_query,
        shop_type_query: search.shop_type_query,
        country_query: search.country_query,
        continent_query: search.continent_query,
        geo_address_distance_query: match search.geo_address_distance_query {
            Some(query) => Some(geo_distance_document_of(query)),
            None => None,
        },
        price_query: search.price_query,
        state_query: states,
        created_query: search.created_query,
        updated_query: search.updated_query,
        auction_start_query: search.auction_start_query,
        auction_end_query: search.auction_end_query,
    }
}

/// The search a stored search stands for, given its states.
pub open spec fn spec_search_of_document(document: ProductSearchDocument, states: Vec<ProductState>) -> ProductSearch {
    ProductSearch {
        language: document.language,
        currency: document.currency,
        product_query: document.product_query,
        lifecycle_query: document.lifecycle_query,
        shop_name_query: document.shop_name_query,
        exclude_shop_name_query: document.exclude_shop_name_query,
        seller_name_query: document.seller_name_query,
        exclude_seller_name_query: document.exclude_seller_name_query,
        shop_slug_id_query: document.shop_slug_id_query,
        exclude_shop_slug_id_query: document.exclude_shop_slug_id_query,
        seller_slug_id_query: document.seller_slug_id_query,
        exclude_seller_slug_id_query: document.exclude_seller_slug_id_query,
        exclude_product_id_query: document.exclude_product_id_query,
        shop_type_query: document.shop_type_query,
        country_query: document.country_query,
        continent_query: document.continent_query,
        geo_address_distance_query: match document.geo_address_distance_query {
            Some(query) => Some(geo_distance_of_document(query)),
            None => None,
        },
        price_query: document.price_query,
        state_query: states,
        created_query: document.created_query,
        updated_query: document.updated_query,
        auction_start_query: document.auction_start_query,
        auction_end_query: document.auction_end_query,
    }
}

fn state_documents_of(states: Vec<ProductState>) -> (documents: Vec<ProductStateDocument>)
    ensures
        documents@ == states@.map_values(|s: ProductState| product_state_document_of_product_state(s)),
{
    let mut documents: Vec<ProductStateDocument> = Vec::new();
    let n = states.len();
    for i in 0..n
        invariant
            n == states@.len(),
            documents@ == states@.take(i as int).map_values(|s: ProductState| product_state_document_of_product_state(s)),
    {
        documents.push(ProductStateDocument::from(states[i]));
        assert(states@.take(i + 1) =~= states@.take(i as int).push(states@[i as int]));
    }
    assert(states@.take(n as int) =~= states@);
    documents
}

fn states_of_documents(documents: Vec<ProductStateDocument>) -> (states: Vec<ProductState>)
    ensures
        states@ == documents@.map_values(|d: ProductStateDocument| product_state_of_product_state_document(d)),
{
    let mut states: Vec<ProductState> = Vec::new();
    let n = documents.len();
    for i in 0..n
        invariant
            n == documents@.len(),
            states@ == documents@.take(i as int).map_values(|d: ProductStateDocument| product_state_of_product_state_document(d)),
    {
        states.push(ProductState::from(documents[i]));
        assert(documents@.take(i + 1) =~= documents@.take(i as int).push(documents@[i as int]));
    }
    assert(documents@.take(n as int) =~= documents@);
    states
}

impl ProductSearchDocument {
    /// The stored form of a search.
    pub fn from_search(search: ProductSearch) -> (document: Self)
        ensures
            document == spec_document_of_search(search, document.state_query),
            document.state_query@ == search.state_query@.map_values(|s: ProductState| product_state_document_of_product_state(s)),
    {
        let geo_address_distance_query = match search.geo_address_distance_query {
            Some(query) => Some(GeoDistanceQueryDocument::from(query)),
            None => None,
        };
        ProductSearchDocument {
            language: search.language,
            currency: search.currency,
            product_query: search.product_query,
            lifecycle_query: search.lifecycle_query,
            shop_name_query: search.shop_name_query,
            exclude_shop_name_query: search.exclude_shop_name_query,
            seller_name_query: search.seller_name_query,
            exclude_seller_name_query: search.exclude_seller_name_query,
            shop_slug_id_query: search.shop_slug_id_query,
            exclude_shop_slug_id_query: search.exclude_shop_slug_id_query,
            seller_slug_id_query: search.seller_slug_id_query,
            exclude_seller_slug_id_query: search.exclude_seller_slug_id_query,
            exclude_product_id_query: search.exclude_product_id_query,
            shop_type_query: search.shop_type_query,
            country_query: search.country_query,
            continent_query: search.continent_query,
            geo_address_distance_query,
            price_query: search.price_query,
            state_query: state_documents_of(search.state_query),
            created_query: search.created_query,
            updated_query: search.updated_query,
            auction_start_query: search.auction_start_query,
            auction_end_query: search.auction_end_query,
        }
    }
}

impl ProductSearch {
    /// The search a stored search stands for.
    pub fn from_document(document: ProductSearchDocument) -> (search: Self)
        ensures
            search == spec_search_of_document(document, search.state_query),
            search.state_query@ == document.state_query@.map_values(|d: ProductStateDocument| product_state_of_product_state_document(d)),
    {
        let geo_address_distance_query = match document.geo_address_distance_query {
            Some(query) => Some(GeoDistanceQuery::from(query)),
            None => None,
        };
        ProductSearch {
            language: document.language,
            currency: document.currency,
            product_query: document.product_query,
            lifecycle_query: document.lifecycle_query,
            shop_name_query: document.shop_name_query,
            exclude_shop_name_query: document.exclude_shop_name_query,
            seller_name_query: document.seller_name_query,
            exclude_seller_name_query: document.exclude_seller_name_query,
            shop_slug_id_query: document.shop_slug_id_query,
            exclude_shop_slug_id_query: document.exclude_shop_slug_id_query,
            seller_slug_id_query: document.seller_slug_id_query,
            exclude_seller_slug_id_query: document.exclude_seller_slug_id_query,
            exclude_product_id_query: document.exclude_product_id_query,
            shop_type_query: document.shop_type_query,
            country_query: document.country_query,
            continent_query: document.continent_query,
            geo_address_distance_query,
            price_query: document.price_query,
            state_query: states_of_documents(document.state_query),
            created_query: document.created_query,
            updated_query: document.updated_query,
            auction_start_query: document.auction_start_query,
            auction_end_query: document.auction_end_query,
        }
    }
}

/// Storing a search and reading it back gives the same search: every field is kept,
/// the states and the distance filter through their stored forms.
pub proof fn lemma_search_document_round_trip(
    search: ProductSearch,
    stored_states: Vec<ProductStateDocument>,
    read_states: Vec<ProductState>,
)
    requires
        stored_states@ == search.state_query@.map_values(|s: ProductState| product_state_document_of_product_state(s)),
        read_states@ == stored_states@.map_values(|d: ProductStateDocument| product_state_of_product_state_document(d)),
    ensures
        spec_search_of_document(spec_document_of_search(search, stored_states), read_states)
            == (ProductSearch { state_query: read_states, ..search }),
        read_states@ == search.state_query@,
{
    assert forall|k: int| 0 <= k < search.state_query@.len() implies #[trigger] read_states@[k] == search.state_query@[k] by {
        lemma_product_state_document_round_trip(search.state_query@[k], ProductStateDocument::Listed, ProductStateRecord::Listed);
    }
    assert(read_states@ =~= search.state_query@);
    if search.geo_address_distance_query is Some {
        lemma_distance_unit_document_round_trip(
            search.geo_address_distance_query->0.distance.unit,
            DistanceUnitDocument::Meters,
        );
    }
}

} // verus!
