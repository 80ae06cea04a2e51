//! The clauses of the searches run against the product index: filters, exclusions,
//! text matching, sorting and paging, built from a [`ProductSearch`].

use crate::countries::{alpha2_of_alpha3, spec_alpha2_of_alpha3};
use crate::domain::{ProductId, Timestamp};
use crate::ids::{spec_uuid_text, uuid_to_string};
use crate::opensearch::product_document_field::ProductDocumentSerdeField;
use crate::postgres::codes::{spec_currency_code, spec_language_code};
use crate::opensearch::product_state_document::{product_state_document_of_product_state, ProductStateDocument};
use crate::search::{GeoDistanceQuery, ProductSearch, Sort, SortOrder, SortProductField, TimeRange};
use crate::timefmt::{format_rfc3339, spec_rfc3339};
use crate::values::{Currency, Language, ProductLifecycle, ProductState, ShopType};
use vstd::prelude::*;

verus! {

/// A bound of a range clause: an amount, or a point in time in RFC 3339.
#[derive(Debug)]
pub enum RangeBound {
    Amount(u64),
    Instant(String),
}

/// A clause that a product must (or, among the exclusions, must not) satisfy.
#[derive(Debug)]
pub enum FilterClause {
    /// The field holds one of the values.
    Terms { field: ProductDocumentSerdeField, values: Vec<String> },
    /// The field is at least the bound.
    AtLeast { field: ProductDocumentSerdeField, bound: RangeBound },
    /// The field is at most the bound.
    AtMost { field: ProductDocumentSerdeField, bound: RangeBound },
    /// The position in the field lies within the distance of the query's position.
    GeoDistance { field: ProductDocumentSerdeField, query: GeoDistanceQuery },
}

/// A range bound with its text as a sequence.
pub enum BoundView {
    Amount(u64),
    Instant(Seq<char>),
}

/// A clause with its texts as sequences.
pub enum ClauseView {
    Terms(ProductDocumentSerdeField, Seq<Seq<char>>),
    AtLeast(ProductDocumentSerdeField, BoundView),
    AtMost(ProductDocumentSerdeField, BoundView),
    GeoDistance(ProductDocumentSerdeField, GeoDistanceQuery),
}

impl View for RangeBound {
    type V = BoundView;

    open spec fn view(&self) -> BoundView {
        match self {
            RangeBound::Amount(amount) => BoundView::Amount(*amount),
            RangeBound::Instant(text) => BoundView::Instant(text@),
        }
    }
}

/// The texts of a list of strings.
pub open spec fn text_views(texts: Seq<String>) -> Seq<Seq<char>> {
    texts.map_values(|s: String| s@)
}

impl View for FilterClause {
    type V = ClauseView;

    open spec fn view(&self) -> ClauseView {
        match self {
            FilterClause::Terms { field, values } => ClauseView::Terms(*field, text_views(values@)),
            FilterClause::AtLeast { field, bound } => ClauseView::AtLeast(*field, bound@),
            FilterClause::AtMost { field, bound } => ClauseView::AtMost(*field, bound@),
            FilterClause::GeoDistance { field, query } => ClauseView::GeoDistance(*field, *query),
        }
    }
}

/// The views of a list of clauses.
pub open spec fn clauses_view(clauses: Seq<FilterClause>) -> Seq<ClauseView> {
    clauses.map_values(|c: FilterClause| c@)
}

/// Why the clauses of a search cannot be built.
#[derive(Clone, Copy, Debug, PartialEq, Eq, Structural, Hash)]
pub enum FilterError {
    /// A country of the search has no ISO 3166-1 alpha-3 code that is known.
    UnknownCountry,
    /// A time bound of the search cannot be written in RFC 3339.
    Format,
}

/// The price field in the currency of the search.
pub open spec fn spec_price_field(currency: Currency) -> ProductDocumentSerdeField {
    match currency {
        Currency::Eur => ProductDocumentSerdeField::PriceEur,
        Currency::Gbp => ProductDocumentSerdeField::PriceGbp,
        Currency::Usd => ProductDocumentSerdeField::PriceUsd,
        Currency::Aud => ProductDocumentSerdeField::PriceAud,
        Currency::Cad => ProductDocumentSerdeField::PriceCad,
        Currency::Nzd => ProductDocumentSerdeField::PriceNzd,
        Currency::Cny => ProductDocumentSerdeField::PriceCny,
        Currency::Brl => ProductDocumentSerdeField::PriceBrl,
        Currency::Pln => ProductDocumentSerdeField::PricePln,
        Currency::Try => ProductDocumentSerdeField::PriceTry,
        Currency::Jpy => ProductDocumentSerdeField::PriceJpy,
        Currency::Czk => ProductDocumentSerdeField::PriceCzk,
        Currency::Rub => ProductDocumentSerdeField::PriceRub,
        Currency::Aed => ProductDocumentSerdeField::PriceAed,
        Currency::Sar => ProductDocumentSerdeField::PriceSar,
        Currency::Hkd => ProductDocumentSerdeField::PriceHkd,
        Currency::Sgd => ProductDocumentSerdeField::PriceSgd,
        Currency::Chf => ProductDocumentSerdeField::PriceChf,
    }
}

/// The field that holds prices in `currency`.
pub fn price_field_for(currency: Currency) -> (field: ProductDocumentSerdeField)
    ensures
        field == spec_price_field(currency),
{
    match currency {
        Currency::Eur => ProductDocumentSerdeField::PriceEur,
        Currency::Gbp => ProductDocumentSerdeField::PriceGbp,
        Currency::Usd => ProductDocumentSerdeField::PriceUsd,
        Currency::Aud => ProductDocumentSerdeField::PriceAud,
        Currency::Cad => ProductDocumentSerdeField::PriceCad,
        Currency::Nzd => ProductDocumentSerdeField::PriceNzd,
        Currency::Cny => ProductDocumentSerdeField::PriceCny,
        Currency::Brl => ProductDocumentSerdeField::PriceBrl,
        Currency::Pln => ProductDocumentSerdeField::PricePln,
        Currency::Try => ProductDocumentSerdeField::PriceTry,
        Currency::Jpy => ProductDocumentSerdeField::PriceJpy,
        Currency::Czk => ProductDocumentSerdeField::PriceCzk,
        Currency::Rub => ProductDocumentSerdeField::PriceRub,
        Currency::Aed => ProductDocumentSerdeField::PriceAed,
        Currency::Sar => ProductDocumentSerdeField::PriceSar,
        Currency::Hkd => ProductDocumentSerdeField::PriceHkd,
        Currency::Sgd => ProductDocumentSerdeField::PriceSgd,
        Currency::Chf => ProductDocumentSerdeField::PriceChf,
    }
}

/// The lower-case form of an ASCII letter; any other character as it is.
pub open spec fn letter_lower(c: char) -> char {
    match c {
        'A' => 'a',
        'B' => 'b',
        'C' => 'c',
        'D' => 'd',
        'E' => 'e',
        'F' => 'f',
        'G' => 'g',
        'H' => 'h',
        'I' => 'i',
        'J' => 'j',
        'K' => 'k',
        'L' => 'l',
        'M' => 'm',
        'N' => 'n',
        'O' => 'o',
        'P' => 'p',
        'Q' => 'q',
        'R' => 'r',
        'S' => 's',
        'T' => 't',
        'U' => 'u',
        'V' => 'v',
        'W' => 'w',
        'X' => 'x',
        'Y' => 'y',
        'Z' => 'z',
        _ => c,
    }
}

/// The upper-case form of an ASCII letter; any other character as it is.
pub open spec fn letter_upper(c: char) -> char {
    match c {
        'a' => 'A',
        'b' => 'B',
        'c' => 'C',
        'd' => 'D',
        'e' => 'E',
        'f' => 'F',
        'g' => 'G',
        'h' => 'H',
        'i' => 'I',
        'j' => 'J',
        'k' => 'K',
        'l' => 'L',
        'm' => 'M',
        'n' => 'N',
        'o' => 'O',
        'p' => 'P',
        'q' => 'Q',
        'r' => 'R',
        's' => 'S',
        't' => 'T',
        'u' => 'U',
        'v' => 'V',
        'w' => 'W',
        'x' => 'X',
        'y' => 'Y',
        'z' => 'Z',
        _ => c,
    }
}

/// The name of the field that holds amounts in the currency of the ISO 4217 code
/// `code`: `price` followed by the code, its first letter upper case and the rest lower
/// case (`USD` gives `priceUsd`).
pub open spec fn price_field_name_for_code(code: Seq<char>) -> Seq<char> {
    "price"@ + seq![letter_upper(code[0]), letter_lower(code[1]), letter_lower(code[2])]
}

/// The price filter and the price sort of a search in a currency use the field named
/// after that currency's ISO 4217 code, the code the relational store keeps prices in:
/// `priceEur` for euros, `priceUsd` for dollars, and so on for every currency. So two
/// currencies never share a field.
pub proof fn lemma_price_field_is_named_for_its_currency(currency: Currency)
    ensures
        spec_currency_code(currency).len() == 3,
        spec_price_field(currency).spec_as_str() == price_field_name_for_code(spec_currency_code(currency)),
        forall|other: Currency| #[trigger] spec_price_field(other) == spec_price_field(currency) ==> other == currency,
{
    reveal_strlit("price");
    reveal_strlit("EUR");
    reveal_strlit("priceEur");
    reveal_strlit("GBP");
    reveal_strlit("priceGbp");
    reveal_strlit("USD");
    reveal_strlit("priceUsd");
    reveal_strlit("AUD");
    reveal_strlit("priceAud");
    reveal_strlit("CAD");
    reveal_strlit("priceCad");
    reveal_strlit("NZD");
    reveal_strlit("priceNzd");
    reveal_strlit("CNY");
    reveal_strlit("priceCny");
    reveal_strlit("BRL");
    reveal_strlit("priceBrl");
    reveal_strlit("PLN");
    reveal_strlit("pricePln");
    reveal_strlit("TRY");
    reveal_strlit("priceTry");
    reveal_strlit("JPY");
    reveal_strlit("priceJpy");
    reveal_strlit("CZK");
    reveal_strlit("priceCzk");
    reveal_strlit("RUB");
    reveal_strlit("priceRub");
    reveal_strlit("AED");
    reveal_strlit("priceAed");
    reveal_strlit("SAR");
    reveal_strlit("priceSar");
    reveal_strlit("HKD");
    reveal_strlit("priceHkd");
    reveal_strlit("SGD");
    reveal_strlit("priceSgd");
    reveal_strlit("CHF");
    reveal_strlit("priceChf");
    match currency {
        Currency::Eur => {},
        Currency::Gbp => {},
        Currency::Usd => {},
        Currency::Aud => {},
        Currency::Cad => {},
        Currency::Nzd => {},
        Currency::Cny => {},
        Currency::Brl => {},
        Currency::Pln => {},
        Currency::Try => {},
        Currency::Jpy => {},
        Currency::Czk => {},
        Currency::Rub => {},
        Currency::Aed => {},
        Currency::Sar => {},
        Currency::Hkd => {},
        Currency::Sgd => {},
        Currency::Chf => {},
    }
    assert(spec_price_field(currency).spec_as_str() =~= price_field_name_for_code(spec_currency_code(currency)));
}

/// The title field searched for a language: its own where it has one, the English
/// one for the languages that are only ingested.
pub open spec fn spec_title_field(language: Language) -> ProductDocumentSerdeField {
    match language {
        Language::De => ProductDocumentSerdeField::TitleDe,
        Language::En => ProductDocumentSerdeField::TitleEn,
        Language::Fr => ProductDocumentSerdeField::TitleFr,
        Language::Es => ProductDocumentSerdeField::TitleEs,
        Language::It => ProductDocumentSerdeField::TitleIt,
        _ => ProductDocumentSerdeField::TitleEn,
    }
}

/// The title field searched for `language`.
pub fn title_fields(language: Language) -> (field: ProductDocumentSerdeField)
    ensures
        field == spec_title_field(language),
{
    match language {
        Language::De => ProductDocumentSerdeField::TitleDe,
        Language::En => ProductDocumentSerdeField::TitleEn,
        Language::Fr => ProductDocumentSerdeField::TitleFr,
        Language::Es => ProductDocumentSerdeField::TitleEs,
        Language::It => ProductDocumentSerdeField::TitleIt,
        _ => ProductDocumentSerdeField::TitleEn,
    }
}

/// A terms clause on `field` when there are values, nothing otherwise.
pub open spec fn terms_clauses(field: ProductDocumentSerdeField, values: Seq<Seq<char>>) -> Seq<ClauseView> {
    if values.len() == 0 {
        Seq::empty()
    } else {
        seq![ClauseView::Terms(field, values)]
    }
}

/// A terms clause on `field` when the values restrict anything: not when there are
/// none, nor when they are all `count` values the field can take.
pub open spec fn any_of_clauses(field: ProductDocumentSerdeField, values: Seq<Seq<char>>, count: nat) -> Seq<ClauseView> {
    if values.len() == 0 || values.len() == count {
        Seq::empty()
    } else {
        seq![ClauseView::Terms(field, values)]
    }
}

/// The exclusions of a search: products, shops and sellers by name, shops and sellers
/// by slug, in this order, each only when its list is not empty.
pub open spec fn spec_must_not(search: ProductSearch) -> Seq<ClauseView> {
    terms_clauses(
        ProductDocumentSerdeField::ProductId,
        search.exclude_product_id_query@.map_values(|id: ProductId| spec_uuid_text(id)),
    ) + terms_clauses(ProductDocumentSerdeField::ShopName, text_views(search.exclude_shop_name_query@))
        + terms_clauses(ProductDocumentSerdeField::SellerName, text_views(search.exclude_seller_name_query@))
        + terms_clauses(ProductDocumentSerdeField::ShopSlugId, text_views(search.exclude_shop_slug_id_query@))
        + terms_clauses(ProductDocumentSerdeField::SellerSlugId, text_views(search.exclude_seller_slug_id_query@))
}

/// The lifecycles a search accepts: the active one when it names none.
pub open spec fn lifecycle_names(search: ProductSearch) -> Seq<Seq<char>> {
    if search.lifecycle_query@.len() == 0 {
        seq!["ACTIVE"@]
    } else {
        search.lifecycle_query@.map_values(|l: ProductLifecycle| l.spec_as_str())
    }
}

/// The bounds on the price in the search's currency.
pub open spec fn price_clauses(search: ProductSearch) -> Seq<ClauseView> {
    match search.price_query {
        Some(range) => {
            let field = spec_price_field(search.currency);
            (if range.min is Some { seq![ClauseView::AtLeast(field, BoundView::Amount(range.min->0))] } else { Seq::empty() })
                + (if range.max is Some { seq![ClauseView::AtMost(field, BoundView::Amount(range.max->0))] } else { Seq::empty() })
        },
        None => Seq::empty(),
    }
}

/// Every country of the search has a known code.
pub open spec fn countries_known(search: ProductSearch) -> bool {
    forall|i: int| 0 <= i < search.country_query@.len() ==> (#[trigger] spec_alpha2_of_alpha3(search.country_query@[i]@)) is Some
}

/// The alpha-2 codes of the countries of the search, by which the index holds them.
pub open spec fn country_codes(search: ProductSearch) -> Seq<Seq<char>> {
    search.country_query@.map_values(|c: String| spec_alpha2_of_alpha3(c@)->0)
}

/// The distance filter of the search, if any.
pub open spec fn geo_clauses(search: ProductSearch) -> Seq<ClauseView> {
    match search.geo_address_distance_query {
        Some(query) => seq![ClauseView::GeoDistance(ProductDocumentSerdeField::GeoAddress, query)],
        None => Seq::empty(),
    }
}

/// A bound in time can be written in RFC 3339, or there is none.
pub open spec fn time_bound_known(bound: Option<Timestamp>) -> bool {
    bound is None || spec_rfc3339(bound->0.unix_nanos, bound->0.offset_seconds) is Some
}

/// The bounds of a time range can be written, or there is no range.
pub open spec fn time_range_known(range: Option<TimeRange>) -> bool {
    range is None || (time_bound_known(range->0.min) && time_bound_known(range->0.max))
}

/// The bound clauses on `field` of a time range.
pub open spec fn time_clauses(range: Option<TimeRange>, field: ProductDocumentSerdeField) -> Seq<ClauseView> {
    match range {
        Some(range) => (if range.min is Some {
            seq![ClauseView::AtLeast(field, BoundView::Instant(spec_rfc3339(range.min->0.unix_nanos, range.min->0.offset_seconds)->0))]
        } else {
            Seq::empty()
        }) + (if range.max is Some {
            seq![ClauseView::AtMost(field, BoundView::Instant(spec_rfc3339(range.max->0.unix_nanos, range.max->0.offset_seconds)->0))]
        } else {
            Seq::empty()
        }),
        None => Seq::empty(),
    }
}

/// Every time bound of the search can be written.
pub open spec fn times_known(search: ProductSearch) -> bool {
    &&& time_range_known(search.created_query)
    &&& time_range_known(search.updated_query)
    &&& time_range_known(search.auction_start_query)
    &&& time_range_known(search.auction_end_query)
}

/// The names of the states of the search, as indexed.
pub open spec fn state_names(search: ProductSearch) -> Seq<Seq<char>> {
    search.state_query@.map_values(|s: ProductState| product_state_document_of_product_state(s).spec_as_str())
}

/// The names of the kinds of seller of the search, as indexed.
pub open spec fn shop_type_names(search: ProductSearch) -> Seq<Seq<char>> {
    search.shop_type_query@.map_values(|t: ShopType| t.spec_as_str())
}

/// The filters of a search, in this order: lifecycle, price bounds, countries,
/// continents, distance, shop and seller names, shop and seller slugs, states, kinds
/// of seller, then the bounds on creation, update, auction start and auction end.
pub open spec fn spec_filter(search: ProductSearch) -> Seq<ClauseView> {
    seq![ClauseView::Terms(ProductDocumentSerdeField::Lifecycle, lifecycle_names(search))]
        + price_clauses(search)
        + terms_clauses(ProductDocumentSerdeField::StructuredAddressCountry, country_codes(search))
        + terms_clauses(ProductDocumentSerdeField::StructuredAddressContinent, text_views(search.continent_query@))
        + geo_clauses(search)
        + terms_clauses(ProductDocumentSerdeField::ShopName, text_views(search.shop_name_query@))
        + terms_clauses(ProductDocumentSerdeField::SellerName, text_views(search.seller_name_query@))
        + terms_clauses(ProductDocumentSerdeField::ShopSlugId, text_views(search.shop_slug_id_query@))
        + terms_clauses(ProductDocumentSerdeField::SellerSlugId, text_views(search.seller_slug_id_query@))
        + any_of_clauses(ProductDocumentSerdeField::State, state_names(search), 6)
        + any_of_clauses(ProductDocumentSerdeField::ShopType, shop_type_names(search), 4)
        + time_clauses(search.created_query, ProductDocumentSerdeField::Created)
        + time_clauses(search.updated_query, ProductDocumentSerdeField::Updated)
        + time_clauses(search.auction_start_query, ProductDocumentSerdeField::AuctionStart)
        + time_clauses(search.auction_end_query, ProductDocumentSerdeField::AuctionEnd)
}

/// The exclusions and filters of a search, or why they cannot be built: an unknown
/// country is found before an unwritable time bound.
pub open spec fn spec_filter_clauses(search: ProductSearch) -> Result<(Seq<ClauseView>, Seq<ClauseView>), FilterError> {
    if !countries_known(search) {
        Err(FilterError::UnknownCountry)
    } else if !times_known(search) {
        Err(FilterError::Format)
    } else {
        Ok((spec_must_not(search), spec_filter(search)))
    }
}

/// Every country in the list has a known code.
pub open spec fn all_countries_known(countries: Seq<String>) -> bool {
    forall|i: int| 0 <= i < countries.len() ==> (#[trigger] spec_alpha2_of_alpha3(countries[i]@)) is Some
}

fn copy_texts(texts: &Vec<String>) -> (copies: Vec<String>)
    ensures
        copies@ == texts@,
{
    let mut copies: Vec<String> = Vec::new();
    let n = texts.len();
    for i in 0..n
        invariant
            n == texts@.len(),
            copies@ == texts@.take(i as int),
    {
        copies.push(texts[i].clone());
        assert(texts@.take(i + 1) =~= texts@.take(i as int).push(texts@[i as int]));
    }
    assert(texts@.take(n as int) =~= texts@);
    copies
}

fn id_texts(ids: &Vec<ProductId>) -> (texts: Vec<String>)
    ensures
        text_views(texts@) == ids@.map_values(|id: ProductId| spec_uuid_text(id)),
{
    let mut texts: Vec<String> = Vec::new();
    let n = ids.len();
    for i in 0..n
        invariant
            n == ids@.len(),
            texts@.len() == i,
            forall|k: int| 0 <= k < i ==> (#[trigger] texts@[k])@ == spec_uuid_text(ids@[k]),
    {
        let text = uuid_to_string(ids[i]);
        texts.push(text);
    }
    assert(text_views(texts@) =~= ids@.map_values(|id: ProductId| spec_uuid_text(id)));
    texts
}

fn lifecycle_texts(search: &ProductSearch) -> (texts: Vec<String>)
    ensures
        text_views(texts@) == lifecycle_names(*search),
{
    let mut texts: Vec<String> = Vec::new();
    let n = search.lifecycle_query.len();
    if n == 0 {
        texts.push(String::from_str(ProductLifecycle::Active.as_str()));
        assert(text_views(texts@) =~= seq!["ACTIVE"@]);
        return texts;
    }
    for i in 0..n
        invariant
            n == search.lifecycle_query@.len(),
            texts@.len() == i,
            forall|k: int| 0 <= k < i ==> (#[trigger] texts@[k])@ == search.lifecycle_query@[k].spec_as_str(),
    {
        texts.push(String::from_str(search.lifecycle_query[i].as_str()));
    }
    assert(text_views(texts@) =~= search.lifecycle_query@.map_values(|l: ProductLifecycle| l.spec_as_str()));
    texts
}

fn state_texts(search: &ProductSearch) -> (texts: Vec<String>)
    ensures
        text_views(texts@) == state_names(*search),
{
    let mut texts: Vec<String> = Vec::new();
    let n = search.state_query.len();
    for i in 0..n
        invariant
            n == search.state_query@.len(),
            texts@.len() == i,
            forall|k: int| 0 <= k < i ==> (#[trigger] texts@[k])@
                == product_state_document_of_product_state(search.state_query@[k]).spec_as_str(),
    {
        let document = ProductStateDocument::from(search.state_query[i]);
        texts.push(String::from_str(document.as_str()));
    }
    assert(text_views(texts@) =~= search.state_query@.map_values(
        |s: ProductState| product_state_document_of_product_state(s).spec_as_str(),
    ));
    texts
}

fn shop_type_texts(search: &ProductSearch) -> (texts: Vec<String>)
    ensures
        text_views(texts@) == shop_type_names(*search),
{
    let mut texts: Vec<String> = Vec::new();
    let n = search.shop_type_query.len();
    for i in 0..n
        invariant
            n == search.shop_type_query@.len(),
            texts@.len() == i,
            forall|k: int| 0 <= k < i ==> (#[trigger] texts@[k])@ == search.shop_type_query@[k].spec_as_str(),
    {
        texts.push(String::from_str(search.shop_type_query[i].as_str()));
    }
    assert(text_views(texts@) =~= search.shop_type_query@.map_values(|t: ShopType| t.spec_as_str()));
    texts
}

fn country_texts(countries: &Vec<String>) -> (codes: Option<Vec<String>>)
    ensures
        codes is Some <==> all_countries_known(countries@),
        codes is Some ==> text_views(codes->0@) == countries@.map_values(|c: String| spec_alpha2_of_alpha3(c@)->0),
{
    let mut codes: Vec<String> = Vec::new();
    let n = countries.len();
    for i in 0..n
        invariant
            n == countries@.len(),
            codes@.len() == i,
            forall|k: int| 0 <= k < i ==> (#[trigger] spec_alpha2_of_alpha3(countries@[k]@)) is Some,
            forall|k: int| 0 <= k < i ==> (#[trigger] codes@[k])@ == spec_alpha2_of_alpha3(countries@[k]@)->0,
    {
        let code = match alpha2_of_alpha3(countries[i].as_str()) {
            Some(code) => code,
            None => {
                assert(!all_countries_known(countries@)) by {
                    assert(spec_alpha2_of_alpha3(countries@[i as int]@) is None);
                }
                return None;
            },
        };
        codes.push(code);
    }
    assert(text_views(codes@) =~= countries@.map_values(|c: String| spec_alpha2_of_alpha3(c@)->0));
    Some(codes)
}

fn terms_piece(field: ProductDocumentSerdeField, values: Vec<String>) -> (piece: Vec<FilterClause>)
    ensures
        clauses_view(piece@) == terms_clauses(field, text_views(values@)),
{
    let mut piece: Vec<FilterClause> = Vec::new();
    if values.len() > 0 {
        let ghost v = text_views(values@);
        piece.push(FilterClause::Terms { field, values });
        assert(clauses_view(piece@) =~= seq![ClauseView::Terms(field, v)]);
    } else {
        assert(clauses_view(piece@) =~= Seq::<ClauseView>::empty());
    }
    piece
}

fn any_of_piece(field: ProductDocumentSerdeField, values: Vec<String>, count: usize) -> (piece: Vec<FilterClause>)
    ensures
        clauses_view(piece@) == any_of_clauses(field, text_views(values@), count as nat),
{
    let mut piece: Vec<FilterClause> = Vec::new();
    if values.len() > 0 && values.len() != count {
        let ghost v = text_views(values@);
        piece.push(FilterClause::Terms { field, values });
        assert(clauses_view(piece@) =~= seq![ClauseView::Terms(field, v)]);
    } else {
        assert(clauses_view(piece@) =~= Seq::<ClauseView>::empty());
    }
    piece
}

fn join(first: Vec<FilterClause>, second: Vec<FilterClause>) -> (joined: Vec<FilterClause>)
    ensures
        clauses_view(joined@) == clauses_view(first@) + clauses_view(second@),
{
    let mut joined = first;
    let mut rest = second;
    let ghost a = joined@;
    let ghost b = rest@;
    joined.append(&mut rest);
    assert(clauses_view(joined@) =~= clauses_view(a) + clauses_view(b));
    joined
}

fn price_piece(search: &ProductSearch) -> (piece: Vec<FilterClause>)
    ensures
        clauses_view(piece@) == price_clauses(*search),
{
    let mut piece: Vec<FilterClause> = Vec::new();
    match search.price_query {
        Some(range) => {
            let field = price_field_for(search.currency);
            if let Some(min) = range.min {
                piece.push(FilterClause::AtLeast { field, bound: RangeBound::Amount(min) });
            }
            if let Some(max) = range.max {
                piece.push(FilterClause::AtMost { field, bound: RangeBound::Amount(max) });
            }
            assert(clauses_view(piece@) =~= price_clauses(*search));
        },
        None => {
            assert(clauses_view(piece@) =~= Seq::<ClauseView>::empty());
        },
    }
    piece
}

fn geo_piece(search: &ProductSearch) -> (piece: Vec<FilterClause>)
    ensures
        clauses_view(piece@) == geo_clauses(*search),
{
    let mut piece: Vec<FilterClause> = Vec::new();
    if let Some(query) = search.geo_address_distance_query {
        piece.push(FilterClause::GeoDistance { field: ProductDocumentSerdeField::GeoAddress, query });
    }
    assert(clauses_view(piece@) =~= geo_clauses(*search));
    piece
}

fn time_piece(range: Option<TimeRange>, field: ProductDocumentSerdeField) -> (piece: Option<Vec<FilterClause>>)
    ensures
        piece is Some <==> time_range_known(range),
        piece is Some ==> clauses_view(piece->0@) == time_clauses(range, field),
{
    let mut piece: Vec<FilterClause> = Vec::new();
    match range {
        Some(r) => {
            if let Some(min) = r.min {
                match format_rfc3339(min) {
                    Some(text) => piece.push(FilterClause::AtLeast { field, bound: RangeBound::Instant(text) }),
                    None => return None,
                }
            }
            if let Some(max) = r.max {
                match format_rfc3339(max) {
                    Some(text) => piece.push(FilterClause::AtMost { field, bound: RangeBound::Instant(text) }),
                    None => return None,
                }
            }
            assert(clauses_view(piece@) =~= time_clauses(range, field));
        },
        None => {
            assert(clauses_view(piece@) =~= Seq::<ClauseView>::empty());
        },
    }
    Some(piece)
}

/// The exclusions and filters of a search: `Ok((must_not, filter))`, or the reason
/// they cannot be built. The same clauses serve the live, hybrid and percolator
/// searches.
pub fn build_filter_clauses(search: &ProductSearch) -> (result: Result<(Vec<FilterClause>, Vec<FilterClause>), FilterError>)
    ensures
        result is Ok <==> spec_filter_clauses(*search) is Ok,
        result matches Ok((must_not, filter)) ==> spec_filter_clauses(*search)->Ok_0
            == (clauses_view(must_not@), clauses_view(filter@)),
        result is Err ==> spec_filter_clauses(*search) == Err::<(Seq<ClauseView>, Seq<ClauseView>), FilterError>(result->Err_0),
{
    let must_not = terms_piece(ProductDocumentSerdeField::ProductId, id_texts(&search.exclude_product_id_query));
    let must_not = join(must_not, terms_piece(ProductDocumentSerdeField::ShopName, copy_texts(&search.exclude_shop_name_query)));
    let must_not = join(must_not, terms_piece(ProductDocumentSerdeField::SellerName, copy_texts(&search.exclude_seller_name_query)));
    let must_not = join(must_not, terms_piece(ProductDocumentSerdeField::ShopSlugId, copy_texts(&search.exclude_shop_slug_id_query)));
    let must_not = join(must_not, terms_piece(ProductDocumentSerdeField::SellerSlugId, copy_texts(&search.exclude_seller_slug_id_query)));

    let mut filter: Vec<FilterClause> = Vec::new();
    let lifecycles = lifecycle_texts(search);
    let ghost names = text_views(lifecycles@);
    filter.push(FilterClause::Terms { field: ProductDocumentSerdeField::Lifecycle, values: lifecycles });
    assert(clauses_view(filter@) =~= seq![ClauseView::Terms(ProductDocumentSerdeField::Lifecycle, names)]);
    let filter = join(filter, price_piece(search));
    let countries = match country_texts(&search.country_query) {
        Some(codes) => codes,
        None => {
            assert(!countries_known(*search));
            return Err(FilterError::UnknownCountry);
        },
    };
    assert(countries_known(*search));
    let filter = join(filter, terms_piece(ProductDocumentSerdeField::StructuredAddressCountry, countries));
    let filter = join(filter, terms_piece(ProductDocumentSerdeField::StructuredAddressContinent, copy_texts(&search.continent_query)));
    let filter = join(filter, geo_piece(search));
    let filter = join(filter, terms_piece(ProductDocumentSerdeField::ShopName, copy_texts(&search.shop_name_query)));
    let filter = join(filter, terms_piece(ProductDocumentSerdeField::SellerName, copy_texts(&search.seller_name_query)));
    let filter = join(filter, terms_piece(ProductDocumentSerdeField::ShopSlugId, copy_texts(&search.shop_slug_id_query)));
    let filter = join(filter, terms_piece(ProductDocumentSerdeField::SellerSlugId, copy_texts(&search.seller_slug_id_query)));
    let filter = join(filter, any_of_piece(ProductDocumentSerdeField::State, state_texts(search), 6));
    let filter = join(filter, any_of_piece(ProductDocumentSerdeField::ShopType, shop_type_texts(search), 4));
    let created = match time_piece(search.created_query, ProductDocumentSerdeField::Created) {
        Some(piece) => piece,
        None => return Err(FilterError::Format),
    };
    let filter = join(filter, created);
    let updated = match time_piece(search.updated_query, ProductDocumentSerdeField::Updated) {
        Some(piece) => piece,
        None => return Err(FilterError::Format),
    };
    let filter = join(filter, updated);
    let auction_start = match time_piece(search.auction_start_query, ProductDocumentSerdeField::AuctionStart) {
        Some(piece) => piece,
        None => return Err(FilterError::Format),
    };
    let filter = join(filter, auction_start);
    let auction_end = match time_piece(search.auction_end_query, ProductDocumentSerdeField::AuctionEnd) {
        Some(piece) => piece,
        None => return Err(FilterError::Format),
    };
    let filter = join(filter, auction_end);
    Ok((must_not, filter))
}

/// How product texts are matched: as in a live search, which ranks exact phrases and
/// tolerates typos, or as in a stored search, which asks that most words match.
#[derive(Clone, Copy, Debug, PartialEq, Eq, Structural, Hash)]
pub enum MatchStyle {
    Live,
    Percolator,
}

/// How the words of a text must occur in the fields it is matched against: all of
/// them, or any of them.
#[derive(Clone, Copy, Debug, PartialEq, Eq, Structural, Hash)]
pub enum MatchOperator {
    And,
    Or,
}

/// A field a text is matched against: a document field or its `text` subfield, with
/// a whole-number boost when it has one.
#[derive(Clone, Copy, Debug, PartialEq, Eq, Structural, Hash)]
pub struct MatchField {
    pub field: ProductDocumentSerdeField,
    pub text_subfield: bool,
    pub boost: Option<u32>,
}

/// A best-fields match of a text against several fields.
#[derive(Debug)]
pub struct MultiMatch {
    pub fields: Vec<MatchField>,
    pub operator: MatchOperator,
    pub minimum_should_match: Option<&'static str>,
}

/// A match of a text as a phrase, with a whole-number boost.
#[derive(Clone, Copy, Debug, PartialEq, Eq, Structural, Hash)]
pub struct PhraseMatch {
    pub field: MatchField,
    pub boost: u32,
}

/// A match of the words of a text that tolerates typos, with a whole-number boost.
#[derive(Clone, Copy, Debug)]
pub struct FuzzyMatch {
    pub field: MatchField,
    pub fuzziness: &'static str,
    pub minimum_should_match: &'static str,
    pub boost: u32,
}

/// How one text of a live search is matched: it must match the title of the search's
/// language with all its words (preferred) or, failing that, the native title with all
/// its words (a fallback weighted down); an exact phrase in either title, and most of
/// its words in the title despite typos, rank a product higher.
#[derive(Debug)]
pub struct LiveTextMatch {
    pub preferred: MultiMatch,
    pub fallback: MultiMatch,
    /// The weight of the fallback, in tenths.
    pub fallback_boost_tenths: u32,
    pub title_phrase: PhraseMatch,
    pub native_phrase: PhraseMatch,
    pub title_fuzzy: FuzzyMatch,
}

/// How one text of a search is matched: as in a live search, or as in a stored search,
/// which asks that most of its words occur in either title.
#[derive(Debug)]
pub enum TextMatch {
    Live(LiveTextMatch),
    Percolator(MultiMatch),
}

/// The title field of a search's language itself, with the given boost.
pub open spec fn title_match_field(title_field: ProductDocumentSerdeField, boost: Option<u32>) -> MatchField {
    MatchField { field: title_field, text_subfield: false, boost }
}

/// The text of the native title, with the given boost.
pub open spec fn native_match_field(boost: Option<u32>) -> MatchField {
    MatchField { field: ProductDocumentSerdeField::TitleNative, text_subfield: true, boost }
}

/// `m` matches against `fields` with `operator`, asking for `minimum` of the words.
pub open spec fn multi_match_is(
    m: MultiMatch,
    fields: Seq<MatchField>,
    operator: MatchOperator,
    minimum: Option<Seq<char>>,
) -> bool {
    &&& m.fields@ == fields
    &&& m.operator == operator
    &&& match minimum {
        None => m.minimum_should_match is None,
        Some(text) => m.minimum_should_match is Some && m.minimum_should_match->0@ == text,
    }
}

/// `m` is how a text is matched in `style` for a search whose title field is
/// `title_field`.
pub open spec fn spec_text_match(style: MatchStyle, title_field: ProductDocumentSerdeField, m: TextMatch) -> bool {
    match style {
        MatchStyle::Live => match m {
            TextMatch::Live(live) => {
                &&& multi_match_is(live.preferred, seq![title_match_field(title_field, Some(5))], MatchOperator::And, None)
                &&& multi_match_is(live.fallback, seq![native_match_field(Some(3))], MatchOperator::And, None)
                &&& live.fallback_boost_tenths == 7
                &&& live.title_phrase == (PhraseMatch { field: title_match_field(title_field, None), boost: 6 })
                &&& live.native_phrase == (PhraseMatch { field: native_match_field(None), boost: 3 })
                &&& live.title_fuzzy.field == title_match_field(title_field, None)
                &&& live.title_fuzzy.fuzziness@ == "AUTO:4,6"@
                &&& live.title_fuzzy.minimum_should_match@ == "2<75%"@
                &&& live.title_fuzzy.boost == 3
            },
            TextMatch::Percolator(_) => false,
        },
        MatchStyle::Percolator => match m {
            TextMatch::Percolator(p) => multi_match_is(
                p,
                seq![title_match_field(title_field, None), native_match_field(None)],
                MatchOperator::Or,
                Some("4<80%"@),
            ),
            TextMatch::Live(_) => false,
        },
    }
}

/// How a text is matched in `style` for a search whose title field is `title_field`.
pub fn text_match(style: MatchStyle, title_field: ProductDocumentSerdeField) -> (m: TextMatch)
    ensures
        spec_text_match(style, title_field, m),
{
    let title = |boost: Option<u32>| -> (f: MatchField)
        ensures
            f == title_match_field(title_field, boost),
        { MatchField { field: title_field, text_subfield: false, boost } };
    let native = |boost: Option<u32>| -> (f: MatchField)
        ensures
            f == native_match_field(boost),
        { MatchField { field: ProductDocumentSerdeField::TitleNative, text_subfield: true, boost } };
    match style {
        MatchStyle::Live => {
            let preferred = MultiMatch { fields: vec![title(Some(5))], operator: MatchOperator::And, minimum_should_match: None };
            let fallback = MultiMatch { fields: vec![native(Some(3))], operator: MatchOperator::And, minimum_should_match: None };
            assert(preferred.fields@ =~= seq![title_match_field(title_field, Some(5))]);
            assert(fallback.fields@ =~= seq![native_match_field(Some(3))]);
            TextMatch::Live(LiveTextMatch {
                preferred,
                fallback,
                fallback_boost_tenths: 7,
                title_phrase: PhraseMatch { field: title(None), boost: 6 },
                native_phrase: PhraseMatch { field: native(None), boost: 3 },
                title_fuzzy: FuzzyMatch {
                    field: title(None),
                    fuzziness: "AUTO:4,6",
                    minimum_should_match: "2<75%",
                    boost: 3,
                },
            })
        },
        MatchStyle::Percolator => {
            let fields = vec![title(None), native(None)];
            assert(fields@ =~= seq![title_match_field(title_field, None), native_match_field(None)]);
            TextMatch::Percolator(MultiMatch { fields, operator: MatchOperator::Or, minimum_should_match: Some("4<80%") })
        },
    }
}

/// The text part of a search: each text is matched against the title field of the
/// search's language and the native title, as `text_match` says; with several texts,
/// matching one of them suffices.
#[derive(Debug)]
pub struct ProductQueryClause {
    pub style: MatchStyle,
    pub title_field: ProductDocumentSerdeField,
    pub text_match: TextMatch,
    pub texts: Vec<String>,
}

/// A search as a boolean query: the text part a product must match, if any, the
/// exclusions it must not, and the filters it must satisfy.
#[derive(Debug)]
pub struct BoolQuery {
    pub must: Option<ProductQueryClause>,
    pub must_not: Vec<FilterClause>,
    pub filter: Vec<FilterClause>,
}

/// The text part of a search in the given style: none without texts.
pub open spec fn spec_product_query_clause(search: ProductSearch, style: MatchStyle, clause: Option<ProductQueryClause>) -> bool {
    if search.product_query@.len() == 0 {
        clause is None
    } else {
        &&& clause is Some
        &&& clause->0.style == style
        &&& clause->0.title_field == spec_title_field(search.language)
        &&& spec_text_match(style, spec_title_field(search.language), clause->0.text_match)
        &&& clause->0.texts@ == search.product_query@
    }
}

fn product_query_clause(search: &ProductSearch, style: MatchStyle) -> (clause: Option<ProductQueryClause>)
    ensures
        spec_product_query_clause(*search, style, clause),
{
    if search.product_query.len() == 0 {
        None
    } else {
        let title_field = title_fields(search.language);
        Some(ProductQueryClause {
            style,
            title_field,
            text_match: text_match(style, title_field),
            texts: copy_texts(&search.product_query),
        })
    }
}

/// The boolean query of a search in the given style, when its clauses can be built.
pub open spec fn spec_bool_query(search: ProductSearch, style: MatchStyle, query: BoolQuery) -> bool {
    &&& spec_product_query_clause(search, style, query.must)
    &&& spec_filter_clauses(search) is Ok
    &&& spec_filter_clauses(search)->Ok_0 == (clauses_view(query.must_not@), clauses_view(query.filter@))
}

fn bool_query(search: &ProductSearch, style: MatchStyle) -> (result: Result<BoolQuery, FilterError>)
    ensures
        result is Ok <==> spec_filter_clauses(*search) is Ok,
        result is Ok ==> spec_bool_query(*search, style, result->Ok_0),
        result is Err ==> spec_filter_clauses(*search) == Err::<(Seq<ClauseView>, Seq<ClauseView>), FilterError>(result->Err_0),
{
    let must = product_query_clause(search, style);
    match build_filter_clauses(search) {
        Ok((must_not, filter)) => Ok(BoolQuery { must, must_not, filter }),
        Err(e) => Err(e),
    }
}

/// The query of a live search: its texts matched as a live search does, with its
/// exclusions and filters.
pub fn build_search_query(search: &ProductSearch) -> (result: Result<BoolQuery, FilterError>)
    ensures
        result is Ok <==> spec_filter_clauses(*search) is Ok,
        result is Ok ==> spec_bool_query(*search, MatchStyle::Live, result->Ok_0),
        result is Err ==> spec_filter_clauses(*search) == Err::<(Seq<ClauseView>, Seq<ClauseView>), FilterError>(result->Err_0),
{
    bool_query(search, MatchStyle::Live)
}

/// The query that matches new products against a stored search: its texts matched as
/// a stored search does, with the same exclusions and filters as a live search.
pub fn build_percolator_query(search: &ProductSearch) -> (result: Result<BoolQuery, FilterError>)
    ensures
        result is Ok <==> spec_filter_clauses(*search) is Ok,
        result is Ok ==> spec_bool_query(*search, MatchStyle::Percolator, result->Ok_0),
        result is Err ==> spec_filter_clauses(*search) == Err::<(Seq<ClauseView>, Seq<ClauseView>), FilterError>(result->Err_0),
{
    bool_query(search, MatchStyle::Percolator)
}

/// What one sort criterion orders by: the relevance score or a field.
#[derive(Clone, Copy, Debug, PartialEq, Eq, Structural, Hash)]
pub enum SortKey {
    Score,
    Field(ProductDocumentSerdeField),
}

/// One sort criterion; with `missing_last`, products without a value come last.
#[derive(Clone, Copy, Debug, PartialEq, Eq, Structural, Hash)]
pub struct SortClause {
    pub key: SortKey,
    pub order: SortOrder,
    pub missing_last: bool,
}

/// A search request: the query, the page size when one is asked for, and the order.
/// The position after which a page starts is attached by the caller.
#[derive(Debug)]
pub struct SearchRequest {
    pub query: BoolQuery,
    pub size: Option<u64>,
    pub sort: Vec<SortClause>,
}

/// The criteria of an order: the requested one (by score, or by the price in the
/// search's currency, creation or update, products without a value last), then the
/// product identifier ascending so that pages are stable.
pub open spec fn spec_sort_clauses(search: ProductSearch, sort: Sort) -> Seq<SortClause> {
    let primary = match sort.sort {
        SortProductField::Score => SortClause { key: SortKey::Score, order: sort.order, missing_last: false },
        SortProductField::Price => SortClause { key: SortKey::Field(spec_price_field(search.currency)), order: sort.order, missing_last: true },
        SortProductField::Created => SortClause { key: SortKey::Field(ProductDocumentSerdeField::Created), order: sort.order, missing_last: true },
        SortProductField::Updated => SortClause { key: SortKey::Field(ProductDocumentSerdeField::Updated), order: sort.order, missing_last: true },
    };
    seq![primary, SortClause { key: SortKey::Field(ProductDocumentSerdeField::ProductId), order: SortOrder::Asc, missing_last: false }]
}

/// The request of a live search for one page of `page_size` results, when paging.
pub fn build_search_request(search: &ProductSearch, sort: Sort, page_size: Option<u64>) -> (result: Result<SearchRequest, FilterError>)
    ensures
        result is Ok <==> spec_filter_clauses(*search) is Ok,
        result is Ok ==> {
            &&& spec_bool_query(*search, MatchStyle::Live, result->Ok_0.query)
            &&& result->Ok_0.size == page_size
            &&& result->Ok_0.sort@ == spec_sort_clauses(*search, sort)
        },
        result is Err ==> spec_filter_clauses(*search) == Err::<(Seq<ClauseView>, Seq<ClauseView>), FilterError>(result->Err_0),
{
    let query = match build_search_query(search) {
        Ok(query) => query,
        Err(e) => return Err(e),
    };
    let primary = match sort.sort {
        SortProductField::Score => SortClause { key: SortKey::Score, order: sort.order, missing_last: false },
        SortProductField::Price => SortClause { key: SortKey::Field(price_field_for(search.currency)), order: sort.order, missing_last: true },
        SortProductField::Created => SortClause { key: SortKey::Field(ProductDocumentSerdeField::Created), order: sort.order, missing_last: true },
        SortProductField::Updated => SortClause { key: SortKey::Field(ProductDocumentSerdeField::Updated), order: sort.order, missing_last: true },
    };
    let sort_clauses = vec![
        primary,
        SortClause { key: SortKey::Field(ProductDocumentSerdeField::ProductId), order: SortOrder::Asc, missing_last: false },
    ];
    assert(sort_clauses@ =~= spec_sort_clauses(*search, sort));
    Ok(SearchRequest { query, size: page_size, sort: sort_clauses })
}

/// The request that matches new products against a stored search: `size` results,
/// best score first, then by product identifier.
pub fn build_percolator_search_request(search: &ProductSearch, size: u64) -> (result: Result<SearchRequest, FilterError>)
    ensures
        result is Ok <==> spec_filter_clauses(*search) is Ok,
        result is Ok ==> {
            &&& spec_bool_query(*search, MatchStyle::Percolator, result->Ok_0.query)
            &&& result->Ok_0.size == Some(size)
            &&& result->Ok_0.sort@ == seq![
                SortClause { key: SortKey::Score, order: SortOrder::Desc, missing_last: false },
                SortClause { key: SortKey::Field(ProductDocumentSerdeField::ProductId), order: SortOrder::Asc, missing_last: false },
            ]
        },
        result is Err ==> spec_filter_clauses(*search) == Err::<(Seq<ClauseView>, Seq<ClauseView>), FilterError>(result->Err_0),
{
    let query = match build_percolator_query(search) {
        Ok(query) => query,
        Err(e) => return Err(e),
    };
    let sort_clauses = vec![
        SortClause { key: SortKey::Score, order: SortOrder::Desc, missing_last: false },
        SortClause { key: SortKey::Field(ProductDocumentSerdeField::ProductId), order: SortOrder::Asc, missing_last: false },
    ];
    Ok(SearchRequest { query, size: Some(size), sort: sort_clauses })
}

/// The page size of a hybrid search when no page size is asked for.
pub const DEFAULT_HYBRID_PAGE_SIZE: u64 = 20;

/// How many nearest neighbours the vector part of a hybrid search retrieves.
pub const HYBRID_K: u16 = 100;

/// The page size of a hybrid search: the one asked for, else the default, and at
/// least one.
pub open spec fn spec_hybrid_page_size(page_size: Option<u64>) -> u64 {
    let size = match page_size {
        Some(size) => size,
        None => DEFAULT_HYBRID_PAGE_SIZE,
    };
    if size < 1 { 1 } else { size }
}

/// The page size of a hybrid search for the page size asked for.
pub fn hybrid_page_size(page_size: Option<u64>) -> (size: u64)
    ensures
        size == spec_hybrid_page_size(page_size),
        size >= 1,
{
    let size = match page_size {
        Some(size) => size,
        None => DEFAULT_HYBRID_PAGE_SIZE,
    };
    if size < 1 { 1 } else { size }
}

/// A hybrid search: a text part (matching everything when the search has no text)
/// under the search's exclusions and filters, and a nearest-neighbour part over the
/// embeddings that carries the same clauses when there are any, the two fused by the
/// search pipeline. The query vector is attached by the caller.
#[derive(Debug)]
pub struct HybridSearchRequest {
    pub text: Option<ProductQueryClause>,
    pub must_not: Vec<FilterClause>,
    pub filter: Vec<FilterClause>,
    pub knn_filtered: bool,
    pub k: u16,
    pub size: u64,
}

/// The request of a hybrid search for a page of `page_size` results, when paging.
pub fn build_hybrid_search_request(search: &ProductSearch, page_size: Option<u64>) -> (result: Result<HybridSearchRequest, FilterError>)
    ensures
        result is Ok <==> spec_filter_clauses(*search) is Ok,
        result is Ok ==> {
            let request = result->Ok_0;
            &&& spec_product_query_clause(*search, MatchStyle::Live, request.text)
            &&& spec_filter_clauses(*search)->Ok_0 == (clauses_view(request.must_not@), clauses_view(request.filter@))
            &&& request.knn_filtered == (request.must_not@.len() > 0 || request.filter@.len() > 0)
            &&& request.k == HYBRID_K
            &&& request.size == spec_hybrid_page_size(page_size)
        },
        result is Err ==> spec_filter_clauses(*search) == Err::<(Seq<ClauseView>, Seq<ClauseView>), FilterError>(result->Err_0),
{
    let (must_not, filter) = match build_filter_clauses(search) {
        Ok(clauses) => clauses,
        Err(e) => return Err(e),
    };
    let text = product_query_clause(search, MatchStyle::Live);
    let knn_filtered = must_not.len() > 0 || filter.len() > 0;
    Ok(HybridSearchRequest { text, must_not, filter, knn_filtered, k: HYBRID_K, size: hybrid_page_size(page_size) })
}

/// A search's price bounds, and its order by price, are on the field of the search's
/// own currency, named after its ISO 4217 code: a lower bound comes right after the
/// lifecycle filter, the upper bound after it, each with the amount asked for.
pub proof fn lemma_price_bounds_and_sort_use_the_search_currency(search: ProductSearch, sort: Sort)
    ensures
        ({
            let name = price_field_name_for_code(spec_currency_code(search.currency));
            let filter = spec_filter(search);
            let range = search.price_query->0;
            let at_max = if range.min is Some { 2int } else { 1int };
            &&& (search.price_query is Some && range.min is Some) ==> (filter[1] is AtLeast
                && filter[1]->AtLeast_0.spec_as_str() == name
                && filter[1]->AtLeast_1 == BoundView::Amount(range.min->0))
            &&& (search.price_query is Some && range.max is Some) ==> (filter[at_max] is AtMost
                && filter[at_max]->AtMost_0.spec_as_str() == name
                && filter[at_max]->AtMost_1 == BoundView::Amount(range.max->0))
            &&& sort.sort is Price ==> (spec_sort_clauses(search, sort)[0].key is Field
                && spec_sort_clauses(search, sort)[0].key->Field_0.spec_as_str() == name)
        }),
{
    lemma_price_field_is_named_for_its_currency(search.currency);
    let head = seq![ClauseView::Terms(ProductDocumentSerdeField::Lifecycle, lifecycle_names(search))];
    let prices = price_clauses(search);
    let rest = terms_clauses(ProductDocumentSerdeField::StructuredAddressCountry, country_codes(search));
    assert((head + prices)[1] == prices[0] || prices.len() == 0);
    if let Some(range) = search.price_query {
        let filter = spec_filter(search);
        if range.min is Some {
            assert(filter[1] == prices[0]);
        }
        if range.max is Some {
            let at = if range.min is Some { 2int } else { 1int };
            assert(filter[at] == prices[at - 1]);
        }
    }
}

/// The title searched for a language with a title of its own (German, English, French,
/// Spanish, Italian) is the field named after the language's ISO 639-1 code, `title`
/// followed by the code with its first letter upper case (`de` gives `titleDe`); any
/// other language is searched in the English title.
pub proof fn lemma_title_field_is_named_for_its_language(language: Language)
    ensures
        ({
            let code = spec_language_code(language);
            let own = language is De || language is En || language is Fr || language is Es || language is It;
            &&& own ==> spec_title_field(language).spec_as_str() == "title"@ + seq![letter_upper(code[0]), code[1]]
            &&& !own ==> spec_title_field(language) == spec_title_field(Language::En)
        }),
{
    reveal_strlit("title");
    reveal_strlit("de");
    reveal_strlit("titleDe");
    reveal_strlit("en");
    reveal_strlit("titleEn");
    reveal_strlit("fr");
    reveal_strlit("titleFr");
    reveal_strlit("es");
    reveal_strlit("titleEs");
    reveal_strlit("it");
    reveal_strlit("titleIt");
    let code = spec_language_code(language);
    if language is De || language is En || language is Fr || language is Es || language is It {
        assert(spec_title_field(language).spec_as_str() =~= "title"@ + seq![letter_upper(code[0]), code[1]]);
    }
}

} // verus!
