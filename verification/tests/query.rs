use product::opensearch::product_document::ProductDocumentSerdeField;
use product::opensearch::query::{
    build_filter_clauses, build_hybrid_search_request, build_percolator_query,
    build_percolator_search_request, build_search_query, build_search_request, hybrid_page_size,
    price_field_for, text_match, title_fields, FilterClause, FilterError, MatchField, MatchOperator,
    MatchStyle, PhraseMatch, RangeBound, SortKey, TextMatch,
};
use product::search::{AmountRange, ProductSearch, Sort, SortOrder, SortProductField, TimeRange};
use product::domain::Timestamp;
use product::values::{Currency, Language, ProductState, ShopType};

fn search_with_product_query(product_query: &str) -> ProductSearch {
    ProductSearch::new(Language::En, Currency::Eur).with_product_query(product_query.to_string())
}

fn search_with_product_queries(product_queries: &[&str]) -> ProductSearch {
    product_queries.iter().fold(ProductSearch::new(Language::En, Currency::Eur), |search, query| {
        search.with_product_query(query.to_string())
    })
}

fn terms(clause: &FilterClause) -> (ProductDocumentSerdeField, Vec<String>) {
    match clause {
        FilterClause::Terms { field, values } => (*field, values.clone()),
        other => panic!("expected a terms clause, got {other:?}"),
    }
}

#[test]
fn should_build_live_search_query_without_percolator_score_workaround() {
    let mut search = ProductSearch::new(Language::En, Currency::Eur);
    search.state_query = vec![ProductState::Listed];

    let actual = build_search_query(&search).unwrap();

    assert!(actual.must.is_none());
    let (field, values) = terms(&actual.filter[0]);
    assert_eq!("lifecycle", field.as_str());
    assert_eq!(vec!["ACTIVE".to_string()], values);
    let (field, values) = terms(&actual.filter[1]);
    assert_eq!("state", field.as_str());
    assert_eq!(vec!["LISTED".to_string()], values);
}

#[test]
fn should_build_live_search_query_with_or_over_multiple_product_queries() {
    let search = search_with_product_queries(&["Madonna oil painting", "Virgin Mary oil painting"]);

    let actual = build_search_query(&search).unwrap();

    let clause = actual.must.unwrap();
    assert_eq!(MatchStyle::Live, clause.style);
    assert_eq!(ProductDocumentSerdeField::TitleEn, clause.title_field);
    assert_eq!(vec!["Madonna oil painting".to_string(), "Virgin Mary oil painting".to_string()], clause.texts);
}

#[test]
fn should_build_search_query_with_excluded_product_ids() {
    let excluded: u128 = 0x1234_5678_9abc_def0_1234_5678_9abc_def0;
    let mut search = ProductSearch::new(Language::En, Currency::Eur);
    search.exclude_product_id_query = vec![excluded];

    let actual = build_search_query(&search).unwrap();

    let (field, values) = terms(&actual.must_not[0]);
    assert_eq!("productId", field.as_str());
    assert_eq!(vec![uuid::Uuid::from_u128(excluded).to_string()], values);
}

#[test]
fn should_build_percolator_query_with_or_over_multiple_product_queries() {
    let search = search_with_product_queries(&["Madonna oil painting", "Virgin Mary oil painting"]);

    let actual = build_percolator_query(&search).unwrap();

    let clause = actual.must.unwrap();
    assert_eq!(MatchStyle::Percolator, clause.style);
    assert_eq!("Madonna oil painting", clause.texts[0]);
    assert_eq!("Virgin Mary oil painting", clause.texts[1]);
}

#[test]
fn should_build_percolator_search_request_without_pagination_cursor() {
    let search = search_with_product_query("Ming dynasty blue white porcelain vase");

    let actual = build_percolator_search_request(&search, 10).unwrap();

    assert_eq!(Some(10), actual.size);
    assert_eq!(MatchStyle::Percolator, actual.query.must.unwrap().style);
    assert_eq!(SortKey::Score, actual.sort[0].key);
    assert_eq!(SortOrder::Desc, actual.sort[0].order);
    assert_eq!(SortKey::Field(ProductDocumentSerdeField::ProductId), actual.sort[1].key);
}

#[test]
fn should_build_percolator_text_query_with_minimum_should_match() {
    let search = search_with_product_query("Ming dynasty blue white porcelain vase");

    let actual = build_percolator_query(&search).unwrap();

    let clause = actual.must.unwrap();
    assert_eq!(MatchStyle::Percolator, clause.style);
    assert_eq!(1, clause.texts.len());
    match clause.text_match {
        TextMatch::Percolator(multi_match) => {
            assert_eq!(Some("4<80%"), multi_match.minimum_should_match);
            assert_eq!(MatchOperator::Or, multi_match.operator);
            assert_eq!(
                vec![
                    MatchField { field: ProductDocumentSerdeField::TitleEn, text_subfield: false, boost: None },
                    MatchField { field: ProductDocumentSerdeField::TitleNative, text_subfield: true, boost: None },
                ],
                multi_match.fields
            );
        },
        other => panic!("expected a stored-search match, got {other:?}"),
    }
}

#[test]
fn should_match_live_texts_by_preferred_title_then_native_fallback() {
    match text_match(MatchStyle::Live, ProductDocumentSerdeField::TitleDe) {
        TextMatch::Live(live) => {
            assert_eq!(
                vec![MatchField { field: ProductDocumentSerdeField::TitleDe, text_subfield: false, boost: Some(5) }],
                live.preferred.fields
            );
            assert_eq!(MatchOperator::And, live.preferred.operator);
            assert_eq!(
                vec![MatchField { field: ProductDocumentSerdeField::TitleNative, text_subfield: true, boost: Some(3) }],
                live.fallback.fields
            );
            assert_eq!(7, live.fallback_boost_tenths);
            assert_eq!(
                PhraseMatch { field: MatchField { field: ProductDocumentSerdeField::TitleDe, text_subfield: false, boost: None }, boost: 6 },
                live.title_phrase
            );
            assert_eq!(3, live.native_phrase.boost);
            assert_eq!("AUTO:4,6", live.title_fuzzy.fuzziness);
            assert_eq!("2<75%", live.title_fuzzy.minimum_should_match);
            assert_eq!(3, live.title_fuzzy.boost);
        },
        other => panic!("expected a live match, got {other:?}"),
    }
}

#[test]
fn should_preserve_full_user_query_when_building_percolator_text_query() {
    let search = search_with_product_query("Antique art Ming porcelain vase");

    let actual = build_percolator_query(&search).unwrap();

    assert_eq!(vec!["Antique art Ming porcelain vase".to_string()], actual.must.unwrap().texts);
}

#[test]
fn should_filter_prices_in_the_search_currency() {
    let mut search = ProductSearch::new(Language::De, Currency::Gbp);
    search.price_query = Some(AmountRange { min: Some(100), max: Some(900) });

    let (_, filter) = build_filter_clauses(&search).unwrap();

    match &filter[1] {
        FilterClause::AtLeast { field, bound: RangeBound::Amount(min) } => {
            assert_eq!("priceGbp", field.as_str());
            assert_eq!(100, *min);
        },
        other => panic!("unexpected clause {other:?}"),
    }
    match &filter[2] {
        FilterClause::AtMost { field, bound: RangeBound::Amount(max) } => {
            assert_eq!(ProductDocumentSerdeField::PriceGbp, *field);
            assert_eq!(900, *max);
        },
        other => panic!("unexpected clause {other:?}"),
    }
}

#[test]
fn should_filter_countries_by_their_alpha2_codes() {
    let mut search = ProductSearch::new(Language::En, Currency::Eur);
    search.country_query = vec!["DEU".to_string(), "FRA".to_string()];
    let (_, filter) = build_filter_clauses(&search).unwrap();
    let (field, values) = terms(&filter[1]);
    assert_eq!("structuredAddressCountry", field.as_str());
    assert_eq!(vec!["DE".to_string(), "FR".to_string()], values);
}

#[test]
fn should_refuse_an_unknown_country() {
    let mut search = ProductSearch::new(Language::En, Currency::Eur);
    search.country_query = vec!["XXX".to_string()];
    assert!(matches!(build_filter_clauses(&search), Err(FilterError::UnknownCountry)));
}

#[test]
fn should_write_time_bounds_in_rfc3339() {
    let mut search = ProductSearch::new(Language::En, Currency::Eur);
    search.created_query = Some(TimeRange {
        min: Some(Timestamp { unix_nanos: 0, offset_seconds: 0 }),
        max: None,
    });
    let (_, filter) = build_filter_clauses(&search).unwrap();
    match &filter[1] {
        FilterClause::AtLeast { field, bound: RangeBound::Instant(text) } => {
            assert_eq!("created", field.as_str());
            assert_eq!("1970-01-01T00:00:00Z", text);
        },
        other => panic!("unexpected clause {other:?}"),
    }
}

#[test]
fn should_refuse_a_time_bound_that_cannot_be_written() {
    let mut search = ProductSearch::new(Language::En, Currency::Eur);
    search.updated_query = Some(TimeRange {
        min: None,
        max: Some(Timestamp { unix_nanos: i128::MAX, offset_seconds: 0 }),
    });
    assert!(matches!(build_filter_clauses(&search), Err(FilterError::Format)));
}

#[test]
fn should_not_filter_when_all_kinds_of_seller_are_accepted() {
    let mut search = ProductSearch::new(Language::En, Currency::Eur);
    search.shop_type_query = vec![
        ShopType::AuctionHouse,
        ShopType::AuctionPlatform,
        ShopType::CommercialDealer,
        ShopType::Marketplace,
    ];
    let (must_not, filter) = build_filter_clauses(&search).unwrap();
    assert!(must_not.is_empty());
    assert_eq!(1, filter.len());
    search.shop_type_query = vec![ShopType::Marketplace];
    let (_, filter) = build_filter_clauses(&search).unwrap();
    let (field, values) = terms(&filter[1]);
    assert_eq!("shopType", field.as_str());
    assert_eq!(vec!["MARKETPLACE".to_string()], values);
}

#[test]
fn should_sort_by_price_in_the_search_currency_then_by_product() {
    let search = ProductSearch::new(Language::Fr, Currency::Chf);
    let request = build_search_request(
        &search,
        Sort { sort: SortProductField::Price, order: SortOrder::Asc },
        Some(25),
    )
    .unwrap();
    assert_eq!(Some(25), request.size);
    assert_eq!(SortKey::Field(ProductDocumentSerdeField::PriceChf), request.sort[0].key);
    assert!(request.sort[0].missing_last);
    assert_eq!(SortKey::Field(ProductDocumentSerdeField::ProductId), request.sort[1].key);
    assert_eq!(SortOrder::Asc, request.sort[1].order);
}

#[test]
fn should_size_hybrid_pages() {
    assert_eq!(20, hybrid_page_size(None));
    assert_eq!(1, hybrid_page_size(Some(0)));
    assert_eq!(7, hybrid_page_size(Some(7)));
    let search = search_with_product_query("vase");
    let request = build_hybrid_search_request(&search, None).unwrap();
    assert_eq!(20, request.size);
    assert_eq!(100, request.k);
    assert!(request.knn_filtered);
    assert_eq!(MatchStyle::Live, request.text.unwrap().style);
}

#[test]
fn should_pick_fields_by_language_and_currency() {
    assert_eq!(ProductDocumentSerdeField::TitleIt, title_fields(Language::It));
    assert_eq!(ProductDocumentSerdeField::TitleEn, title_fields(Language::Ja));
    assert_eq!("priceJpy", price_field_for(Currency::Jpy).as_str());
}
