use product::domain::{
    ImageSet,
    Actor, CurrencyAmounts, LocalizedText, Price, ProductCreatedPayload, ProductDomainEventPayload,
    ProductEvent, ProductEventPayload, ProductImage, StructuredAddress, Timestamp,
};
use product::postgres::codes::{
    currency_as_str, language_as_str, parse_currency, parse_language, parse_product_lifecycle,
    parse_product_state, parse_prohibited_content, product_state_as_str,
};
use product::postgres::errors::{ProductEventStoreError, ProductRepositoryError};
use product::postgres::product_event_row::{ProductEventGroup, ProductEventRow};
use product::postgres::repository::{
    amount_to_i64, map_insert_error, price_from_parts, row_values_of, LoadedProduct, ProductAddress,
    ProductAuction, ProductImageRow, ProductPricing, ProductRow, ProductRowValues,
    ProductStateSnapshot,
};
use product::postgres::testing::ProductPostgresTestError;
use product::postgres::use_cases::{
    actor_label, apply_command, current_event_after, created_event_id, map_event_store_error,
    map_repository_error, PatchField, Principal, UpdateProductCommand, UpdateProductError,
};
use product::values::{Currency, Language, ProductLifecycle, ProductState, ProhibitedContent, ShopType};

const PRODUCT: u128 = 0xf5e5aa19_7d97_4972_af6f_426f1ab8bb8f;
const SHOP: u128 = 0xa1caead3_a50d_44a4_b9fb_a15d2397601e;

fn at(seconds: i128) -> Timestamp {
    Timestamp { unix_nanos: seconds * 1_000_000_000, offset_seconds: 0 }
}

#[test]
fn should_read_codes_in_any_case_where_the_store_allows_it() {
    assert_eq!(Ok(Language::De), parse_language("DE"));
    assert_eq!(Ok(Language::Ar), parse_language("ar"));
    assert_eq!(Err(ProductRepositoryError::InvalidPersistedState), parse_language("xx"));
    assert_eq!(Ok(Currency::Try), parse_currency("try"));
    assert_eq!(Ok(Currency::Chf), parse_currency("CHF"));
    assert_eq!(Err(ProductRepositoryError::InvalidPersistedState), parse_currency("EURO"));
    assert_eq!(Ok(ProductState::Sold), parse_product_state("SOLD"));
    assert_eq!(Err(ProductRepositoryError::InvalidPersistedState), parse_product_state("sold"));
    assert_eq!(Ok(ProductLifecycle::Deleted), parse_product_lifecycle("DELETED"));
    assert_eq!(Ok(ProhibitedContent::NoneDetected), parse_prohibited_content("NONE"));
    assert_eq!(Ok(ProhibitedContent::NaziGermany), parse_prohibited_content("NAZI_GERMANY"));
}

#[test]
fn should_read_back_every_code_it_writes() {
    for language in [Language::De, Language::En, Language::Zh, Language::Cs, Language::Ja] {
        assert_eq!(Ok(language), parse_language(language_as_str(language)));
    }
    for currency in [Currency::Eur, Currency::Gbp, Currency::Sgd, Currency::Aed] {
        assert_eq!(Ok(currency), parse_currency(currency_as_str(currency)));
    }
    for state in [ProductState::Listed, ProductState::Removed, ProductState::Unknown] {
        assert_eq!(Ok(state), parse_product_state(product_state_as_str(state)));
    }
}

#[test]
fn should_store_amounts_saturating_and_read_prices_from_both_columns() {
    assert_eq!(42, amount_to_i64(42));
    assert_eq!(i64::MAX, amount_to_i64(u64::MAX));
    assert_eq!(Ok(Some(Price { amount: 7, currency: Currency::Eur })), price_from_parts(Some(7), Some("eur".to_string())));
    assert_eq!(Ok(None), price_from_parts(None, None));
    assert_eq!(Err(ProductRepositoryError::InvalidPersistedState), price_from_parts(Some(7), None));
    assert_eq!(Err(ProductRepositoryError::InvalidPersistedState), price_from_parts(Some(-1), Some("EUR".to_string())));
}

fn snapshot() -> ProductStateSnapshot {
    ProductStateSnapshot {
        id: PRODUCT,
        slug_id: "vase-1".to_string(),
        shop_id: SHOP,
        seller_id: SHOP,
        shops_product_id: "external-1".to_string(),
        address: ProductAddress {
            structured: Some(StructuredAddress {
                addressline: Some("Main Street 1".to_string()),
                addressline_extra: None,
                locality: Some("Vienna".to_string()),
                region: None,
                postal_code: None,
                country: Some("AUT".to_string()),
            }),
            geo: None,
        },
        title: Some(LocalizedText { language: Language::Fr, text: "Un vase".to_string() }),
        description: None,
        pricing: ProductPricing {
            native_price: Some(Price { amount: 1500, currency: Currency::Gbp }),
            native_price_estimate_min: None,
            native_price_estimate_max: None,
            fx_rate_id: Some(9),
        },
        state: ProductState::Available,
        lifecycle: ProductLifecycle::Active,
        url: "https://shop.example.com/item/1".to_string(),
        images: ImageSet::from_images(vec![ProductImage { url: "https://img.example.com/1.jpg".to_string(), prohibited_content: ProhibitedContent::Unknown }]),
        embedding: None,
        auction: ProductAuction { start: Some(at(1)), end: None },
    }
}

fn row_of(values: ProductRowValues) -> ProductRow {
    ProductRow {
        product_id: values.product_id,
        product_slug_id: values.product_slug_id,
        event_id: values.event_id,
        shop_id: values.shop_id,
        seller_id: values.seller_id,
        shops_product_id: values.shops_product_id,
        structured_address_addressline: values.structured_address_addressline,
        structured_address_addressline_extra: values.structured_address_addressline_extra,
        structured_address_locality: values.structured_address_locality,
        structured_address_region: values.structured_address_region,
        structured_address_postal_code: values.structured_address_postal_code,
        structured_address_country: values.structured_address_country,
        geo_address_lat: values.geo_address_lat,
        geo_address_lon: values.geo_address_lon,
        title_text: values.title_text,
        title_language: values.title_language,
        description_text: values.description_text,
        description_language: values.description_language,
        price_native_amount: values.price_native_amount,
        price_native_currency: values.price_native_currency,
        price_estimate_min_native_amount: values.price_estimate_min_native_amount,
        price_estimate_min_native_currency: values.price_estimate_min_native_currency,
        price_estimate_max_native_amount: values.price_estimate_max_native_amount,
        price_estimate_max_native_currency: values.price_estimate_max_native_currency,
        fx_rate_id: values.fx_rate_id,
        state: values.state,
        lifecycle: values.lifecycle,
        url: values.url,
        product_images: values.product_images,
        auction_start: values.auction_start,
        auction_end: values.auction_end,
        created: at(100),
        updated: at(200),
    }
}

#[test]
fn should_read_back_the_row_it_writes() {
    let original = snapshot();
    let values = row_values_of(&original, 77);
    assert_eq!(Some("fr".to_string()), values.title_language);
    assert_eq!(Some("GBP".to_string()), values.price_native_currency);
    assert_eq!("AVAILABLE", values.state);
    assert_eq!("UNKNOWN", values.product_images[0].prohibited_content);
    let loaded = LoadedProduct::try_from_row(row_of(values)).unwrap();
    assert_eq!(77, loaded.current_event_id);
    let product = loaded.product;
    assert_eq!(original.slug_id, product.slug_id);
    assert_eq!(Some("AUT".to_string()), product.address.structured.unwrap().country);
    assert_eq!(Some(Language::Fr), product.title.map(|t| t.language));
    assert_eq!(original.pricing, product.pricing);
    assert_eq!(ProductState::Available, product.state);
    assert_eq!(original.url, product.url);
    assert_eq!(1, product.images.len());
    assert_eq!(original.auction, product.auction);
}

#[test]
fn should_refuse_a_row_it_cannot_read() {
    let mut row = row_of(row_values_of(&snapshot(), 1));
    row.lifecycle = "GONE".to_string();
    assert_eq!(ProductRepositoryError::InvalidPersistedState, LoadedProduct::try_from_row(row).unwrap_err());
    let mut row = row_of(row_values_of(&snapshot(), 1));
    row.product_images = vec![ProductImageRow { url: "not a url".to_string(), prohibited_content: "UNKNOWN".to_string() }];
    assert_eq!(ProductRepositoryError::InvalidPersistedState, LoadedProduct::try_from_row(row).unwrap_err());
    let mut row = row_of(row_values_of(&snapshot(), 1));
    row.title_language = None;
    assert_eq!(ProductRepositoryError::InvalidPersistedState, LoadedProduct::try_from_row(row).unwrap_err());
}

#[test]
fn should_drop_an_unknown_country_and_an_address_without_line() {
    let mut row = row_of(row_values_of(&snapshot(), 1));
    row.structured_address_country = Some("ZZZ".to_string());
    let loaded = LoadedProduct::try_from_row(row).unwrap();
    assert_eq!(None, loaded.product.address.structured.unwrap().country);
    let mut row = row_of(row_values_of(&snapshot(), 1));
    row.structured_address_addressline = None;
    let loaded = LoadedProduct::try_from_row(row).unwrap();
    assert!(loaded.product.address.structured.is_none());
}

#[test]
fn should_name_constraint_conflicts() {
    assert_eq!(
        ProductRepositoryError::ProductKeyConflict,
        map_insert_error(Some("products_shop_product_unique"), ProductRepositoryError::Internal)
    );
    assert_eq!(ProductRepositoryError::SlugConflict, map_insert_error(Some("products_slug_unique"), ProductRepositoryError::Internal));
    assert_eq!(ProductRepositoryError::TemporarilyUnavailable, map_insert_error(None, ProductRepositoryError::TemporarilyUnavailable));
}

#[test]
fn should_map_domain_event_payload_without_transport_fields() {
    let payload = ProductCreatedPayload {
        product_slug_id: "product-one".to_string(),
        shop_slug_id: "shop-one".to_string(),
        seller_slug_id: "shop-one".to_string(),
        shop_id: SHOP,
        seller_id: SHOP,
        shops_product_id: "external-1".to_string(),
        shop_name: "Shop One".to_string(),
        seller_name: "Shop One".to_string(),
        shop_type: ShopType::AuctionHouse,
        structured_address: StructuredAddress {
            addressline: None,
            addressline_extra: None,
            locality: None,
            region: None,
            postal_code: None,
            country: None,
        },
        geo_address: None,
        native_title: LocalizedText { language: Language::En, text: "A vase".to_string() },
        native_description: None,
        native_price: None,
        other_price: CurrencyAmounts::empty(),
        native_price_estimate_min: None,
        other_price_estimate_min: CurrencyAmounts::empty(),
        native_price_estimate_max: None,
        other_price_estimate_max: CurrencyAmounts::empty(),
        state: ProductState::Listed,
        url: "https://shop.example.com/products/external-1".to_string(),
        view_url: "https://aura.example.com/shops/shop-one/products/product-one".to_string(),
        images: ImageSet::new(),
        auction_start: None,
        auction_end: None,
    };
    let row = ProductEventRow::from_event(ProductEvent {
        aggregate_id: PRODUCT,
        event_id: 5,
        timestamp: at(3),
        payload: ProductEventPayload::ProductDomainEvent(ProductDomainEventPayload::Created(payload)),
    });

    assert_eq!(ProductEventGroup::Domain, row.event_group);
    assert_eq!("DOMAIN_CREATED", row.event_type);
    assert_eq!("DOMAIN", row.event_group.as_str());
    assert_eq!(SHOP, row.shop_id);
    assert_eq!("external-1", row.shops_product_id);
    assert_eq!(1, row.event_type_schema_version);
    assert!(matches!(row.created_by, Actor::System));
    match row.payload {
        ProductEventPayload::ProductDomainEvent(ProductDomainEventPayload::Created(payload)) => {
            assert_eq!("product-one", payload.product_slug_id);
        },
        other => panic!("unexpected payload {other:?}"),
    }
}

#[test]
fn should_label_actors() {
    assert_eq!(None, actor_label(&Principal::Anonymous));
    assert_eq!(Some("SYSTEM".to_string()), actor_label(&Principal::System));
    assert_eq!(Some("importer".to_string()), actor_label(&Principal::Service("importer".to_string())));
    assert_eq!(Some(uuid::Uuid::from_u128(PRODUCT).to_string()), actor_label(&Principal::User(PRODUCT)));
}

fn unchanged_command() -> UpdateProductCommand {
    UpdateProductCommand {
        product_id: PRODUCT,
        address: PatchField::Unchanged,
        pricing: PatchField::Unchanged,
        state: PatchField::Unchanged,
        url: PatchField::Unchanged,
        images: PatchField::Unchanged,
        embedding: PatchField::Unchanged,
        auction: PatchField::Unchanged,
    }
}

#[test]
fn should_apply_an_update_command() {
    let mut command = unchanged_command();
    command.state = PatchField::SetTo(ProductState::Sold);
    command.images = PatchField::Clear;
    command.pricing = PatchField::Clear;
    command.embedding = PatchField::SetTo(vec![1, 2]);
    let mut product = snapshot();
    assert_eq!(Ok(()), apply_command(&mut product, command));
    assert_eq!(ProductState::Sold, product.state);
    assert_eq!(0, product.images.len());
    assert_eq!(None, product.pricing.native_price);
    assert_eq!(Some(vec![1, 2]), product.embedding);
    assert_eq!("https://shop.example.com/item/1", product.url);
}

#[test]
fn should_refuse_to_clear_the_state_or_the_link() {
    let mut command = unchanged_command();
    command.state = PatchField::Clear;
    let mut product = snapshot();
    assert_eq!(Err(UpdateProductError::InvalidProduct), apply_command(&mut product, command));
    let mut command = unchanged_command();
    command.url = PatchField::Clear;
    let mut product = snapshot();
    assert_eq!(Err(UpdateProductError::InvalidProduct), apply_command(&mut product, command));
}

#[test]
fn should_keep_the_parts_changed_before_a_refusal() {
    let mut command = unchanged_command();
    command.pricing = PatchField::Clear;
    command.state = PatchField::SetTo(ProductState::Sold);
    command.url = PatchField::Clear;
    command.embedding = PatchField::SetTo(vec![7]);
    let mut product = snapshot();
    let embedding_before = product.embedding.clone();
    assert_eq!(Err(UpdateProductError::InvalidProduct), apply_command(&mut product, command));
    assert_eq!(None, product.pricing.native_price);
    assert_eq!(ProductState::Sold, product.state);
    assert_eq!("https://shop.example.com/item/1", product.url);
    assert_eq!(embedding_before, product.embedding);
}

#[test]
fn should_report_store_failures_of_an_update() {
    assert_eq!(UpdateProductError::ConcurrencyConflict, map_repository_error(ProductRepositoryError::ConcurrencyConflict));
    assert_eq!(UpdateProductError::Internal, map_repository_error(ProductRepositoryError::SlugConflict));
    assert_eq!(UpdateProductError::InvalidProduct, map_repository_error(ProductRepositoryError::InvalidPersistedState));
    assert_eq!(UpdateProductError::InvalidProduct, map_event_store_error(ProductEventStoreError::InvalidEvent));
    assert_eq!(UpdateProductError::Internal, map_event_store_error(ProductEventStoreError::EventConflict));
}

#[test]
fn should_pick_the_event_that_becomes_current() {
    assert_eq!(3, current_event_after(&vec![1, 2, 3], 9));
    assert_eq!(9, current_event_after(&Vec::new(), 9));
    assert_eq!(Some(2), created_event_id(&vec![1, 2]));
    assert_eq!(None, created_event_id(&Vec::new()));
}

#[test]
fn should_report_failures_in_the_test_kit() {
    assert_eq!(ProductPostgresTestError::ProductSlugConflict, ProductPostgresTestError::from(ProductRepositoryError::SlugConflict));
    assert_eq!(ProductPostgresTestError::InvalidPersistedState, ProductPostgresTestError::from(ProductEventStoreError::InvalidEvent));
    assert_eq!("product event already exists", ProductPostgresTestError::EventConflict.message());
}
