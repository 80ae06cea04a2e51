use product::domain::{
    ImageSet,
    Actor, CurrencyAmounts, LocalizedText, OriginYear, Price, Product, ProductCreatedPayload,
    ProductDomainEvent, ProductDomainEventPayload, ProductImage, StructuredAddress, Timestamp,
    TitleTranslations,
};
use product::dynamodb::missing_field::RecordField;
use product::dynamodb::product_event_record::domain::ProductDomainEventRecord;
use product::dynamodb::product_event_record::enrichment::{self, ProductEnrichmentEventRecord};
use product::dynamodb::product_event_type_record::enrichment::ProductEnrichmentEventTypeRecord;
use product::opensearch::authenticity_document::AuthenticityDocument;
use product::opensearch::product_document::{ProductDocument, ProductDocumentSerdeField};
use product::opensearch::product_search_document::ProductSearchDocument;
use product::opensearch::product_state_document::ProductStateDocument;
use product::opensearch::product_update_document::ProductUpdateDocument;
use product::search::{AmountRange, Distance, GeoDistanceQuery, ProductSearch, TimeRange};
use product::values::{
    Authenticity, Condition, Currency, DistanceUnit, Language, ProductLifecycle, ProductState,
    ProhibitedContent, Provenance, Restoration, ShopType,
};

const SHOP: u128 = 0xa1caead3_a50d_44a4_b9fb_a15d2397601e;
const PRODUCT: u128 = 0xf5e5aa19_7d97_4972_af6f_426f1ab8bb8f;
const EVENT: u128 = 0x0123_4567_89ab_cdef_0123_4567_89ab_cdef;

fn at(seconds: i128) -> Timestamp {
    Timestamp { unix_nanos: seconds * 1_000_000_000, offset_seconds: 0 }
}

fn no_titles() -> TitleTranslations {
    TitleTranslations { de: None, en: None, fr: None, es: None, it: None }
}

fn address(country: Option<&str>) -> StructuredAddress {
    StructuredAddress {
        addressline: Some("Main Street 1".to_string()),
        addressline_extra: None,
        locality: Some("Berlin".to_string()),
        region: None,
        postal_code: Some("10115".to_string()),
        country: country.map(str::to_string),
    }
}

#[test]
fn should_merge_product_update_document() {
    let mut current = ProductUpdateDocument::default();
    current.titles.en = Some("Chair".to_string());
    let mut other = ProductUpdateDocument::default();
    other.titles.fr = Some("Chaise".to_string());
    other.embedding = Some(vec![0.1f32.to_bits(), 0.2f32.to_bits()]);

    current.merge(other);

    assert_eq!(Some("Chair".to_string()), current.titles.en);
    assert_eq!(Some("Chaise".to_string()), current.titles.fr);
    assert_eq!(Some(vec![0.1f32.to_bits(), 0.2f32.to_bits()]), current.embedding);
}

#[test]
fn should_let_the_later_update_win_and_keep_the_rest() {
    let mut current = ProductUpdateDocument::touching(Some(1), at(1));
    current.price.eur = Some(100);
    current.state = Some(ProductStateDocument::Listed);
    let mut later = ProductUpdateDocument::touching(None, at(2));
    later.price.eur = Some(90);
    later.price.usd = Some(95);

    current.merge(later);

    assert_eq!(Some(1), current.event_id);
    assert_eq!(Some(90), current.price.eur);
    assert_eq!(Some(95), current.price.usd);
    assert_eq!(Some(ProductStateDocument::Listed), current.state);
    assert_eq!(at(2), current.updated);
}

#[test]
fn should_merge_in_any_grouping() {
    let make = |id: u128, eur: Option<u64>, title: Option<&str>, t: i128| {
        let mut document = ProductUpdateDocument::touching(Some(id), at(t));
        document.price.eur = eur;
        document.titles.de = title.map(str::to_string);
        document
    };
    let mut left = make(1, Some(10), None, 1);
    left.merge(make(2, None, Some("Stuhl"), 2));
    left.merge(make(3, Some(30), None, 3));
    let mut right_tail = make(2, None, Some("Stuhl"), 2);
    right_tail.merge(make(3, Some(30), None, 3));
    let mut right = make(1, Some(10), None, 1);
    right.merge(right_tail);
    assert_eq!(left.event_id, right.event_id);
    assert_eq!(left.price, right.price);
    assert_eq!(left.titles.de, right.titles.de);
    assert_eq!(left.updated, right.updated);
}

fn translation_record(language: Language) -> ProductEnrichmentEventRecord {
    ProductEnrichmentEventRecord {
        pk: enrichment::mk_pk(SHOP, "external-1"),
        sk: enrichment::mk_sk(EVENT),
        product_id: PRODUCT,
        event_id: EVENT,
        event_type: ProductEnrichmentEventTypeRecord::EnrichmentTranslatedTitle,
        event_type_schema_version: 0,
        shop_id: SHOP,
        seller_id: SHOP,
        shops_product_id: "external-1".to_string(),
        source_language: Some(Language::En),
        target_language: Some(language),
        target: Some("translated title".to_string()),
        embedding: None,
        native_title: None,
        native_title_language: None,
        timestamp: at(1_700_000_000),
    }
}

#[test]
fn should_set_document_title_field_when_translated_title_enrichment_event_for_supported_language() {
    for (language, expected) in [
        (Language::De, [true, false, false, false, false]),
        (Language::En, [false, true, false, false, false]),
        (Language::Fr, [false, false, true, false, false]),
        (Language::Es, [false, false, false, true, false]),
        (Language::It, [false, false, false, false, true]),
    ] {
        let update = ProductUpdateDocument::from(translation_record(language));
        let t = &update.titles;
        let set = [t.de.is_some(), t.en.is_some(), t.fr.is_some(), t.es.is_some(), t.it.is_some()];
        assert_eq!(expected, set);
        for title in [&t.de, &t.en, &t.fr, &t.es, &t.it].into_iter().flatten() {
            assert_eq!("translated title", title);
        }
    }
}

fn created_record(country: Option<&str>) -> ProductDomainEventRecord {
    let payload = ProductCreatedPayload {
        product_slug_id: "vase-1".to_string(),
        shop_slug_id: "shop-one".to_string(),
        seller_slug_id: "seller-one".to_string(),
        shop_id: SHOP,
        seller_id: SHOP,
        shops_product_id: "external-1".to_string(),
        shop_name: "Shop One".to_string(),
        seller_name: "Shop One".to_string(),
        shop_type: ShopType::CommercialDealer,
        structured_address: address(country),
        geo_address: None,
        native_title: LocalizedText { language: Language::En, text: "A vase".to_string() },
        native_description: None,
        native_price: None,
        other_price: CurrencyAmounts { eur: Some(700), ..CurrencyAmounts::empty() },
        native_price_estimate_min: None,
        other_price_estimate_min: CurrencyAmounts::empty(),
        native_price_estimate_max: None,
        other_price_estimate_max: CurrencyAmounts::empty(),
        state: ProductState::Reserved,
        url: "https://shop.example.com/products/external-1".to_string(),
        view_url: "https://aura.example.com/p/1".to_string(),
        images: ImageSet::from_images(vec![ProductImage { url: "https://img.example.com/1.jpg".to_string(), prohibited_content: ProhibitedContent::NaziGermany }]),
        auction_start: None,
        auction_end: None,
    };
    ProductDomainEventRecord::from_event(ProductDomainEvent {
        aggregate_id: PRODUCT,
        event_id: EVENT,
        timestamp: at(1_690_000_000),
        payload: ProductDomainEventPayload::Created(payload),
    })
}

#[test]
fn should_index_a_created_event_record() {
    let document = ProductDocument::try_from_domain_record(created_record(Some("DEU")), Some("EUROPE".to_string())).unwrap();
    assert_eq!(PRODUCT, document._id());
    assert_eq!(ProductLifecycle::Active, document.lifecycle);
    assert_eq!(ProductStateDocument::Reserved, document.state);
    assert_eq!(Some("EUROPE".to_string()), document.structured_address_continent);
    assert_eq!(Some(700), document.price.eur);
    assert_eq!(AuthenticityDocument::Unknown, document.authenticity);
    assert_eq!(1, document.images.len());
    assert_eq!(at(1_690_000_000), document.created);
    let without_country = ProductDocument::try_from_domain_record(created_record(None), Some("EUROPE".to_string())).unwrap();
    assert_eq!(None, without_country.structured_address_continent);
}

#[test]
fn should_report_the_missing_state_before_other_attributes() {
    let mut record = created_record(None);
    record.new_state = None;
    record.shop_name = None;
    let error = ProductDocument::try_from_domain_record(record, None).unwrap_err();
    assert_eq!(RecordField::NewState, error.field);
}

fn product() -> Product {
    Product {
        product_id: PRODUCT,
        product_slug_id: "vase-1".to_string(),
        shop_slug_id: "shop-one".to_string(),
        seller_slug_id: "seller-one".to_string(),
        event_id: EVENT,
        shop_id: SHOP,
        seller_id: SHOP,
        shops_product_id: "external-1".to_string(),
        shop_name: "Shop One".to_string(),
        seller_name: "Shop One".to_string(),
        shop_type: ShopType::AuctionPlatform,
        structured_address: address(Some("FRA")),
        geo_address: None,
        category_id: Some("ceramics".to_string()),
        category_name: TitleTranslations { en: Some("Ceramics".to_string()), ..no_titles() },
        period_id: None,
        period_name: no_titles(),
        native_title: LocalizedText { language: Language::Fr, text: "Un vase".to_string() },
        other_title: TitleTranslations { en: Some("A vase".to_string()), ..no_titles() },
        native_description: None,
        native_price: Some(Price { amount: 1000, currency: Currency::Chf }),
        other_price: CurrencyAmounts { eur: Some(1050), chf: Some(999), ..CurrencyAmounts::empty() },
        native_price_estimate_min: None,
        other_price_estimate_min: CurrencyAmounts::empty(),
        native_price_estimate_max: None,
        other_price_estimate_max: CurrencyAmounts::empty(),
        state: ProductState::Sold,
        lifecycle: ProductLifecycle::Active,
        url: "https://shop.example.com/item/9".to_string(),
        view_url: "https://aura.example.com/p/9".to_string(),
        images: ImageSet::from_images(vec![ProductImage { url: "https://img.example.com/9.jpg".to_string(), prohibited_content: ProhibitedContent::NoneDetected }]),
        embedding: None,
        origin_year: Some(OriginYear::EstimatedRange { min: Some(1800), max: None }),
        authenticity: Authenticity::Original,
        condition: Condition::Good,
        provenance: Provenance::Partial,
        restoration: Restoration::Minor,
        auction_start: None,
        auction_end: None,
        created_by: Actor::System,
        updated_by: Actor::System,
        created: at(10),
        updated: at(20),
    }
}

#[test]
fn should_index_a_product_with_its_native_price_in_its_currency() {
    let document = ProductDocument::from_product(product(), Some("EUROPE".to_string()));
    assert_eq!(Some(1000), document.price.chf);
    assert_eq!(Some(1050), document.price.eur);
    assert_eq!((Some(1800), None, None), (document.origin_year_min, document.origin_year, document.origin_year_max));
    assert_eq!(AuthenticityDocument::Original, document.authenticity);
    assert_eq!(Some("Ceramics".to_string()), document.category_name.en);
}

#[test]
fn should_read_an_indexed_product_back() {
    let document = ProductDocument::from_product(product(), None);
    let back = Product::from_document(document);
    assert_eq!(PRODUCT, back.product_id);
    assert_eq!("https://shop.example.com/item/9?utm_source=aura_historia&utm_medium=referral", back.url);
    assert_eq!(None, back.native_price);
    assert_eq!(Some(1000), back.other_price.chf);
    assert_eq!(ProductState::Sold, back.state);
    assert_eq!(Some(OriginYear::EstimatedRange { min: Some(1800), max: None }), back.origin_year);
    assert_eq!(Condition::Good, back.condition);
    assert_eq!(1, back.images.len());
    assert_eq!("https://img.example.com/9.jpg", back.images.as_vec()[0].url);
}

#[test]
fn should_name_the_description_fields() {
    let names: Vec<&str> = ProductDocumentSerdeField::description_fields().iter().map(|f| f.as_str()).collect();
    assert_eq!(vec!["descriptionDe", "descriptionEn", "descriptionFr", "descriptionEs", "descriptionIt"], names);
}

#[test]
fn should_roundtrip_product_search_document() {
    let mut search = ProductSearch::new(Language::De, Currency::Eur).with_product_query("Vase".to_string());
    search.shop_name_query = vec!["Shop One".to_string()];
    search.exclude_seller_slug_id_query = vec!["seller-x".to_string()];
    search.country_query = vec!["DEU".to_string()];
    search.state_query = vec![ProductState::Listed, ProductState::Sold];
    search.shop_type_query = vec![ShopType::Marketplace];
    search.price_query = Some(AmountRange { min: Some(1), max: None });
    search.created_query = Some(TimeRange { min: None, max: Some(at(3)) });
    search.geo_address_distance_query = Some(GeoDistanceQuery {
        lat_bits: 52.5f64.to_bits(),
        lon_bits: 13.4f64.to_bits(),
        distance: Distance { amount_bits: 10.0f64.to_bits(), unit: DistanceUnit::Kilometers },
    });

    let document = ProductSearchDocument::from_search(search);
    let back = ProductSearch::from_document(document);

    assert_eq!(Language::De, back.language);
    assert_eq!(vec!["Vase".to_string()], back.product_query);
    assert_eq!(vec!["Shop One".to_string()], back.shop_name_query);
    assert_eq!(vec!["seller-x".to_string()], back.exclude_seller_slug_id_query);
    assert_eq!(vec!["DEU".to_string()], back.country_query);
    assert_eq!(vec![ProductState::Listed, ProductState::Sold], back.state_query);
    assert_eq!(vec![ShopType::Marketplace], back.shop_type_query);
    assert_eq!(Some(AmountRange { min: Some(1), max: None }), back.price_query);
    assert_eq!(Some(TimeRange { min: None, max: Some(at(3)) }), back.created_query);
    assert_eq!(
        Some(GeoDistanceQuery {
            lat_bits: 52.5f64.to_bits(),
            lon_bits: 13.4f64.to_bits(),
            distance: Distance { amount_bits: 10.0f64.to_bits(), unit: DistanceUnit::Kilometers },
        }),
        back.geo_address_distance_query
    );
}
