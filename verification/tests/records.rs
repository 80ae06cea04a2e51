use product::domain::{ProductEvent, ProductEventPayload, ProductPolicyEventPayload, ProhibitedContentDecisionPayload};
use product::dynamodb::product_event_record::ProductEventRecord;
use product::domain::{
    ImageSet,
    Actor, CurrencyAmounts, LocalizedText, Price, Product, ProductCreatedPayload, ProductDomainEvent,
    ProductDomainEventPayload, ProductImage, ProductImagesChangePayload, ProductUrlChangePayload, StructuredAddress, Timestamp,
    TitleTranslations,
};
use product::dynamodb::missing_field::RecordField;
use product::dynamodb::partition::{classify_sort_key, gather_partition, PartitionItem, PartitionItemKind};
use product::dynamodb::product_event_record::domain::ProductDomainEventRecord;
use product::dynamodb::product_event_record::lifecycle::ProductLifecycleEventRecord;
use product::dynamodb::product_event_type_record::lifecycle::ProductLifecycleEventTypeRecord;
use product::dynamodb::product_event_record::enrichment::{self, ProductEnrichmentEventRecord};
use product::dynamodb::product_event_type_record::enrichment::ProductEnrichmentEventTypeRecord;
use product::dynamodb::product_image_record::ProductImageRecord;
use product::dynamodb::product_meta_record::ProductMetaRecord;
use product::dynamodb::product_record::{self, ProductRecord};
use product::dynamodb::product_state_record::ProductStateRecord;
use product::dynamodb::product_update_record::ProductRecordUpdate;
use product::dynamodb::prohibited_content_record::ProhibitedContentRecord;
use product::dynamodb::seeding::{product_record_to_created_event_record, product_record_to_meta_record};
use product::values::{Currency, Language, ProductLifecycle, ProductState, ProhibitedContent, ShopType};

const SHOP: u128 = 0xa1caead3_a50d_44a4_b9fb_a15d2397601e;
const SELLER: u128 = 0x6e3f0c71_8af4_4897_ba75_4a64792c07a6;
const PRODUCT: u128 = 0xf5e5aa19_7d97_4972_af6f_426f1ab8bb8f;
const EVENT: u128 = 0x0123_4567_89ab_cdef_0123_4567_89ab_cdef;

fn at(seconds: i128) -> Timestamp {
    Timestamp { unix_nanos: seconds * 1_000_000_000, offset_seconds: 0 }
}

fn no_titles() -> TitleTranslations {
    TitleTranslations { de: None, en: None, fr: None, es: None, it: None }
}

fn no_address() -> StructuredAddress {
    StructuredAddress {
        addressline: None,
        addressline_extra: None,
        locality: None,
        region: None,
        postal_code: None,
        country: None,
    }
}

fn created_payload(url: &str) -> ProductCreatedPayload {
    ProductCreatedPayload {
        product_slug_id: "vase-1".to_string(),
        shop_slug_id: "shop-one".to_string(),
        seller_slug_id: "seller-one".to_string(),
        shop_id: SHOP,
        seller_id: SELLER,
        shops_product_id: "external-1".to_string(),
        shop_name: "Shop One".to_string(),
        seller_name: "Seller One".to_string(),
        shop_type: ShopType::AuctionHouse,
        structured_address: no_address(),
        geo_address: None,
        native_title: LocalizedText { language: Language::En, text: "A vase".to_string() },
        native_description: None,
        native_price: Some(Price { amount: 1200, currency: Currency::Eur }),
        other_price: CurrencyAmounts::empty(),
        native_price_estimate_min: None,
        other_price_estimate_min: CurrencyAmounts::empty(),
        native_price_estimate_max: None,
        other_price_estimate_max: CurrencyAmounts::empty(),
        state: ProductState::Listed,
        url: url.to_string(),
        view_url: "https://aura.example.com/shops/shop-one/products/vase-1".to_string(),
        images: ImageSet::from_images(vec![
            ProductImage { url: "https://img.example.com/1.jpg".to_string(), prohibited_content: ProhibitedContent::NoneDetected },
            ProductImage { url: "https://img.example.com/2.jpg".to_string(), prohibited_content: ProhibitedContent::Unknown },
        ]),
        auction_start: None,
        auction_end: Some(at(1_700_000_000)),
    }
}

fn event(payload: ProductDomainEventPayload) -> ProductDomainEvent {
    ProductDomainEvent { aggregate_id: PRODUCT, event_id: EVENT, timestamp: at(1_690_000_000), payload }
}

fn product_record(url: &str, view_url: &str) -> ProductRecord {
    ProductRecord {
        pk: product_record::mk_pk(SHOP, "external-1"),
        sk: product_record::mk_sk().to_string(),
        gsi2_pk: product_record::mk_gsi2_pk("shop-one", "vase-1"),
        gsi2_sk: product_record::mk_gsi2_sk().to_string(),
        product_id: PRODUCT,
        product_slug_id: "vase-1".to_string(),
        shop_slug_id: "shop-one".to_string(),
        seller_slug_id: "seller-one".to_string(),
        event_id: EVENT,
        shop_id: SHOP,
        seller_id: SELLER,
        shops_product_id: "external-1".to_string(),
        shop_name: "Shop One".to_string(),
        seller_name: "Seller One".to_string(),
        shop_type: ShopType::Marketplace,
        structured_address: no_address(),
        geo_address_lat: Some(1),
        geo_address_lon: Some(2),
        title_native: LocalizedText { language: Language::De, text: "Vase".to_string() },
        titles: TitleTranslations { de: Some("Vase".to_string()), ..no_titles() },
        description_native: None,
        price_native: Some(Price { amount: 500, currency: Currency::Usd }),
        price: CurrencyAmounts { usd: Some(500), eur: Some(460), ..CurrencyAmounts::empty() },
        price_estimate_min_native: None,
        price_estimate_min: CurrencyAmounts::empty(),
        price_estimate_max_native: None,
        price_estimate_max: CurrencyAmounts::empty(),
        state: ProductStateRecord::Available,
        lifecycle: ProductLifecycle::Active,
        url: url.to_string(),
        view_url: view_url.to_string(),
        images: vec![
            ProductImageRecord { url: "https://img.example.com/a.jpg".to_string(), prohibited_content: ProhibitedContentRecord::NoneDetected },
            ProductImageRecord { url: "https://img.example.com/a.jpg".to_string(), prohibited_content: ProhibitedContentRecord::NoneDetected },
        ],
        embedding: Some(vec![1, 2, 3]),
        auction_start: None,
        auction_end: None,
        created_by: Actor::System,
        updated_by: Actor::Service("importer".to_string()),
        created: at(1_600_000_000),
        updated: at(1_650_000_000),
    }
}

#[test]
fn should_append_utm_params_to_view_url_when_mapping_created_event_record_to_domain_event() {
    let event = event(ProductDomainEventPayload::Created(created_payload("https://example-shop.com/product/1")));
    let mut record = ProductDomainEventRecord::from_event(event);
    record.view_url = None;
    let result = ProductDomainEvent::try_from_record(record).unwrap();
    match result.payload {
        ProductDomainEventPayload::Created(payload) => {
            assert_eq!("https://example-shop.com/product/1", payload.url);
            assert_eq!(
                "https://example-shop.com/product/1?utm_source=aura_historia&utm_medium=referral",
                payload.view_url
            );
        },
        other => panic!("Expected ProductDomainEventPayload::Created, got {other:?}"),
    }
}

#[test]
fn should_append_utm_params_to_view_url_when_mapping_url_changed_event_record_to_domain_event() {
    let event = event(ProductDomainEventPayload::UrlChanged(ProductUrlChangePayload {
        shop_id: SHOP,
        seller_id: SELLER,
        shops_product_id: "external-2".to_string(),
        url: "https://example-shop.com/product/2".to_string(),
        view_url: "https://aura.example.com/p/2".to_string(),
    }));
    let mut record = ProductDomainEventRecord::from_event(event);
    record.view_url = None;
    let result = ProductDomainEvent::try_from_record(record).unwrap();
    match result.payload {
        ProductDomainEventPayload::UrlChanged(payload) => {
            assert_eq!("https://example-shop.com/product/2", payload.url);
            assert_eq!(
                "https://example-shop.com/product/2?utm_source=aura_historia&utm_medium=referral",
                payload.view_url
            );
        },
        other => panic!("Expected ProductDomainEventPayload::UrlChanged, got {other:?}"),
    }
}

#[test]
fn should_read_back_a_recorded_created_event() {
    let record = ProductDomainEventRecord::from_event(event(ProductDomainEventPayload::Created(
        created_payload("https://example-shop.com/product/1"),
    )));
    assert_eq!(
        format!("product#shop_id#{}#shops_product_id#external-1", uuid::Uuid::from_u128(SHOP)),
        record.pk
    );
    assert_eq!(format!("product#event#domain#{}", uuid::Uuid::from_u128(EVENT)), record.sk);
    assert_eq!(Some("A vase".to_string()), record.titles.en);
    let back = ProductDomainEvent::try_from_record(record).unwrap();
    assert_eq!(EVENT, back.event_id);
    assert_eq!(PRODUCT, back.aggregate_id);
    match back.payload {
        ProductDomainEventPayload::Created(payload) => {
            assert_eq!("vase-1", payload.product_slug_id);
            assert_eq!("https://aura.example.com/shops/shop-one/products/vase-1", payload.view_url);
            assert_eq!(2, payload.images.len());
            assert_eq!("https://img.example.com/2.jpg", payload.images.as_vec()[1].url);
            assert_eq!(Some(Price { amount: 1200, currency: Currency::Eur }), payload.native_price);
        },
        other => panic!("Expected a creation, got {other:?}"),
    }
}

#[test]
fn should_report_the_first_missing_attribute_of_a_created_event_record() {
    let mut record = ProductDomainEventRecord::from_event(event(ProductDomainEventPayload::Created(
        created_payload("https://example-shop.com/product/1"),
    )));
    record.shop_name = None;
    record.url = None;
    let error = ProductDomainEvent::try_from_record(record).unwrap_err();
    assert_eq!(RecordField::ShopName, error.field);
    assert_eq!("shop_name", error.field.as_str());
}

#[test]
fn should_keep_raw_url_when_mapping_product_record_to_product() {
    let record = product_record("https://example-shop.com/item/42", "https://aura.example.com/p/42");
    let product = Product::from_record(record);
    assert_eq!("https://example-shop.com/item/42", product.url);
}

#[test]
fn should_use_stored_view_url_when_present() {
    let affiliate_url = "https://prf.hn/click/camref:1110lF73C/pubref:aurahistoria/destination:https%3A%2F%2Fexample.com%2Fitem%2F42";
    let record = product_record("https://example.com/item/42", affiliate_url);
    let product = Product::from_record(record);
    assert_eq!(affiliate_url, product.view_url);
    assert_eq!("https://example.com/item/42", product.url);
}

#[test]
fn should_read_a_product_record_with_its_images_deduplicated() {
    let product = Product::from_record(product_record("https://e.com/1", "https://e.com/v1"));
    assert_eq!(1, product.images.len());
    assert_eq!(ProductState::Available, product.state);
    assert_eq!(Some(product::domain::GeoAddress { lat_bits: 1, lon_bits: 2 }), product.geo_address);
    assert_eq!(None, product.origin_year);
}

fn translation_record(language: Language) -> ProductEnrichmentEventRecord {
    ProductEnrichmentEventRecord {
        pk: enrichment::mk_pk(SHOP, "external-1"),
        sk: enrichment::mk_sk(EVENT),
        product_id: PRODUCT,
        event_id: EVENT,
        event_type: ProductEnrichmentEventTypeRecord::EnrichmentTranslatedTitle,
        event_type_schema_version: 0,
        shop_id: SHOP,
        seller_id: SELLER,
        shops_product_id: "external-1".to_string(),
        source_language: Some(Language::En),
        target_language: Some(language),
        target: Some("translated title".to_string()),
        embedding: None,
        native_title: None,
        native_title_language: None,
        timestamp: at(1_700_000_000),
    }
}

fn title_fields(titles: &TitleTranslations) -> [Option<&str>; 5] {
    [
        titles.de.as_deref(),
        titles.en.as_deref(),
        titles.fr.as_deref(),
        titles.es.as_deref(),
        titles.it.as_deref(),
    ]
}

fn assert_title_set_for(language: Language, index: usize) {
    let update = ProductRecordUpdate::from(translation_record(language));
    let fields = title_fields(&update.titles);
    for (i, field) in fields.iter().enumerate() {
        if i == index {
            assert_eq!(Some("translated title"), *field);
        } else {
            assert_eq!(None, *field);
        }
    }
    assert_eq!(Some(EVENT), update.event_id);
    assert_eq!(at(1_700_000_000), update.updated);
}

#[test]
fn should_set_title_field_when_translated_title_enrichment_event_for_supported_language_de() {
    assert_title_set_for(Language::De, 0);
}

#[test]
fn should_set_title_field_when_translated_title_enrichment_event_for_supported_language_en() {
    assert_title_set_for(Language::En, 1);
}

#[test]
fn should_set_title_field_when_translated_title_enrichment_event_for_supported_language_fr() {
    assert_title_set_for(Language::Fr, 2);
}

#[test]
fn should_set_title_field_when_translated_title_enrichment_event_for_supported_language_es() {
    assert_title_set_for(Language::Es, 3);
}

#[test]
fn should_set_title_field_when_translated_title_enrichment_event_for_supported_language_it() {
    assert_title_set_for(Language::It, 4);
}

#[test]
fn should_set_no_title_field_for_a_language_without_one() {
    let update = ProductRecordUpdate::from(translation_record(Language::Ja));
    assert_eq!([None; 5], title_fields(&update.titles));
}

#[test]
fn should_update_only_the_lifecycle_for_a_lifecycle_event() {
    let record = ProductLifecycleEventRecord {
        pk: product_record::mk_pk(SHOP, "external-1"),
        sk: "product#event#lifecycle#x".to_string(),
        product_id: PRODUCT,
        event_id: EVENT,
        event_type: ProductLifecycleEventTypeRecord::LifecycleDeleted,
        event_type_schema_version: 0,
        shop_id: SHOP,
        seller_id: SELLER,
        shops_product_id: "external-1".to_string(),
        new_lifecycle: ProductLifecycle::Deleted,
        old_lifecycle: ProductLifecycle::Active,
        timestamp: at(5),
    };
    let update = ProductRecordUpdate::from(record);
    assert_eq!(Some(ProductLifecycle::Deleted), update.lifecycle);
    assert_eq!(None, update.state);
    assert_eq!(None, update.url);
    assert_eq!(at(5), update.updated);
}

#[test]
fn should_stamp_a_default_update_with_a_fresh_event() {
    let first = ProductRecordUpdate::default();
    let second = ProductRecordUpdate::default();
    assert!(first.event_id.is_some());
    assert_ne!(first.event_id, second.event_id);
    assert_eq!(0, first.updated.offset_seconds);
    assert!(first.images.is_none());
}

#[test]
fn should_start_a_materialized_record_from_a_created_event_record() {
    let record = ProductDomainEventRecord::from_event(event(ProductDomainEventPayload::Created(
        created_payload("https://example-shop.com/product/1"),
    )));
    let materialized = ProductRecord::try_from_event_record(record).unwrap();
    assert_eq!("product#materialized", materialized.sk);
    assert_eq!("shop_slug_id#shop-one#product_slug_id#vase-1", materialized.gsi2_pk);
    assert_eq!("product#lookup#shop_id#shops_product_id", materialized.gsi2_sk);
    assert_eq!(ProductLifecycle::Active, materialized.lifecycle);
    assert_eq!(2, materialized.images.len());
    assert_eq!(at(1_690_000_000), materialized.created);
    assert_eq!(at(1_690_000_000), materialized.updated);
}

#[test]
fn should_seed_a_record_as_its_creation_event() {
    let record = product_record("https://e.com/1", "https://e.com/v1");
    let event_record = product_record_to_created_event_record(&record);
    assert_eq!(record.pk, event_record.pk);
    assert_eq!(format!("product#event#domain#{}", uuid::Uuid::from_u128(EVENT)), event_record.sk);
    assert_eq!(0, event_record.event_type_schema_version);
    let again = ProductRecord::try_from_event_record(event_record).unwrap();
    assert_eq!(record.product_slug_id, again.product_slug_id);
    assert_eq!(record.price, again.price);
    assert_eq!(record.url, again.url);
    assert_eq!(record.view_url, again.view_url);
    assert_eq!(record.images.len(), again.images.len());
    assert_eq!(record.created, again.updated);
    assert_eq!(None, again.embedding);
    let meta = product_record_to_meta_record(&record, 1);
    assert_eq!("product#meta", meta.sk);
    assert_eq!(record.pk, meta.pk);
    assert_eq!(1, meta.event_version);
}

#[test]
fn should_build_a_meta_record_from_a_product() {
    let product = Product::from_record(product_record("https://e.com/1", "https://e.com/v1"));
    let meta = ProductMetaRecord::from_product(&product, 7);
    assert_eq!(product_record::mk_pk(SHOP, "external-1"), meta.pk);
    assert_eq!("shop_slug_id#shop-one#product_slug_id#vase-1", meta.gsi2_pk);
    assert_eq!(7, meta.event_version);
    assert_eq!("external-1", meta.key().shops_product_id);
}

#[test]
fn should_classify_items_of_a_partition_by_sort_key() {
    assert_eq!(PartitionItemKind::Materialized, classify_sort_key(Some("product#materialized")));
    assert_eq!(PartitionItemKind::DomainEvent, classify_sort_key(Some("product#event#domain#123")));
    assert_eq!(PartitionItemKind::Unknown, classify_sort_key(Some("product#meta")));
    assert_eq!(PartitionItemKind::MissingSortKey, classify_sort_key(None));
}

#[test]
fn should_gather_the_materialized_record_with_its_events() {
    let first = ProductDomainEventRecord::from_event(event(ProductDomainEventPayload::Created(
        created_payload("https://example-shop.com/product/1"),
    )));
    let items = vec![
        PartitionItem::DomainEvent(first),
        PartitionItem::Skipped,
        PartitionItem::Materialized(product_record("https://e.com/1", "https://e.com/v1")),
    ];
    let (materialized, events) = gather_partition(items).unwrap();
    assert_eq!(PRODUCT, materialized.product_id);
    assert_eq!(1, events.len());
    assert!(gather_partition(vec![PartitionItem::Skipped]).is_none());
}

#[test]
fn should_report_a_missing_view_url_when_materializing_a_created_event_record() {
    let mut record = ProductDomainEventRecord::from_event(event(ProductDomainEventPayload::Created(
        created_payload("https://example-shop.com/product/1"),
    )));
    record.view_url = None;
    let error = ProductRecord::try_from_event_record(record).unwrap_err();
    assert_eq!(RecordField::ViewUrl, error.field);
    assert_eq!("view_url", error.field.as_str());
}

#[test]
fn should_keep_each_image_once_in_first_added_order() {
    let image = |url: &str, prohibited_content| ProductImage { url: url.to_string(), prohibited_content };
    let set = ImageSet::from_images(vec![
        image("https://img.example.com/b.jpg", ProhibitedContent::Unknown),
        image("https://img.example.com/a.jpg", ProhibitedContent::Unknown),
        image("https://img.example.com/b.jpg", ProhibitedContent::Unknown),
        image("https://img.example.com/b.jpg", ProhibitedContent::NaziGermany),
    ]);
    let urls: Vec<(&str, ProhibitedContent)> =
        set.as_vec().iter().map(|i| (i.url.as_str(), i.prohibited_content)).collect();
    assert_eq!(
        vec![
            ("https://img.example.com/b.jpg", ProhibitedContent::Unknown),
            ("https://img.example.com/a.jpg", ProhibitedContent::Unknown),
            ("https://img.example.com/b.jpg", ProhibitedContent::NaziGermany),
        ],
        urls
    );
    assert_eq!(0, ImageSet::new().len());
}

#[test]
fn should_read_back_a_recorded_images_change() {
    let images = ImageSet::from_images(vec![
        ProductImage { url: "https://img.example.com/3.jpg".to_string(), prohibited_content: ProhibitedContent::NoneDetected },
        ProductImage { url: "https://img.example.com/4.jpg".to_string(), prohibited_content: ProhibitedContent::Unknown },
    ]);
    let payload = ProductImagesChangePayload {
        shop_id: SHOP,
        seller_id: SHOP,
        shops_product_id: "external-1".to_string(),
        images,
    };
    let record = ProductDomainEventRecord::from_event(event(ProductDomainEventPayload::ImagesChanged(payload)));
    let back = ProductDomainEvent::try_from_record(record).unwrap();
    assert_eq!(EVENT, back.event_id);
    match back.payload {
        ProductDomainEventPayload::ImagesChanged(p) => {
            assert_eq!(SHOP, p.shop_id);
            assert_eq!("external-1", p.shops_product_id);
            let urls: Vec<&str> = p.images.as_vec().iter().map(|i| i.url.as_str()).collect();
            assert_eq!(vec!["https://img.example.com/3.jpg", "https://img.example.com/4.jpg"], urls);
        },
        other => panic!("Expected an images change, got {other:?}"),
    }
}

#[test]
fn should_include_event_id_in_sort_key_when_converting_to_product_event_record() {
    let events = vec![
        ProductEvent {
            aggregate_id: PRODUCT,
            event_id: EVENT,
            timestamp: at(1_690_000_000),
            payload: ProductEventPayload::ProductDomainEvent(ProductDomainEventPayload::Created(created_payload(
                "https://example-shop.com/product/1",
            ))),
        },
        ProductEvent {
            aggregate_id: PRODUCT,
            event_id: EVENT,
            timestamp: at(1_690_000_000),
            payload: ProductEventPayload::ProductPolicyEvent(ProductPolicyEventPayload::ProhibitedContentDecision(
                ProhibitedContentDecisionPayload {
                    shop_id: SHOP,
                    shops_product_id: "external-1".to_string(),
                    decision: ProhibitedContent::NaziGermany,
                    reason: "insignia".to_string(),
                },
            )),
        },
    ];
    for event in events {
        let record = ProductEventRecord::try_from_event(event).unwrap();
        let (pk, sk, event_id) = match &record {
            ProductEventRecord::Domain(r) => (&r.pk, &r.sk, r.event_id),
            ProductEventRecord::Enrichment(r) => (&r.pk, &r.sk, r.event_id),
            ProductEventRecord::Policy(r) => (&r.pk, &r.sk, r.event_id),
            ProductEventRecord::Lifecycle(r) => (&r.pk, &r.sk, r.event_id),
        };
        assert!(pk.starts_with("product#"));
        assert!(sk.starts_with("product#event#"));
        assert!(sk.ends_with(&uuid::Uuid::from_u128(event_id).to_string()));
    }
}

#[test]
fn should_key_a_policy_event_by_its_time_then_its_id() {
    let sk = product::dynamodb::product_event_record::policy::mk_sk(at(0), EVENT).unwrap();
    assert_eq!(format!("product#event#policy#1970-01-01T00:00:00Z#{}", uuid::Uuid::from_u128(EVENT)), sk);
}
