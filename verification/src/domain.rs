//! The product domain as the storage layers see it: identifiers, prices, texts,
//! images and the events a product goes through.

use crate::values::{
    Authenticity, Condition, Currency, Language, ProductLifecycle, ProductState, ProhibitedContent,
    Provenance, Restoration, ShopType,
};
use crate::dynamodb::product_image_record::{
    dedup_image_list, dedup_images, images_distinct, lemma_dedup_images_distinct,
};
use vstd::prelude::*;

verus! {

/// A 128-bit UUID, the form of every generated identifier.
pub type Uuid = u128;

/// Identifier of a shop or of a seller.
pub type ShopId = Uuid;

/// Identifier of a product.
pub type ProductId = Uuid;

/// Identifier of an event.
pub type EventId = Uuid;

/// A point in time: nanoseconds since the Unix epoch and the UTC offset, in seconds,
/// in which it was observed.
#[derive(Clone, Copy, Debug, PartialEq, Eq, Structural, Hash)]
pub struct Timestamp {
    pub unix_nanos: i128,
    pub offset_seconds: i32,
}

/// A text together with the language it is written in.
#[derive(Debug)]
pub struct LocalizedText {
    pub language: Language,
    pub text: String,
}

/// An amount of money in the smallest unit of its currency.
#[derive(Clone, Copy, Debug, PartialEq, Eq, Structural, Hash)]
pub struct Price {
    pub amount: u64,
    pub currency: Currency,
}

/// An optional amount for each currency: the converted prices of a product.
#[derive(Clone, Copy, Debug, PartialEq, Eq, Structural, Hash)]
pub struct CurrencyAmounts {
    pub eur: Option<u64>,
    pub gbp: Option<u64>,
    pub usd: Option<u64>,
    pub aud: Option<u64>,
    pub cad: Option<u64>,
    pub nzd: Option<u64>,
    pub cny: Option<u64>,
    pub brl: Option<u64>,
    pub pln: Option<u64>,
    pub try_: Option<u64>,
    pub jpy: Option<u64>,
    pub czk: Option<u64>,
    pub rub: Option<u64>,
    pub aed: Option<u64>,
    pub sar: Option<u64>,
    pub hkd: Option<u64>,
    pub sgd: Option<u64>,
    pub chf: Option<u64>,
}

/// Titles in the languages that have a dedicated title field.
#[derive(Debug)]
pub struct TitleTranslations {
    pub de: Option<String>,
    pub en: Option<String>,
    pub fr: Option<String>,
    pub es: Option<String>,
    pub it: Option<String>,
}

/// A postal address; the country is its ISO 3166-1 alpha-3 code.
#[derive(Debug)]
pub struct StructuredAddress {
    pub addressline: Option<String>,
    pub addressline_extra: Option<String>,
    pub locality: Option<String>,
    pub region: Option<String>,
    pub postal_code: Option<String>,
    pub country: Option<String>,
}

/// A geographic position. The coordinates are carried as the bit patterns of their
/// IEEE 754 double-precision values; no computation is made on them.
#[derive(Clone, Copy, Debug, PartialEq, Eq, Structural, Hash)]
pub struct GeoAddress {
    pub lat_bits: u64,
    pub lon_bits: u64,
}

/// An image of a product and the screening outcome for it.
#[derive(Debug)]
pub struct ProductImage {
    pub url: String,
    pub prohibited_content: ProhibitedContent,
}

/// The images of a product, each kept once, in the order they were first added: an
/// insertion-ordered set of images.
#[derive(Debug)]
pub struct ImageSet {
    images: Vec<ProductImage>,
}

impl View for ImageSet {
    type V = Seq<ProductImage>;

    closed spec fn view(&self) -> Seq<ProductImage> {
        self.images@
    }
}

impl ImageSet {
    /// No image of the set is there twice.
    #[verifier::type_invariant]
    pub open spec fn no_repeats(self) -> bool {
        images_distinct(self@)
    }

    /// The set without images.
    pub fn new() -> (set: Self)
        ensures
            set@ == Seq::<ProductImage>::empty(),
    {
        ImageSet { images: Vec::new() }
    }

    /// The images in order, an image that repeats an earlier one dropped.
    pub fn from_images(images: Vec<ProductImage>) -> (set: Self)
        ensures
            set@ == dedup_images(images@),
    {
        let kept = dedup_image_list(images);
        proof {
            lemma_dedup_images_distinct(images@);
        }
        ImageSet { images: kept }
    }

    /// The images in order.
    pub fn as_vec(&self) -> (images: &Vec<ProductImage>)
        ensures
            images@ == self@,
            images_distinct(self@),
    {
        proof {
            use_type_invariant(self);
        }
        &self.images
    }

    /// The images in order, the set given up.
    pub fn into_vec(self) -> (images: Vec<ProductImage>)
        ensures
            images@ == self@,
            images_distinct(images@),
    {
        proof {
            use_type_invariant(&self);
        }
        self.images
    }

    /// The number of images.
    pub fn len(&self) -> (n: usize)
        ensures
            n == self@.len(),
    {
        self.images.len()
    }
}

/// Who caused a change.
#[derive(Debug)]
pub enum Actor {
    System,
    User(Uuid),
    Service(String),
}

/// Payload of the event that introduces a product.
#[derive(Debug)]
pub struct ProductCreatedPayload {
    pub product_slug_id: String,
    pub shop_slug_id: String,
    pub seller_slug_id: String,
    pub shop_id: ShopId,
    pub seller_id: ShopId,
    pub shops_product_id: String,
    pub shop_name: String,
    pub seller_name: String,
    pub shop_type: ShopType,
    pub structured_address: StructuredAddress,
    pub geo_address: Option<GeoAddress>,
    pub native_title: LocalizedText,
    pub native_description: Option<LocalizedText>,
    pub native_price: Option<Price>,
    pub other_price: CurrencyAmounts,
    pub native_price_estimate_min: Option<Price>,
    pub other_price_estimate_min: CurrencyAmounts,
    pub native_price_estimate_max: Option<Price>,
    pub other_price_estimate_max: CurrencyAmounts,
    pub state: ProductState,
    pub url: String,
    pub view_url: String,
    pub images: ImageSet,
    pub auction_start: Option<Timestamp>,
    pub auction_end: Option<Timestamp>,
}

/// Payload of a change of the sales state.
#[derive(Debug)]
pub struct ProductStateChangePayload {
    pub shop_id: ShopId,
    pub seller_id: ShopId,
    pub shops_product_id: String,
    pub old_state: ProductState,
    pub new_state: ProductState,
}

/// Payload of a change of the price.
#[derive(Debug)]
pub struct ProductPriceChangePayload {
    pub shop_id: ShopId,
    pub seller_id: ShopId,
    pub shops_product_id: String,
    pub new_native_price: Option<Price>,
    pub new_other_price: CurrencyAmounts,
    pub old_native_price: Option<Price>,
    pub old_other_price: CurrencyAmounts,
}

/// Payload of a change of the estimated price range.
#[derive(Debug)]
pub struct ProductEstimatePriceChangePayload {
    pub shop_id: ShopId,
    pub seller_id: ShopId,
    pub shops_product_id: String,
    pub native_price_estimate_min: Option<Price>,
    pub other_price_estimate_min: CurrencyAmounts,
    pub native_price_estimate_max: Option<Price>,
    pub other_price_estimate_max: CurrencyAmounts,
}

/// Payload of a change of the product's address at its shop.
#[derive(Debug)]
pub struct ProductUrlChangePayload {
    pub shop_id: ShopId,
    pub seller_id: ShopId,
    pub shops_product_id: String,
    pub url: String,
    pub view_url: String,
}

/// Payload of a change of the images.
#[derive(Debug)]
pub struct ProductImagesChangePayload {
    pub shop_id: ShopId,
    pub seller_id: ShopId,
    pub shops_product_id: String,
    pub images: ImageSet,
}

/// Payload of a change of the auction times.
#[derive(Debug)]
pub struct ProductAuctionTimeChangePayload {
    pub shop_id: ShopId,
    pub seller_id: ShopId,
    pub shops_product_id: String,
    pub auction_start: Option<Timestamp>,
    pub auction_end: Option<Timestamp>,
}

/// What happened to a product in its shop.
#[derive(Debug)]
pub enum ProductDomainEventPayload {
    Created(ProductCreatedPayload),
    StateChanged(ProductStateChangePayload),
    PriceChanged(ProductPriceChangePayload),
    EstimatePriceChanged(ProductEstimatePriceChangePayload),
    UrlChanged(ProductUrlChangePayload),
    ImagesChanged(ProductImagesChangePayload),
    AuctionTimeChanged(ProductAuctionTimeChangePayload),
}

/// A domain event of a product.
#[derive(Debug)]
pub struct ProductDomainEvent {
    pub aggregate_id: ProductId,
    pub event_id: EventId,
    pub timestamp: Timestamp,
    pub payload: ProductDomainEventPayload,
}

/// Payload of a machine translation of the title.
#[derive(Debug)]
pub struct TranslationPayload {
    pub shop_id: ShopId,
    pub seller_id: ShopId,
    pub shops_product_id: String,
    pub source_language: Language,
    pub target_language: Language,
    pub target: String,
}

/// Payload of the computation of the product's embedding vector. The vector entries
/// are carried as the bit patterns of their single-precision values.
#[derive(Debug)]
pub struct EmbeddedPayload {
    pub shop_id: ShopId,
    pub seller_id: ShopId,
    pub shops_product_id: String,
    pub embedding: Vec<u32>,
    pub native_title: Option<String>,
    pub native_title_language: Option<Language>,
}

/// What an enrichment step added to a product.
#[derive(Debug)]
pub enum ProductEnrichmentEventPayload {
    TranslatedTitle(TranslationPayload),
    Embedded(EmbeddedPayload),
}

/// An enrichment event of a product.
#[derive(Debug)]
pub struct ProductEnrichmentEvent {
    pub aggregate_id: ProductId,
    pub event_id: EventId,
    pub timestamp: Timestamp,
    pub payload: ProductEnrichmentEventPayload,
}

/// Payload of the removal of a product from the catalogue.
#[derive(Debug)]
pub struct DeletedPayload {
    pub shop_id: ShopId,
    pub seller_id: ShopId,
    pub shops_product_id: String,
    pub old_lifecycle: ProductLifecycle,
    pub new_lifecycle: ProductLifecycle,
}

/// What happened to a product's place in the catalogue.
#[derive(Debug)]
pub enum ProductLifecycleEventPayload {
    Deleted(DeletedPayload),
}

/// A lifecycle event of a product.
#[derive(Debug)]
pub struct ProductLifecycleEvent {
    pub aggregate_id: ProductId,
    pub event_id: EventId,
    pub timestamp: Timestamp,
    pub payload: ProductLifecycleEventPayload,
}

/// Payload of a prohibited-content decision.
#[derive(Debug)]
pub struct ProhibitedContentDecisionPayload {
    pub shop_id: ShopId,
    pub shops_product_id: String,
    pub decision: ProhibitedContent,
    pub reason: String,
}

/// What a content policy decided about a product.
#[derive(Debug)]
pub enum ProductPolicyEventPayload {
    ProhibitedContentDecision(ProhibitedContentDecisionPayload),
}

/// A policy event of a product.
#[derive(Debug)]
pub struct ProductPolicyEvent {
    pub aggregate_id: ProductId,
    pub event_id: EventId,
    pub timestamp: Timestamp,
    pub payload: ProductPolicyEventPayload,
}

/// Any event of a product, by the kind of change it records.
#[derive(Debug)]
pub enum ProductEventPayload {
    ProductDomainEvent(ProductDomainEventPayload),
    ProductEnrichmentEvent(ProductEnrichmentEventPayload),
    ProductPolicyEvent(ProductPolicyEventPayload),
    ProductLifecycleEvent(ProductLifecycleEventPayload),
}

/// An event of a product of any kind.
#[derive(Debug)]
pub struct ProductEvent {
    pub aggregate_id: ProductId,
    pub event_id: EventId,
    pub timestamp: Timestamp,
    pub payload: ProductEventPayload,
}

/// When an object was made: a known year, or a range whose ends may be open.
#[derive(Clone, Copy, Debug, PartialEq, Eq, Structural, Hash)]
pub enum OriginYear {
    ExactYear(i32),
    EstimatedRange { min: Option<i32>, max: Option<i32> },
}

/// The current state of a product, materialized from its events.
#[derive(Debug)]
pub struct Product {
    pub product_id: ProductId,
    pub product_slug_id: String,
    pub shop_slug_id: String,
    pub seller_slug_id: String,
    pub event_id: EventId,
    pub shop_id: ShopId,
    pub seller_id: ShopId,
    pub shops_product_id: String,
    pub shop_name: String,
    pub seller_name: String,
    pub shop_type: ShopType,
    pub structured_address: StructuredAddress,
    pub geo_address: Option<GeoAddress>,
    pub category_id: Option<String>,
    pub category_name: TitleTranslations,
    pub period_id: Option<String>,
    pub period_name: TitleTranslations,
    pub native_title: LocalizedText,
    pub other_title: TitleTranslations,
    pub native_description: Option<LocalizedText>,
    pub native_price: Option<Price>,
    pub other_price: CurrencyAmounts,
    pub native_price_estimate_min: Option<Price>,
    pub other_price_estimate_min: CurrencyAmounts,
    pub native_price_estimate_max: Option<Price>,
    pub other_price_estimate_max: CurrencyAmounts,
    pub state: ProductState,
    pub lifecycle: ProductLifecycle,
    pub url: String,
    pub view_url: String,
    pub images: ImageSet,
    pub embedding: Option<Vec<u32>>,
    pub origin_year: Option<OriginYear>,
    pub authenticity: Authenticity,
    pub condition: Condition,
    pub provenance: Provenance,
    pub restoration: Restoration,
    pub auction_start: Option<Timestamp>,
    pub auction_end: Option<Timestamp>,
    pub created_by: Actor,
    pub updated_by: Actor,
    pub created: Timestamp,
    pub updated: Timestamp,
}

/// Identifies a product by its shop and the shop's own identifier for it.
#[derive(Debug)]
pub struct ProductKey {
    pub shop_id: ShopId,
    pub shops_product_id: String,
}

/// The converted amount for `currency`, if there is one.
pub open spec fn amount_for(amounts: CurrencyAmounts, currency: Currency) -> Option<u64> {
    match currency {
        Currency::Eur => amounts.eur,
        Currency::Gbp => amounts.gbp,
        Currency::Usd => amounts.usd,
        Currency::Aud => amounts.aud,
        Currency::Cad => amounts.cad,
        Currency::Nzd => amounts.nzd,
        Currency::Cny => amounts.cny,
        Currency::Brl => amounts.brl,
        Currency::Pln => amounts.pln,
        Currency::Try => amounts.try_,
        Currency::Jpy => amounts.jpy,
        Currency::Czk => amounts.czk,
        Currency::Rub => amounts.rub,
        Currency::Aed => amounts.aed,
        Currency::Sar => amounts.sar,
        Currency::Hkd => amounts.hkd,
        Currency::Sgd => amounts.sgd,
        Currency::Chf => amounts.chf,
    }
}

impl CurrencyAmounts {
    /// No amount in any currency.
    pub open spec fn spec_empty() -> Self {
        CurrencyAmounts {
            eur: None,
            gbp: None,
            usd: None,
            aud: None,
            cad: None,
            nzd: None,
            cny: None,
            brl: None,
            pln: None,
            try_: None,
            jpy: None,
            czk: None,
            rub: None,
            aed: None,
            sar: None,
            hkd: None,
            sgd: None,
            chf: None,
        }
    }

    pub fn empty() -> (amounts: Self)
        ensures
            amounts == Self::spec_empty(),
            forall|c: Currency| amount_for(amounts, c) is None,
    {
        CurrencyAmounts {
            eur: None,
            gbp: None,
            usd: None,
            aud: None,
            cad: None,
            nzd: None,
            cny: None,
            brl: None,
            pln: None,
            try_: None,
            jpy: None,
            czk: None,
            rub: None,
            aed: None,
            sar: None,
            hkd: None,
            sgd: None,
            chf: None,
        }
    }

    /// The amount for `currency`, if there is one.
    pub fn get(&self, currency: Currency) -> (amount: Option<u64>)
        ensures
            amount == amount_for(*self, currency),
    {
        match currency {
            Currency::Eur => self.eur,
            Currency::Gbp => self.gbp,
            Currency::Usd => self.usd,
            Currency::Aud => self.aud,
            Currency::Cad => self.cad,
            Currency::Nzd => self.nzd,
            Currency::Cny => self.cny,
            Currency::Brl => self.brl,
            Currency::Pln => self.pln,
            Currency::Try => self.try_,
            Currency::Jpy => self.jpy,
            Currency::Czk => self.czk,
            Currency::Rub => self.rub,
            Currency::Aed => self.aed,
            Currency::Sar => self.sar,
            Currency::Hkd => self.hkd,
            Currency::Sgd => self.sgd,
            Currency::Chf => self.chf,
        }
    }
}

impl LocalizedText {
    /// A copy of the text.
    pub fn duplicate(&self) -> (copy: Self)
        ensures
            copy == *self,
    {
        LocalizedText { language: self.language, text: self.text.clone() }
    }
}

impl TitleTranslations {
    /// A copy of the titles.
    pub fn duplicate(&self) -> (copy: Self)
        ensures
            copy == *self,
    {
        TitleTranslations {
            de: self.de.clone(),
            en: self.en.clone(),
            fr: self.fr.clone(),
            es: self.es.clone(),
            it: self.it.clone(),
        }
    }
}

impl StructuredAddress {
    /// A copy of the address.
    pub fn duplicate(&self) -> (copy: Self)
        ensures
            copy == *self,
    {
        StructuredAddress {
            addressline: self.addressline.clone(),
            addressline_extra: self.addressline_extra.clone(),
            locality: self.locality.clone(),
            region: self.region.clone(),
            postal_code: self.postal_code.clone(),
            country: self.country.clone(),
        }
    }
}

/// A copy of an optional localized text.
pub fn duplicate_localized(text: &Option<LocalizedText>) -> (copy: Option<LocalizedText>)
    ensures
        copy == *text,
{
    match text {
        Some(t) => Some(t.duplicate()),
        None => None,
    }
}

} // verus!
