//! Partial updates of product documents, and how successive updates combine.

use crate::domain::{amount_for, CurrencyAmounts, EventId, ProductDomainEvent, ProductDomainEventPayload, ProductImage, Timestamp, TitleTranslations};
use crate::dynamodb::product_event_record::domain::{
    lemma_domain_record_attributes, records_domain_event, spec_no_titles, ProductDomainEventRecord,
};
use crate::dynamodb::product_state_record::product_state_record_of_product_state;
use crate::dynamodb::product_event_record::enrichment::ProductEnrichmentEventRecord;
use crate::dynamodb::product_event_record::lifecycle::ProductLifecycleEventRecord;
use crate::dynamodb::product_image_record::{dedup_images, image_of_record, ProductImageRecord};
use crate::dynamodb::product_update_record::{enrichment_titles, spec_update_of_domain_record};
use crate::dynamodb::product_event_type_record::enrichment::ProductEnrichmentEventTypeRecord;
use crate::ids::new_uuid;
use crate::opensearch::product_image_document::{image_document_of, image_documents_of_records, ProductImageDocument};
use crate::opensearch::product_state_document::{
    product_state_document_of_product_state, product_state_document_of_product_state_record, ProductStateDocument,
};
use crate::timefmt::now_utc;
use crate::values::{Currency, Language, ProductLifecycle};
use vstd::prelude::*;
use vstd::std_specs::convert::FromSpecImpl;

verus! {

/// The fields of a product document that one or more events set. A field left
/// `None` is not sent to the index; the update time always is.
#[derive(Debug)]
pub struct ProductUpdateDocument {
    pub event_id: Option<EventId>,
    pub price: CurrencyAmounts,
    pub state: Option<ProductStateDocument>,
    pub lifecycle: Option<ProductLifecycle>,
    pub titles: TitleTranslations,
    pub images: Option<Vec<ProductImageDocument>>,
    pub price_estimate_min: CurrencyAmounts,
    pub price_estimate_max: CurrencyAmounts,
    pub url: Option<String>,
    pub auction_start: Option<Timestamp>,
    pub auction_end: Option<Timestamp>,
    pub embedding: Option<Vec<u32>>,
    pub updated: Timestamp,
}

/// A document update that sets only the event identifier and the update time.
pub open spec fn spec_document_touching(event_id: Option<EventId>, updated: Timestamp) -> ProductUpdateDocument {
    ProductUpdateDocument {
        event_id,
        price: CurrencyAmounts::spec_empty(),
        state: None,
        lifecycle: None,
        titles: spec_no_titles(),
        images: None,
        price_estimate_min: CurrencyAmounts::spec_empty(),
        price_estimate_max: CurrencyAmounts::spec_empty(),
        url: None,
        auction_start: None,
        auction_end: None,
        embedding: None,
        updated,
    }
}

impl ProductUpdateDocument {
    /// A document update that sets only `event_id` and `updated`.
    pub fn touching(event_id: Option<EventId>, updated: Timestamp) -> (document: Self)
        ensures
            document == spec_document_touching(event_id, updated),
    {
        ProductUpdateDocument {
            event_id,
            price: CurrencyAmounts::empty(),
            state: None,
            lifecycle: None,
            titles: TitleTranslations { de: None, en: None, fr: None, es: None, it: None },
            images: None,
            price_estimate_min: CurrencyAmounts::empty(),
            price_estimate_max: CurrencyAmounts::empty(),
            url: None,
            auction_start: None,
            auction_end: None,
            embedding: None,
            updated,
        }
    }
}

impl Default for ProductUpdateDocument {
    /// A document update under a fresh event identifier, stamped with the current
    /// time, that sets nothing else.
    fn default() -> (document: Self)
        ensures
            document.event_id is Some,
            document == spec_document_touching(document.event_id, document.updated),
            document.updated.offset_seconds == 0,
    {
        let event_id = new_uuid();
        let updated = now_utc();
        ProductUpdateDocument::touching(Some(event_id), updated)
    }
}

/// The later of two settings of a field: the update's when it sets the field, else
/// the current one.
pub open spec fn later<T>(current: Option<T>, update: Option<T>) -> Option<T> {
    if update is Some {
        update
    } else {
        current
    }
}

/// Converted prices after a later set of converted prices is applied.
pub open spec fn merge_amounts(current: CurrencyAmounts, update: CurrencyAmounts) -> CurrencyAmounts {
    CurrencyAmounts {
        eur: later(current.eur, update.eur),
        gbp: later(current.gbp, update.gbp),
        usd: later(current.usd, update.usd),
        aud: later(current.aud, update.aud),
        cad: later(current.cad, update.cad),
        nzd: later(current.nzd, update.nzd),
        cny: later(current.cny, update.cny),
        brl: later(current.brl, update.brl),
        pln: later(current.pln, update.pln),
        try_: later(current.try_, update.try_),
        jpy: later(current.jpy, update.jpy),
        czk: later(current.czk, update.czk),
        rub: later(current.rub, update.rub),
        aed: later(current.aed, update.aed),
        sar: later(current.sar, update.sar),
        hkd: later(current.hkd, update.hkd),
        sgd: later(current.sgd, update.sgd),
        chf: later(current.chf, update.chf),
    }
}

/// Titles after later titles are applied.
pub open spec fn merge_titles(current: TitleTranslations, update: TitleTranslations) -> TitleTranslations {
    TitleTranslations {
        de: later(current.de, update.de),
        en: later(current.en, update.en),
        fr: later(current.fr, update.fr),
        es: later(current.es, update.es),
        it: later(current.it, update.it),
    }
}

/// The update that applying `update` after `current` amounts to: every field the later
/// update sets wins, every other field keeps its earlier setting, and the update time
/// is the later one.
pub open spec fn spec_merge(current: ProductUpdateDocument, update: ProductUpdateDocument) -> ProductUpdateDocument {
    ProductUpdateDocument {
        event_id: later(current.event_id, update.event_id),
        price: merge_amounts(current.price, update.price),
        state: later(current.state, update.state),
        lifecycle: later(current.lifecycle, update.lifecycle),
        titles: merge_titles(current.titles, update.titles),
        images: later(current.images, update.images),
        price_estimate_min: merge_amounts(current.price_estimate_min, update.price_estimate_min),
        price_estimate_max: merge_amounts(current.price_estimate_max, update.price_estimate_max),
        url: later(current.url, update.url),
        auction_start: later(current.auction_start, update.auction_start),
        auction_end: later(current.auction_end, update.auction_end),
        embedding: later(current.embedding, update.embedding),
        updated: update.updated,
    }
}

/// Replaces `current` by `update` when `update` is set.
fn overwrite<T>(current: &mut Option<T>, update: Option<T>)
    ensures
        *final(current) == later(*old(current), update),
{
    if let Some(value) = update {
        *current = Some(value);
    }
}

fn overwrite_amounts(current: &mut CurrencyAmounts, update: CurrencyAmounts)
    ensures
        *final(current) == merge_amounts(*old(current), update),
{
    overwrite(&mut current.eur, update.eur);
    overwrite(&mut current.gbp, update.gbp);
    overwrite(&mut current.usd, update.usd);
    overwrite(&mut current.aud, update.aud);
    overwrite(&mut current.cad, update.cad);
    overwrite(&mut current.nzd, update.nzd);
    overwrite(&mut current.cny, update.cny);
    overwrite(&mut current.brl, update.brl);
    overwrite(&mut current.pln, update.pln);
    overwrite(&mut current.try_, update.try_);
    overwrite(&mut current.jpy, update.jpy);
    overwrite(&mut current.czk, update.czk);
    overwrite(&mut current.rub, update.rub);
    overwrite(&mut current.aed, update.aed);
    overwrite(&mut current.sar, update.sar);
    overwrite(&mut current.hkd, update.hkd);
    overwrite(&mut current.sgd, update.sgd);
    overwrite(&mut current.chf, update.chf);
}

fn overwrite_titles(current: &mut TitleTranslations, update: TitleTranslations)
    ensures
        *final(current) == merge_titles(*old(current), update),
{
    overwrite(&mut current.de, update.de);
    overwrite(&mut current.en, update.en);
    overwrite(&mut current.fr, update.fr);
    overwrite(&mut current.es, update.es);
    overwrite(&mut current.it, update.it);
}

impl ProductUpdateDocument {
    /// Applies a later update on top of this one, so that the two can be sent to the
    /// index as one.
    pub fn merge(&mut self, other: Self)
        ensures
            *final(self) == spec_merge(*old(self), other),
    {
        let ProductUpdateDocument {
            event_id,
            price,
            state,
            lifecycle,
            titles,
            images,
            price_estimate_min,
            price_estimate_max,
            url,
            auction_start,
            auction_end,
            embedding,
            updated,
        } = other;
        self.updated = updated;
        overwrite(&mut self.event_id, event_id);
        overwrite_amounts(&mut self.price, price);
        overwrite(&mut self.state, state);
        overwrite(&mut self.lifecycle, lifecycle);
        overwrite_titles(&mut self.titles, titles);
        overwrite(&mut self.images, images);
        overwrite_amounts(&mut self.price_estimate_min, price_estimate_min);
        overwrite_amounts(&mut self.price_estimate_max, price_estimate_max);
        overwrite(&mut self.url, url);
        overwrite(&mut self.auction_start, auction_start);
        overwrite(&mut self.auction_end, auction_end);
        overwrite(&mut self.embedding, embedding);
    }
}

/// What a domain event sets in the index, given the indexed images it carries: its
/// converted prices and estimates, state, titles, images, address and auction times,
/// and its time as the update time. It never sets the lifecycle nor the embedding.
pub open spec fn spec_document_of_domain_record(
    event: ProductDomainEventRecord,
    images: Option<Vec<ProductImageDocument>>,
) -> ProductUpdateDocument {
    ProductUpdateDocument {
        event_id: Some(event.event_id),
        price: event.new_price,
        state: match event.new_state {
            Some(state) => Some(product_state_document_of_product_state_record(state)),
            None => None,
        },
        lifecycle: None,
        titles: event.titles,
        images,
        price_estimate_min: event.new_price_estimate_min,
        price_estimate_max: event.new_price_estimate_max,
        url: event.url,
        auction_start: event.auction_start,
        auction_end: event.auction_end,
        embedding: None,
        updated: event.timestamp,
    }
}

/// The indexed images of the images a record carries, as an insertion-ordered set.
pub open spec fn indexed_images_of_records(records: Seq<ProductImageRecord>) -> Seq<ProductImageDocument> {
    dedup_images(records.map_values(|record: ProductImageRecord| image_of_record(record)))
        .map_values(|image: ProductImage| image_document_of(image))
}

impl ProductUpdateDocument {
    /// The document update a domain event's record makes.
    pub fn from_domain_record(event: ProductDomainEventRecord) -> (document: Self)
        ensures
            document == spec_document_of_domain_record(event, document.images),
            event.images is None ==> document.images is None,
            event.images is Some ==> document.images is Some
                && document.images->0@ == indexed_images_of_records(event.images->0@),
    {
        let state = match event.new_state {
            Some(state) => Some(ProductStateDocument::from(state)),
            None => None,
        };
        let images = match &event.images {
            Some(records) => Some(image_documents_of_records(records)),
            None => None,
        };
        ProductUpdateDocument {
            event_id: Some(event.event_id),
            price: event.new_price,
            state,
            lifecycle: None,
            titles: event.titles,
            images,
            price_estimate_min: event.new_price_estimate_min,
            price_estimate_max: event.new_price_estimate_max,
            url: event.url,
            auction_start: event.auction_start,
            auction_end: event.auction_end,
            embedding: None,
            updated: event.timestamp,
        }
    }
}

/// What a lifecycle event sets in the index: the new lifecycle, under the event's
/// identifier and at its time.
pub open spec fn spec_document_of_lifecycle_record(event: ProductLifecycleEventRecord) -> ProductUpdateDocument {
    ProductUpdateDocument {
        lifecycle: Some(event.new_lifecycle),
        ..spec_document_touching(Some(event.event_id), event.timestamp)
    }
}

impl From<ProductLifecycleEventRecord> for ProductUpdateDocument {
    fn from(event: ProductLifecycleEventRecord) -> (document: Self) {
        let mut document = ProductUpdateDocument::touching(Some(event.event_id), event.timestamp);
        document.lifecycle = Some(event.new_lifecycle);
        document
    }
}

impl FromSpecImpl<ProductLifecycleEventRecord> for ProductUpdateDocument {
    open spec fn obeys_from_spec() -> bool {
        true
    }

    open spec fn from_spec(event: ProductLifecycleEventRecord) -> Self {
        spec_document_of_lifecycle_record(event)
    }
}

/// What an enrichment event sets in the index: its embedding, the translated title in
/// the field of its target language, and its time.
pub open spec fn spec_document_of_enrichment_record(event: ProductEnrichmentEventRecord) -> ProductUpdateDocument {
    ProductUpdateDocument {
        titles: enrichment_titles(event),
        embedding: event.embedding,
        ..spec_document_touching(Some(event.event_id), event.timestamp)
    }
}

impl From<ProductEnrichmentEventRecord> for ProductUpdateDocument {
    fn from(event: ProductEnrichmentEventRecord) -> (document: Self) {
        let mut document = ProductUpdateDocument::touching(Some(event.event_id), event.timestamp);
        document.embedding = event.embedding;
        match (event.event_type, event.target_language, event.target) {
            (ProductEnrichmentEventTypeRecord::EnrichmentTranslatedTitle, Some(Language::De), Some(target)) => {
                document.titles.de = Some(target);
            },
            (ProductEnrichmentEventTypeRecord::EnrichmentTranslatedTitle, Some(Language::En), Some(target)) => {
                document.titles.en = Some(target);
            },
            (ProductEnrichmentEventTypeRecord::EnrichmentTranslatedTitle, Some(Language::Fr), Some(target)) => {
                document.titles.fr = Some(target);
            },
            (ProductEnrichmentEventTypeRecord::EnrichmentTranslatedTitle, Some(Language::Es), Some(target)) => {
                document.titles.es = Some(target);
            },
            (ProductEnrichmentEventTypeRecord::EnrichmentTranslatedTitle, Some(Language::It), Some(target)) => {
                document.titles.it = Some(target);
            },
            _ => {},
        }
        document
    }
}

impl FromSpecImpl<ProductEnrichmentEventRecord> for ProductUpdateDocument {
    open spec fn obeys_from_spec() -> bool {
        true
    }

    open spec fn from_spec(event: ProductEnrichmentEventRecord) -> Self {
        spec_document_of_enrichment_record(event)
    }
}

/// Applying three updates one after the other gives the same document however the
/// applications are grouped: updates can be combined before they are sent.
pub proof fn lemma_merge_associative(a: ProductUpdateDocument, b: ProductUpdateDocument, c: ProductUpdateDocument)
    ensures
        spec_merge(spec_merge(a, b), c) == spec_merge(a, spec_merge(b, c)),
{
    lemma_merge_amounts_associative(a.price, b.price, c.price);
    lemma_merge_amounts_associative(a.price_estimate_min, b.price_estimate_min, c.price_estimate_min);
    lemma_merge_amounts_associative(a.price_estimate_max, b.price_estimate_max, c.price_estimate_max);
    lemma_merge_titles_associative(a.titles, b.titles, c.titles);
    let left = spec_merge(spec_merge(a, b), c);
    let right = spec_merge(a, spec_merge(b, c));
    assert(left.event_id == right.event_id);
    assert(left.state == right.state);
    assert(left.lifecycle == right.lifecycle);
    assert(left.images == right.images);
    assert(left.url == right.url);
    assert(left.auction_start == right.auction_start);
    assert(left.auction_end == right.auction_end);
    assert(left.embedding == right.embedding);
}

proof fn lemma_merge_amounts_associative(a: CurrencyAmounts, b: CurrencyAmounts, c: CurrencyAmounts)
    ensures
        merge_amounts(merge_amounts(a, b), c) == merge_amounts(a, merge_amounts(b, c)),
{
}

proof fn lemma_merge_titles_associative(a: TitleTranslations, b: TitleTranslations, c: TitleTranslations)
    ensures
        merge_titles(merge_titles(a, b), c) == merge_titles(a, merge_titles(b, c)),
{
}

/// Applying an update on top of itself changes nothing.
pub proof fn lemma_merge_idempotent(a: ProductUpdateDocument)
    ensures
        spec_merge(a, a) == a,
{
}

/// An update that sets only its event identifier and time changes, of what it is
/// applied to, only these two; where it carries no event identifier, only the time.
pub proof fn lemma_merge_touching_keeps_fields(a: ProductUpdateDocument, event_id: Option<EventId>, updated: Timestamp)
    ensures
        spec_merge(a, spec_document_touching(event_id, updated))
            == (ProductUpdateDocument { event_id: later(a.event_id, event_id), updated, ..a }),
{
    assert(merge_amounts(a.price, CurrencyAmounts::spec_empty()) == a.price);
    assert(merge_amounts(a.price_estimate_min, CurrencyAmounts::spec_empty()) == a.price_estimate_min);
    assert(merge_amounts(a.price_estimate_max, CurrencyAmounts::spec_empty()) == a.price_estimate_max);
    assert(merge_titles(a.titles, spec_no_titles()) == a.titles);
}

/// An update applied on top of one that sets only an event identifier and a time is
/// the update itself, but for the event identifier when the update carries none.
pub proof fn lemma_merge_onto_touching(event_id: Option<EventId>, updated: Timestamp, b: ProductUpdateDocument)
    ensures
        spec_merge(spec_document_touching(event_id, updated), b)
            == (ProductUpdateDocument { event_id: later(event_id, b.event_id), ..b }),
{
    assert(merge_amounts(CurrencyAmounts::spec_empty(), b.price) == b.price);
    assert(merge_amounts(CurrencyAmounts::spec_empty(), b.price_estimate_min) == b.price_estimate_min);
    assert(merge_amounts(CurrencyAmounts::spec_empty(), b.price_estimate_max) == b.price_estimate_max);
    assert(merge_titles(spec_no_titles(), b.titles) == b.titles);
}

/// The amount in `currency` after a later update: the later amount when it gives one,
/// else the earlier one.
pub open spec fn amount_after(current: CurrencyAmounts, update: CurrencyAmounts, currency: Currency) -> Option<u64> {
    match amount_for(update, currency) {
        Some(amount) => Some(amount),
        None => amount_for(current, currency),
    }
}

/// Merging two updates keeps the meaning of every field: in each currency the price,
/// the lower estimate and the upper estimate are the later update's when it gives one,
/// else the earlier; every other field the later update sets wins, the rest stays,
/// and the update time is the later one.
pub proof fn lemma_merge_keeps_meaning(current: ProductUpdateDocument, update: ProductUpdateDocument, currency: Currency)
    ensures
        ({
            let merged = spec_merge(current, update);
            &&& amount_for(merged.price, currency) == amount_after(current.price, update.price, currency)
            &&& amount_for(merged.price_estimate_min, currency) == amount_after(current.price_estimate_min, update.price_estimate_min, currency)
            &&& amount_for(merged.price_estimate_max, currency) == amount_after(current.price_estimate_max, update.price_estimate_max, currency)
            &&& merged.state == (if update.state is Some { update.state } else { current.state })
            &&& merged.lifecycle == (if update.lifecycle is Some { update.lifecycle } else { current.lifecycle })
            &&& merged.url == (if update.url is Some { update.url } else { current.url })
            &&& merged.images == (if update.images is Some { update.images } else { current.images })
            &&& merged.auction_start == (if update.auction_start is Some { update.auction_start } else { current.auction_start })
            &&& merged.auction_end == (if update.auction_end is Some { update.auction_end } else { current.auction_end })
            &&& merged.embedding == (if update.embedding is Some { update.embedding } else { current.embedding })
            &&& merged.event_id == (if update.event_id is Some { update.event_id } else { current.event_id })
            &&& merged.updated == update.updated
        }),
{
    match currency {
        Currency::Eur => {},
        Currency::Gbp => {},
        Currency::Usd => {},
        Currency::Aud => {},
        Currency::Cad => {},
        Currency::Nzd => {},
        Currency::Cny => {},
        Currency::Brl => {},
        Currency::Pln => {},
        Currency::Try => {},
        Currency::Jpy => {},
        Currency::Czk => {},
        Currency::Rub => {},
        Currency::Aed => {},
        Currency::Sar => {},
        Currency::Hkd => {},
        Currency::Sgd => {},
        Currency::Chf => {},
    }
}

/// A recorded domain event updates the stored product and the index with each value in
/// the place of the same meaning: a price change sets the price, an estimate change
/// sets the lower estimate to the lower estimate and the upper to the upper, a state
/// change the new state, a link change the link, an auction change the auction times.
pub proof fn lemma_domain_event_updates_keep_meaning(
    event: ProductDomainEvent,
    record: ProductDomainEventRecord,
    images: Option<Vec<ProductImageDocument>>,
)
    requires
        records_domain_event(event, record),
    ensures
        ({
            let stored = spec_update_of_domain_record(record);
            let indexed = spec_document_of_domain_record(record, images);
            &&& stored.updated == event.timestamp && indexed.updated == event.timestamp
            &&& stored.event_id == Some(event.event_id) && indexed.event_id == Some(event.event_id)
            &&& match event.payload {
                ProductDomainEventPayload::PriceChanged(p) => {
                    &&& stored.price_native == p.new_native_price
                    &&& stored.price == p.new_other_price
                    &&& indexed.price == p.new_other_price
                },
                ProductDomainEventPayload::EstimatePriceChanged(p) => {
                    &&& stored.price_estimate_min_native == p.native_price_estimate_min
                    &&& stored.price_estimate_min == p.other_price_estimate_min
                    &&& stored.price_estimate_max_native == p.native_price_estimate_max
                    &&& stored.price_estimate_max == p.other_price_estimate_max
                    &&& indexed.price_estimate_min == p.other_price_estimate_min
                    &&& indexed.price_estimate_max == p.other_price_estimate_max
                },
                ProductDomainEventPayload::StateChanged(p) => {
                    &&& stored.state == Some(product_state_record_of_product_state(p.new_state))
                    &&& indexed.state == Some(product_state_document_of_product_state(p.new_state))
                },
                ProductDomainEventPayload::UrlChanged(p) => {
                    &&& stored.url == Some(p.url)
                    &&& stored.view_url == Some(p.view_url)
                    &&& indexed.url == Some(p.url)
                },
                ProductDomainEventPayload::AuctionTimeChanged(p) => {
                    &&& stored.auction_start == p.auction_start && stored.auction_end == p.auction_end
                    &&& indexed.auction_start == p.auction_start && indexed.auction_end == p.auction_end
                },
                _ => true,
            }
        }),
{
    lemma_domain_record_attributes(event, record);
    if let ProductDomainEventPayload::StateChanged(p) = event.payload {
        crate::opensearch::product_state_document::lemma_product_state_forms_agree(p.new_state);
    }
}

} // verus!
