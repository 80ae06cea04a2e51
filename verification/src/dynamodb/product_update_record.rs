//! The changes an event makes to the materialized record of its product.

use crate::domain::{CurrencyAmounts, EventId, LocalizedText, Price, Timestamp, TitleTranslations};
use crate::dynamodb::product_event_record::domain::{spec_no_titles, titles_for, ProductDomainEventRecord};
use crate::dynamodb::product_event_record::enrichment::ProductEnrichmentEventRecord;
use crate::dynamodb::product_event_record::lifecycle::ProductLifecycleEventRecord;
use crate::dynamodb::product_event_type_record::enrichment::ProductEnrichmentEventTypeRecord;
use crate::dynamodb::product_image_record::ProductImageRecord;
use crate::dynamodb::product_state_record::ProductStateRecord;
use crate::ids::new_uuid;
use crate::timefmt::now_utc;
use crate::values::{Language, ProductLifecycle};
use vstd::prelude::*;
use vstd::std_specs::convert::FromSpecImpl;

verus! {

/// The attributes of a materialized record that an event sets. An attribute left
/// `None` is not written; the update time always is.
#[derive(Debug)]
pub struct ProductRecordUpdate {
    pub event_id: Option<EventId>,
    pub price_native: Option<Price>,
    pub price: CurrencyAmounts,
    pub state: Option<ProductStateRecord>,
    pub lifecycle: Option<ProductLifecycle>,
    pub titles: TitleTranslations,
    pub images: Option<Vec<ProductImageRecord>>,
    pub price_estimate_min_native: Option<Price>,
    pub price_estimate_min: CurrencyAmounts,
    pub price_estimate_max_native: Option<Price>,
    pub price_estimate_max: CurrencyAmounts,
    pub url: Option<String>,
    pub view_url: Option<String>,
    pub auction_start: Option<Timestamp>,
    pub auction_end: Option<Timestamp>,
    pub embedding: Option<Vec<u32>>,
    pub updated: Timestamp,
}

/// An update that writes only the event identifier and the update time.
pub open spec fn spec_update_touching(event_id: Option<EventId>, updated: Timestamp) -> ProductRecordUpdate {
    ProductRecordUpdate {
        event_id,
        price_native: None,
        price: CurrencyAmounts::spec_empty(),
        state: None,
        lifecycle: None,
        titles: spec_no_titles(),
        images: None,
        price_estimate_min_native: None,
        price_estimate_min: CurrencyAmounts::spec_empty(),
        price_estimate_max_native: None,
        price_estimate_max: CurrencyAmounts::spec_empty(),
        url: None,
        view_url: None,
        auction_start: None,
        auction_end: None,
        embedding: None,
        updated,
    }
}

impl ProductRecordUpdate {
    /// An update that writes only `event_id` and `updated`.
    pub fn touching(event_id: Option<EventId>, updated: Timestamp) -> (update: Self)
        ensures
            update == spec_update_touching(event_id, updated),
    {
        ProductRecordUpdate {
            event_id,
            price_native: None,
            price: CurrencyAmounts::empty(),
            state: None,
            lifecycle: None,
            titles: TitleTranslations { de: None, en: None, fr: None, es: None, it: None },
            images: None,
            price_estimate_min_native: None,
            price_estimate_min: CurrencyAmounts::empty(),
            price_estimate_max_native: None,
            price_estimate_max: CurrencyAmounts::empty(),
            url: None,
            view_url: None,
            auction_start: None,
            auction_end: None,
            embedding: None,
            updated,
        }
    }
}

impl Default for ProductRecordUpdate {
    /// An update under a fresh event identifier, stamped with the current time, that
    /// writes nothing else.
    fn default() -> (update: Self)
        ensures
            update.event_id is Some,
            update == spec_update_touching(update.event_id, update.updated),
            update.updated.offset_seconds == 0,
    {
        let event_id = new_uuid();
        let updated = now_utc();
        ProductRecordUpdate::touching(Some(event_id), updated)
    }
}

/// What a domain event sets: its prices, estimates, state, titles, images, addresses
/// and auction times, as recorded, and its time as the update time. It never
/// changes the lifecycle nor the embedding.
pub open spec fn spec_update_of_domain_record(event: ProductDomainEventRecord) -> ProductRecordUpdate {
    ProductRecordUpdate {
        event_id: Some(event.event_id),
        price_native: event.new_price_native,
        price: event.new_price,
        state: event.new_state,
        lifecycle: None,
        titles: event.titles,
        images: event.images,
        price_estimate_min_native: event.new_price_estimate_min_native,
        price_estimate_min: event.new_price_estimate_min,
        price_estimate_max_native: event.new_price_estimate_max_native,
        price_estimate_max: event.new_price_estimate_max,
        url: event.url,
        view_url: event.view_url,
        auction_start: event.auction_start,
        auction_end: event.auction_end,
        embedding: None,
        updated: event.timestamp,
    }
}

impl From<ProductDomainEventRecord> for ProductRecordUpdate {
    fn from(event: ProductDomainEventRecord) -> (update: Self) {
        ProductRecordUpdate {
            event_id: Some(event.event_id),
            price_native: event.new_price_native,
            price: event.new_price,
            state: event.new_state,
            lifecycle: None,
            titles: event.titles,
            images: event.images,
            price_estimate_min_native: event.new_price_estimate_min_native,
            price_estimate_min: event.new_price_estimate_min,
            price_estimate_max_native: event.new_price_estimate_max_native,
            price_estimate_max: event.new_price_estimate_max,
            url: event.url,
            view_url: event.view_url,
            auction_start: event.auction_start,
            auction_end: event.auction_end,
            embedding: None,
            updated: event.timestamp,
        }
    }
}

impl FromSpecImpl<ProductDomainEventRecord> for ProductRecordUpdate {
    open spec fn obeys_from_spec() -> bool {
        true
    }

    open spec fn from_spec(event: ProductDomainEventRecord) -> Self {
        spec_update_of_domain_record(event)
    }
}

/// What a lifecycle event sets: the new lifecycle, under the event's identifier and
/// at its time.
pub open spec fn spec_update_of_lifecycle_record(event: ProductLifecycleEventRecord) -> ProductRecordUpdate {
    ProductRecordUpdate {
        lifecycle: Some(event.new_lifecycle),
        ..spec_update_touching(Some(event.event_id), event.timestamp)
    }
}

impl From<ProductLifecycleEventRecord> for ProductRecordUpdate {
    fn from(event: ProductLifecycleEventRecord) -> (update: Self) {
        let mut update = ProductRecordUpdate::touching(Some(event.event_id), event.timestamp);
        update.lifecycle = Some(event.new_lifecycle);
        update
    }
}

impl FromSpecImpl<ProductLifecycleEventRecord> for ProductRecordUpdate {
    open spec fn obeys_from_spec() -> bool {
        true
    }

    open spec fn from_spec(event: ProductLifecycleEventRecord) -> Self {
        spec_update_of_lifecycle_record(event)
    }
}

/// The title fields an enrichment event sets: a translated title goes to the field
/// of its target language, when that language has one; any other enrichment sets
/// none.
pub open spec fn enrichment_titles(event: ProductEnrichmentEventRecord) -> TitleTranslations {
    if event.event_type == ProductEnrichmentEventTypeRecord::EnrichmentTranslatedTitle
        && event.target_language is Some && event.target is Some {
        titles_for(LocalizedText { language: event.target_language->0, text: event.target->0 })
    } else {
        spec_no_titles()
    }
}

/// What an enrichment event sets: its embedding, the translated title, and its time.
pub open spec fn spec_update_of_enrichment_record(event: ProductEnrichmentEventRecord) -> ProductRecordUpdate {
    ProductRecordUpdate {
        titles: enrichment_titles(event),
        embedding: event.embedding,
        ..spec_update_touching(Some(event.event_id), event.timestamp)
    }
}

impl From<ProductEnrichmentEventRecord> for ProductRecordUpdate {
    fn from(event: ProductEnrichmentEventRecord) -> (update: Self) {
        let mut update = ProductRecordUpdate::touching(Some(event.event_id), event.timestamp);
        update.embedding = event.embedding;
        match (event.event_type, event.target_language, event.target) {
            (ProductEnrichmentEventTypeRecord::EnrichmentTranslatedTitle, Some(Language::De), Some(target)) => {
                update.titles.de = Some(target);
            },
            (ProductEnrichmentEventTypeRecord::EnrichmentTranslatedTitle, Some(Language::En), Some(target)) => {
                update.titles.en = Some(target);
            },
            (ProductEnrichmentEventTypeRecord::EnrichmentTranslatedTitle, Some(Language::Fr), Some(target)) => {
                update.titles.fr = Some(target);
            },
            (ProductEnrichmentEventTypeRecord::EnrichmentTranslatedTitle, Some(Language::Es), Some(target)) => {
                update.titles.es = Some(target);
            },
            (ProductEnrichmentEventTypeRecord::EnrichmentTranslatedTitle, Some(Language::It), Some(target)) => {
                update.titles.it = Some(target);
            },
            _ => {},
        }
        update
    }
}

impl FromSpecImpl<ProductEnrichmentEventRecord> for ProductRecordUpdate {
    open spec fn obeys_from_spec() -> bool {
        true
    }

    open spec fn from_spec(event: ProductEnrichmentEventRecord) -> Self {
        spec_update_of_enrichment_record(event)
    }
}

} // verus!
