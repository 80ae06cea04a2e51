//! Event types of enrichment events.

use crate::domain::ProductEnrichmentEventPayload;
use vstd::prelude::*;
use vstd::std_specs::convert::FromSpecImpl;

verus! {

/// The kind of a stored enrichment event.
#[derive(Clone, Copy, Debug, PartialEq, Eq, Structural, Hash)]
pub enum ProductEnrichmentEventTypeRecord {
    EnrichmentTranslatedTitle,
    EnrichmentEmbedded,
}

impl ProductEnrichmentEventTypeRecord {
    /// The name under which the event type is stored.
    pub open spec fn spec_as_str(self) -> Seq<char> {
        match self {
            ProductEnrichmentEventTypeRecord::EnrichmentTranslatedTitle => "ENRICHMENT_TRANSLATED_TITLE"@,
            ProductEnrichmentEventTypeRecord::EnrichmentEmbedded => "ENRICHMENT_EMBEDDED"@,
        }
    }

    pub fn as_str(&self) -> (s: &'static str)
        ensures
            s@ == self.spec_as_str(),
    {
        match self {
            ProductEnrichmentEventTypeRecord::EnrichmentTranslatedTitle => "ENRICHMENT_TRANSLATED_TITLE",
            ProductEnrichmentEventTypeRecord::EnrichmentEmbedded => "ENRICHMENT_EMBEDDED",
        }
    }
}

/// The event type that records a payload of this kind.
pub open spec fn enrichment_event_type_of(payload: ProductEnrichmentEventPayload) -> ProductEnrichmentEventTypeRecord {
    match payload {
        ProductEnrichmentEventPayload::TranslatedTitle(_) => ProductEnrichmentEventTypeRecord::EnrichmentTranslatedTitle,
        ProductEnrichmentEventPayload::Embedded(_) => ProductEnrichmentEventTypeRecord::EnrichmentEmbedded,
    }
}

impl<'a> From<&'a ProductEnrichmentEventPayload> for ProductEnrichmentEventTypeRecord {
    fn from(payload: &'a ProductEnrichmentEventPayload) -> (ret: Self) {
        match payload {
            ProductEnrichmentEventPayload::TranslatedTitle(_) => ProductEnrichmentEventTypeRecord::EnrichmentTranslatedTitle,
            ProductEnrichmentEventPayload::Embedded(_) => ProductEnrichmentEventTypeRecord::EnrichmentEmbedded,
        }
    }
}

impl<'a> FromSpecImpl<&'a ProductEnrichmentEventPayload> for ProductEnrichmentEventTypeRecord {
    open spec fn obeys_from_spec() -> bool {
        true
    }

    open spec fn from_spec(payload: &'a ProductEnrichmentEventPayload) -> Self {
        enrichment_event_type_of(*payload)
    }
}

} // verus!
