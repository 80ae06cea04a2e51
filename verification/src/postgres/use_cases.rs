//! The decisions of the use cases that create, update and delete products in the
//! relational store: who acts, how a command changes a product, which event becomes
//! current, and how store failures are reported.

use crate::domain::{EventId, ImageSet, Uuid};
use crate::postgres::errors::{ProductEventStoreError, ProductRepositoryError};
use crate::postgres::repository::{ProductAddress, ProductAuction, ProductPricing, ProductStateSnapshot};
use crate::values::ProductState;
use vstd::prelude::*;

verus! {

/// Who asks for an operation.
#[derive(Debug)]
pub enum Principal {
    Anonymous,
    User(Uuid),
    Service(String),
    System,
}

/// The label recorded as the author of a change: none for an anonymous caller.
pub open spec fn spec_actor_label(principal: Principal) -> Option<Seq<char>> {
    match principal {
        Principal::Anonymous => None,
        Principal::User(id) => Some(crate::ids::spec_uuid_text(id)),
        Principal::Service(id) => Some(id@),
        Principal::System => Some("SYSTEM"@),
    }
}

/// The label of the author of a change, if the caller can author one.
pub fn actor_label(principal: &Principal) -> (label: Option<String>)
    ensures
        label is Some <==> spec_actor_label(*principal) is Some,
        label is Some ==> label->0@ == spec_actor_label(*principal)->0,
{
    match principal {
        Principal::Anonymous => None,
        Principal::User(id) => Some(crate::ids::uuid_to_string(*id)),
        Principal::Service(id) => Some(id.clone()),
        Principal::System => Some(String::from_str("SYSTEM")),
    }
}

/// A change to one part of a product: keep it, set it, or clear it.
#[derive(Debug)]
pub enum PatchField<T> {
    Unchanged,
    SetTo(T),
    Clear,
}

/// The changes an update asks for.
#[derive(Debug)]
pub struct UpdateProductCommand {
    pub product_id: Uuid,
    pub address: PatchField<ProductAddress>,
    pub pricing: PatchField<ProductPricing>,
    pub state: PatchField<ProductState>,
    pub url: PatchField<String>,
    pub images: PatchField<ImageSet>,
    pub embedding: PatchField<Vec<u32>>,
    pub auction: PatchField<ProductAuction>,
}

/// Why an update was refused or failed.
#[derive(Clone, Copy, Debug, PartialEq, Eq, Structural, Hash)]
pub enum UpdateProductError {
    Forbidden,
    NotFound,
    ConcurrencyConflict,
    TemporarilyUnavailable,
    InvalidProduct,
    Internal,
}

/// A command can be applied: a product cannot lose its state nor its link.
pub open spec fn command_applicable(command: UpdateProductCommand) -> bool {
    !(command.state is Clear) && !(command.url is Clear)
}

/// The value a patch leaves: the old one, the one set, or the cleared one.
pub open spec fn patched<T>(old: T, patch: PatchField<T>, cleared: T) -> T {
    match patch {
        PatchField::Unchanged => old,
        PatchField::SetTo(value) => value,
        PatchField::Clear => cleared,
    }
}

/// `old` with the address and the pricing of the command applied: the parts a command
/// changes before it reaches the state.
pub open spec fn spec_address_pricing_applied(old: ProductStateSnapshot, command: UpdateProductCommand) -> ProductStateSnapshot {
    ProductStateSnapshot {
        address: patched(old.address, command.address, ProductAddress { structured: None, geo: None }),
        pricing: patched(old.pricing, command.pricing, ProductPricing {
            native_price: None,
            native_price_estimate_min: None,
            native_price_estimate_max: None,
            fx_rate_id: None,
        }),
        ..old
    }
}

/// `old` with the address, the pricing and the state of the command applied: the parts
/// a command changes before it reaches the link.
pub open spec fn spec_through_state_applied(old: ProductStateSnapshot, command: UpdateProductCommand) -> ProductStateSnapshot {
    ProductStateSnapshot {
        state: patched(old.state, command.state, old.state),
        ..spec_address_pricing_applied(old, command)
    }
}

/// `product` is `old` with the whole command applied; cleared images are none.
pub open spec fn spec_command_applied(old: ProductStateSnapshot, command: UpdateProductCommand, product: ProductStateSnapshot) -> bool {
    &&& product == (ProductStateSnapshot {
        url: patched(old.url, command.url, old.url),
        images: product.images,
        embedding: match command.embedding {
            PatchField::Unchanged => old.embedding,
            PatchField::SetTo(embedding) => Some(embedding),
            PatchField::Clear => None,
        },
        auction: patched(old.auction, command.auction, ProductAuction { start: None, end: None }),
        ..spec_through_state_applied(old, command)
    })
    &&& match command.images {
        PatchField::Unchanged => product.images == old.images,
        PatchField::SetTo(images) => product.images == images,
        PatchField::Clear => product.images@.len() == 0,
    }
}

/// Applies an update command to a product in place, part by part: address, pricing,
/// state, link, images, embedding, auction; each is kept, set or cleared as the command
/// says. Clearing the state or the link is refused, and the parts changed before the
/// refusal stay changed.
pub fn apply_command(product: &mut ProductStateSnapshot, command: UpdateProductCommand) -> (result: Result<(), UpdateProductError>)
    ensures
        result is Ok <==> command_applicable(command),
        result is Err ==> result->Err_0 == UpdateProductError::InvalidProduct,
        command.state is Clear ==> *final(product) == spec_address_pricing_applied(*old(product), command),
        !(command.state is Clear) && command.url is Clear ==> *final(product) == spec_through_state_applied(*old(product), command),
        command_applicable(command) ==> spec_command_applied(*old(product), command, *final(product)),
{
    match command.address {
        PatchField::Unchanged => {},
        PatchField::SetTo(address) => product.address = address,
        PatchField::Clear => product.address = ProductAddress { structured: None, geo: None },
    }
    match command.pricing {
        PatchField::Unchanged => {},
        PatchField::SetTo(pricing) => product.pricing = pricing,
        PatchField::Clear => product.pricing = ProductPricing {
            native_price: None,
            native_price_estimate_min: None,
            native_price_estimate_max: None,
            fx_rate_id: None,
        },
    }
    match command.state {
        PatchField::Unchanged => {},
        PatchField::SetTo(state) => product.state = state,
        PatchField::Clear => return Err(UpdateProductError::InvalidProduct),
    }
    match command.url {
        PatchField::Unchanged => {},
        PatchField::SetTo(url) => product.url = url,
        PatchField::Clear => return Err(UpdateProductError::InvalidProduct),
    }
    match command.images {
        PatchField::Unchanged => {},
        PatchField::SetTo(images) => product.images = images,
        PatchField::Clear => product.images = ImageSet::new(),
    }
    match command.embedding {
        PatchField::Unchanged => {},
        PatchField::SetTo(embedding) => product.embedding = Some(embedding),
        PatchField::Clear => product.embedding = None,
    }
    match command.auction {
        PatchField::Unchanged => {},
        PatchField::SetTo(auction) => product.auction = auction,
        PatchField::Clear => product.auction = ProductAuction { start: None, end: None },
    }
    Ok(())
}

/// What an applied command does to each part of a product: a part left unchanged
/// keeps its value, a part set takes the value given, and a part cleared becomes empty
/// (no address, no prices and no rate, no images, no embedding, no auction times); the
/// identity, texts and lifecycle of the product are never touched.
pub proof fn lemma_command_parts(old: ProductStateSnapshot, command: UpdateProductCommand, new: ProductStateSnapshot)
    requires
        command_applicable(command),
        spec_command_applied(old, command, new),
    ensures
        new.id == old.id,
        new.slug_id == old.slug_id,
        new.shop_id == old.shop_id,
        new.seller_id == old.seller_id,
        new.shops_product_id == old.shops_product_id,
        new.title == old.title,
        new.description == old.description,
        new.lifecycle == old.lifecycle,
        command.address is Unchanged ==> new.address == old.address,
        command.address is SetTo ==> new.address == command.address->SetTo_0,
        command.address is Clear ==> new.address.structured is None && new.address.geo is None,
        command.pricing is Unchanged ==> new.pricing == old.pricing,
        command.pricing is SetTo ==> new.pricing == command.pricing->SetTo_0,
        command.pricing is Clear ==> {
            &&& new.pricing.native_price is None
            &&& new.pricing.native_price_estimate_min is None
            &&& new.pricing.native_price_estimate_max is None
            &&& new.pricing.fx_rate_id is None
        },
        command.state is Unchanged ==> new.state == old.state,
        command.state is SetTo ==> new.state == command.state->SetTo_0,
        command.url is Unchanged ==> new.url == old.url,
        command.url is SetTo ==> new.url == command.url->SetTo_0,
        command.images is Unchanged ==> new.images == old.images,
        command.images is SetTo ==> new.images == command.images->SetTo_0,
        command.images is Clear ==> new.images@.len() == 0,
        command.embedding is Unchanged ==> new.embedding == old.embedding,
        command.embedding is SetTo ==> new.embedding == Some(command.embedding->SetTo_0),
        command.embedding is Clear ==> new.embedding is None,
        command.auction is Unchanged ==> new.auction == old.auction,
        command.auction is SetTo ==> new.auction == command.auction->SetTo_0,
        command.auction is Clear ==> new.auction.start is None && new.auction.end is None,
{
}

/// A refused command leaves the parts after the refused one as they were: the images,
/// the embedding and the auction times always, the link too when the state is cleared.
pub proof fn lemma_refused_command_keeps_later_parts(
    old: ProductStateSnapshot,
    command: UpdateProductCommand,
    new: ProductStateSnapshot,
)
    requires
        command.state is Clear ==> new == spec_address_pricing_applied(old, command),
        !(command.state is Clear) && command.url is Clear ==> new == spec_through_state_applied(old, command),
        !command_applicable(command),
    ensures
        new.images == old.images,
        new.embedding == old.embedding,
        new.auction == old.auction,
        command.state is Clear ==> new.url == old.url && new.state == old.state,
        command.address is SetTo ==> new.address == command.address->SetTo_0,
        command.address is Clear ==> new.address.structured is None && new.address.geo is None,
        command.pricing is SetTo ==> new.pricing == command.pricing->SetTo_0,
{
}

/// How a failure of the product store is reported to the caller of an update.
pub open spec fn spec_map_repository_error(error: ProductRepositoryError) -> UpdateProductError {
    match error {
        ProductRepositoryError::ConcurrencyConflict => UpdateProductError::ConcurrencyConflict,
        ProductRepositoryError::TemporarilyUnavailable => UpdateProductError::TemporarilyUnavailable,
        ProductRepositoryError::InvalidPersistedState => UpdateProductError::InvalidProduct,
        ProductRepositoryError::ProductKeyConflict => UpdateProductError::Internal,
        ProductRepositoryError::SlugConflict => UpdateProductError::Internal,
        ProductRepositoryError::Internal => UpdateProductError::Internal,
    }
}

pub fn map_repository_error(error: ProductRepositoryError) -> (mapped: UpdateProductError)
    ensures
        mapped == spec_map_repository_error(error),
{
    match error {
        ProductRepositoryError::ConcurrencyConflict => UpdateProductError::ConcurrencyConflict,
        ProductRepositoryError::TemporarilyUnavailable => UpdateProductError::TemporarilyUnavailable,
        ProductRepositoryError::InvalidPersistedState => UpdateProductError::InvalidProduct,
        ProductRepositoryError::ProductKeyConflict
        | ProductRepositoryError::SlugConflict
        | ProductRepositoryError::Internal => UpdateProductError::Internal,
    }
}

/// How a failure of the event store is reported to the caller of an update.
pub open spec fn spec_map_event_store_error(error: ProductEventStoreError) -> UpdateProductError {
    match error {
        ProductEventStoreError::TemporarilyUnavailable => UpdateProductError::TemporarilyUnavailable,
        ProductEventStoreError::InvalidEvent => UpdateProductError::InvalidProduct,
        ProductEventStoreError::EventConflict => UpdateProductError::Internal,
        ProductEventStoreError::Internal => UpdateProductError::Internal,
    }
}

pub fn map_event_store_error(error: ProductEventStoreError) -> (mapped: UpdateProductError)
    ensures
        mapped == spec_map_event_store_error(error),
{
    match error {
        ProductEventStoreError::TemporarilyUnavailable => UpdateProductError::TemporarilyUnavailable,
        ProductEventStoreError::InvalidEvent => UpdateProductError::InvalidProduct,
        ProductEventStoreError::EventConflict | ProductEventStoreError::Internal => UpdateProductError::Internal,
    }
}

/// The event that becomes current after a change that emitted `events`: the last of
/// them, or, when there were none, the one that was current before.
pub fn current_event_after(events: &Vec<EventId>, expected: EventId) -> (current: EventId)
    ensures
        events@.len() > 0 ==> current == events@.last(),
        events@.len() == 0 ==> current == expected,
{
    if events.len() > 0 {
        events[events.len() - 1]
    } else {
        expected
    }
}

/// The event a creation is recorded under: the last event it emitted, if any.
pub fn created_event_id(events: &Vec<EventId>) -> (created: Option<EventId>)
    ensures
        events@.len() > 0 ==> created == Some(events@.last()),
        events@.len() == 0 ==> created is None,
{
    if events.len() > 0 {
        Some(events[events.len() - 1])
    } else {
        None
    }
}

} // verus!
