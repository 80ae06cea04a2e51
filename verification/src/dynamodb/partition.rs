//! Reading the items of a product partition: which item is which, and how the
//! materialized record and the domain events are gathered from them.

use crate::domain::ProductId;
use crate::dynamodb::product_event_record::domain::ProductDomainEventRecord;
use crate::dynamodb::product_record::ProductRecord;
use crate::ids::{parse_uuid, spec_parse_uuid};
use crate::text::{has_prefix, starts_with, str_eq};
use vstd::prelude::*;

verus! {

/// What the sort key of an item of a product partition says it is.
#[derive(Clone, Copy, Debug, PartialEq, Eq, Structural, Hash)]
pub enum PartitionItemKind {
    /// The materialized record.
    Materialized,
    /// The record of a domain event.
    DomainEvent,
    /// An item of another kind, which is skipped.
    Unknown,
    /// An item without a text sort key, which is skipped.
    MissingSortKey,
}

/// The kind of an item by its sort key.
pub open spec fn spec_item_kind(sk: Option<Seq<char>>) -> PartitionItemKind {
    match sk {
        None => PartitionItemKind::MissingSortKey,
        Some(sk) => if sk == "product#materialized"@ {
            PartitionItemKind::Materialized
        } else if has_prefix(sk, "product#event#domain#"@) {
            PartitionItemKind::DomainEvent
        } else {
            PartitionItemKind::Unknown
        },
    }
}

/// The kind of an item whose sort key is `sk`, `None` when it has no text sort key.
pub fn classify_sort_key(sk: Option<&str>) -> (kind: PartitionItemKind)
    ensures
        kind == spec_item_kind(match sk { Some(s) => Some(s@), None => None }),
{
    match sk {
        None => PartitionItemKind::MissingSortKey,
        Some(sk) => {
            if str_eq(sk, "product#materialized") {
                PartitionItemKind::Materialized
            } else if starts_with(sk, "product#event#domain#") {
                PartitionItemKind::DomainEvent
            } else {
                PartitionItemKind::Unknown
            }
        },
    }
}

/// An item of a product partition as read: a materialized record or a domain event
/// record that could be decoded, or an item that is skipped.
#[derive(Debug)]
pub enum PartitionItem {
    Materialized(ProductRecord),
    DomainEvent(ProductDomainEventRecord),
    Skipped,
}

/// The last materialized record among the items.
pub open spec fn last_materialized(items: Seq<PartitionItem>) -> Option<ProductRecord>
    decreases items.len(),
{
    if items.len() == 0 {
        None
    } else {
        match items.last() {
            PartitionItem::Materialized(record) => Some(record),
            _ => last_materialized(items.drop_last()),
        }
    }
}

/// The domain event records among the items, in order.
pub open spec fn domain_events(items: Seq<PartitionItem>) -> Seq<ProductDomainEventRecord>
    decreases items.len(),
{
    if items.len() == 0 {
        Seq::empty()
    } else {
        match items.last() {
            PartitionItem::DomainEvent(event) => domain_events(items.drop_last()).push(event),
            _ => domain_events(items.drop_last()),
        }
    }
}

/// Gathers the items of a partition, in the order they were read: the materialized
/// record (the last one read, should there be several) with the domain events; `None`
/// when there is no materialized record, even if there are events.
pub fn gather_partition(items: Vec<PartitionItem>) -> (gathered: Option<(ProductRecord, Vec<ProductDomainEventRecord>)>)
    ensures
        gathered is Some <==> last_materialized(items@) is Some,
        gathered matches Some((record, events)) ==> record == last_materialized(items@)->0
            && events@ == domain_events(items@),
{
    let ghost all = items@;
    let mut materialized: Option<ProductRecord> = None;
    let mut events: Vec<ProductDomainEventRecord> = Vec::new();
    let mut rest = items;
    let n = rest.len();
    let mut i: usize = 0;
    while i < n
        invariant
            n == all.len(),
            i <= n,
            rest@ == all.subrange(i as int, n as int),
            materialized == last_materialized(all.take(i as int)),
            events@ == domain_events(all.take(i as int)),
        decreases n - i,
    {
        let item = rest.remove(0);
        assert(item == all[i as int]);
        assert(all.take(i + 1).drop_last() =~= all.take(i as int));
        assert(all.take(i + 1).last() == item);
        match item {
            PartitionItem::Materialized(record) => {
                materialized = Some(record);
            },
            PartitionItem::DomainEvent(event) => {
                events.push(event);
            },
            PartitionItem::Skipped => {},
        }
        assert(rest@ =~= all.subrange(i + 1, n as int));
        i = i + 1;
    }
    assert(all.take(n as int) =~= all);
    match materialized {
        Some(record) => Some((record, events)),
        None => None,
    }
}

/// Why an item does not name a product identifier.
#[derive(Debug)]
pub enum ExtractIdError {
    /// The item has no `product_id` attribute.
    MissingProductId,
    /// The `product_id` attribute is not a string.
    ProductIdNotAString,
    /// The attribute is not a UUID; the message is the UUID parser's.
    InvalidProductId(String),
}

/// The product identifier in the `product_id` attribute of an item: `None` when the
/// item has no such attribute, `Some(None)` when it is not a string.
pub fn extract_product_id(product_id: Option<Option<&str>>) -> (id: Result<ProductId, ExtractIdError>)
    ensures
        product_id is None ==> id matches Err(ExtractIdError::MissingProductId),
        product_id matches Some(None) ==> id matches Err(ExtractIdError::ProductIdNotAString),
        product_id matches Some(Some(text)) ==> match id {
            Ok(value) => spec_parse_uuid(text@) is Ok && spec_parse_uuid(text@)->Ok_0 == value,
            Err(ExtractIdError::InvalidProductId(message)) => spec_parse_uuid(text@) is Err
                && spec_parse_uuid(text@)->Err_0 == message@,
            Err(_) => false,
        },
{
    match product_id {
        None => Err(ExtractIdError::MissingProductId),
        Some(None) => Err(ExtractIdError::ProductIdNotAString),
        Some(Some(text)) => match parse_uuid(text) {
            Ok(id) => Ok(id),
            Err(message) => Err(ExtractIdError::InvalidProductId(message)),
        },
    }
}

} // verus!
