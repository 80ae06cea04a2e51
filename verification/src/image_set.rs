//! Insertion-ordered sets of images, through the `indexmap` crate: an image is kept
//! by its address and the code of its screening outcome, and a repeated one is dropped.

use crate::values::ProhibitedContent;
use indexmap::IndexSet;
use vstd::prelude::*;

verus! {

#[verifier::external_type_specification]
#[verifier::external_body]
#[verifier::reject_recursive_types(T)]
#[verifier::reject_recursive_types(S)]
pub struct ExIndexSet<T, S>(IndexSet<T, S>);

/// The items of an insertion-ordered set of image keys (address and outcome code), in
/// the order they were first inserted.
pub uninterp spec fn image_key_set_items(set: IndexSet<(String, u8)>) -> Seq<(Seq<char>, u8)>;

/// The code under which a screening outcome is kept in a set of image keys.
pub open spec fn prohibited_code(prohibited_content: ProhibitedContent) -> u8 {
    match prohibited_content {
        ProhibitedContent::Unknown => 0,
        ProhibitedContent::NoneDetected => 1,
        ProhibitedContent::NaziGermany => 2,
    }
}

/// Two outcomes with the same code are the same outcome.
pub proof fn lemma_prohibited_code_injective(a: ProhibitedContent, b: ProhibitedContent)
    ensures
        prohibited_code(a) == prohibited_code(b) <==> a == b,
{
}

/// The code under which a screening outcome is kept in a set of image keys.
pub fn prohibited_content_code(prohibited_content: ProhibitedContent) -> (code: u8)
    ensures
        code == prohibited_code(prohibited_content),
{
    match prohibited_content {
        ProhibitedContent::Unknown => 0,
        ProhibitedContent::NoneDetected => 1,
        ProhibitedContent::NaziGermany => 2,
    }
}

/// `IndexSet::new()`: a set without items.
#[verifier::external_body]
pub(crate) fn new_image_key_set() -> (set: IndexSet<(String, u8)>)
    ensures
        image_key_set_items(set) == Seq::<(Seq<char>, u8)>::empty(),
{
    IndexSet::new()
}

/// `IndexSet::insert((url, code))`. As `indexmap` documents it: when an equal item is
/// already in the set, the set is left as it is and `false` is returned; otherwise the
/// item is added after the others and `true` is returned. Items are compared by the
/// equality of `String` and of `u8`.
#[verifier::external_body]
pub(crate) fn insert_image_key(set: &mut IndexSet<(String, u8)>, url: String, code: u8) -> (inserted: bool)
    ensures
        inserted == !image_key_set_items(*old(set)).contains((url@, code)),
        inserted ==> image_key_set_items(*final(set)) == image_key_set_items(*old(set)).push((url@, code)),
        !inserted ==> image_key_set_items(*final(set)) == image_key_set_items(*old(set)),
{
    set.insert((url, code))
}

} // verus!
