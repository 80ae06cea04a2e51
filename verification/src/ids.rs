//! Text form of the UUID identifiers, through the `uuid` crate.

use crate::domain::Uuid;
use vstd::arithmetic::power2::pow2;
use vstd::prelude::*;

verus! {

/// The lower-case hexadecimal digit of a value below 16.
pub open spec fn hex_digit(n: int) -> char {
    if n == 0 { '0' }
    else if n == 1 { '1' }
    else if n == 2 { '2' }
    else if n == 3 { '3' }
    else if n == 4 { '4' }
    else if n == 5 { '5' }
    else if n == 6 { '6' }
    else if n == 7 { '7' }
    else if n == 8 { '8' }
    else if n == 9 { '9' }
    else if n == 10 { 'a' }
    else if n == 11 { 'b' }
    else if n == 12 { 'c' }
    else if n == 13 { 'd' }
    else if n == 14 { 'e' }
    else { 'f' }
}

/// The `k`-th hexadecimal digit of `id`, counted from the most significant of its 32.
pub open spec fn uuid_nibble(id: u128, k: int) -> int {
    (id as int / pow2((4 * (31 - k)) as nat) as int) % 16
}

/// Which of the 32 digits stands at position `i` of the hyphenated text.
pub open spec fn uuid_digit_index(i: int) -> int {
    if i < 8 { i } else if i < 13 { i - 1 } else if i < 18 { i - 2 } else if i < 23 { i - 3 } else { i - 4 }
}

/// The hyphenated lower-case text of a UUID, as `uuid::Uuid`'s `Display` writes it:
/// its 32 hexadecimal digits, most significant first, in groups of 8, 4, 4, 4 and 12
/// separated by hyphens.
pub open spec fn spec_uuid_text(id: u128) -> Seq<char> {
    Seq::new(36, |i: int|
        if i == 8 || i == 13 || i == 18 || i == 23 {
            '-'
        } else {
            hex_digit(uuid_nibble(id, uuid_digit_index(i)))
        })
}

/// What `uuid::Uuid::parse_str` gives for a text: the UUID, or the text of its error.
pub uninterp spec fn spec_parse_uuid(text: Seq<char>) -> Result<u128, Seq<char>>;

/// A lower-case hexadecimal digit or a hyphen.
pub open spec fn is_uuid_text_char(c: char) -> bool {
    ('0' <= c && c <= '9') || ('a' <= c && c <= 'f') || c == '-'
}

/// The text of a UUID has 36 characters, each a lower-case hexadecimal digit or a
/// hyphen.
pub proof fn lemma_uuid_text_shape(id: u128)
    ensures
        spec_uuid_text(id).len() == 36,
        forall|i: int| 0 <= i < 36 ==> is_uuid_text_char(#[trigger] spec_uuid_text(id)[i]),
{
}

/// `uuid::Uuid::from_u128(id).to_string()`: the hyphenated form, which
/// `Uuid::parse_str` reads back to the same value.
#[verifier::external_body]
fn uuid_text(id: Uuid) -> (text: String)
    ensures
        text@ == spec_uuid_text(id),
        spec_parse_uuid(text@) is Ok,
        spec_parse_uuid(text@)->Ok_0 == id,
{
    uuid::Uuid::from_u128(id).to_string()
}

/// The hyphenated lower-case text of a UUID: 36 characters, each a lower-case
/// hexadecimal digit or a hyphen, which reads back to the same value.
pub(crate) fn uuid_to_string(id: Uuid) -> (text: String)
    ensures
        text@ == spec_uuid_text(id),
        text@.len() == 36,
        forall|i: int| 0 <= i < text@.len() ==> is_uuid_text_char(#[trigger] text@[i]),
        spec_parse_uuid(text@) is Ok,
        spec_parse_uuid(text@)->Ok_0 == id,
{
    let text = uuid_text(id);
    proof {
        lemma_uuid_text_shape(id);
    }
    text
}

/// `uuid::Uuid::parse_str(text)`, with the error turned into its message.
#[verifier::external_body]
pub(crate) fn parse_uuid(text: &str) -> (parsed: Result<Uuid, String>)
    ensures
        parsed is Ok <==> spec_parse_uuid(text@) is Ok,
        parsed is Ok ==> spec_parse_uuid(text@)->Ok_0 == parsed->Ok_0,
        parsed is Err ==> spec_parse_uuid(text@)->Err_0 == parsed->Err_0@,
{
    match uuid::Uuid::parse_str(text) {
        Ok(id) => Ok(id.as_u128()),
        Err(error) => Err(error.to_string()),
    }
}

/// `uuid::Uuid::new_v4()`: a fresh random identifier. Nothing is stated of its value.
#[verifier::external_body]
pub(crate) fn new_uuid() -> (id: Uuid) {
    uuid::Uuid::new_v4().as_u128()
}

} // verus!
