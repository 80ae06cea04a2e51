//! Absolute URLs, through the `url` crate.

use vstd::prelude::*;

verus! {

/// The serialization of the URL that the `url` crate parses from a text, or `None`
/// when the text is not an absolute URL.
pub uninterp spec fn spec_parse_url(text: Seq<char>) -> Option<Seq<char>>;

/// `url::Url::parse(text)`, the parsed URL turned into its serialization; `None` when
/// `parse` returns its error.
#[verifier::external_body]
pub(crate) fn parse_url(text: &str) -> (parsed: Option<String>)
    ensures
        parsed is Some <==> spec_parse_url(text@) is Some,
        parsed is Some ==> parsed->0@ == spec_parse_url(text@)->0,
{
    match url::Url::parse(text) {
        Ok(url) => Some(String::from(url)),
        Err(_) => None,
    }
}

} // verus!
