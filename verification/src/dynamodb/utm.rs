//! Referral parameters on the links that lead visitors to a shop.

use vstd::prelude::*;

verus! {

/// The decoded keys of the query pairs of `url`, in order, as the `url` crate reads
/// them; `None` when `url` does not parse as an absolute URL.
pub uninterp spec fn spec_url_query_keys(url: Seq<char>) -> Option<Seq<Seq<char>>>;

/// The serialization of `url` after the `url` crate appended the query pair
/// `key=value`; `None` when `url` does not parse as an absolute URL.
pub uninterp spec fn spec_url_append_pair(url: Seq<char>, key: Seq<char>, value: Seq<char>) -> Option<Seq<char>>;

/// `Url::parse(url)` followed by the keys of `Url::query_pairs`.
#[verifier::external_body]
fn url_query_keys(url: &str) -> (keys: Option<Vec<String>>)
    ensures
        keys is Some <==> spec_url_query_keys(url@) is Some,
        keys is Some ==> keys->0.deep_view() == spec_url_query_keys(url@)->0,
{
    match url::Url::parse(url) {
        Ok(parsed) => Some(parsed.query_pairs().map(|(key, _)| key.into_owned()).collect()),
        Err(_) => None,
    }
}

/// `Url::parse(url)`, then `Url::query_pairs_mut().append_pair(key, value)`, then the
/// serialization of the URL. The call fails exactly when `Url::parse` does, as the keys
/// of `url_query_keys` do. `append_pair` writes the pair form-urlencoded after the query,
/// separated from it by `&` when the query is not empty, so the keys of the result
/// are those of `url` followed by `key`.
#[verifier::external_body]
fn url_append_query_pair(url: &str, key: &str, value: &str) -> (appended: Option<String>)
    ensures
        appended is Some <==> spec_url_append_pair(url@, key@, value@) is Some,
        appended is Some ==> appended->0@ == spec_url_append_pair(url@, key@, value@)->0,
        appended is Some <==> spec_url_query_keys(url@) is Some,
        appended is Some ==> spec_url_query_keys(appended->0@) == Some(spec_url_query_keys(url@)->0.push(key@)),
{
    match url::Url::parse(url) {
        Ok(mut parsed) => {
            parsed.query_pairs_mut().append_pair(key, value);
            Some(String::from(parsed))
        },
        Err(_) => None,
    }
}

/// `url` with `utm_source=aura_historia` and then `utm_medium=referral` appended to
/// its query, unless its query already has a `utm_source` key; a text that is not a
/// URL is returned as it is.
pub open spec fn spec_append_utm_params(url: Seq<char>) -> Seq<char> {
    match spec_url_query_keys(url) {
        None => url,
        Some(keys) => if keys.contains("utm_source"@) {
            url
        } else {
            match spec_url_append_pair(url, "utm_source"@, "aura_historia"@) {
                None => url,
                Some(with_source) => match spec_url_append_pair(with_source, "utm_medium"@, "referral"@) {
                    None => with_source,
                    Some(with_both) => with_both,
                },
            }
        },
    }
}

/// Whether one of the keys is `utm_source`.
fn has_utm_source(keys: &Vec<String>) -> (found: bool)
    ensures
        found == keys.deep_view().contains("utm_source"@),
{
    let n = keys.len();
    for i in 0..n
        invariant
            n == keys.deep_view().len(),
            forall|k: int| 0 <= k < i ==> keys.deep_view()[k] != "utm_source"@,
    {
        if crate::text::str_eq(keys[i].as_str(), "utm_source") {
            assert(keys.deep_view()[i as int] == "utm_source"@);
            return true;
        }
    }
    false
}

/// Marks a link to a shop as a referral from this site. Marking a marked link again
/// leaves it as it is.
pub fn append_utm_params(url: String) -> (marked: String)
    ensures
        marked@ == spec_append_utm_params(url@),
        spec_append_utm_params(marked@) == marked@,
{
    match url_query_keys(url.as_str()) {
        None => url,
        Some(keys) => {
            if has_utm_source(&keys) {
                url
            } else {
                match url_append_query_pair(url.as_str(), "utm_source", "aura_historia") {
                    None => url,
                    Some(with_source) => {
                        let ghost keys_with_source = spec_url_query_keys(with_source@)->0;
                        assert(keys_with_source[keys_with_source.len() - 1] == "utm_source"@);
                        match url_append_query_pair(with_source.as_str(), "utm_medium", "referral") {
                            None => with_source,
                            Some(with_both) => {
                                let ghost keys_with_both = spec_url_query_keys(with_both@)->0;
                                assert(keys_with_both[keys_with_source.len() - 1] == "utm_source"@);
                                assert(keys_with_both.contains("utm_source"@));
                                with_both
                            },
                        }
                    },
                }
            }
        },
    }
}

} // verus!
