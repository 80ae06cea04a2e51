//! ISO 3166-1 country codes, through the `isocountry` crate.

use vstd::prelude::*;

verus! {

/// The alpha-2 code `isocountry` gives for an upper-case alpha-3 code, or `None` when
/// it knows no such country.
pub uninterp spec fn spec_alpha2_of_alpha3(alpha3: Seq<char>) -> Option<Seq<char>>;

/// `isocountry::CountryCode::for_alpha3(alpha3)`, then `alpha2()` of the country found;
/// `None` when `for_alpha3` returns its error.
#[verifier::external_body]
pub(crate) fn alpha2_of_alpha3(alpha3: &str) -> (alpha2: Option<String>)
    ensures
        alpha2 is Some <==> spec_alpha2_of_alpha3(alpha3@) is Some,
        alpha2 is Some ==> alpha2->0@ == spec_alpha2_of_alpha3(alpha3@)->0,
{
    match isocountry::CountryCode::for_alpha3(alpha3) {
        Ok(code) => Some(code.alpha2().to_string()),
        Err(_) => None,
    }
}

} // verus!
