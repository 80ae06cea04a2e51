//! The codes under which the relational store keeps languages, currencies, states,
//! lifecycles and screening outcomes, and how they are read back.

use crate::opensearch::product_state_document::product_state_document_of_product_state;
use crate::postgres::errors::ProductRepositoryError;
use crate::text::{ascii_caseless_eq, ascii_lower_code, eq_ignore_ascii_case, str_eq};
use crate::values::{Currency, Language, ProductLifecycle, ProductState, ProhibitedContent};
use vstd::prelude::*;

verus! {

/// The code of a language: its ISO 639-1 code in lower case.
pub open spec fn spec_language_code(value: Language) -> Seq<char> {
    match value {
        Language::De => "de"@,
        Language::En => "en"@,
        Language::Fr => "fr"@,
        Language::Es => "es"@,
        Language::It => "it"@,
        Language::Zh => "zh"@,
        Language::Pt => "pt"@,
        Language::Pl => "pl"@,
        Language::Tr => "tr"@,
        Language::Nl => "nl"@,
        Language::Cs => "cs"@,
        Language::Ja => "ja"@,
        Language::Ru => "ru"@,
        Language::Ar => "ar"@,
    }
}

pub fn language_as_str(value: Language) -> (code: &'static str)
    ensures
        code@ == spec_language_code(value),
{
    match value {
        Language::De => "de",
        Language::En => "en",
        Language::Fr => "fr",
        Language::Es => "es",
        Language::It => "it",
        Language::Zh => "zh",
        Language::Pt => "pt",
        Language::Pl => "pl",
        Language::Tr => "tr",
        Language::Nl => "nl",
        Language::Cs => "cs",
        Language::Ja => "ja",
        Language::Ru => "ru",
        Language::Ar => "ar",
    }
}

/// The language a stored code names, in any case of letters.
pub open spec fn spec_parse_language(value: Seq<char>) -> Result<Language, ProductRepositoryError> {
    if ascii_caseless_eq(value, "de"@) {
        Ok(Language::De)
    } else if ascii_caseless_eq(value, "en"@) {
        Ok(Language::En)
    } else if ascii_caseless_eq(value, "fr"@) {
        Ok(Language::Fr)
    } else if ascii_caseless_eq(value, "es"@) {
        Ok(Language::Es)
    } else if ascii_caseless_eq(value, "it"@) {
        Ok(Language::It)
    } else if ascii_caseless_eq(value, "zh"@) {
        Ok(Language::Zh)
    } else if ascii_caseless_eq(value, "pt"@) {
        Ok(Language::Pt)
    } else if ascii_caseless_eq(value, "pl"@) {
        Ok(Language::Pl)
    } else if ascii_caseless_eq(value, "tr"@) {
        Ok(Language::Tr)
    } else if ascii_caseless_eq(value, "nl"@) {
        Ok(Language::Nl)
    } else if ascii_caseless_eq(value, "cs"@) {
        Ok(Language::Cs)
    } else if ascii_caseless_eq(value, "ja"@) {
        Ok(Language::Ja)
    } else if ascii_caseless_eq(value, "ru"@) {
        Ok(Language::Ru)
    } else if ascii_caseless_eq(value, "ar"@) {
        Ok(Language::Ar)
    } else {
        Err(ProductRepositoryError::InvalidPersistedState)
    }
}

pub fn parse_language(value: &str) -> (parsed: Result<Language, ProductRepositoryError>)
    ensures
        parsed == spec_parse_language(value@),
{
    if eq_ignore_ascii_case(value, "de") {
        return Ok(Language::De);
    }
    if eq_ignore_ascii_case(value, "en") {
        return Ok(Language::En);
    }
    if eq_ignore_ascii_case(value, "fr") {
        return Ok(Language::Fr);
    }
    if eq_ignore_ascii_case(value, "es") {
        return Ok(Language::Es);
    }
    if eq_ignore_ascii_case(value, "it") {
        return Ok(Language::It);
    }
    if eq_ignore_ascii_case(value, "zh") {
        return Ok(Language::Zh);
    }
    if eq_ignore_ascii_case(value, "pt") {
        return Ok(Language::Pt);
    }
    if eq_ignore_ascii_case(value, "pl") {
        return Ok(Language::Pl);
    }
    if eq_ignore_ascii_case(value, "tr") {
        return Ok(Language::Tr);
    }
    if eq_ignore_ascii_case(value, "nl") {
        return Ok(Language::Nl);
    }
    if eq_ignore_ascii_case(value, "cs") {
        return Ok(Language::Cs);
    }
    if eq_ignore_ascii_case(value, "ja") {
        return Ok(Language::Ja);
    }
    if eq_ignore_ascii_case(value, "ru") {
        return Ok(Language::Ru);
    }
    if eq_ignore_ascii_case(value, "ar") {
        return Ok(Language::Ar);
    }
    Err(ProductRepositoryError::InvalidPersistedState)
}

/// Reading back the code of a value gives the value.
pub proof fn lemma_language_code_round_trip(value: Language)
    ensures
        spec_parse_language(spec_language_code(value)) == Ok::<Language, ProductRepositoryError>(value),
{
    reveal_strlit("de");
    reveal_strlit("en");
    reveal_strlit("fr");
    reveal_strlit("es");
    reveal_strlit("it");
    reveal_strlit("zh");
    reveal_strlit("pt");
    reveal_strlit("pl");
    reveal_strlit("tr");
    reveal_strlit("nl");
    reveal_strlit("cs");
    reveal_strlit("ja");
    reveal_strlit("ru");
    reveal_strlit("ar");
    match value {
        Language::De => {
            assert(ascii_caseless_eq("de"@, "de"@));
        },
        Language::En => {
            assert(ascii_caseless_eq("en"@, "en"@));
            assert(ascii_lower_code("en"@[0]) != ascii_lower_code("de"@[0]));
        },
        Language::Fr => {
            assert(ascii_caseless_eq("fr"@, "fr"@));
            assert(ascii_lower_code("fr"@[0]) != ascii_lower_code("de"@[0]));
            assert(ascii_lower_code("fr"@[0]) != ascii_lower_code("en"@[0]));
        },
        Language::Es => {
            assert(ascii_caseless_eq("es"@, "es"@));
            assert(ascii_lower_code("es"@[0]) != ascii_lower_code("de"@[0]));
            assert(ascii_lower_code("es"@[1]) != ascii_lower_code("en"@[1]));
            assert(ascii_lower_code("es"@[0]) != ascii_lower_code("fr"@[0]));
        },
        Language::It => {
            assert(ascii_caseless_eq("it"@, "it"@));
            assert(ascii_lower_code("it"@[0]) != ascii_lower_code("de"@[0]));
            assert(ascii_lower_code("it"@[0]) != ascii_lower_code("en"@[0]));
            assert(ascii_lower_code("it"@[0]) != ascii_lower_code("fr"@[0]));
            assert(ascii_lower_code("it"@[0]) != ascii_lower_code("es"@[0]));
        },
        Language::Zh => {
            assert(ascii_caseless_eq("zh"@, "zh"@));
            assert(ascii_lower_code("zh"@[0]) != ascii_lower_code("de"@[0]));
            assert(ascii_lower_code("zh"@[0]) != ascii_lower_code("en"@[0]));
            assert(ascii_lower_code("zh"@[0]) != ascii_lower_code("fr"@[0]));
            assert(ascii_lower_code("zh"@[0]) != ascii_lower_code("es"@[0]));
            assert(ascii_lower_code("zh"@[0]) != ascii_lower_code("it"@[0]));
        },
        Language::Pt => {
            assert(ascii_caseless_eq("pt"@, "pt"@));
            assert(ascii_lower_code("pt"@[0]) != ascii_lower_code("de"@[0]));
            assert(ascii_lower_code("pt"@[0]) != ascii_lower_code("en"@[0]));
            assert(ascii_lower_code("pt"@[0]) != ascii_lower_code("fr"@[0]));
            assert(ascii_lower_code("pt"@[0]) != ascii_lower_code("es"@[0]));
            assert(ascii_lower_code("pt"@[0]) != ascii_lower_code("it"@[0]));
            assert(ascii_lower_code("pt"@[0]) != ascii_lower_code("zh"@[0]));
        },
        Language::Pl => {
            assert(ascii_caseless_eq("pl"@, "pl"@));
            assert(ascii_lower_code("pl"@[0]) != ascii_lower_code("de"@[0]));
            assert(ascii_lower_code("pl"@[0]) != ascii_lower_code("en"@[0]));
            assert(ascii_lower_code("pl"@[0]) != ascii_lower_code("fr"@[0]));
            assert(ascii_lower_code("pl"@[0]) != ascii_lower_code("es"@[0]));
            assert(ascii_lower_code("pl"@[0]) != ascii_lower_code("it"@[0]));
            assert(ascii_lower_code("pl"@[0]) != ascii_lower_code("zh"@[0]));
            assert(ascii_lower_code("pl"@[1]) != ascii_lower_code("pt"@[1]));
        },
        Language::Tr => {
            assert(ascii_caseless_eq("tr"@, "tr"@));
            assert(ascii_lower_code("tr"@[0]) != ascii_lower_code("de"@[0]));
            assert(ascii_lower_code("tr"@[0]) != ascii_lower_code("en"@[0]));
            assert(ascii_lower_code("tr"@[0]) != ascii_lower_code("fr"@[0]));
            assert(ascii_lower_code("tr"@[0]) != ascii_lower_code("es"@[0]));
            assert(ascii_lower_code("tr"@[0]) != ascii_lower_code("it"@[0]));
            assert(ascii_lower_code("tr"@[0]) != ascii_lower_code("zh"@[0]));
            assert(ascii_lower_code("tr"@[0]) != ascii_lower_code("pt"@[0]));
            assert(ascii_lower_code("tr"@[0]) != ascii_lower_code("pl"@[0]));
        },
        Language::Nl => {
            assert(ascii_caseless_eq("nl"@, "nl"@));
            assert(ascii_lower_code("nl"@[0]) != ascii_lower_code("de"@[0]));
            assert(ascii_lower_code("nl"@[0]) != ascii_lower_code("en"@[0]));
            assert(ascii_lower_code("nl"@[0]) != ascii_lower_code("fr"@[0]));
            assert(ascii_lower_code("nl"@[0]) != ascii_lower_code("es"@[0]));
            assert(ascii_lower_code("nl"@[0]) != ascii_lower_code("it"@[0]));
            assert(ascii_lower_code("nl"@[0]) != ascii_lower_code("zh"@[0]));
            assert(ascii_lower_code("nl"@[0]) != ascii_lower_code("pt"@[0]));
            assert(ascii_lower_code("nl"@[0]) != ascii_lower_code("pl"@[0]));
            assert(ascii_lower_code("nl"@[0]) != ascii_lower_code("tr"@[0]));
        },
        Language::Cs => {
            assert(ascii_caseless_eq("cs"@, "cs"@));
            assert(ascii_lower_code("cs"@[0]) != ascii_lower_code("de"@[0]));
            assert(ascii_lower_code("cs"@[0]) != ascii_lower_code("en"@[0]));
            assert(ascii_lower_code("cs"@[0]) != ascii_lower_code("fr"@[0]));
            assert(ascii_lower_code("cs"@[0]) != ascii_lower_code("es"@[0]));
            assert(ascii_lower_code("cs"@[0]) != ascii_lower_code("it"@[0]));
            assert(ascii_lower_code("cs"@[0]) != ascii_lower_code("zh"@[0]));
            assert(ascii_lower_code("cs"@[0]) != ascii_lower_code("pt"@[0]));
            assert(ascii_lower_code("cs"@[0]) != ascii_lower_code("pl"@[0]));
            assert(ascii_lower_code("cs"@[0]) != ascii_lower_code("tr"@[0]));
            assert(ascii_lower_code("cs"@[0]) != ascii_lower_code("nl"@[0]));
        },
        Language::Ja => {
            assert(ascii_caseless_eq("ja"@, "ja"@));
            assert(ascii_lower_code("ja"@[0]) != ascii_lower_code("de"@[0]));
            assert(ascii_lower_code("ja"@[0]) != ascii_lower_code("en"@[0]));
            assert(ascii_lower_code("ja"@[0]) != ascii_lower_code("fr"@[0]));
            assert(ascii_lower_code("ja"@[0]) != ascii_lower_code("es"@[0]));
            assert(ascii_lower_code("ja"@[0]) != ascii_lower_code("it"@[0]));
            assert(ascii_lower_code("ja"@[0]) != ascii_lower_code("zh"@[0]));
            assert(ascii_lower_code("ja"@[0]) != ascii_lower_code("pt"@[0]));
            assert(ascii_lower_code("ja"@[0]) != ascii_lower_code("pl"@[0]));
            assert(ascii_lower_code("ja"@[0]) != ascii_lower_code("tr"@[0]));
            assert(ascii_lower_code("ja"@[0]) != ascii_lower_code("nl"@[0]));
            assert(ascii_lower_code("ja"@[0]) != ascii_lower_code("cs"@[0]));
        },
        Language::Ru => {
            assert(ascii_caseless_eq("ru"@, "ru"@));
            assert(ascii_lower_code("ru"@[0]) != ascii_lower_code("de"@[0]));
            assert(ascii_lower_code("ru"@[0]) != ascii_lower_code("en"@[0]));
            assert(ascii_lower_code("ru"@[0]) != ascii_lower_code("fr"@[0]));
            assert(ascii_lower_code("ru"@[0]) != ascii_lower_code("es"@[0]));
            assert(ascii_lower_code("ru"@[0]) != ascii_lower_code("it"@[0]));
            assert(ascii_lower_code("ru"@[0]) != ascii_lower_code("zh"@[0]));
            assert(ascii_lower_code("ru"@[0]) != ascii_lower_code("pt"@[0]));
            assert(ascii_lower_code("ru"@[0]) != ascii_lower_code("pl"@[0]));
            assert(ascii_lower_code("ru"@[0]) != ascii_lower_code("tr"@[0]));
            assert(ascii_lower_code("ru"@[0]) != ascii_lower_code("nl"@[0]));
            assert(ascii_lower_code("ru"@[0]) != ascii_lower_code("cs"@[0]));
            assert(ascii_lower_code("ru"@[0]) != ascii_lower_code("ja"@[0]));
        },
        Language::Ar => {
            assert(ascii_caseless_eq("ar"@, "ar"@));
            assert(ascii_lower_code("ar"@[0]) != ascii_lower_code("de"@[0]));
            assert(ascii_lower_code("ar"@[0]) != ascii_lower_code("en"@[0]));
            assert(ascii_lower_code("ar"@[0]) != ascii_lower_code("fr"@[0]));
            assert(ascii_lower_code("ar"@[0]) != ascii_lower_code("es"@[0]));
            assert(ascii_lower_code("ar"@[0]) != ascii_lower_code("it"@[0]));
            assert(ascii_lower_code("ar"@[0]) != ascii_lower_code("zh"@[0]));
            assert(ascii_lower_code("ar"@[0]) != ascii_lower_code("pt"@[0]));
            assert(ascii_lower_code("ar"@[0]) != ascii_lower_code("pl"@[0]));
            assert(ascii_lower_code("ar"@[0]) != ascii_lower_code("tr"@[0]));
            assert(ascii_lower_code("ar"@[0]) != ascii_lower_code("nl"@[0]));
            assert(ascii_lower_code("ar"@[0]) != ascii_lower_code("cs"@[0]));
            assert(ascii_lower_code("ar"@[0]) != ascii_lower_code("ja"@[0]));
            assert(ascii_lower_code("ar"@[0]) != ascii_lower_code("ru"@[0]));
        },
    }
}

/// The code of a currency: its ISO 4217 code in upper case.
pub open spec fn spec_currency_code(value: Currency) -> Seq<char> {
    match value {
        Currency::Eur => "EUR"@,
        Currency::Gbp => "GBP"@,
        Currency::Usd => "USD"@,
        Currency::Aud => "AUD"@,
        Currency::Cad => "CAD"@,
        Currency::Nzd => "NZD"@,
        Currency::Cny => "CNY"@,
        Currency::Brl => "BRL"@,
        Currency::Pln => "PLN"@,
        Currency::Try => "TRY"@,
        Currency::Jpy => "JPY"@,
        Currency::Czk => "CZK"@,
        Currency::Rub => "RUB"@,
        Currency::Aed => "AED"@,
        Currency::Sar => "SAR"@,
        Currency::Hkd => "HKD"@,
        Currency::Sgd => "SGD"@,
        Currency::Chf => "CHF"@,
    }
}

pub fn currency_as_str(value: Currency) -> (code: &'static str)
    ensures
        code@ == spec_currency_code(value),
{
    match value {
        Currency::Eur => "EUR",
        Currency::Gbp => "GBP",
        Currency::Usd => "USD",
        Currency::Aud => "AUD",
        Currency::Cad => "CAD",
        Currency::Nzd => "NZD",
        Currency::Cny => "CNY",
        Currency::Brl => "BRL",
        Currency::Pln => "PLN",
        Currency::Try => "TRY",
        Currency::Jpy => "JPY",
        Currency::Czk => "CZK",
        Currency::Rub => "RUB",
        Currency::Aed => "AED",
        Currency::Sar => "SAR",
        Currency::Hkd => "HKD",
        Currency::Sgd => "SGD",
        Currency::Chf => "CHF",
    }
}

/// The currency a stored code names, in any case of letters.
pub open spec fn spec_parse_currency(value: Seq<char>) -> Result<Currency, ProductRepositoryError> {
    if ascii_caseless_eq(value, "EUR"@) {
        Ok(Currency::Eur)
    } else if ascii_caseless_eq(value, "GBP"@) {
        Ok(Currency::Gbp)
    } else if ascii_caseless_eq(value, "USD"@) {
        Ok(Currency::Usd)
    } else if ascii_caseless_eq(value, "AUD"@) {
        Ok(Currency::Aud)
    } else if ascii_caseless_eq(value, "CAD"@) {
        Ok(Currency::Cad)
    } else if ascii_caseless_eq(value, "NZD"@) {
        Ok(Currency::Nzd)
    } else if ascii_caseless_eq(value, "CNY"@) {
        Ok(Currency::Cny)
    } else if ascii_caseless_eq(value, "BRL"@) {
        Ok(Currency::Brl)
    } else if ascii_caseless_eq(value, "PLN"@) {
        Ok(Currency::Pln)
    } else if ascii_caseless_eq(value, "TRY"@) {
        Ok(Currency::Try)
    } else if ascii_caseless_eq(value, "JPY"@) {
        Ok(Currency::Jpy)
    } else if ascii_caseless_eq(value, "CZK"@) {
        Ok(Currency::Czk)
    } else if ascii_caseless_eq(value, "RUB"@) {
        Ok(Currency::Rub)
    } else if ascii_caseless_eq(value, "AED"@) {
        Ok(Currency::Aed)
    } else if ascii_caseless_eq(value, "SAR"@) {
        Ok(Currency::Sar)
    } else if ascii_caseless_eq(value, "HKD"@) {
        Ok(Currency::Hkd)
    } else if ascii_caseless_eq(value, "SGD"@) {
        Ok(Currency::Sgd)
    } else if ascii_caseless_eq(value, "CHF"@) {
        Ok(Currency::Chf)
    } else {
        Err(ProductRepositoryError::InvalidPersistedState)
    }
}

pub fn parse_currency(value: &str) -> (parsed: Result<Currency, ProductRepositoryError>)
    ensures
        parsed == spec_parse_currency(value@),
{
    if eq_ignore_ascii_case(value, "EUR") {
        return Ok(Currency::Eur);
    }
    if eq_ignore_ascii_case(value, "GBP") {
        return Ok(Currency::Gbp);
    }
    if eq_ignore_ascii_case(value, "USD") {
        return Ok(Currency::Usd);
    }
    if eq_ignore_ascii_case(value, "AUD") {
        return Ok(Currency::Aud);
    }
    if eq_ignore_ascii_case(value, "CAD") {
        return Ok(Currency::Cad);
    }
    if eq_ignore_ascii_case(value, "NZD") {
        return Ok(Currency::Nzd);
    }
    if eq_ignore_ascii_case(value, "CNY") {
        return Ok(Currency::Cny);
    }
    if eq_ignore_ascii_case(value, "BRL") {
        return Ok(Currency::Brl);
    }
    if eq_ignore_ascii_case(value, "PLN") {
        return Ok(Currency::Pln);
    }
    if eq_ignore_ascii_case(value, "TRY") {
        return Ok(Currency::Try);
    }
    if eq_ignore_ascii_case(value, "JPY") {
        return Ok(Currency::Jpy);
    }
    if eq_ignore_ascii_case(value, "CZK") {
        return Ok(Currency::Czk);
    }
    if eq_ignore_ascii_case(value, "RUB") {
        return Ok(Currency::Rub);
    }
    if eq_ignore_ascii_case(value, "AED") {
        return Ok(Currency::Aed);
    }
    if eq_ignore_ascii_case(value, "SAR") {
        return Ok(Currency::Sar);
    }
    if eq_ignore_ascii_case(value, "HKD") {
        return Ok(Currency::Hkd);
    }
    if eq_ignore_ascii_case(value, "SGD") {
        return Ok(Currency::Sgd);
    }
    if eq_ignore_ascii_case(value, "CHF") {
        return Ok(Currency::Chf);
    }
    Err(ProductRepositoryError::InvalidPersistedState)
}

/// Reading back the code of a value gives the value.
pub proof fn lemma_currency_code_round_trip(value: Currency)
    ensures
        spec_parse_currency(spec_currency_code(value)) == Ok::<Currency, ProductRepositoryError>(value),
{
    reveal_strlit("EUR");
    reveal_strlit("GBP");
    reveal_strlit("USD");
    reveal_strlit("AUD");
    reveal_strlit("CAD");
    reveal_strlit("NZD");
    reveal_strlit("CNY");
    reveal_strlit("BRL");
    reveal_strlit("PLN");
    reveal_strlit("TRY");
    reveal_strlit("JPY");
    reveal_strlit("CZK");
    reveal_strlit("RUB");
    reveal_strlit("AED");
    reveal_strlit("SAR");
    reveal_strlit("HKD");
    reveal_strlit("SGD");
    reveal_strlit("CHF");
    match value {
        Currency::Eur => {
            assert(ascii_caseless_eq("EUR"@, "EUR"@));
        },
        Currency::Gbp => {
            assert(ascii_caseless_eq("GBP"@, "GBP"@));
            assert(ascii_lower_code("GBP"@[0]) != ascii_lower_code("EUR"@[0]));
        },
        Currency::Usd => {
            assert(ascii_caseless_eq("USD"@, "USD"@));
            assert(ascii_lower_code("USD"@[0]) != ascii_lower_code("EUR"@[0]));
            assert(ascii_lower_code("USD"@[0]) != ascii_lower_code("GBP"@[0]));
        },
        Currency::Aud => {
            assert(ascii_caseless_eq("AUD"@, "AUD"@));
            assert(ascii_lower_code("AUD"@[0]) != ascii_lower_code("EUR"@[0]));
            assert(ascii_lower_code("AUD"@[0]) != ascii_lower_code("GBP"@[0]));
            assert(ascii_lower_code("AUD"@[0]) != ascii_lower_code("USD"@[0]));
        },
        Currency::Cad => {
            assert(ascii_caseless_eq("CAD"@, "CAD"@));
            assert(ascii_lower_code("CAD"@[0]) != ascii_lower_code("EUR"@[0]));
            assert(ascii_lower_code("CAD"@[0]) != ascii_lower_code("GBP"@[0]));
            assert(ascii_lower_code("CAD"@[0]) != ascii_lower_code("USD"@[0]));
            assert(ascii_lower_code("CAD"@[0]) != ascii_lower_code("AUD"@[0]));
        },
        Currency::Nzd => {
            assert(ascii_caseless_eq("NZD"@, "NZD"@));
            assert(ascii_lower_code("NZD"@[0]) != ascii_lower_code("EUR"@[0]));
            assert(ascii_lower_code("NZD"@[0]) != ascii_lower_code("GBP"@[0]));
            assert(ascii_lower_code("NZD"@[0]) != ascii_lower_code("USD"@[0]));
            assert(ascii_lower_code("NZD"@[0]) != ascii_lower_code("AUD"@[0]));
            assert(ascii_lower_code("NZD"@[0]) != ascii_lower_code("CAD"@[0]));
        },
        Currency::Cny => {
            assert(ascii_caseless_eq("CNY"@, "CNY"@));
            assert(ascii_lower_code("CNY"@[0]) != ascii_lower_code("EUR"@[0]));
            assert(ascii_lower_code("CNY"@[0]) != ascii_lower_code("GBP"@[0]));
            assert(ascii_lower_code("CNY"@[0]) != ascii_lower_code("USD"@[0]));
            assert(ascii_lower_code("CNY"@[0]) != ascii_lower_code("AUD"@[0]));
            assert(ascii_lower_code("CNY"@[1]) != ascii_lower_code("CAD"@[1]));
            assert(ascii_lower_code("CNY"@[0]) != ascii_lower_code("NZD"@[0]));
        },
        Currency::Brl => {
            assert(ascii_caseless_eq("BRL"@, "BRL"@));
            assert(ascii_lower_code("BRL"@[0]) != ascii_lower_code("EUR"@[0]));
            assert(ascii_lower_code("BRL"@[0]) != ascii_lower_code("GBP"@[0]));
            assert(ascii_lower_code("BRL"@[0]) != ascii_lower_code("USD"@[0]));
            assert(ascii_lower_code("BRL"@[0]) != ascii_lower_code("AUD"@[0]));
            assert(ascii_lower_code("BRL"@[0]) != ascii_lower_code("CAD"@[0]));
            assert(ascii_lower_code("BRL"@[0]) != ascii_lower_code("NZD"@[0]));
            assert(ascii_lower_code("BRL"@[0]) != ascii_lower_code("CNY"@[0]));
        },
        Currency::Pln => {
            assert(ascii_caseless_eq("PLN"@, "PLN"@));
            assert(ascii_lower_code("PLN"@[0]) != ascii_lower_code("EUR"@[0]));
            assert(ascii_lower_code("PLN"@[0]) != ascii_lower_code("GBP"@[0]));
            assert(ascii_lower_code("PLN"@[0]) != ascii_lower_code("USD"@[0]));
            assert(ascii_lower_code("PLN"@[0]) != ascii_lower_code("AUD"@[0]));
            assert(ascii_lower_code("PLN"@[0]) != ascii_lower_code("CAD"@[0]));
            assert(ascii_lower_code("PLN"@[0]) != ascii_lower_code("NZD"@[0]));
            assert(ascii_lower_code("PLN"@[0]) != ascii_lower_code("CNY"@[0]));
            assert(ascii_lower_code("PLN"@[0]) != ascii_lower_code("BRL"@[0]));
        },
        Currency::Try => {
            assert(ascii_caseless_eq("TRY"@, "TRY"@));
            assert(ascii_lower_code("TRY"@[0]) != ascii_lower_code("EUR"@[0]));
            assert(ascii_lower_code("TRY"@[0]) != ascii_lower_code("GBP"@[0]));
            assert(ascii_lower_code("TRY"@[0]) != ascii_lower_code("USD"@[0]));
            assert(ascii_lower_code("TRY"@[0]) != ascii_lower_code("AUD"@[0]));
            assert(ascii_lower_code("TRY"@[0]) != ascii_lower_code("CAD"@[0]));
            assert(ascii_lower_code("TRY"@[0]) != ascii_lower_code("NZD"@[0]));
            assert(ascii_lower_code("TRY"@[0]) != ascii_lower_code("CNY"@[0]));
            assert(ascii_lower_code("TRY"@[0]) != ascii_lower_code("BRL"@[0]));
            assert(ascii_lower_code("TRY"@[0]) != ascii_lower_code("PLN"@[0]));
        },
        Currency::Jpy => {
            assert(ascii_caseless_eq("JPY"@, "JPY"@));
            assert(ascii_lower_code("JPY"@[0]) != ascii_lower_code("EUR"@[0]));
            assert(ascii_lower_code("JPY"@[0]) != ascii_lower_code("GBP"@[0]));
            assert(ascii_lower_code("JPY"@[0]) != ascii_lower_code("USD"@[0]));
            assert(ascii_lower_code("JPY"@[0]) != ascii_lower_code("AUD"@[0]));
            assert(ascii_lower_code("JPY"@[0]) != ascii_lower_code("CAD"@[0]));
            assert(ascii_lower_code("JPY"@[0]) != ascii_lower_code("NZD"@[0]));
            assert(ascii_lower_code("JPY"@[0]) != ascii_lower_code("CNY"@[0]));
            assert(ascii_lower_code("JPY"@[0]) != ascii_lower_code("BRL"@[0]));
            assert(ascii_lower_code("JPY"@[0]) != ascii_lower_code("PLN"@[0]));
            assert(ascii_lower_code("JPY"@[0]) != ascii_lower_code("TRY"@[0]));
        },
        Currency::Czk => {
            assert(ascii_caseless_eq("CZK"@, "CZK"@));
            assert(ascii_lower_code("CZK"@[0]) != ascii_lower_code("EUR"@[0]));
            assert(ascii_lower_code("CZK"@[0]) != ascii_lower_code("GBP"@[0]));
            assert(ascii_lower_code("CZK"@[0]) != ascii_lower_code("USD"@[0]));
            assert(ascii_lower_code("CZK"@[0]) != ascii_lower_code("AUD"@[0]));
            assert(ascii_lower_code("CZK"@[1]) != ascii_lower_code("CAD"@[1]));
            assert(ascii_lower_code("CZK"@[0]) != ascii_lower_code("NZD"@[0]));
            assert(ascii_lower_code("CZK"@[1]) != ascii_lower_code("CNY"@[1]));
            assert(ascii_lower_code("CZK"@[0]) != ascii_lower_code("BRL"@[0]));
            assert(ascii_lower_code("CZK"@[0]) != ascii_lower_code("PLN"@[0]));
            assert(ascii_lower_code("CZK"@[0]) != ascii_lower_code("TRY"@[0]));
            assert(ascii_lower_code("CZK"@[0]) != ascii_lower_code("JPY"@[0]));
        },
        Currency::Rub => {
            assert(ascii_caseless_eq("RUB"@, "RUB"@));
            assert(ascii_lower_code("RUB"@[0]) != ascii_lower_code("EUR"@[0]));
            assert(ascii_lower_code("RUB"@[0]) != ascii_lower_code("GBP"@[0]));
            assert(ascii_lower_code("RUB"@[0]) != ascii_lower_code("USD"@[0]));
            assert(ascii_lower_code("RUB"@[0]) != ascii_lower_code("AUD"@[0]));
            assert(ascii_lower_code("RUB"@[0]) != ascii_lower_code("CAD"@[0]));
            assert(ascii_lower_code("RUB"@[0]) != ascii_lower_code("NZD"@[0]));
            assert(ascii_lower_code("RUB"@[0]) != ascii_lower_code("CNY"@[0]));
            assert(ascii_lower_code("RUB"@[0]) != ascii_lower_code("BRL"@[0]));
            assert(ascii_lower_code("RUB"@[0]) != ascii_lower_code("PLN"@[0]));
            assert(ascii_lower_code("RUB"@[0]) != ascii_lower_code("TRY"@[0]));
            assert(ascii_lower_code("RUB"@[0]) != ascii_lower_code("JPY"@[0]));
            assert(ascii_lower_code("RUB"@[0]) != ascii_lower_code("CZK"@[0]));
        },
        Currency::Aed => {
            assert(ascii_caseless_eq("AED"@, "AED"@));
            assert(ascii_lower_code("AED"@[0]) != ascii_lower_code("EUR"@[0]));
            assert(ascii_lower_code("AED"@[0]) != ascii_lower_code("GBP"@[0]));
            assert(ascii_lower_code("AED"@[0]) != ascii_lower_code("USD"@[0]));
            assert(ascii_lower_code("AED"@[1]) != ascii_lower_code("AUD"@[1]));
            assert(ascii_lower_code("AED"@[0]) != ascii_lower_code("CAD"@[0]));
            assert(ascii_lower_code("AED"@[0]) != ascii_lower_code("NZD"@[0]));
            assert(ascii_lower_code("AED"@[0]) != ascii_lower_code("CNY"@[0]));
            assert(ascii_lower_code("AED"@[0]) != ascii_lower_code("BRL"@[0]));
            assert(ascii_lower_code("AED"@[0]) != ascii_lower_code("PLN"@[0]));
            assert(ascii_lower_code("AED"@[0]) != ascii_lower_code("TRY"@[0]));
            assert(ascii_lower_code("AED"@[0]) != ascii_lower_code("JPY"@[0]));
            assert(ascii_lower_code("AED"@[0]) != ascii_lower_code("CZK"@[0]));
            assert(ascii_lower_code("AED"@[0]) != ascii_lower_code("RUB"@[0]));
        },
        Currency::Sar => {
            assert(ascii_caseless_eq("SAR"@, "SAR"@));
            assert(ascii_lower_code("SAR"@[0]) != ascii_lower_code("EUR"@[0]));
            assert(ascii_lower_code("SAR"@[0]) != ascii_lower_code("GBP"@[0]));
            assert(ascii_lower_code("SAR"@[0]) != ascii_lower_code("USD"@[0]));
            assert(ascii_lower_code("SAR"@[0]) != ascii_lower_code("AUD"@[0]));
            assert(ascii_lower_code("SAR"@[0]) != ascii_lower_code("CAD"@[0]));
            assert(ascii_lower_code("SAR"@[0]) != ascii_lower_code("NZD"@[0]));
            assert(ascii_lower_code("SAR"@[0]) != ascii_lower_code("CNY"@[0]));
            assert(ascii_lower_code("SAR"@[0]) != ascii_lower_code("BRL"@[0]));
            assert(ascii_lower_code("SAR"@[0]) != ascii_lower_code("PLN"@[0]));
            assert(ascii_lower_code("SAR"@[0]) != ascii_lower_code("TRY"@[0]));
            assert(ascii_lower_code("SAR"@[0]) != ascii_lower_code("JPY"@[0]));
            assert(ascii_lower_code("SAR"@[0]) != ascii_lower_code("CZK"@[0]));
            assert(ascii_lower_code("SAR"@[0]) != ascii_lower_code("RUB"@[0]));
            assert(ascii_lower_code("SAR"@[0]) != ascii_lower_code("AED"@[0]));
        },
        Currency::Hkd => {
            assert(ascii_caseless_eq("HKD"@, "HKD"@));
            assert(ascii_lower_code("HKD"@[0]) != ascii_lower_code("EUR"@[0]));
            assert(ascii_lower_code("HKD"@[0]) != ascii_lower_code("GBP"@[0]));
            assert(ascii_lower_code("HKD"@[0]) != ascii_lower_code("USD"@[0]));
            assert(ascii_lower_code("HKD"@[0]) != ascii_lower_code("AUD"@[0]));
            assert(ascii_lower_code("HKD"@[0]) != ascii_lower_code("CAD"@[0]));
            assert(ascii_lower_code("HKD"@[0]) != ascii_lower_code("NZD"@[0]));
            assert(ascii_lower_code("HKD"@[0]) != ascii_lower_code("CNY"@[0]));
            assert(ascii_lower_code("HKD"@[0]) != ascii_lower_code("BRL"@[0]));
            assert(ascii_lower_code("HKD"@[0]) != ascii_lower_code("PLN"@[0]));
            assert(ascii_lower_code("HKD"@[0]) != ascii_lower_code("TRY"@[0]));
            assert(ascii_lower_code("HKD"@[0]) != ascii_lower_code("JPY"@[0]));
            assert(ascii_lower_code("HKD"@[0]) != ascii_lower_code("CZK"@[0]));
            assert(ascii_lower_code("HKD"@[0]) != ascii_lower_code("RUB"@[0]));
            assert(ascii_lower_code("HKD"@[0]) != ascii_lower_code("AED"@[0]));
            assert(ascii_lower_code("HKD"@[0]) != ascii_lower_code("SAR"@[0]));
        },
        Currency::Sgd => {
            assert(ascii_caseless_eq("SGD"@, "SGD"@));
            assert(ascii_lower_code("SGD"@[0]) != ascii_lower_code("EUR"@[0]));
            assert(ascii_lower_code("SGD"@[0]) != ascii_lower_code("GBP"@[0]));
            assert(ascii_lower_code("SGD"@[0]) != ascii_lower_code("USD"@[0]));
            assert(ascii_lower_code("SGD"@[0]) != ascii_lower_code("AUD"@[0]));
            assert(ascii_lower_code("SGD"@[0]) != ascii_lower_code("CAD"@[0]));
            assert(ascii_lower_code("SGD"@[0]) != ascii_lower_code("NZD"@[0]));
            assert(ascii_lower_code("SGD"@[0]) != ascii_lower_code("CNY"@[0]));
            assert(ascii_lower_code("SGD"@[0]) != ascii_lower_code("BRL"@[0]));
            assert(ascii_lower_code("SGD"@[0]) != ascii_lower_code("PLN"@[0]));
            assert(ascii_lower_code("SGD"@[0]) != ascii_lower_code("TRY"@[0]));
            assert(ascii_lower_code("SGD"@[0]) != ascii_lower_code("JPY"@[0]));
            assert(ascii_lower_code("SGD"@[0]) != ascii_lower_code("CZK"@[0]));
            assert(ascii_lower_code("SGD"@[0]) != ascii_lower_code("RUB"@[0]));
            assert(ascii_lower_code("SGD"@[0]) != ascii_lower_code("AED"@[0]));
            assert(ascii_lower_code("SGD"@[1]) != ascii_lower_code("SAR"@[1]));
            assert(ascii_lower_code("SGD"@[0]) != ascii_lower_code("HKD"@[0]));
        },
        Currency::Chf => {
            assert(ascii_caseless_eq("CHF"@, "CHF"@));
            assert(ascii_lower_code("CHF"@[0]) != ascii_lower_code("EUR"@[0]));
            assert(ascii_lower_code("CHF"@[0]) != ascii_lower_code("GBP"@[0]));
            assert(ascii_lower_code("CHF"@[0]) != ascii_lower_code("USD"@[0]));
            assert(ascii_lower_code("CHF"@[0]) != ascii_lower_code("AUD"@[0]));
            assert(ascii_lower_code("CHF"@[1]) != ascii_lower_code("CAD"@[1]));
            assert(ascii_lower_code("CHF"@[0]) != ascii_lower_code("NZD"@[0]));
            assert(ascii_lower_code("CHF"@[1]) != ascii_lower_code("CNY"@[1]));
            assert(ascii_lower_code("CHF"@[0]) != ascii_lower_code("BRL"@[0]));
            assert(ascii_lower_code("CHF"@[0]) != ascii_lower_code("PLN"@[0]));
            assert(ascii_lower_code("CHF"@[0]) != ascii_lower_code("TRY"@[0]));
            assert(ascii_lower_code("CHF"@[0]) != ascii_lower_code("JPY"@[0]));
            assert(ascii_lower_code("CHF"@[1]) != ascii_lower_code("CZK"@[1]));
            assert(ascii_lower_code("CHF"@[0]) != ascii_lower_code("RUB"@[0]));
            assert(ascii_lower_code("CHF"@[0]) != ascii_lower_code("AED"@[0]));
            assert(ascii_lower_code("CHF"@[0]) != ascii_lower_code("SAR"@[0]));
            assert(ascii_lower_code("CHF"@[0]) != ascii_lower_code("HKD"@[0]));
            assert(ascii_lower_code("CHF"@[0]) != ascii_lower_code("SGD"@[0]));
        },
    }
}

/// The stored name of a sales state.
pub open spec fn spec_product_state_code(value: ProductState) -> Seq<char> {
    match value {
        ProductState::Listed => "LISTED"@,
        ProductState::Available => "AVAILABLE"@,
        ProductState::Reserved => "RESERVED"@,
        ProductState::Sold => "SOLD"@,
        ProductState::Removed => "REMOVED"@,
        ProductState::Unknown => "UNKNOWN"@,
    }
}

pub fn product_state_as_str(value: ProductState) -> (code: &'static str)
    ensures
        code@ == spec_product_state_code(value),
{
    match value {
        ProductState::Listed => "LISTED",
        ProductState::Available => "AVAILABLE",
        ProductState::Reserved => "RESERVED",
        ProductState::Sold => "SOLD",
        ProductState::Removed => "REMOVED",
        ProductState::Unknown => "UNKNOWN",
    }
}

/// The sales state a stored name names, exactly as written.
pub open spec fn spec_parse_product_state(value: Seq<char>) -> Result<ProductState, ProductRepositoryError> {
    if value == "LISTED"@ {
        Ok(ProductState::Listed)
    } else if value == "AVAILABLE"@ {
        Ok(ProductState::Available)
    } else if value == "RESERVED"@ {
        Ok(ProductState::Reserved)
    } else if value == "SOLD"@ {
        Ok(ProductState::Sold)
    } else if value == "REMOVED"@ {
        Ok(ProductState::Removed)
    } else if value == "UNKNOWN"@ {
        Ok(ProductState::Unknown)
    } else {
        Err(ProductRepositoryError::InvalidPersistedState)
    }
}

pub fn parse_product_state(value: &str) -> (parsed: Result<ProductState, ProductRepositoryError>)
    ensures
        parsed == spec_parse_product_state(value@),
{
    if str_eq(value, "LISTED") {
        return Ok(ProductState::Listed);
    }
    if str_eq(value, "AVAILABLE") {
        return Ok(ProductState::Available);
    }
    if str_eq(value, "RESERVED") {
        return Ok(ProductState::Reserved);
    }
    if str_eq(value, "SOLD") {
        return Ok(ProductState::Sold);
    }
    if str_eq(value, "REMOVED") {
        return Ok(ProductState::Removed);
    }
    if str_eq(value, "UNKNOWN") {
        return Ok(ProductState::Unknown);
    }
    Err(ProductRepositoryError::InvalidPersistedState)
}

/// Reading back the code of a value gives the value.
pub proof fn lemma_product_state_code_round_trip(value: ProductState)
    ensures
        spec_parse_product_state(spec_product_state_code(value)) == Ok::<ProductState, ProductRepositoryError>(value),
{
    reveal_strlit("LISTED");
    reveal_strlit("AVAILABLE");
    reveal_strlit("RESERVED");
    reveal_strlit("SOLD");
    reveal_strlit("REMOVED");
    reveal_strlit("UNKNOWN");
    match value {
        ProductState::Listed => {
        },
        ProductState::Available => {
            assert("AVAILABLE"@.len() != "LISTED"@.len());
        },
        ProductState::Reserved => {
            assert("RESERVED"@.len() != "LISTED"@.len());
            assert("RESERVED"@.len() != "AVAILABLE"@.len());
        },
        ProductState::Sold => {
            assert("SOLD"@.len() != "LISTED"@.len());
            assert("SOLD"@.len() != "AVAILABLE"@.len());
            assert("SOLD"@.len() != "RESERVED"@.len());
        },
        ProductState::Removed => {
            assert("REMOVED"@.len() != "LISTED"@.len());
            assert("REMOVED"@.len() != "AVAILABLE"@.len());
            assert("REMOVED"@.len() != "RESERVED"@.len());
            assert("REMOVED"@.len() != "SOLD"@.len());
        },
        ProductState::Unknown => {
            assert("UNKNOWN"@.len() != "LISTED"@.len());
            assert("UNKNOWN"@.len() != "AVAILABLE"@.len());
            assert("UNKNOWN"@.len() != "RESERVED"@.len());
            assert("UNKNOWN"@.len() != "SOLD"@.len());
            assert("UNKNOWN"@[0] != "REMOVED"@[0]);
        },
    }
}

/// The stored name of a lifecycle.
pub open spec fn spec_product_lifecycle_code(value: ProductLifecycle) -> Seq<char> {
    match value {
        ProductLifecycle::Active => "ACTIVE"@,
        ProductLifecycle::Deleted => "DELETED"@,
    }
}

pub fn product_lifecycle_as_str(value: ProductLifecycle) -> (code: &'static str)
    ensures
        code@ == spec_product_lifecycle_code(value),
{
    match value {
        ProductLifecycle::Active => "ACTIVE",
        ProductLifecycle::Deleted => "DELETED",
    }
}

/// The lifecycle a stored name names, exactly as written.
pub open spec fn spec_parse_product_lifecycle(value: Seq<char>) -> Result<ProductLifecycle, ProductRepositoryError> {
    if value == "ACTIVE"@ {
        Ok(ProductLifecycle::Active)
    } else if value == "DELETED"@ {
        Ok(ProductLifecycle::Deleted)
    } else {
        Err(ProductRepositoryError::InvalidPersistedState)
    }
}

pub fn parse_product_lifecycle(value: &str) -> (parsed: Result<ProductLifecycle, ProductRepositoryError>)
    ensures
        parsed == spec_parse_product_lifecycle(value@),
{
    if str_eq(value, "ACTIVE") {
        return Ok(ProductLifecycle::Active);
    }
    if str_eq(value, "DELETED") {
        return Ok(ProductLifecycle::Deleted);
    }
    Err(ProductRepositoryError::InvalidPersistedState)
}

/// Reading back the code of a value gives the value.
pub proof fn lemma_product_lifecycle_code_round_trip(value: ProductLifecycle)
    ensures
        spec_parse_product_lifecycle(spec_product_lifecycle_code(value)) == Ok::<ProductLifecycle, ProductRepositoryError>(value),
{
    reveal_strlit("ACTIVE");
    reveal_strlit("DELETED");
    match value {
        ProductLifecycle::Active => {
        },
        ProductLifecycle::Deleted => {
            assert("DELETED"@.len() != "ACTIVE"@.len());
        },
    }
}

/// The stored name of a screening outcome.
pub open spec fn spec_prohibited_content_code(value: ProhibitedContent) -> Seq<char> {
    match value {
        ProhibitedContent::Unknown => "UNKNOWN"@,
        ProhibitedContent::NoneDetected => "NONE"@,
        ProhibitedContent::NaziGermany => "NAZI_GERMANY"@,
    }
}

pub fn prohibited_content_as_str(value: ProhibitedContent) -> (code: &'static str)
    ensures
        code@ == spec_prohibited_content_code(value),
{
    match value {
        ProhibitedContent::Unknown => "UNKNOWN",
        ProhibitedContent::NoneDetected => "NONE",
        ProhibitedContent::NaziGermany => "NAZI_GERMANY",
    }
}

/// The screening outcome a stored name names, exactly as written.
pub open spec fn spec_parse_prohibited_content(value: Seq<char>) -> Result<ProhibitedContent, ProductRepositoryError> {
    if value == "UNKNOWN"@ {
        Ok(ProhibitedContent::Unknown)
    } else if value == "NONE"@ {
        Ok(ProhibitedContent::NoneDetected)
    } else if value == "NAZI_GERMANY"@ {
        Ok(ProhibitedContent::NaziGermany)
    } else {
        Err(ProductRepositoryError::InvalidPersistedState)
    }
}

pub fn parse_prohibited_content(value: &str) -> (parsed: Result<ProhibitedContent, ProductRepositoryError>)
    ensures
        parsed == spec_parse_prohibited_content(value@),
{
    if str_eq(value, "UNKNOWN") {
        return Ok(ProhibitedContent::Unknown);
    }
    if str_eq(value, "NONE") {
        return Ok(ProhibitedContent::NoneDetected);
    }
    if str_eq(value, "NAZI_GERMANY") {
        return Ok(ProhibitedContent::NaziGermany);
    }
    Err(ProductRepositoryError::InvalidPersistedState)
}

/// Reading back the code of a value gives the value.
pub proof fn lemma_prohibited_content_code_round_trip(value: ProhibitedContent)
    ensures
        spec_parse_prohibited_content(spec_prohibited_content_code(value)) == Ok::<ProhibitedContent, ProductRepositoryError>(value),
{
    reveal_strlit("UNKNOWN");
    reveal_strlit("NONE");
    reveal_strlit("NAZI_GERMANY");
    match value {
        ProhibitedContent::Unknown => {
        },
        ProhibitedContent::NoneDetected => {
            assert("NONE"@.len() != "UNKNOWN"@.len());
        },
        ProhibitedContent::NaziGermany => {
            assert("NAZI_GERMANY"@.len() != "UNKNOWN"@.len());
            assert("NAZI_GERMANY"@.len() != "NONE"@.len());
        },
    }
}

/// A sales state is stored under the same name as the one it is indexed and queried
/// under (`LISTED`, `AVAILABLE`, `RESERVED`, `SOLD`, `REMOVED`, `UNKNOWN`), and a row
/// holding that name reads back as that state.
pub proof fn lemma_product_state_code_is_its_name(state: ProductState)
    ensures
        spec_product_state_code(state) == product_state_document_of_product_state(state).spec_as_str(),
        spec_parse_product_state(product_state_document_of_product_state(state).spec_as_str())
            == Ok::<ProductState, ProductRepositoryError>(state),
{
    lemma_product_state_code_round_trip(state);
}

/// A lifecycle is stored under its own name (`ACTIVE`, `DELETED`), and a row holding
/// that name reads back as that lifecycle.
pub proof fn lemma_product_lifecycle_code_is_its_name(lifecycle: ProductLifecycle)
    ensures
        spec_product_lifecycle_code(lifecycle) == lifecycle.spec_as_str(),
        spec_parse_product_lifecycle(lifecycle.spec_as_str()) == Ok::<ProductLifecycle, ProductRepositoryError>(lifecycle),
{
    lemma_product_lifecycle_code_round_trip(lifecycle);
}

} // verus!
