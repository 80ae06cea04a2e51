//! The legacy text form of a [`ProductKey`] inside DynamoDB partition keys.

use crate::domain::{ProductKey, ShopId};
use crate::ids::{is_uuid_text_char, parse_uuid, spec_parse_uuid, spec_uuid_text, uuid_to_string};
use crate::text::{
    concat, first_occurrence, has_prefix, lemma_first_occurrence, occurs_at, split_once,
    trim_prefix_repeatedly, trim_start_matches,
};
use vstd::prelude::*;

verus! {

/// `shop_id#{shop_id}#shops_product_id#{shops_product_id}`.
pub open spec fn spec_encode(shop_id: ShopId, shops_product_id: Seq<char>) -> Seq<char> {
    "shop_id#"@ + spec_uuid_text(shop_id) + "#shops_product_id#"@ + shops_product_id
}

/// Why a text is not an encoded product key.
#[derive(Debug)]
pub enum DecodeError {
    /// The text lacks the `#shops_product_id#` separator.
    MissingSeparator,
    /// The shop part is not a UUID; the message is the UUID parser's.
    InvalidShopId(String),
}

/// What decoding a text gives: the shop and the shop's product identifier, or the
/// error (`None` for a missing separator, the parser's message for a bad shop id).
pub open spec fn spec_decode(value: Seq<char>) -> Result<(u128, Seq<char>), Option<Seq<char>>> {
    let rest = trim_prefix_repeatedly(value, "shop_id#"@);
    match first_occurrence(rest, "#shops_product_id#"@) {
        None => Err(None),
        Some(j) => match spec_parse_uuid(rest.subrange(0, j)) {
            Ok(shop_id) => Ok((shop_id, rest.subrange(j + "#shops_product_id#"@.len(), rest.len() as int))),
            Err(message) => Err(Some(message)),
        },
    }
}

/// The view of a decoding result, in the shape of [`spec_decode`].
pub open spec fn decode_result_view(decoded: Result<ProductKey, DecodeError>) -> Result<(u128, Seq<char>), Option<Seq<char>>> {
    match decoded {
        Ok(key) => Ok((key.shop_id, key.shops_product_id@)),
        Err(DecodeError::MissingSeparator) => Err(None),
        Err(DecodeError::InvalidShopId(message)) => Err(Some(message@)),
    }
}

/// Encodes a product key without the partition prefix. Decoding the text gives the
/// key back.
pub fn encode(shop_id: ShopId, shops_product_id: &str) -> (encoded: String)
    ensures
        encoded@ == spec_encode(shop_id, shops_product_id@),
        spec_decode(encoded@) == Ok::<(u128, Seq<char>), Option<Seq<char>>>((shop_id, shops_product_id@)),
{
    let shop = uuid_to_string(shop_id);
    let a = concat("shop_id#", shop.as_str());
    let b = concat(a.as_str(), "#shops_product_id#");
    let encoded = concat(b.as_str(), shops_product_id);
    proof {
        lemma_decode_of_encode(shop_id, shop@, shops_product_id@);
    }
    encoded
}

/// Decoding a text built around a UUID text gives back the UUID and the suffix.
proof fn lemma_decode_of_encode(shop_id: ShopId, shop: Seq<char>, shops_product_id: Seq<char>)
    requires
        shop == spec_uuid_text(shop_id),
        shop.len() == 36,
        forall|i: int| 0 <= i < shop.len() ==> is_uuid_text_char(#[trigger] shop[i]),
        spec_parse_uuid(shop) is Ok,
        spec_parse_uuid(shop)->Ok_0 == shop_id,
    ensures
        spec_decode(spec_encode(shop_id, shops_product_id)) == Ok::<(u128, Seq<char>), Option<Seq<char>>>((shop_id, shops_product_id)),
{
    reveal_strlit("shop_id#");
    reveal_strlit("#shops_product_id#");
    let sep = "#shops_product_id#"@;
    let prefix = "shop_id#"@;
    let value = spec_encode(shop_id, shops_product_id);
    let rest = shop + sep + shops_product_id;
    assert(value =~= prefix + rest);
    assert(value.subrange(prefix.len() as int, value.len() as int) =~= rest);
    assert(value.subrange(0, prefix.len() as int) =~= prefix);
    assert(has_prefix(value, prefix));
    assert(!has_prefix(rest, prefix)) by {
        assert(rest[0] == shop[0]);
        assert(is_uuid_text_char(shop[0]));
        if has_prefix(rest, prefix) {
            assert(rest.subrange(0, prefix.len() as int)[0] == rest[0]);
            assert(prefix[0] == 's');
        }
    }
    assert(trim_prefix_repeatedly(rest, prefix) == rest);
    assert(trim_prefix_repeatedly(value, prefix) == rest);
    assert(rest.subrange(36, 36 + sep.len() as int) =~= sep);
    assert forall|i: int| 0 <= i < 36 implies !occurs_at(rest, sep, i) by {
        assert(rest[i] == shop[i]);
        assert(is_uuid_text_char(shop[i]));
        if occurs_at(rest, sep, i) {
            assert(rest.subrange(i, i + sep.len())[0] == sep[0]);
        }
    }
    lemma_first_occurrence(rest, sep, 36, 0);
    assert(rest.subrange(0, 36) =~= shop);
    assert(rest.subrange(36 + sep.len() as int, rest.len() as int) =~= shops_product_id);
}

/// Decodes the text that [`encode`] writes: leading `shop_id#` prefixes are dropped,
/// the rest is split at the first `#shops_product_id#`, and the part before it must
/// be a UUID.
pub fn decode(value: &str) -> (decoded: Result<ProductKey, DecodeError>)
    ensures
        decode_result_view(decoded) == spec_decode(value@),
{
    proof {
        reveal_strlit("#shops_product_id#");
    }
    let rest = trim_start_matches(value, "shop_id#");
    match split_once(rest, "#shops_product_id#") {
        Some((shop, shops_product_id)) => {
            match parse_uuid(shop.as_str()) {
                Ok(shop_id) => Ok(ProductKey { shop_id, shops_product_id }),
                Err(message) => Err(DecodeError::InvalidShopId(message)),
            }
        },
        None => Err(DecodeError::MissingSeparator),
    }
}

} // verus!
