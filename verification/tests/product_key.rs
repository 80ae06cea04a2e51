use product::dynamodb::partition::{extract_product_id, ExtractIdError};
use product::dynamodb::product_key::{decode, encode, DecodeError};
use product::dynamodb::product_record::{extract_product_key, mk_pk, ExtractKeyError};

const SHOP: u128 = 0xa1caead3_a50d_44a4_b9fb_a15d2397601e;

fn round_trip(shops_product_id: &str) {
    let shop_id: u128 = 0x6e3f0c71_8af4_4897_ba75_4a64792c07a6;
    let encoded = encode(shop_id, shops_product_id);
    assert_eq!(
        format!(
            "shop_id#{}#shops_product_id#{}",
            uuid::Uuid::from_u128(shop_id),
            shops_product_id
        ),
        encoded
    );
    let key = decode(&encoded).unwrap();
    assert_eq!(shop_id, key.shop_id);
    assert_eq!(shops_product_id, key.shops_product_id);
}

#[test]
fn should_round_trip_legacy_product_key_plain() {
    round_trip("123456");
}

#[test]
fn should_round_trip_legacy_product_key_with_separator() {
    round_trip("1874874-489746152-49874651-845");
}

#[test]
fn should_round_trip_product_key_containing_separator() {
    round_trip("abc#shops_product_id#def");
}

#[test]
fn should_reject_text_without_separator() {
    assert!(matches!(decode("shop_id#abc"), Err(DecodeError::MissingSeparator)));
}

#[test]
fn should_reject_invalid_shop_id() {
    assert!(matches!(
        decode("shop_id#not-a-uuid#shops_product_id#1"),
        Err(DecodeError::InvalidShopId(_))
    ));
}

fn extract(shops_product_id: &str) {
    let pk = format!(
        "product#shop_id#{}#shops_product_id#{}",
        uuid::Uuid::from_u128(SHOP),
        shops_product_id
    );
    let key = extract_product_key(Some(Some(pk.as_str()))).unwrap();
    assert_eq!(SHOP, key.shop_id);
    assert_eq!(shops_product_id, key.shops_product_id);
}

#[test]
fn should_extract_product_key_from_pk_sk_map_when_pk_exists_and_is_valid_for_differing() {
    extract("123456");
}

#[test]
fn should_extract_product_key_from_pk_sk_map_when_pk_exists_and_is_valid_for_containing_separator() {
    extract("abcdefg#boop");
}

#[test]
fn should_extract_the_key_of_a_partition_key_built_for_it() {
    let pk = mk_pk(SHOP, "item-7");
    let key = extract_product_key(Some(Some(pk.as_str()))).unwrap();
    assert_eq!(SHOP, key.shop_id);
    assert_eq!("item-7", key.shops_product_id);
}

#[test]
fn should_report_missing_or_non_text_pk() {
    assert!(matches!(extract_product_key(None), Err(ExtractKeyError::MissingPk)));
    assert!(matches!(extract_product_key(Some(None)), Err(ExtractKeyError::PkNotAString)));
    assert!(matches!(
        extract_product_key(Some(Some("product#garbage"))),
        Err(ExtractKeyError::Decode(DecodeError::MissingSeparator))
    ));
}

fn extract_id(text: &str) {
    let expected = uuid::Uuid::parse_str(text).unwrap().as_u128();
    assert_eq!(expected, extract_product_id(Some(Some(text))).unwrap());
}

#[test]
fn should_extract_product_id_from_map_when_product_id_exists_and_is_valid_for_first() {
    extract_id("a1caead3-a50d-44a4-b9fb-a15d2397601e");
}

#[test]
fn should_extract_product_id_from_map_when_product_id_exists_and_is_valid_for_second() {
    extract_id("6e3f0c71-8af4-4897-ba75-4a64792c07a6");
}

#[test]
fn should_extract_product_id_from_map_when_product_id_exists_and_is_valid_for_third() {
    extract_id("f5e5aa19-7d97-4972-af6f-426f1ab8bb8f");
}

#[test]
fn should_report_missing_or_invalid_product_id() {
    assert!(matches!(extract_product_id(None), Err(ExtractIdError::MissingProductId)));
    assert!(matches!(extract_product_id(Some(None)), Err(ExtractIdError::ProductIdNotAString)));
    assert!(matches!(
        extract_product_id(Some(Some("nope"))),
        Err(ExtractIdError::InvalidProductId(_))
    ));
}
