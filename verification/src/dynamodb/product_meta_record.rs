//! The meta record of a product: the version of its event stream next to its keys.

use crate::domain::{Product, ProductId, ProductKey, ShopId};
use crate::dynamodb::product_event_record::domain::spec_pk;
use crate::dynamodb::product_record::{mk_gsi2_pk, mk_gsi2_sk, mk_pk, spec_gsi2_pk};
use vstd::prelude::*;

verus! {

/// The record that holds how many events of a product were applied, written in the
/// same transaction as each new event so that concurrent writers are detected.
#[derive(Debug)]
pub struct ProductMetaRecord {
    pub pk: String,
    pub sk: String,
    pub gsi2_pk: String,
    pub gsi2_sk: String,
    pub product_id: ProductId,
    pub product_slug_id: String,
    pub shop_slug_id: String,
    pub seller_slug_id: String,
    pub shop_id: ShopId,
    pub shops_product_id: String,
    pub event_version: u64,
}

/// The sort key of the meta record.
pub fn mk_sk() -> (sk: &'static str)
    ensures
        sk@ == "product#meta"@,
{
    "product#meta"
}

impl ProductMetaRecord {
    /// The meta record of `product` at `event_version`.
    pub fn from_product(product: &Product, event_version: u64) -> (record: Self)
        ensures
            record.pk@ == spec_pk(product.shop_id, product.shops_product_id@),
            record.sk@ == "product#meta"@,
            record.gsi2_pk@ == spec_gsi2_pk(product.shop_slug_id@, product.product_slug_id@),
            record.gsi2_sk@ == "product#lookup#shop_id#shops_product_id"@,
            record.product_id == product.product_id,
            record.product_slug_id == product.product_slug_id,
            record.shop_slug_id == product.shop_slug_id,
            record.seller_slug_id == product.seller_slug_id,
            record.shop_id == product.shop_id,
            record.shops_product_id == product.shops_product_id,
            record.event_version == event_version,
    {
        ProductMetaRecord {
            pk: mk_pk(product.shop_id, product.shops_product_id.as_str()),
            sk: String::from_str(mk_sk()),
            gsi2_pk: mk_gsi2_pk(product.shop_slug_id.as_str(), product.product_slug_id.as_str()),
            gsi2_sk: String::from_str(mk_gsi2_sk()),
            product_id: product.product_id,
            product_slug_id: product.product_slug_id.clone(),
            shop_slug_id: product.shop_slug_id.clone(),
            seller_slug_id: product.seller_slug_id.clone(),
            shop_id: product.shop_id,
            shops_product_id: product.shops_product_id.clone(),
            event_version,
        }
    }

    /// The key of the product.
    pub fn key(&self) -> (key: ProductKey)
        ensures
            key.shop_id == self.shop_id,
            key.shops_product_id == self.shops_product_id,
    {
        ProductKey { shop_id: self.shop_id, shops_product_id: self.shops_product_id.clone() }
    }
}

} // verus!
