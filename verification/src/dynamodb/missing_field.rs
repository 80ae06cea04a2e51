//! The error of reading an event back from a record that lacks an attribute.

use vstd::prelude::*;

verus! {

/// Attributes of stored events that a reading can find missing.
#[derive(Clone, Copy, Debug, PartialEq, Eq, Structural, Hash)]
pub enum RecordField {
    ProductSlugId,
    ShopSlugId,
    SellerSlugId,
    ShopName,
    SellerName,
    ShopType,
    TitleNative,
    NewState,
    OldState,
    Url,
    ViewUrl,
    SourceLanguage,
    TargetLanguage,
    Target,
    Embedding,
}

impl RecordField {
    /// The attribute's name in the stored record.
    pub open spec fn spec_as_str(self) -> Seq<char> {
        match self {
            RecordField::ProductSlugId => "product_slug_id"@,
            RecordField::ShopSlugId => "shop_slug_id"@,
            RecordField::SellerSlugId => "seller_slug_id"@,
            RecordField::ShopName => "shop_name"@,
            RecordField::SellerName => "seller_name"@,
            RecordField::ShopType => "shop_type"@,
            RecordField::TitleNative => "title_native"@,
            RecordField::NewState => "new_state"@,
            RecordField::OldState => "old_state"@,
            RecordField::Url => "url"@,
            RecordField::ViewUrl => "view_url"@,
            RecordField::SourceLanguage => "source_language"@,
            RecordField::TargetLanguage => "target_language"@,
            RecordField::Target => "target"@,
            RecordField::Embedding => "embedding"@,
        }
    }

    pub fn as_str(&self) -> (s: &'static str)
        ensures
            s@ == self.spec_as_str(),
    {
        match self {
            RecordField::ProductSlugId => "product_slug_id",
            RecordField::ShopSlugId => "shop_slug_id",
            RecordField::SellerSlugId => "seller_slug_id",
            RecordField::ShopName => "shop_name",
            RecordField::SellerName => "seller_name",
            RecordField::ShopType => "shop_type",
            RecordField::TitleNative => "title_native",
            RecordField::NewState => "new_state",
            RecordField::OldState => "old_state",
            RecordField::Url => "url",
            RecordField::ViewUrl => "view_url",
            RecordField::SourceLanguage => "source_language",
            RecordField::TargetLanguage => "target_language",
            RecordField::Target => "target",
            RecordField::Embedding => "embedding",
        }
    }
}

/// A stored record lacks an attribute that its event type needs.
#[derive(Clone, Copy, Debug, PartialEq, Eq, Structural, Hash)]
pub struct MissingPersistenceField {
    pub field: RecordField,
}

/// The error naming `field`.
pub fn missing(field: RecordField) -> (error: MissingPersistenceField)
    ensures
        error == (MissingPersistenceField { field }),
{
    MissingPersistenceField { field }
}

} // verus!
