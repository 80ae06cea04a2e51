//! Names of the fields of the product document in the index.

use vstd::prelude::*;

verus! {

/// A field of [`ProductDocument`](crate::opensearch::product_document::ProductDocument)
/// as the index names it.
#[derive(Clone, Copy, Debug, PartialEq, Eq, Structural, Hash)]
pub enum ProductDocumentSerdeField {
    ProductId,
    ProductSlugId,
    ShopSlugId,
    SellerSlugId,
    EventId,
    ShopId,
    SellerId,
    ShopsProductId,
    ShopName,
    SellerName,
    ShopType,
    StructuredAddressAddressline,
    StructuredAddressAddresslineExtra,
    StructuredAddressLocality,
    StructuredAddressRegion,
    StructuredAddressPostalCode,
    StructuredAddressCountry,
    StructuredAddressContinent,
    GeoAddress,
    CategoryId,
    PeriodId,
    CategoryNameDe,
    CategoryNameEn,
    CategoryNameFr,
    CategoryNameEs,
    CategoryNameIt,
    PeriodNameDe,
    PeriodNameEn,
    PeriodNameFr,
    PeriodNameEs,
    PeriodNameIt,
    TitleNative,
    TitleDe,
    TitleEn,
    TitleFr,
    TitleEs,
    TitleIt,
    DescriptionDe,
    DescriptionEn,
    DescriptionFr,
    DescriptionEs,
    DescriptionIt,
    PriceEur,
    PriceUsd,
    PriceGbp,
    PriceAud,
    PriceCad,
    PriceNzd,
    PriceCny,
    PriceBrl,
    PricePln,
    PriceTry,
    PriceJpy,
    PriceCzk,
    PriceRub,
    PriceAed,
    PriceSar,
    PriceHkd,
    PriceSgd,
    PriceChf,
    PriceEstimateMinEur,
    PriceEstimateMinUsd,
    PriceEstimateMinGbp,
    PriceEstimateMinAud,
    PriceEstimateMinCad,
    PriceEstimateMinNzd,
    PriceEstimateMinCny,
    PriceEstimateMinBrl,
    PriceEstimateMinPln,
    PriceEstimateMinTry,
    PriceEstimateMinJpy,
    PriceEstimateMinCzk,
    PriceEstimateMinRub,
    PriceEstimateMinAed,
    PriceEstimateMinSar,
    PriceEstimateMinHkd,
    PriceEstimateMinSgd,
    PriceEstimateMinChf,
    PriceEstimateMaxEur,
    PriceEstimateMaxUsd,
    PriceEstimateMaxGbp,
    PriceEstimateMaxAud,
    PriceEstimateMaxCad,
    PriceEstimateMaxNzd,
    PriceEstimateMaxCny,
    PriceEstimateMaxBrl,
    PriceEstimateMaxPln,
    PriceEstimateMaxTry,
    PriceEstimateMaxJpy,
    PriceEstimateMaxCzk,
    PriceEstimateMaxRub,
    PriceEstimateMaxAed,
    PriceEstimateMaxSar,
    PriceEstimateMaxHkd,
    PriceEstimateMaxSgd,
    PriceEstimateMaxChf,
    State,
    Lifecycle,
    Url,
    Images,
    Embedding,
    OriginYearMin,
    OriginYear,
    OriginYearMax,
    Authenticity,
    Condition,
    Provenance,
    Restoration,
    AuctionStart,
    AuctionEnd,
    Created,
    Updated,
}

impl ProductDocumentSerdeField {
    /// The field's name in the index.
    pub open spec fn spec_as_str(self) -> Seq<char> {
        match self {
            ProductDocumentSerdeField::ProductId => "productId"@,
            ProductDocumentSerdeField::ProductSlugId => "productSlugId"@,
            ProductDocumentSerdeField::ShopSlugId => "shopSlugId"@,
            ProductDocumentSerdeField::SellerSlugId => "sellerSlugId"@,
            ProductDocumentSerdeField::EventId => "eventId"@,
            ProductDocumentSerdeField::ShopId => "shopId"@,
            ProductDocumentSerdeField::SellerId => "sellerId"@,
            ProductDocumentSerdeField::ShopsProductId => "shopsProductId"@,
            ProductDocumentSerdeField::ShopName => "shopName"@,
            ProductDocumentSerdeField::SellerName => "sellerName"@,
            ProductDocumentSerdeField::ShopType => "shopType"@,
            ProductDocumentSerdeField::StructuredAddressAddressline => "structuredAddressAddressline"@,
            ProductDocumentSerdeField::StructuredAddressAddresslineExtra => "structuredAddressAddresslineExtra"@,
            ProductDocumentSerdeField::StructuredAddressLocality => "structuredAddressLocality"@,
            ProductDocumentSerdeField::StructuredAddressRegion => "structuredAddressRegion"@,
            ProductDocumentSerdeField::StructuredAddressPostalCode => "structuredAddressPostalCode"@,
            ProductDocumentSerdeField::StructuredAddressCountry => "structuredAddressCountry"@,
            ProductDocumentSerdeField::StructuredAddressContinent => "structuredAddressContinent"@,
            ProductDocumentSerdeField::GeoAddress => "geoAddress"@,
            ProductDocumentSerdeField::CategoryId => "categoryId"@,
            ProductDocumentSerdeField::PeriodId => "periodId"@,
            ProductDocumentSerdeField::CategoryNameDe => "categoryNameDe"@,
            ProductDocumentSerdeField::CategoryNameEn => "categoryNameEn"@,
            ProductDocumentSerdeField::CategoryNameFr => "categoryNameFr"@,
            ProductDocumentSerdeField::CategoryNameEs => "categoryNameEs"@,
            ProductDocumentSerdeField::CategoryNameIt => "categoryNameIt"@,
            ProductDocumentSerdeField::PeriodNameDe => "periodNameDe"@,
            ProductDocumentSerdeField::PeriodNameEn => "periodNameEn"@,
            ProductDocumentSerdeField::PeriodNameFr => "periodNameFr"@,
            ProductDocumentSerdeField::PeriodNameEs => "periodNameEs"@,
            ProductDocumentSerdeField::PeriodNameIt => "periodNameIt"@,
            ProductDocumentSerdeField::TitleNative => "titleNative"@,
            ProductDocumentSerdeField::TitleDe => "titleDe"@,
            ProductDocumentSerdeField::TitleEn => "titleEn"@,
            ProductDocumentSerdeField::TitleFr => "titleFr"@,
            ProductDocumentSerdeField::TitleEs => "titleEs"@,
            ProductDocumentSerdeField::TitleIt => "titleIt"@,
            ProductDocumentSerdeField::DescriptionDe => "descriptionDe"@,
            ProductDocumentSerdeField::DescriptionEn => "descriptionEn"@,
            ProductDocumentSerdeField::DescriptionFr => "descriptionFr"@,
            ProductDocumentSerdeField::DescriptionEs => "descriptionEs"@,
            ProductDocumentSerdeField::DescriptionIt => "descriptionIt"@,
            ProductDocumentSerdeField::PriceEur => "priceEur"@,
            ProductDocumentSerdeField::PriceUsd => "priceUsd"@,
            ProductDocumentSerdeField::PriceGbp => "priceGbp"@,
            ProductDocumentSerdeField::PriceAud => "priceAud"@,
            ProductDocumentSerdeField::PriceCad => "priceCad"@,
            ProductDocumentSerdeField::PriceNzd => "priceNzd"@,
            ProductDocumentSerdeField::PriceCny => "priceCny"@,
            ProductDocumentSerdeField::PriceBrl => "priceBrl"@,
            ProductDocumentSerdeField::PricePln => "pricePln"@,
            ProductDocumentSerdeField::PriceTry => "priceTry"@,
            ProductDocumentSerdeField::PriceJpy => "priceJpy"@,
            ProductDocumentSerdeField::PriceCzk => "priceCzk"@,
            ProductDocumentSerdeField::PriceRub => "priceRub"@,
            ProductDocumentSerdeField::PriceAed => "priceAed"@,
            ProductDocumentSerdeField::PriceSar => "priceSar"@,
            ProductDocumentSerdeField::PriceHkd => "priceHkd"@,
            ProductDocumentSerdeField::PriceSgd => "priceSgd"@,
            ProductDocumentSerdeField::PriceChf => "priceChf"@,
            ProductDocumentSerdeField::PriceEstimateMinEur => "priceEstimateMinEur"@,
            ProductDocumentSerdeField::PriceEstimateMinUsd => "priceEstimateMinUsd"@,
            ProductDocumentSerdeField::PriceEstimateMinGbp => "priceEstimateMinGbp"@,
            ProductDocumentSerdeField::PriceEstimateMinAud => "priceEstimateMinAud"@,
            ProductDocumentSerdeField::PriceEstimateMinCad => "priceEstimateMinCad"@,
            ProductDocumentSerdeField::PriceEstimateMinNzd => "priceEstimateMinNzd"@,
            ProductDocumentSerdeField::PriceEstimateMinCny => "priceEstimateMinCny"@,
            ProductDocumentSerdeField::PriceEstimateMinBrl => "priceEstimateMinBrl"@,
            ProductDocumentSerdeField::PriceEstimateMinPln => "priceEstimateMinPln"@,
            ProductDocumentSerdeField::PriceEstimateMinTry => "priceEstimateMinTry"@,
            ProductDocumentSerdeField::PriceEstimateMinJpy => "priceEstimateMinJpy"@,
            ProductDocumentSerdeField::PriceEstimateMinCzk => "priceEstimateMinCzk"@,
            ProductDocumentSerdeField::PriceEstimateMinRub => "priceEstimateMinRub"@,
            ProductDocumentSerdeField::PriceEstimateMinAed => "priceEstimateMinAed"@,
            ProductDocumentSerdeField::PriceEstimateMinSar => "priceEstimateMinSar"@,
            ProductDocumentSerdeField::PriceEstimateMinHkd => "priceEstimateMinHkd"@,
            ProductDocumentSerdeField::PriceEstimateMinSgd => "priceEstimateMinSgd"@,
            ProductDocumentSerdeField::PriceEstimateMinChf => "priceEstimateMinChf"@,
            ProductDocumentSerdeField::PriceEstimateMaxEur => "priceEstimateMaxEur"@,
            ProductDocumentSerdeField::PriceEstimateMaxUsd => "priceEstimateMaxUsd"@,
            ProductDocumentSerdeField::PriceEstimateMaxGbp => "priceEstimateMaxGbp"@,
            ProductDocumentSerdeField::PriceEstimateMaxAud => "priceEstimateMaxAud"@,
            ProductDocumentSerdeField::PriceEstimateMaxCad => "priceEstimateMaxCad"@,
            ProductDocumentSerdeField::PriceEstimateMaxNzd => "priceEstimateMaxNzd"@,
            ProductDocumentSerdeField::PriceEstimateMaxCny => "priceEstimateMaxCny"@,
            ProductDocumentSerdeField::PriceEstimateMaxBrl => "priceEstimateMaxBrl"@,
            ProductDocumentSerdeField::PriceEstimateMaxPln => "priceEstimateMaxPln"@,
            ProductDocumentSerdeField::PriceEstimateMaxTry => "priceEstimateMaxTry"@,
            ProductDocumentSerdeField::PriceEstimateMaxJpy => "priceEstimateMaxJpy"@,
            ProductDocumentSerdeField::PriceEstimateMaxCzk => "priceEstimateMaxCzk"@,
            ProductDocumentSerdeField::PriceEstimateMaxRub => "priceEstimateMaxRub"@,
            ProductDocumentSerdeField::PriceEstimateMaxAed => "priceEstimateMaxAed"@,
            ProductDocumentSerdeField::PriceEstimateMaxSar => "priceEstimateMaxSar"@,
            ProductDocumentSerdeField::PriceEstimateMaxHkd => "priceEstimateMaxHkd"@,
            ProductDocumentSerdeField::PriceEstimateMaxSgd => "priceEstimateMaxSgd"@,
            ProductDocumentSerdeField::PriceEstimateMaxChf => "priceEstimateMaxChf"@,
            ProductDocumentSerdeField::State => "state"@,
            ProductDocumentSerdeField::Lifecycle => "lifecycle"@,
            ProductDocumentSerdeField::Url => "url"@,
            ProductDocumentSerdeField::Images => "images"@,
            ProductDocumentSerdeField::Embedding => "embedding"@,
            ProductDocumentSerdeField::OriginYearMin => "originYearMin"@,
            ProductDocumentSerdeField::OriginYear => "originYear"@,
            ProductDocumentSerdeField::OriginYearMax => "originYearMax"@,
            ProductDocumentSerdeField::Authenticity => "authenticity"@,
            ProductDocumentSerdeField::Condition => "condition"@,
            ProductDocumentSerdeField::Provenance => "provenance"@,
            ProductDocumentSerdeField::Restoration => "restoration"@,
            ProductDocumentSerdeField::AuctionStart => "auctionStart"@,
            ProductDocumentSerdeField::AuctionEnd => "auctionEnd"@,
            ProductDocumentSerdeField::Created => "created"@,
            ProductDocumentSerdeField::Updated => "updated"@,
        }
    }

    pub fn as_str(&self) -> (name: &'static str)
        ensures
            name@ == self.spec_as_str(),
    {
        match self {
            ProductDocumentSerdeField::ProductId => "productId",
            ProductDocumentSerdeField::ProductSlugId => "productSlugId",
            ProductDocumentSerdeField::ShopSlugId => "shopSlugId",
            ProductDocumentSerdeField::SellerSlugId => "sellerSlugId",
            ProductDocumentSerdeField::EventId => "eventId",
            ProductDocumentSerdeField::ShopId => "shopId",
            ProductDocumentSerdeField::SellerId => "sellerId",
            ProductDocumentSerdeField::ShopsProductId => "shopsProductId",
            ProductDocumentSerdeField::ShopName => "shopName",
            ProductDocumentSerdeField::SellerName => "sellerName",
            ProductDocumentSerdeField::ShopType => "shopType",
            ProductDocumentSerdeField::StructuredAddressAddressline => "structuredAddressAddressline",
            ProductDocumentSerdeField::StructuredAddressAddresslineExtra => "structuredAddressAddresslineExtra",
            ProductDocumentSerdeField::StructuredAddressLocality => "structuredAddressLocality",
            ProductDocumentSerdeField::StructuredAddressRegion => "structuredAddressRegion",
            ProductDocumentSerdeField::StructuredAddressPostalCode => "structuredAddressPostalCode",
            ProductDocumentSerdeField::StructuredAddressCountry => "structuredAddressCountry",
            ProductDocumentSerdeField::StructuredAddressContinent => "structuredAddressContinent",
            ProductDocumentSerdeField::GeoAddress => "geoAddress",
            ProductDocumentSerdeField::CategoryId => "categoryId",
            ProductDocumentSerdeField::PeriodId => "periodId",
            ProductDocumentSerdeField::CategoryNameDe => "categoryNameDe",
            ProductDocumentSerdeField::CategoryNameEn => "categoryNameEn",
            ProductDocumentSerdeField::CategoryNameFr => "categoryNameFr",
            ProductDocumentSerdeField::CategoryNameEs => "categoryNameEs",
            ProductDocumentSerdeField::CategoryNameIt => "categoryNameIt",
            ProductDocumentSerdeField::PeriodNameDe => "periodNameDe",
            ProductDocumentSerdeField::PeriodNameEn => "periodNameEn",
            ProductDocumentSerdeField::PeriodNameFr => "periodNameFr",
            ProductDocumentSerdeField::PeriodNameEs => "periodNameEs",
            ProductDocumentSerdeField::PeriodNameIt => "periodNameIt",
            ProductDocumentSerdeField::TitleNative => "titleNative",
            ProductDocumentSerdeField::TitleDe => "titleDe",
            ProductDocumentSerdeField::TitleEn => "titleEn",
            ProductDocumentSerdeField::TitleFr => "titleFr",
            ProductDocumentSerdeField::TitleEs => "titleEs",
            ProductDocumentSerdeField::TitleIt => "titleIt",
            ProductDocumentSerdeField::DescriptionDe => "descriptionDe",
            ProductDocumentSerdeField::DescriptionEn => "descriptionEn",
            ProductDocumentSerdeField::DescriptionFr => "descriptionFr",
            ProductDocumentSerdeField::DescriptionEs => "descriptionEs",
            ProductDocumentSerdeField::DescriptionIt => "descriptionIt",
            ProductDocumentSerdeField::PriceEur => "priceEur",
            ProductDocumentSerdeField::PriceUsd => "priceUsd",
            ProductDocumentSerdeField::PriceGbp => "priceGbp",
            ProductDocumentSerdeField::PriceAud => "priceAud",
            ProductDocumentSerdeField::PriceCad => "priceCad",
            ProductDocumentSerdeField::PriceNzd => "priceNzd",
            ProductDocumentSerdeField::PriceCny => "priceCny",
            ProductDocumentSerdeField::PriceBrl => "priceBrl",
            ProductDocumentSerdeField::PricePln => "pricePln",
            ProductDocumentSerdeField::PriceTry => "priceTry",
            ProductDocumentSerdeField::PriceJpy => "priceJpy",
            ProductDocumentSerdeField::PriceCzk => "priceCzk",
            ProductDocumentSerdeField::PriceRub => "priceRub",
            ProductDocumentSerdeField::PriceAed => "priceAed",
            ProductDocumentSerdeField::PriceSar => "priceSar",
            ProductDocumentSerdeField::PriceHkd => "priceHkd",
            ProductDocumentSerdeField::PriceSgd => "priceSgd",
            ProductDocumentSerdeField::PriceChf => "priceChf",
            ProductDocumentSerdeField::PriceEstimateMinEur => "priceEstimateMinEur",
            ProductDocumentSerdeField::PriceEstimateMinUsd => "priceEstimateMinUsd",
            ProductDocumentSerdeField::PriceEstimateMinGbp => "priceEstimateMinGbp",
            ProductDocumentSerdeField::PriceEstimateMinAud => "priceEstimateMinAud",
            ProductDocumentSerdeField::PriceEstimateMinCad => "priceEstimateMinCad",
            ProductDocumentSerdeField::PriceEstimateMinNzd => "priceEstimateMinNzd",
            ProductDocumentSerdeField::PriceEstimateMinCny => "priceEstimateMinCny",
            ProductDocumentSerdeField::PriceEstimateMinBrl => "priceEstimateMinBrl",
            ProductDocumentSerdeField::PriceEstimateMinPln => "priceEstimateMinPln",
            ProductDocumentSerdeField::PriceEstimateMinTry => "priceEstimateMinTry",
            ProductDocumentSerdeField::PriceEstimateMinJpy => "priceEstimateMinJpy",
            ProductDocumentSerdeField::PriceEstimateMinCzk => "priceEstimateMinCzk",
            ProductDocumentSerdeField::PriceEstimateMinRub => "priceEstimateMinRub",
            ProductDocumentSerdeField::PriceEstimateMinAed => "priceEstimateMinAed",
            ProductDocumentSerdeField::PriceEstimateMinSar => "priceEstimateMinSar",
            ProductDocumentSerdeField::PriceEstimateMinHkd => "priceEstimateMinHkd",
            ProductDocumentSerdeField::PriceEstimateMinSgd => "priceEstimateMinSgd",
            ProductDocumentSerdeField::PriceEstimateMinChf => "priceEstimateMinChf",
            ProductDocumentSerdeField::PriceEstimateMaxEur => "priceEstimateMaxEur",
            ProductDocumentSerdeField::PriceEstimateMaxUsd => "priceEstimateMaxUsd",
            ProductDocumentSerdeField::PriceEstimateMaxGbp => "priceEstimateMaxGbp",
            ProductDocumentSerdeField::PriceEstimateMaxAud => "priceEstimateMaxAud",
            ProductDocumentSerdeField::PriceEstimateMaxCad => "priceEstimateMaxCad",
            ProductDocumentSerdeField::PriceEstimateMaxNzd => "priceEstimateMaxNzd",
            ProductDocumentSerdeField::PriceEstimateMaxCny => "priceEstimateMaxCny",
            ProductDocumentSerdeField::PriceEstimateMaxBrl => "priceEstimateMaxBrl",
            ProductDocumentSerdeField::PriceEstimateMaxPln => "priceEstimateMaxPln",
            ProductDocumentSerdeField::PriceEstimateMaxTry => "priceEstimateMaxTry",
            ProductDocumentSerdeField::PriceEstimateMaxJpy => "priceEstimateMaxJpy",
            ProductDocumentSerdeField::PriceEstimateMaxCzk => "priceEstimateMaxCzk",
            ProductDocumentSerdeField::PriceEstimateMaxRub => "priceEstimateMaxRub",
            ProductDocumentSerdeField::PriceEstimateMaxAed => "priceEstimateMaxAed",
            ProductDocumentSerdeField::PriceEstimateMaxSar => "priceEstimateMaxSar",
            ProductDocumentSerdeField::PriceEstimateMaxHkd => "priceEstimateMaxHkd",
            ProductDocumentSerdeField::PriceEstimateMaxSgd => "priceEstimateMaxSgd",
            ProductDocumentSerdeField::PriceEstimateMaxChf => "priceEstimateMaxChf",
            ProductDocumentSerdeField::State => "state",
            ProductDocumentSerdeField::Lifecycle => "lifecycle",
            ProductDocumentSerdeField::Url => "url",
            ProductDocumentSerdeField::Images => "images",
            ProductDocumentSerdeField::Embedding => "embedding",
            ProductDocumentSerdeField::OriginYearMin => "originYearMin",
            ProductDocumentSerdeField::OriginYear => "originYear",
            ProductDocumentSerdeField::OriginYearMax => "originYearMax",
            ProductDocumentSerdeField::Authenticity => "authenticity",
            ProductDocumentSerdeField::Condition => "condition",
            ProductDocumentSerdeField::Provenance => "provenance",
            ProductDocumentSerdeField::Restoration => "restoration",
            ProductDocumentSerdeField::AuctionStart => "auctionStart",
            ProductDocumentSerdeField::AuctionEnd => "auctionEnd",
            ProductDocumentSerdeField::Created => "created",
            ProductDocumentSerdeField::Updated => "updated",
        }
    }

    /// The fields that hold the descriptions, one per language with a field.
    pub fn description_fields() -> (fields: Vec<ProductDocumentSerdeField>)
        ensures
            fields@ == seq![
                ProductDocumentSerdeField::DescriptionDe,
                ProductDocumentSerdeField::DescriptionEn,
                ProductDocumentSerdeField::DescriptionFr,
                ProductDocumentSerdeField::DescriptionEs,
                ProductDocumentSerdeField::DescriptionIt,
            ],
    {
        vec![
            ProductDocumentSerdeField::DescriptionDe,
            ProductDocumentSerdeField::DescriptionEn,
            ProductDocumentSerdeField::DescriptionFr,
            ProductDocumentSerdeField::DescriptionEs,
            ProductDocumentSerdeField::DescriptionIt,
        ]
    }
}

} // verus!
