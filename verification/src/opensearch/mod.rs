//! OpenSearch documents of products and the queries run against them.

pub mod authenticity_document;
pub mod condition_document;
pub mod distance_unit_document;
pub mod product_document;
pub mod product_document_field;
pub mod product_image_document;
pub mod product_search_document;
pub mod product_state_document;
pub mod query;
pub mod prohibited_content_document;
pub mod product_update_document;
pub mod provenance_document;
pub mod restoration_document;
