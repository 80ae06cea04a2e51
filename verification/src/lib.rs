//! Persistence-side model of products: DynamoDB records, OpenSearch documents and
//! Postgres rows, together with the conversions between them and the domain values.

pub mod countries;
pub mod domain;
pub mod ids;
pub mod image_set;
pub mod text;
pub mod timefmt;
pub mod urls;
pub mod values;
pub mod dynamodb;
pub mod opensearch;
pub mod postgres;
pub mod search;
