//! DynamoDB records of products and product events.

pub mod authenticity_record;
pub mod condition_record;
pub mod product_state_record;
pub mod prohibited_content_record;
pub mod provenance_record;
pub mod restoration_record;
pub mod missing_field;
pub mod partition;
pub mod product_event_record;
pub mod product_event_type_record;
pub mod product_image_record;
pub mod product_key;
pub mod product_meta_record;
pub mod product_record;
pub mod product_update_record;
pub mod seeding;
pub mod utm;
