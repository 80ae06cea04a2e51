//! The `event_type` attribute of the product event records.

pub mod domain;
pub mod enrichment;
pub mod lifecycle;
pub mod policy;
