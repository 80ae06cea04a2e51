//! The relational store of products: rows, the codes they use, the events appended
//! next to them, and the decisions of the use cases that change them.

pub mod codes;
pub mod errors;
pub mod product_event_row;
pub mod repository;
pub mod testing;
pub mod use_cases;
