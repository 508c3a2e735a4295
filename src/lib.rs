//! A search-service core: canonical document model, query construction,
//! response envelope, service configuration and interchangeable backends.
pub mod client;
pub mod config;
pub mod envelope;
pub mod memory;
pub mod model;
pub mod query;
pub mod ranking;
pub mod similarity;
pub mod text;
