//! The gateway REST API: request and response models, errors and the rules
//! that route and check requests.
pub mod error;
pub mod models;
pub mod parse;
pub mod query;
pub mod request;
pub mod terms;
