//! A minimal request-triggered key-value façade: two entry points
//! (fetch-by-id, save-by-id) that translate an HTTP-like request into a
//! single-item read or write against a key-value table, and translate the
//! outcome back into an HTTP-like response.

pub mod apigw;
pub mod environment;
pub mod get;
pub mod json;
pub mod put;
pub mod store;
