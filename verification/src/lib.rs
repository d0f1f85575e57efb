//! A key/value store for a small service. A value is either bytes, kept
//! with the content type they were declared under, or a decoded picture,
//! which leaves the store as PNG and can be read in grayscale.
//!
//! `state` holds the store and `kv_store` the operations on it, with their
//! failures in `kv_store::kv_error`. `interceptor` holds the stages that
//! stand before an operation, `service` puts them around the handler, and
//! `shared` does the same on a store behind a lock. `laws` states what
//! holds of the operations taken together.

pub mod greeting;
pub mod imaging;
pub mod interceptor;
pub mod kv_store;
pub mod laws;
pub mod log;
pub mod request;
pub mod service;
pub mod shared;
pub mod state;
pub mod text;
