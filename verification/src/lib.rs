//! A small HTTP-to-object-storage gateway library.
//!
//! The library holds the verified core of a single-route gateway that maps a
//! request path to an object key, fetches the object from a bucket, and
//! answers with the object bytes under a resolved content type.
//!
//! The pieces compose linearly per request: `config` validates the connection
//! parameters once at startup, `client` turns them into the shared read-only
//! storage handle, and for each request `handler` folds the fetch outcome and
//! `content_type`'s resolution policy into the HTTP answer.

pub mod client;
pub mod config;
pub mod content_type;
pub mod handler;
pub mod text;
