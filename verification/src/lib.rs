//! A small library for fetching web content through a durable on-disk cache
//! and for pulling typed values out of parsed HTML documents.
//!
//! The cache maps an arbitrary request key to a stable file location through a
//! hash-bucketed, collision-free encoding scheme (`encode`), and the selection
//! engine (`scrape`) offers cardinality-checked combinators over a CSS-like
//! selector language. The decision logic of the fetcher (`fetch`) validates
//! requests and response statuses; performing the actual network and file
//! operations is left to the caller.

pub mod cache;
pub mod encode;
pub mod error;
pub mod extract;
pub mod fetch;
pub mod scrape_error;
pub mod scrape;
