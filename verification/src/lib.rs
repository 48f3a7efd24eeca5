//! Per-execution correlation of search hits with table rows.
//!
//! While one scan runs, the search engine reports hits as a row locator, a
//! relevance score and an engine-side document address. This crate keeps
//! those associations for the duration of the scan, so that the score of a
//! row can be found again when the row is produced, and discards them when
//! the next scan begins.

pub mod executor;
pub mod key;
pub mod logs;
pub mod manager;
pub mod model;
pub mod score;
