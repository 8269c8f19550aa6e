//! Verified core of a cursor-paginated analytics sync service.
//!
//! The library pulls four kinds of time-series analytics (price/depth,
//! earnings, swaps, rune-pool) from a paginated upstream API, normalizes the
//! string-typed wire records into typed rows, plans the retrieval queries,
//! encodes batches for persistence, and drives the per-resource sync loop as
//! a verified state machine. All I/O (HTTP, database) stays outside; the
//! library computes, decides, and proves.

pub mod earnings;
pub mod error;
pub mod intervals;
pub mod numeric;
pub mod orchestrate;
pub mod persist;
pub mod price_depth;
pub mod query;
pub mod runepool;
pub mod swaps;
pub mod sync;
pub mod timefmt;
pub mod wire;
