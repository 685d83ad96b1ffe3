//! The link registry of a URL shortener.
//!
//! The registry maps short opaque slugs to destination URLs. Links are kept in
//! a durable store, a relational table with a primary key on the slug and a
//! unique constraint on the destination; a bounded in-memory cache stands in
//! front of it, and every request is counted.
//!
//! - [`slug`]: the identifier type, its generation and its parsing.
//! - [`store`]: the answers of the durable store, and a model of its table.
//! - [`cache`]: the cache, and what is known of it.
//! - [`metrics`]: the counters and their export.
//! - [`handlers`]: resolving, reverse lookup and creation with its retries on
//!   collision, each as a sequence of steps between which the caller talks to
//!   the store.
//! - [`consistency`]: what these operations guarantee together: agreement of
//!   cache and store, and slugs and destinations that stay unique.
//! - [`error`]: the kinds of failure.
//!
//! Talking to the store, and serving HTTP, are the caller's work.

pub mod cache;
pub mod consistency;
pub mod error;
pub mod handlers;
pub mod metrics;
pub mod slug;
pub mod store;
pub mod text;
