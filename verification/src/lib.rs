//! Verified data-access core for a small contact service.
//!
//! The crate covers the parts of such a service with real design decisions:
//! the data model (`contact`),
//! the bounded connection pool and its acquisition discipline (`pool`),
//! dynamic composition of parameterized statements from optional filters
//! (`query`), pagination clamping (`pagination`), case-insensitive substring
//! matching for the phone-number predicate (`matching`), the repository that
//! sequences one acquisition with one statement (`repo`), and the closed
//! error taxonomy the boundary layer renders (`error`).
//!
//! Transport, logging and process bootstrap are out of scope: they hand the
//! core parsed payloads and filter parameters and render its results.

pub mod contact;
pub mod error;
pub mod matching;
pub mod pagination;
pub mod pool;
pub mod query;
pub mod repo;
