//! A one-level web crawler's verified core.
//!
//! The crate fetches nothing itself: callers perform the HTTP exchanges and
//! the archive file write, and hand the raw outcomes to the functions here.
//! The library classifies fetch outcomes, discovers the dependent resources a
//! seed page references, builds the archive records, and fixes the order in
//! which the records must be written.

pub mod crawl;
pub mod extract;
pub mod fetch;
pub mod record;
