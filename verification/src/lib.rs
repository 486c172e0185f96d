//! Iterative DNS resolution ("trace" style walking): starting from the root
//! name servers, repeatedly query one authority, classify its response as an
//! answer, a referral, or no new information, and follow referrals until an
//! answer is found or resolution definitively fails.
//!
//! The library models DNS data (names, addresses, records, responses) with
//! plain values; the network transport that produces a `Response` for a query
//! is a collaborator outside this crate.

pub mod text;
pub mod addr;
pub mod records;
pub mod authority;
pub mod step;
pub mod engine;
