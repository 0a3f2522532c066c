//! Errors surfaced by a page fetch.
//!
//! The pagination engine never inspects these: whatever the transport or the
//! decoder reports is relayed, unchanged, to the pull that triggered the
//! fetch, and the engine's own state is left exactly as it was before the
//! attempt.

use vstd::prelude::*;

verus! {

/// What can go wrong while fetching and decoding one page.
#[derive(Debug)]
pub enum Error {
    /// The response was well-formed but did not hold what was asked for.
    /// Carries a static description and, when available, the offending text.
    InvalidResponse(&'static str, Option<String>),
    /// The network request itself failed.
    TransportError(String),
    /// The response body could not be decoded into the expected page shape;
    /// a single malformed entry rejects the whole page.
    DecodeError(String),
    /// The endpoint reported an exhausted rate limit; the value is when the
    /// current window resets, in seconds since the epoch.
    RateLimit(i32),
    /// The endpoint answered with an error status code.
    BadStatus(u16),
}

} // verus!
