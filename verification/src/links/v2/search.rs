//! Addresses of the second-generation search endpoints.

use vstd::prelude::*;

verus! {

pub const RECENT: &'static str = "https://api.twitter.com/2/tweets/search/recent";

} // verus!
