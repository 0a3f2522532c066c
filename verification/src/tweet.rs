//! Statuses: the tweet record, the timelines that page through statuses,
//! and the endpoint operations on them.

pub mod fun;
pub mod raw;

use vstd::prelude::*;
use crate::auth::Token;
use crate::common::ParamList;

verus! {

/// One status, reduced to the fields this crate's callers address.  The
/// transport collaborator fills one in when it decodes a response; timestamps
/// are carried as seconds since the epoch.
pub struct Tweet {
    /// Numeric id of the status.
    pub id: u64,
    /// The status text.
    pub text: String,
    /// When the status was posted, in seconds since the epoch.
    pub created_at: i64,
    /// How many accounts have liked the status.
    pub favorite_count: i32,
    /// How many accounts have retweeted the status.
    pub retweet_count: i32,
    /// Whether the authenticated account has liked the status, when known.
    pub favorited: Option<bool>,
    /// Whether the authenticated account has retweeted the status, when
    /// known.
    pub retweeted: Option<bool>,
    /// The status's language, when the endpoint reports one.
    pub lang: Option<String>,
    /// The id of the account this status replies to, if any.
    pub in_reply_to_user_id: Option<u64>,
    /// The handle of the account this status replies to, if any.
    pub in_reply_to_screen_name: Option<String>,
    /// The id of the status this one replies to, if any.
    pub in_reply_to_status_id: Option<u64>,
    /// The id of the status this one quotes, if any.
    pub quoted_status_id: Option<u64>,
    /// Whether the text was truncated by the endpoint.
    pub truncated: bool,
}

/// A navigator over a timeline endpoint: the fixed target, parameters and
/// credentials, plus the requested page size.
pub struct Timeline {
    /// The endpoint this timeline addresses.
    pub link: &'static str,
    /// The credentials attached to every request; cloned at construction.
    pub token: Token,
    /// Request parameters independent of paging.
    pub params_base: Option<ParamList>,
    /// The number of statuses to ask for in one request.
    pub count: i32,
    /// The greatest status id already loaded, when paging backward.
    pub max_id: Option<u64>,
    /// The least status id already loaded, when paging forward.
    pub min_id: Option<u64>,
}

impl Timeline {
    /// Creates a timeline navigator for the given endpoint with the default
    /// page size of twenty and no position loaded yet.
    pub fn new(link: &'static str, params_base: Option<ParamList>, token: &Token) -> (r:
        Timeline)
        ensures
            r.link == link,
            r.token == *token,
            r.params_base == params_base,
            r.count == 20,
            r.max_id is None,
            r.min_id is None,
    {
        Timeline {
            link,
            token: token.clone(),
            params_base,
            count: 20,
            max_id: None,
            min_id: None,
        }
    }
}

} // verus!
