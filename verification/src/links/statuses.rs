//! Addresses of the status endpoints.

use vstd::prelude::*;

verus! {

pub const SHOW: &'static str = "https://api.twitter.com/1.1/statuses/show.json";

pub const RETWEETS_OF_STEM: &'static str = "https://api.twitter.com/1.1/statuses/retweets";

pub const RETWEETERS_OF: &'static str = "https://api.twitter.com/1.1/statuses/retweeters/ids.json";

pub const LOOKUP: &'static str = "https://api.twitter.com/1.1/statuses/lookup.json";

pub const HOME_TIMELINE: &'static str = "https://api.twitter.com/1.1/statuses/home_timeline.json";

pub const MENTIONS_TIMELINE: &'static str =
    "https://api.twitter.com/1.1/statuses/mentions_timeline.json";

pub const USER_TIMELINE: &'static str = "https://api.twitter.com/1.1/statuses/user_timeline.json";

pub const RETWEETS_OF_ME: &'static str =
    "https://api.twitter.com/1.1/statuses/retweets_of_me.json";

pub const LIKES_OF: &'static str = "https://api.twitter.com/1.1/favorites/list.json";

pub const RETWEET_STEM: &'static str = "https://api.twitter.com/1.1/statuses/retweet";

pub const UNRETWEET_STEM: &'static str = "https://api.twitter.com/1.1/statuses/unretweet";

pub const LIKE: &'static str = "https://api.twitter.com/1.1/favorites/create.json";

pub const UNLIKE: &'static str = "https://api.twitter.com/1.1/favorites/destroy.json";

pub const DELETE_STEM: &'static str = "https://api.twitter.com/1.1/statuses/destroy";

} // verus!
