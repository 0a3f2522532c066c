//! Operations on statuses: lookups, timelines, actions, and searches.
//!
//! Every operation that reaches the network is described here as a plain
//! request value (or as a pagination engine primed with one): the parameter
//! assembly, id rendering and clamping rules are this crate's logic, while
//! performing the request and decoding its body belong to the transport
//! collaborator.  The one decoding step that is this crate's own — reading
//! the id keys of a bulk-lookup answer — is [`lookup_map_build`].

use vstd::prelude::*;
use vstd::string::*;
use std::collections::HashMap;
use crate::auth::Token;
use crate::common::{
    bool_rep,
    bool_to_string,
    dec_rep,
    get,
    parse_dec_u64,
    parse_u64,
    post,
    u64_to_dec_string,
    FetchRequest,
    Method,
    ParamList,
    UserID,
};
use crate::cursor::{CursorIter, IDCursor, SearchCursor};
use crate::error::Error;
use crate::links;
use crate::tweet::raw::RawTweetV2;
use crate::tweet::{Timeline, Tweet};

verus! {

broadcast use vstd::std_specs::hash::group_hash_axioms;

/// The target address for an action on one status: the stem, a slash, the
/// status's id in decimal, and the `.json` suffix.
pub open spec fn id_url_rep(stem: Seq<char>, id: u64) -> Seq<char> {
    stem + "/"@ + dec_rep(id as nat) + ".json"@
}

fn id_url(stem: &str, id: u64) -> (r: String)
    ensures
        r@ == id_url_rep(stem@, id),
{
    let mut s = stem.to_owned();
    s.append("/");
    let num = u64_to_dec_string(id);
    s.append(num.as_str());
    s.append(".json");
    proof {
        assert(s@ =~= id_url_rep(stem@, id));
    }
    s
}

/// Describes the lookup of a single status by numeric id.
pub fn show(id: u64, token: &Token) -> (r: FetchRequest)
    ensures
        r.method == Method::Get,
        r.url@ == links::statuses::SHOW@,
        r.token == *token,
        r.params@ == seq![
            ("tweet_mode"@, "extended"@),
            ("id"@, dec_rep(id as nat)),
            ("include_my_retweet"@, "true"@),
            ("include_ext_alt_text"@, "true"@),
        ],
{
    let params = ParamList::new()
        .extended_tweets()
        .add_param("id", u64_to_dec_string(id))
        .add_param("include_my_retweet", String::from_str("true"))
        .add_param("include_ext_alt_text", String::from_str("true"));
    proof {
        assert(params@ =~= seq![
            ("tweet_mode"@, "extended"@),
            ("id"@, dec_rep(id as nat)),
            ("include_my_retweet"@, "true"@),
            ("include_ext_alt_text"@, "true"@),
        ]);
    }
    get(links::statuses::SHOW.to_owned(), token, params)
}

/// What a requested retweet count is clamped to: zero, or more than one
/// hundred, asks for one hundred.
pub open spec fn clamped_count(count: u32) -> u32 {
    if count == 0 || count > 100 {
        100
    } else {
        count
    }
}

/// Describes the lookup of the most recent hundred (or fewer) retweets of
/// the given status.  A `count` of zero or above one hundred is sent as one
/// hundred.
pub fn retweets_of(id: u64, count: u32, token: &Token) -> (r: FetchRequest)
    ensures
        r.method == Method::Get,
        r.url@ == id_url_rep(links::statuses::RETWEETS_OF_STEM@, id),
        r.token == *token,
        r.params@ == seq![
            ("tweet_mode"@, "extended"@),
            ("count"@, dec_rep(clamped_count(count) as nat)),
        ],
{
    let c: u32 = if count == 0 || count > 100 {
        100
    } else {
        count
    };
    let params = ParamList::new().extended_tweets().add_param(
        "count",
        u64_to_dec_string(c as u64),
    );
    proof {
        assert(params@ =~= seq![
            ("tweet_mode"@, "extended"@),
            ("count"@, dec_rep(clamped_count(count) as nat)),
        ]);
    }
    get(id_url(links::statuses::RETWEETS_OF_STEM, id), token, params)
}

/// A pagination engine over the ids of the accounts that retweeted the
/// given status.  This listing does not allow a configurable page size, so
/// the engine is built without one.
pub fn retweeters_of(id: u64, token: &Token) -> (r: CursorIter<IDCursor>)
    ensures
        r.link@ == links::statuses::RETWEETERS_OF@,
        r.token == *token,
        r.params_base is Some,
        r.params_base->0@ == seq![("id"@, dec_rep(id as nat))],
        r.page_size is None,
        r.previous_cursor is None,
        r.next_cursor is None,
        !r.fetch_pending,
        r.buffer is None,
{
    let params = ParamList::new().add_param("id", u64_to_dec_string(id));
    proof {
        assert(params@ =~= seq![("id"@, dec_rep(id as nat))]);
    }
    CursorIter::new(links::statuses::RETWEETERS_OF, token, Some(params), None)
}

/// The comma-separated decimal rendering of a sequence of ids.
pub open spec fn comma_join_dec(ids: Seq<u64>) -> Seq<char>
    decreases ids.len(),
{
    if ids.len() == 0 {
        Seq::empty()
    } else if ids.len() == 1 {
        dec_rep(ids[0] as nat)
    } else {
        comma_join_dec(ids.drop_last()) + seq![','] + dec_rep(ids.last() as nat)
    }
}

fn comma_join(ids: &Vec<u64>) -> (r: String)
    ensures
        r@ == comma_join_dec(ids@),
{
    let mut acc = String::new();
    let mut i: usize = 0;
    while i < ids.len()
        invariant
            i <= ids@.len(),
            acc@ == comma_join_dec(ids@.take(i as int)),
        decreases ids@.len() - i,
    {
        if i > 0 {
            acc.append(",");
        }
        let num = u64_to_dec_string(ids[i]);
        acc.append(num.as_str());
        proof {
            reveal_strlit(",");
            assert(ids@.take(i as int + 1).drop_last() =~= ids@.take(i as int));
            assert(ids@.take(i as int + 1).last() == ids@[i as int]);
            assert(acc@ =~= comma_join_dec(ids@.take(i as int + 1)));
        }
        i = i + 1;
    }
    proof {
        assert(ids@.take(ids@.len() as int) =~= ids@);
    }
    acc
}

/// Describes the bulk lookup of the given status ids.  Statuses that cannot
/// be loaded are left out of the answer; see [`lookup_map`] for the variant
/// that reports them.
pub fn lookup(ids: &Vec<u64>, token: &Token) -> (r: FetchRequest)
    ensures
        r.method == Method::Post,
        r.url@ == links::statuses::LOOKUP@,
        r.token == *token,
        r.params@ == seq![
            ("tweet_mode"@, "extended"@),
            ("id"@, comma_join_dec(ids@)),
            ("include_ext_alt_text"@, "true"@),
        ],
{
    let params = ParamList::new()
        .extended_tweets()
        .add_param("id", comma_join(ids))
        .add_param("include_ext_alt_text", String::from_str("true"));
    proof {
        assert(params@ =~= seq![
            ("tweet_mode"@, "extended"@),
            ("id"@, comma_join_dec(ids@)),
            ("include_ext_alt_text"@, "true"@),
        ]);
    }
    post(links::statuses::LOOKUP.to_owned(), token, params)
}

/// Describes the bulk lookup of the given status ids in map form: the
/// answer names every requested id, pairing the unloadable ones with
/// nothing.  [`lookup_map_build`] turns the decoded entries into that map.
pub fn lookup_map(ids: &Vec<u64>, token: &Token) -> (r: FetchRequest)
    ensures
        r.method == Method::Post,
        r.url@ == links::statuses::LOOKUP@,
        r.token == *token,
        r.params@ == seq![
            ("tweet_mode"@, "extended"@),
            ("id"@, comma_join_dec(ids@)),
            ("map"@, "true"@),
            ("include_ext_alt_text"@, "true"@),
        ],
{
    let params = ParamList::new()
        .extended_tweets()
        .add_param("id", comma_join(ids))
        .add_param("map", String::from_str("true"))
        .add_param("include_ext_alt_text", String::from_str("true"));
    proof {
        assert(params@ =~= seq![
            ("tweet_mode"@, "extended"@),
            ("id"@, comma_join_dec(ids@)),
            ("map"@, "true"@),
            ("include_ext_alt_text"@, "true"@),
        ]);
    }
    post(links::statuses::LOOKUP.to_owned(), token, params)
}

/// Whether every entry's key parses as a decimal id.
pub open spec fn entries_parse_ok(entries: Seq<(String, Option<Tweet>)>) -> bool {
    forall|i: int| 0 <= i < entries.len() ==> parse_dec_u64((#[trigger] entries[i]).0@) is Some
}

/// The map the decoded entries build: each key parsed as a decimal id,
/// inserted in order, a later entry overwriting an earlier one with the
/// same id.
pub open spec fn built_lookup_map(entries: Seq<(String, Option<Tweet>)>) -> Map<
    u64,
    Option<Tweet>,
>
    decreases entries.len(),
{
    if entries.len() == 0 {
        Map::empty()
    } else {
        built_lookup_map(entries.drop_last()).insert(
            parse_dec_u64(entries.last().0@)->0,
            entries.last().1,
        )
    }
}

/// Builds the id-to-status map of a map-form bulk lookup from its decoded
/// entries: each key is the requested id in decimal, each value the loaded
/// status or nothing.  Fails on the first key that is not a decimal id,
/// naming it; succeeds exactly when every key parses.
pub fn lookup_map_build(entries: Vec<(String, Option<Tweet>)>) -> (r: Result<
    HashMap<u64, Option<Tweet>>,
    Error,
>)
    ensures
        r is Ok <==> entries_parse_ok(entries@),
        r matches Ok(m) ==> m@ == built_lookup_map(entries@),
        r matches Err(e) ==> exists|i: int|
            {
                &&& 0 <= i < entries@.len()
                &&& parse_dec_u64((#[trigger] entries@[i]).0@) is None
                &&& (forall|j: int|
                    0 <= j < i ==> parse_dec_u64((#[trigger] entries@[j]).0@) is Some)
                &&& e == Error::InvalidResponse(
                    "could not parse id as integer",
                    Some(entries@[i].0),
                )
            },
{
    // first pass: find the first key that does not parse, while the entries
    // are still whole
    let mut i: usize = 0;
    while i < entries.len()
        invariant
            i <= entries@.len(),
            forall|j: int| 0 <= j < i ==> parse_dec_u64((#[trigger] entries@[j]).0@) is Some,
        decreases entries@.len() - i,
    {
        match parse_u64(entries[i].0.as_str()) {
            Some(_) => {},
            None => {
                let key = entries[i].0.clone();
                let e = Error::InvalidResponse("could not parse id as integer", Some(key));
                proof {
                    assert(parse_dec_u64(entries@[i as int].0@) is None);
                    assert(e == Error::InvalidResponse(
                        "could not parse id as integer",
                        Some(entries@[i as int].0),
                    ));
                    assert(exists|w: int|
                        {
                            &&& 0 <= w < entries@.len()
                            &&& parse_dec_u64((#[trigger] entries@[w]).0@) is None
                            &&& (forall|j: int|
                                0 <= j < w ==> parse_dec_u64((#[trigger] entries@[j]).0@) is Some)
                            &&& e == Error::InvalidResponse(
                                "could not parse id as integer",
                                Some(entries@[w].0),
                            )
                        });
                    assert(!entries_parse_ok(entries@));
                }
                return Err(e);
            },
        }
        i = i + 1;
    }
    proof {
        assert(entries_parse_ok(entries@));
    }
    // second pass: every key parses; drain the entries into the map in order
    let ghost orig = entries@;
    let mut rest = entries;
    let mut map: HashMap<u64, Option<Tweet>> = HashMap::new();
    while rest.len() > 0
        invariant
            rest@.len() <= orig.len(),
            rest@ == orig.skip(orig.len() - rest@.len()),
            map@ == built_lookup_map(orig.take(orig.len() - rest@.len())),
            entries_parse_ok(orig),
        decreases rest@.len(),
    {
        let ghost k = orig.len() - rest@.len();
        let kv = rest.remove(0);
        proof {
            assert(orig.skip(k as int)[0] == orig[k as int]);
            assert(kv == orig[k as int]);
            assert(orig.skip(k as int).drop_first() =~= orig.skip(k as int + 1));
        }
        let key = kv.0;
        let value = kv.1;
        match parse_u64(key.as_str()) {
            Some(id) => {
                map.insert(id, value);
                proof {
                    assert(orig.take(k + 1).drop_last() =~= orig.take(k as int));
                    assert(orig.take(k + 1).last() == orig[k as int]);
                    assert(map@ == built_lookup_map(orig.take(k + 1)));
                }
            },
            None => {
                proof {
                    assert(parse_dec_u64(orig[k as int].0@) is Some);
                    assert(false);
                }
                return Err(Error::InvalidResponse("could not parse id as integer", Some(key)));
            },
        }
    }
    proof {
        assert(orig.take(orig.len() as int) =~= orig);
    }
    Ok(map)
}

/// A timeline over the statuses posted by the authenticated account and the
/// accounts it follows.
pub fn home_timeline(token: &Token) -> (r: Timeline)
    ensures
        r.link@ == links::statuses::HOME_TIMELINE@,
        r.token == *token,
        r.params_base is None,
        r.count == 20,
        r.max_id is None,
        r.min_id is None,
{
    Timeline::new(links::statuses::HOME_TIMELINE, None, token)
}

/// A timeline over the statuses that mention the authenticated account's
/// handle.
pub fn mentions_timeline(token: &Token) -> (r: Timeline)
    ensures
        r.link@ == links::statuses::MENTIONS_TIMELINE@,
        r.token == *token,
        r.params_base is None,
        r.count == 20,
        r.max_id is None,
        r.min_id is None,
{
    Timeline::new(links::statuses::MENTIONS_TIMELINE, None, token)
}

/// The account-naming parameter pair for a request.
pub open spec fn user_param(user: UserID) -> (Seq<char>, Seq<char>) {
    match user {
        UserID::ID(id) => ("user_id"@, dec_rep(id as nat)),
        UserID::ScreenName(name) => ("screen_name"@, name@),
    }
}

/// A timeline over the statuses posted by the given account, including or
/// leaving out replies and retweets as asked.
pub fn user_timeline(acct: UserID, with_replies: bool, with_rts: bool, token: &Token) -> (r:
    Timeline)
    ensures
        r.link@ == links::statuses::USER_TIMELINE@,
        r.token == *token,
        r.count == 20,
        r.max_id is None,
        r.min_id is None,
        r.params_base is Some,
        r.params_base->0@ == seq![
            ("tweet_mode"@, "extended"@),
            user_param(acct),
            ("exclude_replies"@, bool_rep(!with_replies)),
            ("include_rts"@, bool_rep(with_rts)),
        ],
{
    let ghost acct_at_call = acct;
    let params = ParamList::new()
        .extended_tweets()
        .add_user_param(acct)
        .add_param("exclude_replies", bool_to_string(!with_replies))
        .add_param("include_rts", bool_to_string(with_rts));
    proof {
        assert(params@ =~= seq![
            ("tweet_mode"@, "extended"@),
            user_param(acct_at_call),
            ("exclude_replies"@, bool_rep(!with_replies)),
            ("include_rts"@, bool_rep(with_rts)),
        ]);
    }
    Timeline::new(links::statuses::USER_TIMELINE, Some(params), token)
}

/// A timeline over the authenticated account's statuses that others have
/// retweeted.
pub fn retweets_of_me(token: &Token) -> (r: Timeline)
    ensures
        r.link@ == links::statuses::RETWEETS_OF_ME@,
        r.token == *token,
        r.params_base is None,
        r.count == 20,
        r.max_id is None,
        r.min_id is None,
{
    Timeline::new(links::statuses::RETWEETS_OF_ME, None, token)
}

/// A timeline over the statuses liked by the given account.
pub fn liked_by(acct: UserID, token: &Token) -> (r: Timeline)
    ensures
        r.link@ == links::statuses::LIKES_OF@,
        r.token == *token,
        r.count == 20,
        r.max_id is None,
        r.min_id is None,
        r.params_base is Some,
        r.params_base->0@ == seq![("tweet_mode"@, "extended"@), user_param(acct)],
{
    let ghost acct_at_call = acct;
    let params = ParamList::new().extended_tweets().add_user_param(acct);
    proof {
        assert(params@ =~= seq![("tweet_mode"@, "extended"@), user_param(acct_at_call)]);
    }
    Timeline::new(links::statuses::LIKES_OF, Some(params), token)
}

/// Describes retweeting the given status as the authenticated account.
pub fn retweet(id: u64, token: &Token) -> (r: FetchRequest)
    ensures
        r.method == Method::Post,
        r.url@ == id_url_rep(links::statuses::RETWEET_STEM@, id),
        r.token == *token,
        r.params@ == seq![("tweet_mode"@, "extended"@)],
{
    let params = ParamList::new().extended_tweets();
    proof {
        assert(params@ =~= seq![("tweet_mode"@, "extended"@)]);
    }
    post(id_url(links::statuses::RETWEET_STEM, id), token, params)
}

/// Describes undoing the authenticated account's retweet of the given
/// status; the id may name the original status or the retweet itself.
pub fn unretweet(id: u64, token: &Token) -> (r: FetchRequest)
    ensures
        r.method == Method::Post,
        r.url@ == id_url_rep(links::statuses::UNRETWEET_STEM@, id),
        r.token == *token,
        r.params@ == seq![("tweet_mode"@, "extended"@)],
{
    let params = ParamList::new().extended_tweets();
    proof {
        assert(params@ =~= seq![("tweet_mode"@, "extended"@)]);
    }
    post(id_url(links::statuses::UNRETWEET_STEM, id), token, params)
}

/// Describes liking the given status as the authenticated account.
pub fn like(id: u64, token: &Token) -> (r: FetchRequest)
    ensures
        r.method == Method::Post,
        r.url@ == links::statuses::LIKE@,
        r.token == *token,
        r.params@ == seq![("tweet_mode"@, "extended"@), ("id"@, dec_rep(id as nat))],
{
    let params = ParamList::new().extended_tweets().add_param("id", u64_to_dec_string(id));
    proof {
        assert(params@ =~= seq![("tweet_mode"@, "extended"@), ("id"@, dec_rep(id as nat))]);
    }
    post(links::statuses::LIKE.to_owned(), token, params)
}

/// Describes clearing the authenticated account's like of the given status.
pub fn unlike(id: u64, token: &Token) -> (r: FetchRequest)
    ensures
        r.method == Method::Post,
        r.url@ == links::statuses::UNLIKE@,
        r.token == *token,
        r.params@ == seq![("tweet_mode"@, "extended"@), ("id"@, dec_rep(id as nat))],
{
    let params = ParamList::new().extended_tweets().add_param("id", u64_to_dec_string(id));
    proof {
        assert(params@ =~= seq![("tweet_mode"@, "extended"@), ("id"@, dec_rep(id as nat))]);
    }
    post(links::statuses::UNLIKE.to_owned(), token, params)
}

/// Describes deleting the given status; the authenticated account must be
/// its author.
pub fn delete(id: u64, token: &Token) -> (r: FetchRequest)
    ensures
        r.method == Method::Post,
        r.url@ == id_url_rep(links::statuses::DELETE_STEM@, id),
        r.token == *token,
        r.params@ == seq![("tweet_mode"@, "extended"@)],
{
    let params = ParamList::new().extended_tweets();
    proof {
        assert(params@ =~= seq![("tweet_mode"@, "extended"@)]);
    }
    post(id_url(links::statuses::DELETE_STEM, id), token, params)
}

/// A count squeezed into 32 signed bits, saturating at the top.
pub open spec fn sat_i32(n: int) -> i32 {
    if n > i32::MAX as int {
        i32::MAX
    } else {
        n as i32
    }
}

fn usize_to_i32_sat(n: usize) -> (r: i32)
    ensures
        r == sat_i32(n as int),
{
    if n > i32::MAX as usize {
        i32::MAX
    } else {
        n as i32
    }
}

/// The first-generation shape of a second-generation record that carries a
/// timestamp: required fields copied over, engagement counts taken from the
/// public metrics (zero when they were not asked for), and the fields the
/// newer API does not report left absent.
pub open spec fn tweet_from_raw_v2(raw: RawTweetV2) -> Tweet {
    Tweet {
        id: raw.id,
        text: raw.text,
        created_at: raw.created_at->0,
        favorite_count: match raw.public_metrics {
            Some(m) => sat_i32(m.like_count as int),
            None => 0,
        },
        retweet_count: match raw.public_metrics {
            Some(m) => sat_i32(m.retweet_count as int),
            None => 0,
        },
        favorited: None,
        retweeted: None,
        lang: raw.lang,
        in_reply_to_user_id: raw.in_reply_to_user_id,
        in_reply_to_screen_name: None,
        in_reply_to_status_id: None,
        quoted_status_id: None,
        truncated: false,
    }
}

/// Wrapper for [`Tweet`].
///
/// Exists to paper over differences in the second-generation API: a search
/// result decodes as a raw record and converts on the way in.
pub struct TweetWrapper(pub Tweet);

impl TweetWrapper {
    /// The wrapped status.
    pub fn tweet(&self) -> (r: &Tweet)
        ensures
            *r == self.0,
    {
        &self.0
    }

    /// Unwraps the status.
    pub fn into_inner(self) -> (r: Tweet)
        ensures
            r == self.0,
    {
        self.0
    }

    /// Converts a second-generation record.  Succeeds exactly when the
    /// record carries its timestamp (the first-generation shape requires
    /// one).
    pub fn try_from(raw: RawTweetV2) -> (r: Result<TweetWrapper, Error>)
        ensures
            r is Ok <==> raw.created_at is Some,
            r matches Ok(w) ==> w.0 == tweet_from_raw_v2(raw),
            r matches Err(e) ==> e == Error::InvalidResponse(
                "Field missing from response: created_at",
                None,
            ),
    {
        let ghost raw_at_call = raw;
        match raw.created_at {
            Some(created_at) => {
                let favorite_count = match &raw.public_metrics {
                    Some(m) => usize_to_i32_sat(m.like_count),
                    None => 0,
                };
                let retweet_count = match &raw.public_metrics {
                    Some(m) => usize_to_i32_sat(m.retweet_count),
                    None => 0,
                };
                Ok(
                    TweetWrapper(
                        Tweet {
                            id: raw.id,
                            text: raw.text,
                            created_at,
                            favorite_count,
                            retweet_count,
                            favorited: None,
                            retweeted: None,
                            lang: raw.lang,
                            in_reply_to_user_id: raw.in_reply_to_user_id,
                            in_reply_to_screen_name: None,
                            in_reply_to_status_id: None,
                            quoted_status_id: None,
                            truncated: false,
                        },
                    ),
                )
            },
            None => Err(Error::InvalidResponse("Field missing from response: created_at", None)),
        }
    }
}

/// A pagination engine over all the replies under the given status,
/// recursively, as converted records.
pub fn all_children(root_tweet_id: u64, token: &Token) -> (r: CursorIter<
    SearchCursor<TweetWrapper>,
>)
    ensures
        r.link@ == links::v2::search::RECENT@,
        r.token == *token,
        r.page_size == Some(100i32),
        r.params_base is Some,
        r.params_base->0@ == seq![
            ("query"@, "conversation_id:"@ + dec_rep(root_tweet_id as nat)),
            (
                "tweet.fields"@,
                "created_at,entities,geo,in_reply_to_user_id,lang,possibly_sensitive,public_metrics,source,withheld"@,
            ),
        ],
        r.previous_cursor is None,
        r.next_cursor is None,
        !r.fetch_pending,
        r.buffer is None,
{
    let mut q = String::from_str("conversation_id:");
    let num = u64_to_dec_string(root_tweet_id);
    q.append(num.as_str());
    let params = ParamList::new().add_param("query", q).add_param(
        "tweet.fields",
        RawTweetV2::fields_needed_for_v1_raw_tweet().to_owned(),
    );
    proof {
        assert(params@ =~= seq![
            ("query"@, "conversation_id:"@ + dec_rep(root_tweet_id as nat)),
            (
                "tweet.fields"@,
                "created_at,entities,geo,in_reply_to_user_id,lang,possibly_sensitive,public_metrics,source,withheld"@,
            ),
        ]);
    }
    CursorIter::new(links::v2::search::RECENT, token, Some(params), Some(100))
}

/// A pagination engine over all the replies under the given status,
/// recursively, as raw second-generation records.
pub fn all_children_raw(root_tweet_id: u64, token: &Token) -> (r: CursorIter<
    SearchCursor<RawTweetV2>,
>)
    ensures
        r.link@ == links::v2::search::RECENT@,
        r.token == *token,
        r.page_size == Some(100i32),
        r.params_base is Some,
        r.params_base->0@ == seq![
            ("query"@, "conversation_id:"@ + dec_rep(root_tweet_id as nat)),
            (
                "tweet.fields"@,
                "attachments,author_id,context_annotations,conversation_id,created_at,entities,geo,in_reply_to_user_id,lang,possibly_sensitive,public_metrics,referenced_tweets,reply_settings,source,withheld"@,
            ),
        ],
        r.previous_cursor is None,
        r.next_cursor is None,
        !r.fetch_pending,
        r.buffer is None,
{
    let mut q = String::from_str("conversation_id:");
    let num = u64_to_dec_string(root_tweet_id);
    q.append(num.as_str());
    let params = ParamList::new().add_param("query", q).add_param(
        "tweet.fields",
        RawTweetV2::all_fields().to_owned(),
    );
    proof {
        assert(params@ =~= seq![
            ("query"@, "conversation_id:"@ + dec_rep(root_tweet_id as nat)),
            (
                "tweet.fields"@,
                "attachments,author_id,context_annotations,conversation_id,created_at,entities,geo,in_reply_to_user_id,lang,possibly_sensitive,public_metrics,referenced_tweets,reply_settings,source,withheld"@,
            ),
        ]);
    }
    CursorIter::new(links::v2::search::RECENT, token, Some(params), Some(100))
}

} // verus!
