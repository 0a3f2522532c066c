//! Decimal rendering and parsing, token collapsing, and the conversions
//! around the bulk-lookup map and the second-generation records.

use egg_mode::common::{bool_to_string, i32_to_dec_string, i64_to_dec_string, parse_u64, u64_to_dec_string};
use egg_mode::cursor::{collapse_token, Cursor, IDCursor, ListCursor, SearchCursor, UserCursor};
use egg_mode::error::Error;
use egg_mode::tweet::fun::{lookup_map_build, TweetWrapper};
use egg_mode::tweet::raw::{PublicMetrics, RawTweetV2};
use egg_mode::tweet::Tweet;

#[test]
fn decimal_rendering() {
    assert_eq!(u64_to_dec_string(0), "0");
    assert_eq!(u64_to_dec_string(7), "7");
    assert_eq!(u64_to_dec_string(10), "10");
    assert_eq!(u64_to_dec_string(123456789), "123456789");
    assert_eq!(u64_to_dec_string(u64::MAX), "18446744073709551615");

    assert_eq!(i64_to_dec_string(0), "0");
    assert_eq!(i64_to_dec_string(-5), "-5");
    assert_eq!(i64_to_dec_string(i64::MAX), "9223372036854775807");
    assert_eq!(i64_to_dec_string(i64::MIN), "-9223372036854775808");

    assert_eq!(i32_to_dec_string(20), "20");
    assert_eq!(i32_to_dec_string(-1), "-1");

    assert_eq!(bool_to_string(true), "true");
    assert_eq!(bool_to_string(false), "false");
}

#[test]
fn decimal_parsing() {
    assert_eq!(parse_u64("0"), Some(0));
    assert_eq!(parse_u64("007"), Some(7));
    assert_eq!(parse_u64("1234567890123456789"), Some(1234567890123456789));
    assert_eq!(parse_u64("18446744073709551615"), Some(u64::MAX));
    // one past the top does not fit
    assert_eq!(parse_u64("18446744073709551616"), None);
    assert_eq!(parse_u64(""), None);
    assert_eq!(parse_u64("12a"), None);
    assert_eq!(parse_u64("-3"), None);
    assert_eq!(parse_u64("+3"), None);
    assert_eq!(parse_u64(" 3"), None);
}

#[test]
fn decimal_round_trip() {
    for n in [0u64, 1, 9, 10, 42, 100, 65535, 1234567890123456789, u64::MAX] {
        assert_eq!(parse_u64(&u64_to_dec_string(n)), Some(n));
    }
}

#[test]
fn zero_token_collapses_to_absent() {
    assert_eq!(collapse_token(0), None);
    assert_eq!(collapse_token(5), Some(5));
    assert_eq!(collapse_token(-9), Some(-9));

    // both positions, on every page shape that decodes raw integer tokens
    let page = UserCursor { previous_cursor: 0, next_cursor: 0, users: vec![] };
    assert_eq!(page.previous_cursor_id(), None);
    assert_eq!(page.next_cursor_id(), None);

    let page = IDCursor { previous_cursor: 0, next_cursor: 42, ids: vec![1] };
    assert_eq!(page.previous_cursor_id(), None);
    assert_eq!(page.next_cursor_id(), Some(42));

    let page = ListCursor { previous_cursor: -3, next_cursor: 0, lists: vec![] };
    assert_eq!(page.previous_cursor_id(), Some(-3));
    assert_eq!(page.next_cursor_id(), None);
}

#[test]
fn cursor_items_drain_in_order() {
    let page = IDCursor { previous_cursor: 0, next_cursor: 0, ids: vec![4, 5, 6] };
    assert_eq!(page.into_inner(), vec![4, 5, 6]);

    let page: SearchCursor<u64> = SearchCursor { next_token: None, items: vec![9, 8] };
    assert_eq!(page.previous_cursor_id(), None);
    assert_eq!(page.next_cursor_id(), None);
    assert_eq!(page.into_inner(), vec![9, 8]);
}

fn plain_tweet(id: u64, text: &str) -> Tweet {
    Tweet {
        id,
        text: text.to_string(),
        created_at: 1_600_000_000,
        favorite_count: 0,
        retweet_count: 0,
        favorited: None,
        retweeted: None,
        lang: None,
        in_reply_to_user_id: None,
        in_reply_to_screen_name: None,
        in_reply_to_status_id: None,
        quoted_status_id: None,
        truncated: false,
    }
}

#[test]
fn lookup_map_builds_from_entries() {
    let entries = vec![
        (String::from("10"), None),
        (String::from("11"), Some(plain_tweet(11, "hello"))),
    ];
    let map = lookup_map_build(entries).expect("all keys parse");
    assert_eq!(map.len(), 2);
    assert!(map.get(&10).expect("requested id present").is_none());
    let loaded = map.get(&11).expect("requested id present");
    assert_eq!(loaded.as_ref().expect("status loaded").text, "hello");
}

#[test]
fn lookup_map_rejects_bad_key() {
    let entries = vec![
        (String::from("10"), None),
        (String::from("not-a-number"), None),
        (String::from("12"), None),
    ];
    match lookup_map_build(entries) {
        Err(Error::InvalidResponse(msg, detail)) => {
            assert_eq!(msg, "could not parse id as integer");
            assert_eq!(detail.as_deref(), Some("not-a-number"));
        }
        _ => panic!("a key that is not a decimal id rejects the response"),
    }
}

#[test]
fn lookup_map_later_entry_overwrites() {
    let entries = vec![
        (String::from("10"), None),
        (String::from("10"), Some(plain_tweet(10, "later"))),
    ];
    let map = lookup_map_build(entries).expect("all keys parse");
    assert_eq!(map.len(), 1);
    let loaded = map.get(&10).expect("requested id present");
    assert_eq!(loaded.as_ref().expect("status loaded").text, "later");
}

fn raw_record(created_at: Option<i64>, metrics: Option<PublicMetrics>) -> RawTweetV2 {
    RawTweetV2 {
        id: 99,
        text: String::from("raw text"),
        attachments: None,
        author_id: Some(7),
        context_annotations: None,
        conversation_id: None,
        created_at,
        entities: None,
        geo: None,
        in_reply_to_user_id: Some(3),
        lang: Some(String::from("en")),
        non_public_metrics: None,
        organic_metrics: None,
        possibly_sensitive: None,
        promoted_metrics: None,
        public_metrics: metrics,
        referenced_tweets: None,
        reply_settings: None,
        source: None,
        withheld: None,
    }
}

#[test]
fn wrapper_conversion_requires_timestamp() {
    match TweetWrapper::try_from(raw_record(None, None)) {
        Err(Error::InvalidResponse(msg, detail)) => {
            assert_eq!(msg, "Field missing from response: created_at");
            assert!(detail.is_none());
        }
        _ => panic!("a record without its timestamp cannot convert"),
    }
}

#[test]
fn wrapper_conversion_copies_fields() {
    let metrics = PublicMetrics { retweet_count: 4, reply_count: 1, like_count: 9, quote_count: 0 };
    let wrapped = TweetWrapper::try_from(raw_record(Some(1_650_000_000), Some(metrics)))
        .expect("timestamp present");
    let tweet = wrapped.tweet();
    assert_eq!(tweet.id, 99);
    assert_eq!(tweet.text, "raw text");
    assert_eq!(tweet.created_at, 1_650_000_000);
    assert_eq!(tweet.favorite_count, 9);
    assert_eq!(tweet.retweet_count, 4);
    assert_eq!(tweet.lang.as_deref(), Some("en"));
    assert_eq!(tweet.in_reply_to_user_id, Some(3));
    let inner = wrapped.into_inner();
    assert_eq!(inner.id, 99);
}

#[test]
fn wrapper_conversion_saturates_counts() {
    let metrics = PublicMetrics {
        retweet_count: usize::MAX,
        reply_count: 0,
        like_count: (i32::MAX as usize) + 1,
        quote_count: 0,
    };
    let wrapped = TweetWrapper::try_from(raw_record(Some(1), Some(metrics)))
        .expect("timestamp present");
    assert_eq!(wrapped.tweet().favorite_count, i32::MAX);
    assert_eq!(wrapped.tweet().retweet_count, i32::MAX);

    // counts without metrics default to zero
    let wrapped = TweetWrapper::try_from(raw_record(Some(1), None)).expect("timestamp present");
    assert_eq!(wrapped.tweet().favorite_count, 0);
    assert_eq!(wrapped.tweet().retweet_count, 0);
}
