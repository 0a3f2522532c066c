//! Driving the pagination engine by hand through fetches, errors and
//! reconfigurations.

use egg_mode::auth::Token;
use egg_mode::common::{Param, RateLimit, Response};
use egg_mode::cursor::{CursorIter, FetchOutcome, IDCursor, PollStep, UserCursor};
use egg_mode::error::Error;
use egg_mode::user::TwitterUser;

fn token() -> Token {
    Token::Bearer(String::from("bearer-token-for-tests"))
}

fn rate(remaining: i32) -> RateLimit {
    RateLimit {
        limit: 15,
        remaining,
        reset: 1_700_000_000,
    }
}

fn page(prev: i64, next: i64, ids: Vec<u64>, remaining: i32) -> FetchOutcome<IDCursor> {
    FetchOutcome::Success(Response {
        rate_limit_status: rate(remaining),
        response: IDCursor {
            previous_cursor: prev,
            next_cursor: next,
            ids,
        },
    })
}

fn param_pairs(params: &[Param]) -> Vec<(String, String)> {
    params
        .iter()
        .map(|p| (p.name.clone(), p.value.clone()))
        .collect()
}

#[test]
fn scenario_two_pages_then_end() {
    // engine constructed with next_token absent, page_size 2, sizing supported
    let mut engine: CursorIter<IDCursor> =
        CursorIter::new("https://api.twitter.com/1.1/statuses/retweeters/ids.json", &token(), None, Some(2));

    // first pull triggers fetch #1
    let step = engine.poll_next(FetchOutcome::Waiting);
    let req1 = match step {
        PollStep::FetchStarted(req) => req,
        _ => panic!("first pull must start a fetch"),
    };
    assert!(engine.fetch_pending);
    assert_eq!(
        param_pairs(&req1.params.params),
        vec![("count".to_string(), "2".to_string())]
    );

    // fetch #1 resolves with items [11, 22] and next token 5
    let step = engine.poll_next(page(0, 5, vec![11, 22], 14));
    match step {
        PollStep::Yielded(item) => {
            assert_eq!(item.response, 11);
            assert_eq!(item.rate_limit_status.remaining, 14);
        }
        _ => panic!("resolved fetch must yield the first item"),
    }
    assert_eq!(engine.next_cursor, Some(5));
    assert_eq!(engine.previous_cursor, None);

    // the second item drains from the buffer
    match engine.poll_next(FetchOutcome::Waiting) {
        PollStep::Yielded(item) => assert_eq!(item.response, 22),
        _ => panic!("buffered item expected"),
    }

    // pull #3 triggers fetch #2 with starting token 5
    let req2 = match engine.poll_next(FetchOutcome::Waiting) {
        PollStep::FetchStarted(req) => req,
        _ => panic!("exhausted buffer with next token must start a fetch"),
    };
    assert_eq!(
        param_pairs(&req2.params.params),
        vec![
            ("cursor".to_string(), "5".to_string()),
            ("count".to_string(), "2".to_string()),
        ]
    );

    // fetch #2 resolves with [33] and no next token
    match engine.poll_next(page(2, 0, vec![33], 13)) {
        PollStep::Yielded(item) => {
            assert_eq!(item.response, 33);
            assert_eq!(item.rate_limit_status.remaining, 13);
        }
        _ => panic!("resolved fetch must yield its item"),
    }

    // the walk ends, and stays ended, with no further fetch
    assert!(matches!(engine.poll_next(FetchOutcome::Waiting), PollStep::Finished));
    assert!(matches!(engine.poll_next(FetchOutcome::Waiting), PollStep::Finished));
    assert!(!engine.fetch_pending);
}

#[test]
fn scenario_error_then_identical_retry() {
    let mut engine: CursorIter<IDCursor> =
        CursorIter::new("https://api.twitter.com/1.1/statuses/retweeters/ids.json", &token(), None, Some(2));

    let req1 = match engine.poll_next(FetchOutcome::Waiting) {
        PollStep::FetchStarted(req) => req,
        _ => panic!("first pull must start a fetch"),
    };

    // fetch #1 fails with a transport error; the pull sees that error
    let step = engine.poll_next(FetchOutcome::Failure(Error::TransportError(String::from(
        "connection reset",
    ))));
    match step {
        PollStep::Errored(Error::TransportError(msg)) => assert_eq!(msg, "connection reset"),
        _ => panic!("the failure must surface to this pull"),
    }

    // tokens remain absent and nothing is pending
    assert_eq!(engine.previous_cursor, None);
    assert_eq!(engine.next_cursor, None);
    assert!(!engine.fetch_pending);

    // the second pull re-issues fetch #1 identically
    let req2 = match engine.poll_next(FetchOutcome::Waiting) {
        PollStep::FetchStarted(req) => req,
        _ => panic!("retry must start a fetch"),
    };
    assert_eq!(param_pairs(&req1.params.params), param_pairs(&req2.params.params));
    assert_eq!(req1.url, req2.url);
}

#[test]
fn error_after_advance_keeps_tokens() {
    let mut engine: CursorIter<IDCursor> =
        CursorIter::new("https://api.twitter.com/1.1/statuses/retweeters/ids.json", &token(), None, None);

    // load a page so the walk has a position
    assert!(matches!(engine.poll_next(FetchOutcome::Waiting), PollStep::FetchStarted(_)));
    match engine.poll_next(page(0, 42, vec![7], 10)) {
        PollStep::Yielded(item) => assert_eq!(item.response, 7),
        _ => panic!("item expected"),
    }
    // buffer drained: the next pull starts the fetch for token 42
    assert!(matches!(engine.poll_next(FetchOutcome::Waiting), PollStep::FetchStarted(_)));

    // that fetch fails: the stored tokens must be exactly as before
    match engine.poll_next(FetchOutcome::Failure(Error::RateLimit(1_700_000_123))) {
        PollStep::Errored(Error::RateLimit(reset)) => assert_eq!(reset, 1_700_000_123),
        _ => panic!("the failure must surface"),
    }
    assert_eq!(engine.next_cursor, Some(42));
    assert!(!engine.fetch_pending);

    // and the retry asks for the same page
    match engine.poll_next(FetchOutcome::Waiting) {
        PollStep::FetchStarted(req) => {
            assert_eq!(
                param_pairs(&req.params.params),
                vec![("cursor".to_string(), "42".to_string())]
            );
        }
        _ => panic!("retry must start a fetch"),
    }
}

#[test]
fn pending_pulls_do_not_duplicate_fetch() {
    let mut engine: CursorIter<IDCursor> =
        CursorIter::new("https://api.twitter.com/1.1/statuses/retweeters/ids.json", &token(), None, None);

    assert!(matches!(engine.poll_next(FetchOutcome::Waiting), PollStep::FetchStarted(_)));

    // two pulls while the fetch is in flight: both suspend, neither starts
    // another fetch
    assert!(matches!(engine.poll_next(FetchOutcome::Waiting), PollStep::Suspended));
    assert!(matches!(engine.poll_next(FetchOutcome::Waiting), PollStep::Suspended));
    assert!(engine.fetch_pending);

    // the one fetch's outcome satisfies the waiting pulls
    match engine.poll_next(page(0, 0, vec![5, 6], 9)) {
        PollStep::Yielded(item) => assert_eq!(item.response, 5),
        _ => panic!("item expected"),
    }
    match engine.poll_next(FetchOutcome::Waiting) {
        PollStep::Yielded(item) => assert_eq!(item.response, 6),
        _ => panic!("item expected"),
    }
}

#[test]
fn empty_page_with_next_token_continues() {
    let mut engine: CursorIter<IDCursor> =
        CursorIter::new("https://api.twitter.com/1.1/statuses/retweeters/ids.json", &token(), None, None);

    assert!(matches!(engine.poll_next(FetchOutcome::Waiting), PollStep::FetchStarted(_)));

    // a page with zero items but a present next token must not end the walk:
    // the engine starts the following fetch at once
    match engine.poll_next(page(0, 9, vec![], 8)) {
        PollStep::FetchStarted(req) => {
            let pairs = param_pairs(&req.params.params);
            assert_eq!(pairs, vec![("cursor".to_string(), "9".to_string())]);
        }
        _ => panic!("an empty page with a next token must fetch forward"),
    }
    assert!(engine.fetch_pending);

    // the following page ends the walk
    match engine.poll_next(page(3, 0, vec![77], 7)) {
        PollStep::Yielded(item) => assert_eq!(item.response, 77),
        _ => panic!("item expected"),
    }
    assert!(matches!(engine.poll_next(FetchOutcome::Waiting), PollStep::Finished));
}

#[test]
fn forward_progress_over_three_pages() {
    let mut engine: CursorIter<IDCursor> =
        CursorIter::new("https://api.twitter.com/1.1/statuses/retweeters/ids.json", &token(), None, None);

    let pages = vec![
        (0i64, 10i64, vec![1u64, 2], 14),
        (5i64, 20i64, vec![3u64, 4], 13),
        (10i64, 0i64, vec![5u64, 6], 12),
    ];
    let mut yielded: Vec<(u64, i32)> = Vec::new();
    let mut supply = pages.into_iter();
    let mut outcome: FetchOutcome<IDCursor> = FetchOutcome::Waiting;
    loop {
        match engine.poll_next(outcome) {
            PollStep::Yielded(item) => {
                yielded.push((item.response, item.rate_limit_status.remaining));
                outcome = FetchOutcome::Waiting;
            }
            PollStep::FetchStarted(_) => {
                let (prev, next, ids, remaining) = supply.next().expect("no more pages");
                outcome = page(prev, next, ids, remaining);
            }
            PollStep::Finished => break,
            PollStep::Suspended => panic!("no pull was made while waiting"),
            PollStep::Errored(_) => panic!("no fetch failed"),
        }
    }
    // every page's items, in page order then in-page order, each tagged with
    // its own page's rate-limit snapshot
    assert_eq!(
        yielded,
        vec![(1, 14), (2, 14), (3, 13), (4, 13), (5, 12), (6, 12)]
    );
}

#[test]
fn errors_relay_unchanged() {
    let cases = vec![
        Error::TransportError(String::from("dns failure")),
        Error::DecodeError(String::from("malformed entry in page")),
        Error::RateLimit(88),
        Error::BadStatus(503),
        Error::InvalidResponse("unexpected response for lookup_map", None),
    ];
    for case in cases {
        let mut engine: CursorIter<IDCursor> =
            CursorIter::new("https://api.twitter.com/1.1/statuses/retweeters/ids.json", &token(), None, None);
        assert!(matches!(engine.poll_next(FetchOutcome::Waiting), PollStep::FetchStarted(_)));
        match engine.poll_next(FetchOutcome::Failure(case)) {
            PollStep::Errored(e) => match e {
                Error::TransportError(msg) => assert_eq!(msg, "dns failure"),
                Error::DecodeError(msg) => assert_eq!(msg, "malformed entry in page"),
                Error::RateLimit(reset) => assert_eq!(reset, 88),
                Error::BadStatus(code) => assert_eq!(code, 503),
                Error::InvalidResponse(msg, detail) => {
                    assert_eq!(msg, "unexpected response for lookup_map");
                    assert!(detail.is_none());
                }
            },
            _ => panic!("the failure must surface"),
        }
    }
}

#[test]
fn with_page_size_noop_when_unsupported() {
    let mut engine: CursorIter<IDCursor> =
        CursorIter::new("https://api.twitter.com/1.1/statuses/retweeters/ids.json", &token(), None, None);
    engine.next_cursor = Some(3);
    engine.previous_cursor = Some(1);
    let engine = engine.with_page_size(50);
    // sizing unsupported: nothing changes, tokens included
    assert_eq!(engine.page_size, None);
    assert_eq!(engine.next_cursor, Some(3));
    assert_eq!(engine.previous_cursor, Some(1));
}

#[test]
fn with_page_size_resets_walk_when_supported() {
    let mut engine: CursorIter<IDCursor> =
        CursorIter::new("https://api.twitter.com/1.1/statuses/retweeters/ids.json", &token(), None, Some(2));

    // advance past page 1
    assert!(matches!(engine.poll_next(FetchOutcome::Waiting), PollStep::FetchStarted(_)));
    match engine.poll_next(page(0, 5, vec![11, 22], 14)) {
        PollStep::Yielded(item) => assert_eq!(item.response, 11),
        _ => panic!("item expected"),
    }
    assert_eq!(engine.next_cursor, Some(5));
    assert!(engine.buffer.is_some());

    // reconfiguring the page size starts the walk over with the new size
    let mut engine = engine.with_page_size(3);
    assert_eq!(engine.page_size, Some(3));
    assert_eq!(engine.previous_cursor, None);
    assert_eq!(engine.next_cursor, None);
    assert!(engine.buffer.is_none());
    assert!(!engine.fetch_pending);

    // the next pull starts over from page 1 with the new size
    match engine.poll_next(FetchOutcome::Waiting) {
        PollStep::FetchStarted(req) => {
            assert_eq!(
                param_pairs(&req.params.params),
                vec![("count".to_string(), "3".to_string())]
            );
        }
        _ => panic!("fresh fetch expected"),
    }
}

#[test]
fn user_pages_share_their_page_metadata() {
    let mut engine: CursorIter<UserCursor> =
        CursorIter::new("https://api.twitter.com/1.1/followers/list.json", &token(), None, Some(2));
    assert!(matches!(engine.poll_next(FetchOutcome::Waiting), PollStep::FetchStarted(_)));

    let user = |id: u64, handle: &str| TwitterUser {
        id,
        screen_name: handle.to_string(),
        name: handle.to_uppercase(),
    };
    let outcome = FetchOutcome::Success(Response {
        rate_limit_status: rate(14),
        response: UserCursor {
            previous_cursor: 0,
            next_cursor: 0,
            users: vec![user(1, "first"), user(2, "second")],
        },
    });

    // both items of the page carry the page's own rate-limit snapshot
    match engine.poll_next(outcome) {
        PollStep::Yielded(item) => {
            assert_eq!(item.response.screen_name, "first");
            assert_eq!(item.rate_limit_status, rate(14));
        }
        _ => panic!("item expected"),
    }
    match engine.poll_next(FetchOutcome::Waiting) {
        PollStep::Yielded(item) => {
            assert_eq!(item.response.screen_name, "second");
            assert_eq!(item.rate_limit_status, rate(14));
        }
        _ => panic!("item expected"),
    }
    assert!(matches!(engine.poll_next(FetchOutcome::Waiting), PollStep::Finished));
}

#[test]
fn manual_call_does_not_mutate() {
    let mut engine: CursorIter<IDCursor> =
        CursorIter::new("https://api.twitter.com/1.1/statuses/retweeters/ids.json", &token(), None, Some(7));
    engine.next_cursor = Some(99);
    let req = engine.call();
    assert_eq!(req.url, "https://api.twitter.com/1.1/statuses/retweeters/ids.json");
    assert_eq!(
        param_pairs(&req.params.params),
        vec![
            ("cursor".to_string(), "99".to_string()),
            ("count".to_string(), "7".to_string()),
        ]
    );
    // the manual fetch description leaves the engine as it was
    assert_eq!(engine.next_cursor, Some(99));
    assert!(!engine.fetch_pending);
    assert!(engine.buffer.is_none());
}
