//! Types and proofs to navigate cursored collections.
//!
//! A listing endpoint answers one page at a time: a batch of items plus
//! optional previous/next page tokens.  The [`Cursor`] trait is the page
//! contract — how to read a page's tokens and drain its items — and
//! [`CursorIter`] is the engine that walks such pages: it keeps the current
//! tokens, buffers the fetched page's items, and hands them out one pull at
//! a time, describing each network fetch as a [`FetchRequest`] for the
//! caller's transport to perform.
//!
//! The walk itself is specified as an explicit state machine over a ghost
//! [`Walk`] value ([`engine_step`]), and the pull operation is proved to
//! follow it step for step; the laws at the end of this module state the
//! walk's global guarantees (every page's items in order, no duplicate
//! fetch, failed fetches never move the position, an empty page with a next
//! token does not end the walk).

use vstd::prelude::*;
use vstd::string::*;
use crate::auth::Token;
use crate::common::{
    get,
    i32_to_dec_string,
    i64_to_dec_string,
    int_dec_rep,
    FetchRequest,
    Method,
    ParamList,
    RateLimit,
    Response,
};
use crate::error::Error;

verus! {

/// The collapsing rule for raw wire tokens: a raw value of zero marks an
/// absent token.
pub open spec fn spec_collapse_token(raw: i64) -> Option<i64> {
    if raw == 0 {
        None
    } else {
        Some(raw)
    }
}

/// Decodes a raw wire token, collapsing zero to an absent token.
pub fn collapse_token(raw: i64) -> (r: Option<i64>)
    ensures
        r == spec_collapse_token(raw),
{
    if raw == 0 {
        None
    } else {
        Some(raw)
    }
}

/// The page contract: how one fetched page of a cursored listing exposes
/// its paging tokens and its items.
///
/// Types that implement `Cursor` are the intermediate step in
/// [`CursorIter`]'s walk.  Most of the time there is no need to deal with
/// them directly, but the manual paging operations hand them out whole.
pub trait Cursor: Sized {
    /// What kind of item the listing yields.
    type Item;

    /// The type of the id used to track pages.
    type Id;

    /// The page's previous-page token, or absent when this is the first
    /// page (or the concrete format does not supply one).
    spec fn prev_view(&self) -> Option<Self::Id>;

    /// The page's next-page token, or absent when this is the last page.
    spec fn next_view(&self) -> Option<Self::Id>;

    /// The page's items, in the page's own order.
    spec fn items_view(&self) -> Seq<Self::Item>;

    /// How a page id reads as a request parameter value.
    spec fn spec_id_param_value(id: Self::Id) -> Seq<char>;

    /// Name of the parameter that asks for a page size.  Most endpoint
    /// families use `count`; the second-generation search family differs.
    spec fn spec_count_param_name() -> Seq<char>;

    /// Name of the parameter that names the page to start from.  Most
    /// endpoint families use `cursor`; the second-generation search family
    /// differs.
    spec fn spec_starting_cursor_param_name() -> Seq<char>;

    /// The page-size parameter name, as sent on the wire.
    fn count_parameter_name() -> (r: &'static str)
        ensures
            r@ == Self::spec_count_param_name(),
    ;

    /// The starting-token parameter name, as sent on the wire.
    fn starting_cursor_parameter_name() -> (r: &'static str)
        ensures
            r@ == Self::spec_starting_cursor_param_name(),
    ;

    /// Renders a page id as a request parameter value.
    fn id_param_value(id: &Self::Id) -> (r: String)
        ensures
            r@ == Self::spec_id_param_value(*id),
    ;

    /// Returns the id for the previous page of results, if available.
    fn previous_cursor_id(&self) -> (r: Option<Self::Id>)
        ensures
            r == self.prev_view(),
    ;

    /// Returns the id for the next page of results, if available.
    fn next_cursor_id(&self) -> (r: Option<Self::Id>)
        ensures
            r == self.next_view(),
    ;

    /// Unwraps the page, returning the collection of results from inside.
    fn into_inner(self) -> (r: Vec<Self::Item>)
        ensures
            r@ == self.items_view(),
    ;
}

/// A single-page view into a list of users.
pub struct UserCursor {
    /// Raw numeric reference to the previous page of results; zero when
    /// there is none.
    pub previous_cursor: i64,
    /// Raw numeric reference to the next page of results; zero when there
    /// is none.
    pub next_cursor: i64,
    /// The users in this page of results.
    pub users: Vec<crate::user::TwitterUser>,
}

impl Cursor for UserCursor {
    type Item = crate::user::TwitterUser;

    type Id = i64;

    open spec fn prev_view(&self) -> Option<i64> {
        spec_collapse_token(self.previous_cursor)
    }

    open spec fn next_view(&self) -> Option<i64> {
        spec_collapse_token(self.next_cursor)
    }

    open spec fn items_view(&self) -> Seq<crate::user::TwitterUser> {
        self.users@
    }

    open spec fn spec_id_param_value(id: i64) -> Seq<char> {
        int_dec_rep(id as int)
    }

    open spec fn spec_count_param_name() -> Seq<char> {
        "count"@
    }

    open spec fn spec_starting_cursor_param_name() -> Seq<char> {
        "cursor"@
    }

    fn count_parameter_name() -> &'static str {
        "count"
    }

    fn starting_cursor_parameter_name() -> &'static str {
        "cursor"
    }

    fn id_param_value(id: &i64) -> String {
        i64_to_dec_string(*id)
    }

    fn previous_cursor_id(&self) -> Option<i64> {
        collapse_token(self.previous_cursor)
    }

    fn next_cursor_id(&self) -> Option<i64> {
        collapse_token(self.next_cursor)
    }

    fn into_inner(self) -> Vec<crate::user::TwitterUser> {
        self.users
    }
}

/// A single-page view into a list of numeric ids.
pub struct IDCursor {
    /// Raw numeric reference to the previous page of results; zero when
    /// there is none.
    pub previous_cursor: i64,
    /// Raw numeric reference to the next page of results; zero when there
    /// is none.
    pub next_cursor: i64,
    /// The user ids in this page of results.
    pub ids: Vec<u64>,
}

impl Cursor for IDCursor {
    type Item = u64;

    type Id = i64;

    open spec fn prev_view(&self) -> Option<i64> {
        spec_collapse_token(self.previous_cursor)
    }

    open spec fn next_view(&self) -> Option<i64> {
        spec_collapse_token(self.next_cursor)
    }

    open spec fn items_view(&self) -> Seq<u64> {
        self.ids@
    }

    open spec fn spec_id_param_value(id: i64) -> Seq<char> {
        int_dec_rep(id as int)
    }

    open spec fn spec_count_param_name() -> Seq<char> {
        "count"@
    }

    open spec fn spec_starting_cursor_param_name() -> Seq<char> {
        "cursor"@
    }

    fn count_parameter_name() -> &'static str {
        "count"
    }

    fn starting_cursor_parameter_name() -> &'static str {
        "cursor"
    }

    fn id_param_value(id: &i64) -> String {
        i64_to_dec_string(*id)
    }

    fn previous_cursor_id(&self) -> Option<i64> {
        collapse_token(self.previous_cursor)
    }

    fn next_cursor_id(&self) -> Option<i64> {
        collapse_token(self.next_cursor)
    }

    fn into_inner(self) -> Vec<u64> {
        self.ids
    }
}

/// A single-page view into a list of lists.
pub struct ListCursor {
    /// Raw numeric reference to the previous page of results; zero when
    /// there is none.
    pub previous_cursor: i64,
    /// Raw numeric reference to the next page of results; zero when there
    /// is none.
    pub next_cursor: i64,
    /// The lists in this page of results.
    pub lists: Vec<crate::list::List>,
}

impl Cursor for ListCursor {
    type Item = crate::list::List;

    type Id = i64;

    open spec fn prev_view(&self) -> Option<i64> {
        spec_collapse_token(self.previous_cursor)
    }

    open spec fn next_view(&self) -> Option<i64> {
        spec_collapse_token(self.next_cursor)
    }

    open spec fn items_view(&self) -> Seq<crate::list::List> {
        self.lists@
    }

    open spec fn spec_id_param_value(id: i64) -> Seq<char> {
        int_dec_rep(id as int)
    }

    open spec fn spec_count_param_name() -> Seq<char> {
        "count"@
    }

    open spec fn spec_starting_cursor_param_name() -> Seq<char> {
        "cursor"@
    }

    fn count_parameter_name() -> &'static str {
        "count"
    }

    fn starting_cursor_parameter_name() -> &'static str {
        "cursor"
    }

    fn id_param_value(id: &i64) -> String {
        i64_to_dec_string(*id)
    }

    fn previous_cursor_id(&self) -> Option<i64> {
        collapse_token(self.previous_cursor)
    }

    fn next_cursor_id(&self) -> Option<i64> {
        collapse_token(self.next_cursor)
    }

    fn into_inner(self) -> Vec<crate::list::List> {
        self.lists
    }
}

/// A single-page view into a typed search result.  The second-generation
/// search family pages with opaque string tokens, only forward, and names
/// its paging parameters differently from the older families.
pub struct SearchCursor<T> {
    /// Opaque reference to the next page of results; absent on the last
    /// page.
    pub next_token: Option<String>,
    /// The decoded results in this page.
    pub items: Vec<T>,
}

impl<T> Cursor for SearchCursor<T> {
    type Item = T;

    type Id = String;

    open spec fn prev_view(&self) -> Option<String> {
        None
    }

    open spec fn next_view(&self) -> Option<String> {
        self.next_token
    }

    open spec fn items_view(&self) -> Seq<T> {
        self.items@
    }

    open spec fn spec_id_param_value(id: String) -> Seq<char> {
        id@
    }

    open spec fn spec_count_param_name() -> Seq<char> {
        "max_results"@
    }

    open spec fn spec_starting_cursor_param_name() -> Seq<char> {
        "next_token"@
    }

    fn count_parameter_name() -> &'static str {
        "max_results"
    }

    fn starting_cursor_parameter_name() -> &'static str {
        "next_token"
    }

    fn id_param_value(id: &String) -> String {
        id.clone()
    }

    fn previous_cursor_id(&self) -> Option<String> {
        None
    }

    fn next_cursor_id(&self) -> Option<String> {
        match &self.next_token {
            Some(tok) => Some(tok.clone()),
            None => None,
        }
    }

    fn into_inner(self) -> Vec<T> {
        self.items
    }
}

/// A paginated list of results: the engine that walks a cursored listing
/// page by page and yields items one pull at a time.
///
/// The engine owns the walk's position (the previous/next tokens), the
/// configured page size, and the current page's not-yet-yielded items.  It
/// performs no network work itself: a pull that needs a page describes the
/// fetch as a [`FetchRequest`], and the caller reports the outcome of that
/// one fetch on a later pull.  Only [`poll_next`](CursorIter::poll_next)
/// drives the automatic walk; for manual paging, a caller may read or
/// overwrite `previous_cursor`/`next_cursor` between fetches to jump pages
/// explicitly, but must not do so while a fetch is in flight.
#[must_use]
pub struct CursorIter<T: Cursor> {
    /// The endpoint this walk addresses; fixed for the engine's lifetime.
    pub link: &'static str,
    /// The credentials attached to every fetch; cloned at construction.
    pub token: Token,
    /// Request parameters independent of paging; fixed for the engine's
    /// lifetime.
    pub params_base: Option<ParamList>,
    /// The number of results to ask for in one fetch.  Absent when the
    /// endpoint does not support a configurable page size; then the
    /// page-size parameter is never sent and reconfiguration is ignored.
    pub page_size: Option<i32>,
    /// Id for the previous page of results; absent when the current page
    /// is the first, or the page format supplies none.  Updated after every
    /// successful fetch.
    pub previous_cursor: Option<T::Id>,
    /// Id for the next page of results; absent when the current page is
    /// the last.  Updated after every successful fetch.
    pub next_cursor: Option<T::Id>,
    /// Whether a fetch described by an earlier pull is still in flight.  At
    /// most one fetch is ever in flight; a pull made while this is set does
    /// not start a second one.
    pub fetch_pending: bool,
    /// The current page's items not yet yielded, each tagged with the
    /// page's rate-limit snapshot; absent until a first page has been
    /// consumed.
    pub buffer: Option<Vec<Response<T::Item>>>,
}

impl<T: Cursor> CursorIter<T> {
    /// Creates a new engine for the given endpoint, with the given fixed
    /// parameters and empty initial results.
    pub fn new(
        link: &'static str,
        token: &Token,
        params_base: Option<ParamList>,
        page_size: Option<i32>,
    ) -> (r: CursorIter<T>)
        ensures
            r.link == link,
            r.token == *token,
            r.params_base == params_base,
            r.page_size == page_size,
            r.previous_cursor is None,
            r.next_cursor is None,
            !r.fetch_pending,
            r.buffer is None,
    {
        CursorIter {
            link,
            token: token.clone(),
            params_base,
            page_size,
            previous_cursor: None,
            next_cursor: None,
            fetch_pending: false,
            buffer: None,
        }
    }

    /// Sets the number of results asked for in a single fetch.
    ///
    /// When the engine was constructed without page sizing, this changes
    /// nothing at all.  When it was constructed with a page size, the walk
    /// starts over: both tokens are reset to absent and any buffered page
    /// or in-flight fetch is discarded, since items fetched under the old
    /// size are not meaningfully resizable in place.
    pub fn with_page_size(self, page_size: i32) -> (r: CursorIter<T>)
        ensures
            self.page_size is Some ==> {
                &&& r.link == self.link
                &&& r.token == self.token
                &&& r.params_base == self.params_base
                &&& r.page_size == Some(page_size)
                &&& r.previous_cursor is None
                &&& r.next_cursor is None
                &&& !r.fetch_pending
                &&& r.buffer is None
            },
            self.page_size is None ==> r == self,
    {
        if self.page_size.is_some() {
            CursorIter {
                link: self.link,
                token: self.token,
                params_base: self.params_base,
                page_size: Some(page_size),
                previous_cursor: None,
                next_cursor: None,
                fetch_pending: false,
                buffer: None,
            }
        } else {
            self
        }
    }

    /// Describes one page fetch from the engine's current position, ready
    /// for the transport: the fixed parameters, plus the starting-token
    /// parameter when a next token is present and the page-size parameter
    /// when a page size is configured.  Does not mutate the engine; manual
    /// callers copy the returned page's tokens back in themselves to keep
    /// walking.
    pub fn call(&self) -> (r: FetchRequest)
        ensures
            is_fetch_request_for::<T>(r, *self),
    {
        let params = match &self.params_base {
            Some(p) => p.clone(),
            None => ParamList::new(),
        };
        let params = match &self.next_cursor {
            Some(id) => params.add_param(T::starting_cursor_parameter_name(), T::id_param_value(id)),
            None => params,
        };
        let params = match self.page_size {
            Some(n) => params.add_param(T::count_parameter_name(), i32_to_dec_string(n)),
            None => params,
        };
        get(self.link.to_owned(), &self.token, params)
    }
}

/// The parameters one fetch from the given engine position carries: the
/// fixed base parameters, then the starting-token parameter when a next
/// token is present, then the page-size parameter when one is configured.
pub open spec fn fetch_params_view<T: Cursor>(e: CursorIter<T>) -> Seq<(Seq<char>, Seq<char>)> {
    let base = match e.params_base {
        Some(p) => p@,
        None => Seq::<(Seq<char>, Seq<char>)>::empty(),
    };
    let with_tok = match e.next_cursor {
        Some(id) => base.push(
            (T::spec_starting_cursor_param_name(), T::spec_id_param_value(id)),
        ),
        None => base,
    };
    match e.page_size {
        Some(n) => with_tok.push((T::spec_count_param_name(), int_dec_rep(n as int))),
        None => with_tok,
    }
}

/// Whether a request is exactly the one fetch that the given engine
/// position describes.
pub open spec fn is_fetch_request_for<T: Cursor>(r: FetchRequest, e: CursorIter<T>) -> bool {
    &&& r.method == Method::Get
    &&& r.url@ == e.link@
    &&& r.params@ == fetch_params_view(e)
    &&& r.token == e.token
}

/// The walk-relevant part of an engine's state: its position (tokens),
/// whether a fetch is in flight, and the buffered items.
pub ghost struct Walk<Id, Item> {
    pub prev: Option<Id>,
    pub next: Option<Id>,
    pub pending: bool,
    pub buffer: Option<Seq<Response<Item>>>,
}

impl<T: Cursor> CursorIter<T> {
    /// The engine's walk state.
    pub open spec fn walk(&self) -> Walk<T::Id, T::Item> {
        Walk {
            prev: self.previous_cursor,
            next: self.next_cursor,
            pending: self.fetch_pending,
            buffer: match self.buffer {
                Some(v) => Some(v@),
                None => None,
            },
        }
    }
}

/// One fetched page, reduced to what the walk reads from it: its tokens,
/// its items, and the rate-limit snapshot that came with it.
pub ghost struct PageView<Id, Item> {
    pub rate: RateLimit,
    pub prev: Option<Id>,
    pub next: Option<Id>,
    pub items: Seq<Item>,
}

/// The outcome of the one in-flight fetch, as the caller reports it to a
/// pull: still in flight, resolved with a page, or failed.
pub enum FetchOutcome<T: Cursor> {
    /// No resolved fetch to report: either none is in flight, or the
    /// in-flight one has not finished yet.
    Waiting,
    /// The in-flight fetch resolved with a decoded page.
    Success(Response<T>),
    /// The in-flight fetch failed; the error is surfaced to this pull.
    Failure(Error),
}

/// What the walk reads from a reported fetch outcome.
pub ghost enum FetchEventView<Id, Item> {
    Waiting,
    Success(PageView<Id, Item>),
    Failure(Error),
}

/// A page reduced to its walk-relevant view.
pub open spec fn page_view<T: Cursor>(resp: Response<T>) -> PageView<T::Id, T::Item> {
    PageView {
        rate: resp.rate_limit_status,
        prev: resp.response.prev_view(),
        next: resp.response.next_view(),
        items: resp.response.items_view(),
    }
}

/// A fetch outcome reduced to its walk-relevant view.
pub open spec fn outcome_view<T: Cursor>(fetch: FetchOutcome<T>) -> FetchEventView<
    T::Id,
    T::Item,
> {
    match fetch {
        FetchOutcome::Waiting => FetchEventView::Waiting,
        FetchOutcome::Success(resp) => FetchEventView::Success(page_view(resp)),
        FetchOutcome::Failure(e) => FetchEventView::Failure(e),
    }
}

/// What one pull gives back.
pub enum PollStep<Item> {
    /// The next item of the walk, tagged with its page's rate-limit
    /// snapshot.
    Yielded(Response<Item>),
    /// The in-flight fetch failed; the walk's position is unchanged and the
    /// next pull retries the identical fetch.
    Errored(Error),
    /// A fetch is still in flight; nothing to yield yet.  No new fetch is
    /// started.
    Suspended,
    /// The walk has ended: the last page's items are drained and it carried
    /// no next token.  Every later pull answers the same.
    Finished,
    /// The engine needs a page: the caller must perform the described fetch
    /// and report its outcome on a later pull.
    FetchStarted(FetchRequest),
}

/// A pull outcome reduced to its walk-relevant view.
pub ghost enum StepView<Item> {
    Yielded(Response<Item>),
    Errored(Error),
    Suspended,
    Finished,
    FetchStarted,
}

/// A pull outcome with the request description dropped.
pub open spec fn step_view<Item>(r: PollStep<Item>) -> StepView<Item> {
    match r {
        PollStep::Yielded(item) => StepView::Yielded(item),
        PollStep::Errored(e) => StepView::Errored(e),
        PollStep::Suspended => StepView::Suspended,
        PollStep::Finished => StepView::Finished,
        PollStep::FetchStarted(_) => StepView::FetchStarted,
    }
}

/// A page's items, each tagged with the page's shared rate-limit snapshot.
pub open spec fn wrap_items<Item>(rate: RateLimit, items: Seq<Item>) -> Seq<Response<Item>> {
    items.map_values(|it: Item| Response { rate_limit_status: rate, response: it })
}

/// The walk's transition function: what one pull does to the walk state,
/// given what the caller reports about the in-flight fetch.
///
/// While a fetch is in flight, a pull either suspends (fetch unresolved),
/// consumes the resolved page (tokens replaced, items buffered, first item
/// yielded — or, on an empty page, the walk moves straight on: a new fetch
/// when a next token is present, the end of the walk otherwise), or
/// surfaces the failure with the position untouched.  With no fetch in
/// flight, a pull drains the buffer, ends the walk when the drained page
/// was the last, and otherwise starts a fetch — also on a fresh engine that
/// has consumed no page yet.
pub open spec fn engine_step<Id, Item>(
    w: Walk<Id, Item>,
    ev: FetchEventView<Id, Item>,
) -> (Walk<Id, Item>, StepView<Item>) {
    if w.pending {
        match ev {
            FetchEventView::Waiting => (w, StepView::Suspended),
            FetchEventView::Success(p) => {
                let buf = wrap_items(p.rate, p.items);
                if buf.len() > 0 {
                    (
                        Walk {
                            prev: p.prev,
                            next: p.next,
                            pending: false,
                            buffer: Some(buf.drop_first()),
                        },
                        StepView::Yielded(buf.first()),
                    )
                } else if p.next is Some {
                    (
                        Walk {
                            prev: p.prev,
                            next: p.next,
                            pending: true,
                            buffer: Some(Seq::empty()),
                        },
                        StepView::FetchStarted,
                    )
                } else {
                    (
                        Walk {
                            prev: p.prev,
                            next: p.next,
                            pending: false,
                            buffer: Some(Seq::empty()),
                        },
                        StepView::Finished,
                    )
                }
            },
            FetchEventView::Failure(e) => (
                Walk { pending: false, ..w },
                StepView::Errored(e),
            ),
        }
    } else {
        match w.buffer {
            Some(buf) => {
                if buf.len() > 0 {
                    (
                        Walk { buffer: Some(buf.drop_first()), ..w },
                        StepView::Yielded(buf.first()),
                    )
                } else if w.next is None {
                    (w, StepView::Finished)
                } else {
                    (Walk { pending: true, ..w }, StepView::FetchStarted)
                }
            },
            None => (Walk { pending: true, ..w }, StepView::FetchStarted),
        }
    }
}

impl<T: Cursor> CursorIter<T> {
    /// One pull of the automatic walk.
    ///
    /// The caller reports, in `fetch`, the current answer for the one
    /// in-flight fetch: `Waiting` while it has not resolved (and always
    /// when none is in flight), or its page or error once it has.  The pull
    /// follows [`engine_step`] exactly; when it answers `FetchStarted`, the
    /// carried request is the engine's current fetch and the caller is
    /// expected to start it.  The endpoint, credentials, fixed parameters
    /// and page size never change under a pull.
    pub fn poll_next(&mut self, fetch: FetchOutcome<T>) -> (r: PollStep<T::Item>)
        requires
            !old(self).fetch_pending ==> fetch is Waiting,
        ensures
            final(self).walk() == engine_step(old(self).walk(), outcome_view(fetch)).0,
            step_view(r) == engine_step(old(self).walk(), outcome_view(fetch)).1,
            r matches PollStep::FetchStarted(req) ==> is_fetch_request_for::<T>(
                req,
                *final(self),
            ),
            final(self).link == old(self).link,
            final(self).token == old(self).token,
            final(self).params_base == old(self).params_base,
            final(self).page_size == old(self).page_size,
    {
        if self.fetch_pending {
            match fetch {
                FetchOutcome::Waiting => {
                    return PollStep::Suspended;
                },
                FetchOutcome::Success(resp) => {
                    self.fetch_pending = false;
                    let rate = resp.rate_limit_status;
                    let page = resp.response;
                    self.previous_cursor = page.previous_cursor_id();
                    self.next_cursor = page.next_cursor_id();
                    let ghost items = page.items_view();
                    let mut raw = page.into_inner();
                    let mut buf: Vec<Response<T::Item>> = Vec::new();
                    while raw.len() > 0
                        invariant
                            buf@.len() + raw@.len() == items.len(),
                            raw@ == items.skip(buf@.len() as int),
                            buf@ == wrap_items(rate, items).take(buf@.len() as int),
                        decreases raw@.len(),
                    {
                        let ghost k = buf@.len() as int;
                        let item = raw.remove(0);
                        buf.push(Response { rate_limit_status: rate, response: item });
                        proof {
                            assert(items.skip(k).drop_first() =~= items.skip(k + 1));
                            assert(items.skip(k)[0] == items[k]);
                            assert(buf@ =~= wrap_items(rate, items).take(k + 1));
                        }
                    }
                    proof {
                        assert(buf@ =~= wrap_items(rate, items));
                    }
                    if buf.len() > 0 {
                        let ghost wrapped = buf@;
                        let first = buf.remove(0);
                        self.buffer = Some(buf);
                        proof {
                            assert(wrapped.remove(0) =~= wrapped.drop_first());
                        }
                        return PollStep::Yielded(first);
                    }
                    self.buffer = Some(buf);
                    if self.next_cursor.is_some() {
                        self.fetch_pending = true;
                        let req = self.call();
                        return PollStep::FetchStarted(req);
                    }
                    return PollStep::Finished;
                },
                FetchOutcome::Failure(e) => {
                    self.fetch_pending = false;
                    return PollStep::Errored(e);
                },
            }
        }
        let buffered = match &mut self.buffer {
            Some(buf) => {
                if buf.len() > 0 {
                    let ghost before = buf@;
                    let item = buf.remove(0);
                    proof {
                        assert(before.remove(0) =~= before.drop_first());
                    }
                    Some(item)
                } else {
                    None
                }
            },
            None => None,
        };
        if let Some(item) = buffered {
            return PollStep::Yielded(item);
        }
        if self.buffer.is_some() && self.next_cursor.is_none() {
            return PollStep::Finished;
        }
        self.fetch_pending = true;
        let req = self.call();
        PollStep::FetchStarted(req)
    }
}

/// How many items the walk still holds buffered.
pub open spec fn buffer_len<Id, Item>(w: Walk<Id, Item>) -> nat {
    match w.buffer {
        Some(b) => b.len(),
        None => 0,
    }
}

/// Driving the walk to completion: pull after pull, answering the one
/// in-flight fetch with the next of `pages` (in order) as soon as it is
/// started.  Gives every item the walk yields, in yield order, and whether
/// the walk reached its normal end (rather than running out of supplied
/// pages).
pub open spec fn run<Id, Item>(
    w: Walk<Id, Item>,
    pages: Seq<PageView<Id, Item>>,
) -> (Seq<Response<Item>>, bool)
    decreases pages.len(), (if w.pending { 0int } else { 1int }), buffer_len(w),
{
    if w.pending {
        if pages.len() == 0 {
            (Seq::empty(), false)
        } else {
            let step = engine_step(w, FetchEventView::Success(pages.first()));
            match step.1 {
                StepView::Yielded(item) => {
                    let rest = run(step.0, pages.drop_first());
                    (seq![item] + rest.0, rest.1)
                },
                StepView::FetchStarted => run(step.0, pages.drop_first()),
                StepView::Finished => (Seq::empty(), true),
                _ => (Seq::empty(), false),
            }
        }
    } else {
        let step = engine_step(w, FetchEventView::Waiting);
        match step.1 {
            StepView::Yielded(item) => {
                let rest = run(step.0, pages);
                (seq![item] + rest.0, rest.1)
            },
            StepView::FetchStarted => run(step.0, pages),
            StepView::Finished => (Seq::empty(), true),
            _ => (Seq::empty(), false),
        }
    }
}

/// A well-formed page chain: every page but the last carries a next token,
/// and the last carries none.
pub open spec fn pages_chain<Id, Item>(pages: Seq<PageView<Id, Item>>) -> bool {
    &&& forall|i: int| 0 <= i < pages.len() - 1 ==> (#[trigger] pages[i]).next is Some
    &&& pages.len() > 0 ==> pages.last().next is None
}

/// The concatenation of the pages' items, in page order then in-page order,
/// each tagged with its own page's rate-limit snapshot.
pub open spec fn flattened_items<Id, Item>(pages: Seq<PageView<Id, Item>>) -> Seq<
    Response<Item>,
>
    decreases pages.len(),
{
    if pages.len() == 0 {
        Seq::empty()
    } else {
        wrap_items(pages.first().rate, pages.first().items) + flattened_items(pages.drop_first())
    }
}

/// A freshly constructed engine's walk: both tokens absent, nothing in
/// flight, no page consumed yet.
pub open spec fn fresh_walk<Id, Item>(w: Walk<Id, Item>) -> bool {
    &&& w.prev is None
    &&& w.next is None
    &&& !w.pending
    &&& w.buffer is None
}

proof fn lemma_run_drain<Id, Item>(w: Walk<Id, Item>, pages: Seq<PageView<Id, Item>>)
    requires
        !w.pending,
        w.buffer is Some,
    ensures
        run(w, pages).0 == w.buffer->0 + run(
            Walk { buffer: Some(Seq::empty()), ..w },
            pages,
        ).0,
        run(w, pages).1 == run(Walk { buffer: Some(Seq::empty()), ..w }, pages).1,
    decreases buffer_len(w),
{
    let b = w.buffer->0;
    let emptied = Walk { buffer: Some(Seq::<Response<Item>>::empty()), ..w };
    if b.len() == 0 {
        assert(b =~= Seq::<Response<Item>>::empty());
        assert(run(w, pages).0 =~= b + run(emptied, pages).0);
    } else {
        let step = engine_step(w, FetchEventView::Waiting);
        lemma_run_drain(step.0, pages);
        assert(Walk { buffer: Some(Seq::<Response<Item>>::empty()), ..step.0 } == emptied);
        assert(run(w, pages).0 =~= b + run(emptied, pages).0);
    }
}

proof fn lemma_pages_chain_rest<Id, Item>(pages: Seq<PageView<Id, Item>>)
    requires
        pages_chain(pages),
        pages.len() > 0,
    ensures
        pages_chain(pages.drop_first()),
{
    let rest = pages.drop_first();
    assert forall|i: int| 0 <= i < rest.len() - 1 implies (#[trigger] rest[i]).next is Some by {
        assert(rest[i] == pages[i + 1]);
    }
    if rest.len() > 0 {
        assert(rest.last() == pages.last());
    }
}

proof fn lemma_run_pending<Id, Item>(w: Walk<Id, Item>, pages: Seq<PageView<Id, Item>>)
    requires
        w.pending,
        pages_chain(pages),
        pages.len() > 0,
    ensures
        run(w, pages) == (flattened_items(pages), true),
    decreases pages.len(),
{
    let p = pages.first();
    let rest = pages.drop_first();
    let wrapped = wrap_items(p.rate, p.items);
    lemma_pages_chain_rest(pages);
    let step = engine_step(w, FetchEventView::Success(p));
    if wrapped.len() == 0 {
        assert(p.items.len() == 0);
        if p.next is Some {
            assert(pages.len() > 1) by {
                if pages.len() == 1 {
                    assert(pages.last() == p);
                }
            }
            assert(rest.len() > 0);
            lemma_run_pending(step.0, rest);
            assert(flattened_items(pages) =~= flattened_items(rest));
            assert(run(w, pages) == (flattened_items(pages), true));
        } else {
            assert(flattened_items(pages) =~= Seq::<Response<Item>>::empty()) by {
                assert(pages[0].next is None);
                if pages.len() > 1 {
                    assert(pages[0].next is Some);
                }
                assert(rest.len() == 0);
                assert(flattened_items(rest) == Seq::<Response<Item>>::empty());
            }
            assert(run(w, pages) == (flattened_items(pages), true));
        }
    } else {
        // the resolved page's first item is yielded at once; the rest are
        // drained pull by pull, then the walk moves on
        let w2 = step.0;
        lemma_run_drain(w2, rest);
        let w3 = Walk { buffer: Some(Seq::<Response<Item>>::empty()), ..w2 };
        let step3 = engine_step(w3, FetchEventView::Waiting);
        if p.next is Some {
            assert(pages.len() > 1) by {
                if pages.len() == 1 {
                    assert(pages.last() == p);
                }
            }
            assert(rest.len() > 0);
            lemma_run_pending(step3.0, rest);
            assert(run(w, pages).0 =~= wrapped + flattened_items(rest));
            assert(run(w, pages).0 =~= flattened_items(pages));
            assert(run(w, pages).1);
        } else {
            assert(rest.len() == 0) by {
                if pages.len() > 1 {
                    assert(pages[0].next is Some);
                }
            }
            assert(step3.1 == StepView::Finished::<Item>);
            assert(run(w, pages).0 =~= wrapped);
            assert(flattened_items(pages) =~= wrapped);
            assert(run(w, pages).1);
        }
    }
}

/// Forward progress: pulling a freshly constructed engine through a chain
/// of pages — each answered in order as its fetch is started — yields
/// exactly the concatenation of the pages' items, in page order then
/// in-page order, each tagged with its own page's rate-limit snapshot, and
/// then ends the walk normally.
pub proof fn lemma_forward_progress<Id, Item>(
    w: Walk<Id, Item>,
    pages: Seq<PageView<Id, Item>>,
)
    requires
        fresh_walk(w),
        pages_chain(pages),
        pages.len() > 0,
    ensures
        run(w, pages) == (flattened_items(pages), true),
{
    let step = engine_step(w, FetchEventView::Waiting);
    assert(step.1 == StepView::FetchStarted::<Item>);
    lemma_run_pending(step.0, pages);
}

/// No duplicate fetch: pulls made while a fetch is in flight never start a
/// second fetch — each such pull suspends and leaves the walk exactly as it
/// was, however many times it is repeated; the one fetch's outcome then
/// satisfies them all.
pub proof fn lemma_no_duplicate_fetch<Id, Item>(w: Walk<Id, Item>)
    requires
        w.pending,
    ensures
        engine_step(w, FetchEventView::Waiting) == (w, StepView::Suspended::<Item>),
        engine_step(
            engine_step(w, FetchEventView::Waiting).0,
            FetchEventView::Waiting,
        ) == (w, StepView::Suspended::<Item>),
{
}

/// An error does not advance the walk: a failed fetch surfaces its error to
/// the pull that saw it, and leaves the stored tokens and the buffered
/// items exactly as they were before the attempt.
pub proof fn lemma_error_does_not_advance<Id, Item>(w: Walk<Id, Item>, e: Error)
    requires
        w.pending,
    ensures
        ({
            let step = engine_step(w, FetchEventView::Failure(e));
            &&& step.0.prev == w.prev
            &&& step.0.next == w.next
            &&& step.0.buffer == w.buffer
            &&& !step.0.pending
            &&& step.1 == StepView::Errored::<Item>(e)
        }),
{
}

/// After a failed fetch, a retry is the identical fetch: the request an
/// engine describes depends only on its endpoint, credentials, fixed
/// parameters, page size and next token — all of which a failure leaves
/// unchanged — so an engine in the failed walk's position describes the
/// same parameters as before the attempt.
pub proof fn lemma_error_retry_same_request<T: Cursor>(
    before: CursorIter<T>,
    after: CursorIter<T>,
    e: Error,
)
    requires
        before.fetch_pending,
        after.walk() == engine_step(
            before.walk(),
            FetchEventView::Failure::<T::Id, T::Item>(e),
        ).0,
        after.link == before.link,
        after.token == before.token,
        after.params_base == before.params_base,
        after.page_size == before.page_size,
    ensures
        after.previous_cursor == before.previous_cursor,
        after.next_cursor == before.next_cursor,
        fetch_params_view(after) == fetch_params_view(before),
        forall|r: FetchRequest|
            is_fetch_request_for::<T>(r, after) == is_fetch_request_for::<T>(r, before),
{
    assert(after.walk().next == before.walk().next);
    assert(after.walk().prev == before.walk().prev);
}

/// The end of the walk is absorbing: once the current page's items are
/// drained and no next token is stored, every later pull answers that the
/// walk is finished, leaves the state untouched, and never starts another
/// fetch.
pub proof fn lemma_terminal_is_absorbing<Id, Item>(w: Walk<Id, Item>)
    requires
        !w.pending,
        w.buffer is Some,
        w.buffer->0.len() == 0,
        w.next is None,
    ensures
        engine_step(w, FetchEventView::Waiting) == (w, StepView::Finished::<Item>),
{
}

/// An empty page does not end the walk: when a fetch resolves with zero
/// items but a present next token, the pull starts the following fetch at
/// once instead of finishing.
pub proof fn lemma_empty_page_continues<Id, Item>(w: Walk<Id, Item>, p: PageView<Id, Item>)
    requires
        w.pending,
        p.items.len() == 0,
        p.next is Some,
    ensures
        ({
            let step = engine_step(w, FetchEventView::Success(p));
            &&& step.1 == StepView::FetchStarted::<Item>
            &&& step.0.pending
            &&& step.0.next == p.next
        }),
{
    assert(wrap_items(p.rate, p.items).len() == 0);
}

} // verus!
