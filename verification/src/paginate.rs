use vstd::prelude::*;

use crate::page::{opt_str_view, ApiError, Page};
use crate::request::{pagination_key, QueryUrl};

verus! {

/// Where a paginated sequence stands between two pulls.
#[derive(Clone, Copy, Debug, PartialEq, Eq, Structural)]
pub enum FetchState {
    /// No fetch has been issued yet; the first pull starts one.
    Unstarted,
    /// Exactly one fetch is in flight; pulls wait for it.
    Fetching,
    /// The last fetch has resolved; the buffer and token are current.
    Idle,
    /// Terminal: no further items, no further fetches.
    Exhausted,
}

/// What one pull asks of its driver.
#[derive(Debug)]
pub enum PullResult<T> {
    /// The next item of the logical sequence, in server order.
    Item(T),
    /// End of the sequence; every later pull returns this again.
    End,
    /// Perform exactly this fetch, then report its outcome with
    /// `on_fetch_success` or `on_fetch_failure`.
    StartFetch(QueryUrl),
    /// A fetch is already pending: await it, start nothing new.
    Pending,
}

/// A paginated sequence over an item type `T`: one logical lazy sequence
/// of items that refetches page by page as it is drained. The driver
/// calls `pull` for the next step and resolves each requested fetch with
/// `on_fetch_success` or `on_fetch_failure`.
pub struct ApiResults<T> {
    url: QueryUrl,
    state: FetchState,
    token: Option<String>,
    items: Vec<T>,
}

impl<T> ApiResults<T> {
    /// The current state tag.
    pub closed spec fn spec_state(self) -> FetchState {
        self.state
    }

    /// The continuation token currently held.
    pub closed spec fn spec_token(self) -> Option<Seq<char>> {
        opt_str_view(self.token)
    }

    /// The not-yet-yielded items of the most recent page, front first.
    pub closed spec fn buffer(self) -> Seq<T> {
        self.items@
    }

    /// The path of the base URL this sequence was opened with.
    pub closed spec fn url_path(self) -> Seq<char> {
        self.url.path@
    }

    /// The query parameters of the base URL this sequence was opened with.
    pub closed spec fn url_params(self) -> Seq<(Seq<char>, Seq<char>)> {
        self.url.params_view()
    }

    /// Internal consistency: a fetch is only ever started once the buffer
    /// has drained, and exhaustion means nothing is left at all.
    pub open spec fn wf(self) -> bool {
        &&& (self.spec_state() == FetchState::Unstarted ==> self.buffer().len() == 0
            && self.spec_token() is None)
        &&& (self.spec_state() == FetchState::Fetching ==> self.buffer().len() == 0)
        &&& (self.spec_state() == FetchState::Exhausted ==> self.buffer().len() == 0
            && self.spec_token() is None)
    }

    /// Construct a sequence from a base URL. No fetch is issued here; the
    /// first pull asks for one.
    pub fn open(url: QueryUrl) -> (r: ApiResults<T>)
        ensures
            r.wf(),
            r.spec_state() == FetchState::Unstarted,
            r.spec_token() is None,
            r.buffer().len() == 0,
            r.url_path() == url.path@,
            r.url_params() == url.params_view(),
    {
        ApiResults { url, state: FetchState::Unstarted, token: None, items: Vec::new() }
    }

    /// The sole consumption primitive. Buffered items are served first;
    /// an empty buffer either ends the sequence (no token), asks the
    /// driver for the next fetch (token held, or never started), or —
    /// while a fetch is pending — asks it to keep waiting without
    /// starting a second fetch.
    pub fn pull(&mut self) -> (r: PullResult<T>)
        requires
            old(self).wf(),
        ensures
            final(self).wf(),
            final(self).url_path() == old(self).url_path(),
            final(self).url_params() == old(self).url_params(),
            old(self).buffer().len() > 0 ==> {
                &&& r == PullResult::Item(old(self).buffer()[0])
                &&& final(self).buffer() == old(self).buffer().drop_first()
                &&& final(self).spec_state() == old(self).spec_state()
                &&& final(self).spec_token() == old(self).spec_token()
            },
            old(self).buffer().len() == 0 && old(self).spec_state() == FetchState::Unstarted
                ==> {
                &&& (r matches PullResult::StartFetch(u) && u.path@ == old(self).url_path()
                    && u.params_view() == old(self).url_params())
                &&& final(self).spec_state() == FetchState::Fetching
                &&& final(self).spec_token() is None
                &&& final(self).buffer().len() == 0
            },
            old(self).buffer().len() == 0 && old(self).spec_state() == FetchState::Idle
                ==> (old(self).spec_token() matches Some(t) ==> {
                &&& (r matches PullResult::StartFetch(u) && u.path@ == old(self).url_path()
                    && u.params_view() == old(self).url_params().push((pagination_key(), t)))
                &&& final(self).spec_state() == FetchState::Fetching
                &&& final(self).spec_token() == old(self).spec_token()
                &&& final(self).buffer().len() == 0
            }),
            old(self).buffer().len() == 0 && old(self).spec_state() == FetchState::Idle
                && old(self).spec_token() is None ==> {
                &&& r is End
                &&& final(self).spec_state() == FetchState::Exhausted
            },
            old(self).spec_state() == FetchState::Exhausted ==> {
                &&& r is End
                &&& final(self).spec_state() == FetchState::Exhausted
            },
            old(self).spec_state() == FetchState::Fetching ==> {
                &&& r is Pending
                &&& final(self).spec_state() == FetchState::Fetching
                &&& final(self).spec_token() == old(self).spec_token()
                &&& final(self).buffer() == old(self).buffer()
            },
    {
        if self.items.len() > 0 {
            let item = self.items.remove(0);
            proof {
                assert(old(self).buffer().remove(0) =~= old(self).buffer().drop_first());
            }
            return PullResult::Item(item);
        }
        match self.state {
            FetchState::Unstarted => {
                self.state = FetchState::Fetching;
                PullResult::StartFetch(self.url.dup())
            },
            FetchState::Fetching => PullResult::Pending,
            FetchState::Idle => {
                match &self.token {
                    Some(t) => {
                        let u = self.url.with_token(t);
                        self.state = FetchState::Fetching;
                        PullResult::StartFetch(u)
                    },
                    None => {
                        self.state = FetchState::Exhausted;
                        PullResult::End
                    },
                }
            },
            FetchState::Exhausted => PullResult::End,
        }
    }

    /// The pending fetch resolved with a page: the buffer is refilled
    /// with the page's items and the held token is replaced by the
    /// page's, present or absent.
    pub fn on_fetch_success(&mut self, page: Page<T>)
        requires
            old(self).wf(),
            old(self).spec_state() == FetchState::Fetching,
        ensures
            final(self).wf(),
            final(self).url_path() == old(self).url_path(),
            final(self).url_params() == old(self).url_params(),
            final(self).spec_state() == FetchState::Idle,
            final(self).spec_token() == opt_str_view(page.next_token),
            final(self).buffer() == page.items@,
    {
        self.token = page.next_token;
        self.items = page.items;
        self.state = FetchState::Idle;
    }

    /// The pending fetch failed: token and buffer are left exactly as
    /// they were before the fetch, so that the next pull retries the very
    /// same page.
    pub fn on_fetch_failure(&mut self)
        requires
            old(self).wf(),
            old(self).spec_state() == FetchState::Fetching,
        ensures
            final(self).wf(),
            final(self).url_path() == old(self).url_path(),
            final(self).url_params() == old(self).url_params(),
            final(self).spec_token() == old(self).spec_token(),
            final(self).buffer() == old(self).buffer(),
            final(self).spec_state() == (if old(self).spec_token() is Some {
                FetchState::Idle
            } else {
                FetchState::Unstarted
            }),
    {
        self.state = if self.token.is_some() {
            FetchState::Idle
        } else {
            FetchState::Unstarted
        };
    }
}

} // verus!
