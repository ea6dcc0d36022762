use vstd::prelude::*;

use crate::page::{opt_str_view, ApiError, Page};
use crate::paginate::{ApiResults, FetchState, PullResult};
use crate::request::{pagination_key, QueryUrl};

verus! {

/// One observable outcome of a pull that consumed a fetch's result.
#[derive(Debug, PartialEq, Eq)]
pub enum PullEvent<T> {
    /// An item was yielded.
    Got(T),
    /// The fetch behind this pull failed; the error is reported and the
    /// sequence is left ready to retry the same page.
    Failed(ApiError),
}

/// Everything a scripted run observed: the events in pull order, the URL
/// of every fetch that was answered, and whether the sequence reached its
/// definitive end.
#[derive(Debug)]
pub struct RunLog<T> {
    pub events: Vec<PullEvent<T>>,
    pub urls: Vec<QueryUrl>,
    pub ended: bool,
}

/// A script entry ends the run once processed: a page that carries no
/// continuation token.
pub open spec fn is_terminal<T>(e: Result<Page<T>, ApiError>) -> bool {
    e matches Ok(p) && p.next_token is None
}

/// The events that consuming one fetch result contributes to a run.
pub open spec fn entry_events<T>(e: Result<Page<T>, ApiError>) -> Seq<PullEvent<T>> {
    match e {
        Ok(p) => p.items@.map_values(|t: T| PullEvent::Got(t)),
        Err(err) => seq![PullEvent::Failed(err)],
    }
}

/// The events of a whole script, entry by entry, in order.
pub open spec fn events_model<T>(script: Seq<Result<Page<T>, ApiError>>) -> Seq<PullEvent<T>>
    decreases script.len(),
{
    if script.len() == 0 {
        Seq::empty()
    } else {
        entry_events(script[0]) + events_model(script.drop_first())
    }
}

/// How many fetches a run answers from this script: entries are consumed
/// in order — failures included, since a failed fetch is retried — up to
/// and including the first page without a token, after which nothing is
/// fetched any more.
pub open spec fn calls_model<T>(script: Seq<Result<Page<T>, ApiError>>) -> int
    decreases script.len(),
{
    if script.len() == 0 {
        0
    } else if is_terminal(script[0]) {
        1
    } else {
        1 + calls_model(script.drop_first())
    }
}

/// Whether a run over this script reaches the definitive end of the
/// sequence, rather than stopping for want of further script entries.
pub open spec fn ends_model<T>(script: Seq<Result<Page<T>, ApiError>>) -> bool
    decreases script.len(),
{
    if script.len() == 0 {
        false
    } else if is_terminal(script[0]) {
        true
    } else {
        ends_model(script.drop_first())
    }
}

/// The continuation token held after the first `i` script entries were
/// consumed: the token of the last successful page among them, and none
/// at all before the first success — errors leave the token untouched.
pub open spec fn token_model<T>(script: Seq<Result<Page<T>, ApiError>>, i: int) -> Option<
    Seq<char>,
>
    decreases i,
{
    if i <= 0 {
        None
    } else {
        match script[i - 1] {
            Ok(p) => opt_str_view(p.next_token),
            Err(_) => token_model(script, i - 1),
        }
    }
}

/// The URL a fetch must use, given the base URL and the token held when
/// it was started: the base's own parameters, unchanged and in order,
/// plus a fresh `pagination_token` parameter when a token is held.
pub open spec fn url_for_call(base: QueryUrl, tok: Option<Seq<char>>, u: QueryUrl) -> bool {
    &&& u.path@ == base.path@
    &&& u.params_view() == match tok {
        Some(t) => base.params_view().push((pagination_key(), t)),
        None => base.params_view(),
    }
}

/// The items of every successful page of a script, concatenated in
/// script order.
pub open spec fn all_items<T>(script: Seq<Result<Page<T>, ApiError>>) -> Seq<T>
    decreases script.len(),
{
    if script.len() == 0 {
        Seq::empty()
    } else {
        (match script[0] {
            Ok(p) => p.items@,
            Err(_) => Seq::empty(),
        }) + all_items(script.drop_first())
    }
}

proof fn lemma_events_model_take<T>(script: Seq<Result<Page<T>, ApiError>>, k: int)
    requires
        0 <= k < script.len(),
    ensures
        events_model(script.take(k + 1)) == events_model(script.take(k)) + entry_events(
            script[k],
        ),
    decreases k,
{
    if k == 0 {
        assert(script.take(0) =~= Seq::<Result<Page<T>, ApiError>>::empty());
        assert(script.take(1).drop_first() =~= Seq::<Result<Page<T>, ApiError>>::empty());
        assert(script.take(1)[0] == script[0]);
        assert(events_model(script.take(1)) =~= events_model(script.take(0)) + entry_events(
            script[0],
        ));
    } else {
        lemma_events_model_take(script.drop_first(), k - 1);
        assert(script.take(k + 1).drop_first() =~= script.drop_first().take(k));
        assert(script.take(k).drop_first() =~= script.drop_first().take(k - 1));
        assert(script.take(k + 1)[0] == script[0]);
        assert(script.take(k)[0] == script[0]);
        assert(script.drop_first()[k - 1] == script[k]);
        assert(entry_events(script[0]) + (events_model(script.drop_first().take(k - 1))
            + entry_events(script[k])) =~= (entry_events(script[0]) + events_model(
            script.drop_first().take(k - 1),
        )) + entry_events(script[k]));
    }
}

/// No-token termination, in general: when the first token-less page of a
/// script stands at position `j`, a run answers exactly the `j + 1` first
/// fetches and then reaches the definitive end of the sequence.
pub proof fn lemma_run_stops_at_first_terminal<T>(
    script: Seq<Result<Page<T>, ApiError>>,
    j: int,
)
    requires
        0 <= j < script.len(),
        is_terminal(script[j]),
        forall|i: int| 0 <= i < j ==> !is_terminal(#[trigger] script[i]),
    ensures
        calls_model(script) == j + 1,
        ends_model(script),
    decreases j,
{
    if j > 0 {
        assert(forall|i: int| 0 <= i < j - 1 ==> !is_terminal(#[trigger] script.drop_first()[i]));
        lemma_run_stops_at_first_terminal(script.drop_first(), j - 1);
    }
}

/// Without a token-less page the sequence never ends on its own: a run
/// consumes the whole script and still awaits a further fetch.
pub proof fn lemma_run_exhausts_script<T>(script: Seq<Result<Page<T>, ApiError>>)
    requires
        forall|i: int| 0 <= i < script.len() ==> !is_terminal(#[trigger] script[i]),
    ensures
        calls_model(script) == script.len(),
        !ends_model(script),
    decreases script.len(),
{
    if script.len() > 0 {
        assert(forall|i: int|
            0 <= i < script.drop_first().len() ==> !is_terminal(
                #[trigger] script.drop_first()[i],
            ));
        lemma_run_exhausts_script(script.drop_first());
    }
}

/// Order preservation: when every fetch of a run succeeds, the run's
/// events are exactly the concatenation of the pages' items — in page
/// order and, within each page, in server order — each yielded once.
pub proof fn lemma_order_preservation<T>(script: Seq<Result<Page<T>, ApiError>>)
    requires
        forall|i: int| 0 <= i < script.len() ==> #[trigger] script[i] is Ok,
    ensures
        events_model(script) == all_items(script).map_values(|t: T| PullEvent::Got(t)),
    decreases script.len(),
{
    if script.len() == 0 {
        assert(events_model(script) =~= all_items(script).map_values(
            |t: T| PullEvent::<T>::Got(t),
        ));
    } else {
        assert(forall|i: int|
            0 <= i < script.drop_first().len() ==> #[trigger] script.drop_first()[i] is Ok);
        lemma_order_preservation(script.drop_first());
        assert(script[0] is Ok);
        let p = script[0]->Ok_0;
        assert(events_model(script) == p.items@.map_values(|t: T| PullEvent::Got(t))
            + events_model(script.drop_first()));
        assert(all_items(script) == p.items@ + all_items(script.drop_first()));
        assert((p.items@ + all_items(script.drop_first())).map_values(|t: T| PullEvent::Got(t))
            =~= p.items@.map_values(|t: T| PullEvent::Got(t)) + all_items(
            script.drop_first(),
        ).map_values(|t: T| PullEvent::Got(t)));
    }
}

/// Order preservation, end to end: when every fetch of a script
/// succeeds, every page but the last carries a continuation token and
/// the last carries none, a run answers every fetch, reaches the
/// definitive end, and its events are exactly the concatenation of the
/// pages' items in page order and within-page order.
pub proof fn lemma_exhaustive_run_yields_concatenation<T>(script: Seq<Result<Page<T>, ApiError>>)
    requires
        script.len() > 0,
        forall|i: int| 0 <= i < script.len() ==> #[trigger] script[i] is Ok,
        forall|i: int| 0 <= i < script.len() - 1 ==> !is_terminal(#[trigger] script[i]),
        is_terminal(script.last()),
    ensures
        calls_model(script) == script.len(),
        ends_model(script),
        events_model(script.take(calls_model(script))) == all_items(script).map_values(
            |t: T| PullEvent::Got(t),
        ),
{
    lemma_run_stops_at_first_terminal(script, script.len() - 1);
    lemma_order_preservation(script);
    assert(script.take(script.len() as int) =~= script);
}

/// Error isolation: a failed fetch leaves the continuation token exactly
/// as it was, so the fetch after it targets the very same page again.
pub proof fn lemma_error_retries_same_token<T>(script: Seq<Result<Page<T>, ApiError>>, i: int)
    requires
        0 <= i < script.len(),
        script[i] is Err,
    ensures
        token_model(script, i + 1) == token_model(script, i),
{
}

/// Drive a freshly opened sequence against a scripted fetcher: the
/// `k`-th fetch the sequence asks for is answered with `script[k]`, in
/// order, until the sequence ends on its own or the script runs out.
/// The log records every yielded item and reported error in pull order,
/// the exact URL of every answered fetch, and whether the sequence
/// reached its definitive end.
#[verifier::loop_isolation(false)]
pub fn run_script<T>(url: QueryUrl, script: Vec<Result<Page<T>, ApiError>>) -> (log: RunLog<T>)
    ensures
        log.urls@.len() == calls_model(script@),
        forall|i: int|
            0 <= i < log.urls@.len() ==> url_for_call(
                url,
                token_model(script@, i),
                #[trigger] log.urls@[i],
            ),
        log.events@ == events_model(script@.take(calls_model(script@))),
        log.ended == ends_model(script@),
{
    let ghost s0 = script@;
    let ghost base = url;
    let mut script = script;
    let mut results = ApiResults::<T>::open(url);
    let mut events: Vec<PullEvent<T>> = Vec::new();
    let mut urls: Vec<QueryUrl> = Vec::new();
    let ghost mut k: int = 0;
    loop
        invariant
            s0.len() >= k,
            script@ == s0.skip(k),
            results.wf(),
            results.spec_state() == FetchState::Unstarted || results.spec_state()
                == FetchState::Idle,
            results.url_path() == base.path@,
            results.url_params() == base.params_view(),
            results.spec_token() == token_model(s0, k),
            results.spec_state() == FetchState::Idle && results.spec_token() is None ==> k >= 1
                && is_terminal(s0[k - 1]),
            k >= 1 ==> (s0[k - 1] is Ok ==> results.spec_state() == FetchState::Idle),
            forall|i: int| 0 <= i < k - 1 ==> !is_terminal(#[trigger] s0[i]),
            events@ + results.buffer().map_values(|t: T| PullEvent::Got(t)) == events_model(
                s0.take(k),
            ),
            urls@.len() == k,
            forall|i: int|
                0 <= i < k ==> url_for_call(base, token_model(s0, i), #[trigger] urls@[i]),
        decreases script@.len(), results.buffer().len(),
    {
        let ghost pre = results;
        match results.pull() {
            PullResult::Item(t) => {
                proof {
                    assert(events@.push(PullEvent::Got(t)) + results.buffer().map_values(
                        |x: T| PullEvent::Got(x),
                    ) =~= events@ + pre.buffer().map_values(|x: T| PullEvent::Got(x)));
                }
                events.push(PullEvent::Got(t));
            },
            PullResult::End => {
                proof {
                    lemma_run_stops_at_first_terminal(s0, k - 1);
                    assert(events@ =~= events@ + results.buffer().map_values(
                        |x: T| PullEvent::Got(x),
                    ));
                }
                return RunLog { events, urls, ended: true };
            },
            PullResult::StartFetch(u) => {
                if script.len() == 0 {
                    proof {
                        assert(k == s0.len());
                        assert(forall|i: int| 0 <= i < s0.len() - 1 ==> !is_terminal(
                            #[trigger] s0[i],
                        ));
                        if k >= 1 {
                            assert(!is_terminal(s0[k - 1]));
                        }
                        lemma_run_exhausts_script(s0);
                        assert(s0.take(k) =~= s0);
                        assert(events@ =~= events@ + results.buffer().map_values(
                            |x: T| PullEvent::Got(x),
                        ));
                    }
                    // The pending fetch is abandoned unanswered; nothing
                    // more can be observed of this run.
                    return RunLog { events, urls, ended: false };
                }
                proof {
                    if k >= 1 && is_terminal(s0[k - 1]) {
                        // A token-less page leaves no token, so no fetch
                        // could have been asked for.
                        assert(token_model(s0, k) is None);
                        assert(false);
                    }
                }
                urls.push(u);
                let entry = script.remove(0);
                proof {
                    assert(entry == s0[k]);
                    assert(s0.skip(k).drop_first() =~= s0.skip(k + 1));
                    lemma_events_model_take(s0, k);
                }
                proof { k = k + 1; }
                match entry {
                    Ok(page) => {
                        results.on_fetch_success(page);
                        proof {
                            assert(events@ + results.buffer().map_values(
                                |x: T| PullEvent::Got(x),
                            ) =~= events_model(s0.take(k)));
                        }
                    },
                    Err(err) => {
                        results.on_fetch_failure();
                        proof {
                            assert(entry_events(s0[k - 1]) =~= seq![
                                PullEvent::<T>::Failed(err),
                            ]);
                            assert(events@.push(PullEvent::Failed(err))
                                + results.buffer().map_values(|x: T| PullEvent::Got(x))
                                =~= events_model(s0.take(k)));
                        }
                        events.push(PullEvent::Failed(err));
                    },
                }
            },
            PullResult::Pending => {
                // Every fetch is answered before the next pull, so no
                // pull ever finds one pending; this arm is dead.
                proof {
                    assert(false);
                }
                return RunLog { events, urls, ended: false };
            },
        }
    }
}

} // verus!
