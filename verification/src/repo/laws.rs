//! What holds of every run of the fetch protocol.

use vstd::prelude::*;
use crate::config::{Config, SortOrder};
use crate::feed::FeedView;
use crate::repo::repo::{RefreshView, RepositoryView};
use crate::repo::{EventView, FetchErr};
use crate::util::{lemma_sorted_is_permutation, sorted_feeds};

verus! {

/// The feeds that the first `k` of `outcomes` gave, in order.
pub open spec fn successes(outcomes: Seq<Result<FeedView, FetchErr>>, k: nat) -> Seq<FeedView>
    decreases k,
{
    if k == 0 || k > outcomes.len() {
        Seq::empty()
    } else {
        match outcomes[k - 1] {
            Ok(feed) => successes(outcomes, (k - 1) as nat).push(feed),
            Err(_) => successes(outcomes, (k - 1) as nat),
        }
    }
}

/// How many of the first `k` of `outcomes` gave a feed.
pub open spec fn succeeded(outcomes: Seq<Result<FeedView, FetchErr>>, k: nat) -> nat
    decreases k,
{
    if k == 0 || k > outcomes.len() {
        0
    } else if outcomes[k - 1] is Ok {
        succeeded(outcomes, (k - 1) as nat) + 1
    } else {
        succeeded(outcomes, (k - 1) as nat)
    }
}

/// The announcements of the first `k` settled requests of `total`: the
/// counter goes from 1 to `k`, one step at a time.
pub open spec fn announcements(k: nat, total: usize) -> Seq<EventView> {
    Seq::new(k, |i: int| EventView::Requested((i + 1) as usize, total))
}

/// The repository after the first `k` of `outcomes` have settled, one after
/// the other, as requests of the refresh `operation`.
pub open spec fn settled_all(
    v: RepositoryView,
    operation: u64,
    outcomes: Seq<Result<FeedView, FetchErr>>,
    k: nat,
) -> RepositoryView
    decreases k,
{
    if k == 0 || k > outcomes.len() {
        v
    } else {
        settled_all(v, operation, outcomes, (k - 1) as nat).settled(operation, outcomes[k - 1])
    }
}

/// As many feeds are gathered as requests succeeded.
pub proof fn lemma_successes_count(outcomes: Seq<Result<FeedView, FetchErr>>, k: nat)
    ensures
        successes(outcomes, k).len() == succeeded(outcomes, k),
        succeeded(outcomes, k) <= k,
    decreases k,
{
    if k == 0 || k > outcomes.len() {
    } else {
        lemma_successes_count(outcomes, (k - 1) as nat);
    }
}

/// While a refresh of `total` requests runs, after `k` of them have settled
/// the counter stands at `k`, the feeds of those that succeeded are
/// gathered, each step has been announced, and nothing has been queued.
pub proof fn lemma_refresh_progress(
    v: RepositoryView,
    outcomes: Seq<Result<FeedView, FetchErr>>,
    k: nat,
)
    requires
        v.many is Some,
        v.many.unwrap().completed == 0,
        v.many.unwrap().feeds.len() == 0,
        k < v.many.unwrap().total,
        k <= outcomes.len(),
    ensures
        settled_all(v, v.many.unwrap().operation, outcomes, k) == (RepositoryView {
            outbox: v.outbox + announcements(k, v.many.unwrap().total),
            many: Some(
                RefreshView {
                    completed: k as usize,
                    feeds: successes(outcomes, k),
                    ..v.many.unwrap()
                },
            ),
            ..v
        }),
    decreases k,
{
    let refresh = v.many.unwrap();
    if k == 0 {
        assert(v.outbox + announcements(0, refresh.total) =~= v.outbox);
        assert(successes(outcomes, 0) =~= refresh.feeds);
    } else {
        lemma_refresh_progress(v, outcomes, (k - 1) as nat);
        let mid = settled_all(v, refresh.operation, outcomes, (k - 1) as nat);
        assert(mid.awaits(refresh.operation));
        assert(mid.outbox.push(EventView::Requested(k as usize, refresh.total)) =~= v.outbox
            + announcements(k, refresh.total));
    }
}

/// Within one refresh the counter never goes down: of two announcements,
/// the later carries the larger count, and none carries more than the
/// number of requests that have settled.
pub proof fn lemma_progress_is_monotonic(k: nat, total: usize, i: int, j: int)
    requires
        0 <= i <= j < k <= usize::MAX,
    ensures
        announcements(k, total)[i] == EventView::Requested((i + 1) as usize, total),
        announcements(k, total)[j] == EventView::Requested((j + 1) as usize, total),
        i + 1 <= j + 1 <= k,
{
}

/// A refresh of N addresses of which K give a feed ends, once all N
/// requests have settled in whatever order, with exactly one aggregate of
/// exactly K feeds, those that were given, in the configured order; the
/// counter has been announced N times, step by step, and stands at N.
pub proof fn lemma_refresh_counts(
    v: RepositoryView,
    urls: Seq<Seq<char>>,
    order: SortOrder,
    outcomes: Seq<Result<FeedView, FetchErr>>,
)
    requires
        0 < urls.len() <= usize::MAX,
        outcomes.len() == urls.len(),
    ensures
        ({
            let started = v.refreshed(urls, order);
            let operation = started.many.unwrap().operation;
            let ended = settled_all(started, operation, outcomes, outcomes.len());
            let aggregate = sorted_feeds(successes(outcomes, outcomes.len()), order, urls);
            &&& ended.many is None
            &&& ended.inbox == started.inbox.push(EventView::RetrievedAll(aggregate))
            &&& aggregate.len() == succeeded(outcomes, outcomes.len())
            &&& aggregate.to_multiset() == successes(outcomes, outcomes.len()).to_multiset()
            &&& ended.outbox == started.outbox + announcements(outcomes.len(), urls.len() as usize)
            &&& ended.outbox.last() == EventView::Requested(
                urls.len() as usize,
                urls.len() as usize,
            )
            &&& ended.storage == v.storage
            &&& ended.one == v.one
        }),
{
    let n = outcomes.len();
    let started = v.refreshed(urls, order);
    let refresh = started.many.unwrap();
    let operation = refresh.operation;
    lemma_refresh_progress(started, outcomes, (n - 1) as nat);
    let mid = settled_all(started, operation, outcomes, (n - 1) as nat);
    assert(mid.awaits(operation));
    let ended = settled_all(started, operation, outcomes, n);
    assert(ended == mid.settled(operation, outcomes[n - 1]));
    let gathered = successes(outcomes, n);
    lemma_sorted_is_permutation(gathered, order, urls);
    lemma_successes_count(outcomes, n);
    assert(mid.outbox.push(EventView::Requested(n as usize, refresh.total)) =~= started.outbox
        + announcements(n, refresh.total));
    assert(announcements(n, refresh.total)[n - 1] == EventView::Requested(
        n as usize,
        refresh.total,
    ));
}

/// A refresh started while another is in flight supersedes it: the
/// consumer is told `Aborted` and then `Requesting`, in this order and
/// with nothing between; nothing is queued for the consumer on behalf of
/// the superseded refresh, then or later, because whatever its requests
/// still report changes nothing; and the single fetch in flight, if there
/// is one, is not touched.
pub proof fn lemma_refresh_supersedes(
    v: RepositoryView,
    urls: Seq<Seq<char>>,
    order: SortOrder,
    late: Result<FeedView, FetchErr>,
)
    requires
        v.many is Some,
        urls.len() <= usize::MAX,
    ensures
        ({
            let first = v.many.unwrap().operation;
            let second = v.refreshed(urls, order);
            &&& second.outbox == v.outbox + seq![
                EventView::Aborted,
                EventView::Requesting(urls.len() as usize),
            ]
            &&& second.refresh_in_flight() != Some(first)
            &&& !second.awaits(first)
            &&& second.settled(first, late) == second
            &&& urls.len() > 0 ==> second.inbox == v.inbox
            &&& second.one == v.one
            &&& second.storage == v.storage
        }),
{
}

/// The two classes of operation do not cancel each other: starting a
/// single fetch leaves the refresh in flight as it is, and a single fetch
/// started while another is in flight supersedes only that one.
pub proof fn lemma_add_supersedes(v: RepositoryView, late: Result<FeedView, FetchErr>)
    ensures
        v.added().many == v.many,
        v.added().inbox == v.inbox,
        v.added().storage == v.storage,
        v.one is Some ==> {
            &&& v.added().outbox == v.outbox + seq![EventView::Aborted, EventView::Requesting(1)]
            &&& v.added().one != v.one
            &&& v.added().settled_one(v.one.unwrap(), late) == v.added()
        },
        v.one is None ==> v.added().outbox == v.outbox + seq![EventView::Requesting(1)],
{
}

/// At most one operation of each class is in flight, and an operation that
/// has ended is no longer in flight: once the last request of a refresh
/// has settled, further reports under its number change nothing.
pub proof fn lemma_settled_refresh_is_over(
    v: RepositoryView,
    operation: u64,
    last: Result<FeedView, FetchErr>,
    late: Result<FeedView, FetchErr>,
)
    requires
        v.awaits(operation),
        v.many.unwrap().completed + 1 == v.many.unwrap().total,
    ensures
        v.settled(operation, last).many is None,
        v.settled(operation, last).settled(operation, late) == v.settled(operation, last),
{
}

/// Fetching never touches the store: starting an operation and taking note
/// of a settled request leave it as it is. The store changes only when a
/// tick handles the feeds that were queued for it.
pub proof fn lemma_fetching_leaves_the_store(
    v: RepositoryView,
    urls: Seq<Seq<char>>,
    order: SortOrder,
    operation: u64,
    outcome: Result<FeedView, FetchErr>,
)
    ensures
        v.refreshed(urls, order).storage == v.storage,
        v.added().storage == v.storage,
        v.settled(operation, outcome).storage == v.storage,
        v.settled_one(operation, outcome).storage == v.storage,
{
}

/// Whether the consumer is never told of a request of the timer.
pub open spec fn hides_the_timer(outbox: Seq<EventView>) -> bool {
    forall|i: int| 0 <= i < outbox.len() ==> outbox[i] != EventView::Refresh
}

/// A request of the timer is never passed on to the consumer: no step of
/// the repository puts one among the events that wait for the consumer.
pub proof fn lemma_timer_is_never_passed_on(
    v: RepositoryView,
    urls: Seq<Seq<char>>,
    order: SortOrder,
    operation: u64,
    outcome: Result<FeedView, FetchErr>,
    message: EventView,
    config: Config,
)
    requires
        hides_the_timer(v.outbox),
    ensures
        hides_the_timer(v.refreshed(urls, order).outbox),
        hides_the_timer(v.added().outbox),
        hides_the_timer(v.settled(operation, outcome).outbox),
        hides_the_timer(v.settled_one(operation, outcome).outbox),
        hides_the_timer(v.handled(message, config).outbox),
        hides_the_timer(v.ticked(config).outbox),
{
    let start = RepositoryView { inbox: Seq::empty(), ..v };
    lemma_handling_hides_the_timer(start, v.inbox, config, v.inbox.len());
}

/// Handling messages one after the other never passes a request of the
/// timer on.
pub proof fn lemma_handling_hides_the_timer(
    v: RepositoryView,
    messages: Seq<EventView>,
    config: Config,
    k: nat,
)
    requires
        hides_the_timer(v.outbox),
        k <= messages.len(),
    ensures
        hides_the_timer(v.handled_all(messages, config, k).outbox),
    decreases k,
{
    if k > 0 {
        lemma_handling_hides_the_timer(v, messages, config, (k - 1) as nat);
    }
}

} // verus!
