//! The order in which feeds are listed.

use vstd::prelude::*;
use crate::config::{find_text, Config, SortOrder};
use crate::feed::{Feed, FeedView};
use crate::text::{lemma_text_lt_asymmetric, lemma_text_lt_chain, text_before, text_lt};

verus! {

/// Whether the optional text `a` comes before `b`: nothing comes before any
/// text, and two texts compare as strings do.
pub open spec fn option_lt(a: Option<Seq<char>>, b: Option<Seq<char>>) -> bool {
    match (a, b) {
        (None, Some(_)) => true,
        (Some(x), Some(y)) => text_lt(x, y),
        _ => false,
    }
}

/// The place of `link` among the configured addresses: the index of its
/// first occurrence, and 0 where it is not configured.
pub open spec fn rank(urls: Seq<Seq<char>>, link: Seq<char>) -> int {
    match urls.index_of_first(link) {
        Some(i) => i,
        None => 0,
    }
}

/// Whether `a` has to be listed before `b` under `order`, with `urls` the
/// configured addresses: by title, upwards or downwards; by the place of
/// the link among the configured addresses; by the text that records the
/// time of the last fetch, upwards for `Newest` and downwards for `Oldest`.
/// That text is compared as titles are, character by character, and not as
/// the time it tells; a feed that was never fetched has the least of all
/// such texts. `Unread` orders nothing.
pub open spec fn precedes(order: SortOrder, urls: Seq<Seq<char>>, a: FeedView, b: FeedView) -> bool {
    match order {
        SortOrder::Az => text_lt(a.title, b.title),
        SortOrder::Za => text_lt(b.title, a.title),
        SortOrder::Custom => rank(urls, a.link) < rank(urls, b.link),
        SortOrder::Newest => option_lt(a.last_fetched, b.last_fetched),
        SortOrder::Oldest => option_lt(b.last_fetched, a.last_fetched),
        SortOrder::Unread => false,
    }
}

/// The ordered list `s` with `x` put in: behind every feed that it does not
/// have to precede, so that feeds of equal standing keep the order in which
/// they came.
pub open spec fn placed(
    order: SortOrder,
    urls: Seq<Seq<char>>,
    s: Seq<FeedView>,
    x: FeedView,
) -> Seq<FeedView>
    decreases s.len(),
{
    if s.len() > 0 && precedes(order, urls, x, s.last()) {
        placed(order, urls, s.drop_last(), x).push(s.last())
    } else {
        s.push(x)
    }
}

/// The first `k` feeds of `s`, put in order one after the other.
pub open spec fn arranged(
    order: SortOrder,
    urls: Seq<Seq<char>>,
    s: Seq<FeedView>,
    k: nat,
) -> Seq<FeedView>
    decreases k,
{
    if k == 0 || k > s.len() {
        Seq::empty()
    } else {
        placed(order, urls, arranged(order, urls, s, (k - 1) as nat), s[k - 1])
    }
}

/// The feeds of `s` in the order `order`; feeds of equal standing keep the
/// order they have in `s`.
pub open spec fn sorted_feeds(s: Seq<FeedView>, order: SortOrder, urls: Seq<Seq<char>>) -> Seq<
    FeedView,
> {
    arranged(order, urls, s, s.len())
}

/// Whether no feed of `s` has to precede one listed before it.
pub open spec fn in_order(order: SortOrder, urls: Seq<Seq<char>>, s: Seq<FeedView>) -> bool {
    forall|i: int, j: int| 0 <= i < j < s.len() ==> !precedes(order, urls, s[j], s[i])
}

/// Of two feeds at most one has to precede the other.
pub proof fn lemma_precedes_asymmetric(
    order: SortOrder,
    urls: Seq<Seq<char>>,
    a: FeedView,
    b: FeedView,
)
    ensures
        precedes(order, urls, a, b) ==> !precedes(order, urls, b, a),
{
    lemma_text_lt_asymmetric(a.title, b.title);
    lemma_text_lt_asymmetric(b.title, a.title);
    if a.last_fetched is Some && b.last_fetched is Some {
        lemma_text_lt_asymmetric(a.last_fetched.unwrap(), b.last_fetched.unwrap());
        lemma_text_lt_asymmetric(b.last_fetched.unwrap(), a.last_fetched.unwrap());
    }
}

/// Where `a` need not precede `b`, nor `b` precede `c`, `a` need not
/// precede `c`.
pub proof fn lemma_precedes_chain(
    order: SortOrder,
    urls: Seq<Seq<char>>,
    a: FeedView,
    b: FeedView,
    c: FeedView,
)
    requires
        !precedes(order, urls, a, b),
        !precedes(order, urls, b, c),
    ensures
        !precedes(order, urls, a, c),
{
    match order {
        SortOrder::Az => lemma_text_lt_chain(a.title, b.title, c.title),
        SortOrder::Za => lemma_text_lt_chain(c.title, b.title, a.title),
        SortOrder::Newest => {
            if a.last_fetched is Some && b.last_fetched is Some && c.last_fetched is Some {
                lemma_text_lt_chain(
                    a.last_fetched.unwrap(),
                    b.last_fetched.unwrap(),
                    c.last_fetched.unwrap(),
                );
            }
        },
        SortOrder::Oldest => {
            if a.last_fetched is Some && b.last_fetched is Some && c.last_fetched is Some {
                lemma_text_lt_chain(
                    c.last_fetched.unwrap(),
                    b.last_fetched.unwrap(),
                    a.last_fetched.unwrap(),
                );
            }
        },
        _ => {},
    }
}

/// Putting `x` into `s` is inserting it at the place `at`, where `at` is
/// such that `x` has to precede every feed from `at` on and not the one
/// just before.
pub proof fn lemma_placed_at(
    order: SortOrder,
    urls: Seq<Seq<char>>,
    s: Seq<FeedView>,
    x: FeedView,
    at: int,
)
    requires
        0 <= at <= s.len(),
        forall|k: int| at <= k < s.len() ==> precedes(order, urls, x, s[k]),
        at > 0 ==> !precedes(order, urls, x, s[at - 1]),
    ensures
        placed(order, urls, s, x) == s.insert(at, x),
    decreases s.len(),
{
    if at == s.len() {
        assert(s.push(x) =~= s.insert(at, x));
    } else {
        let init = s.drop_last();
        assert(precedes(order, urls, x, s[s.len() - 1]));
        assert forall|k: int| at <= k < init.len() implies precedes(order, urls, x, init[k]) by {
            assert(init[k] == s[k]);
        }
        lemma_placed_at(order, urls, init, x, at);
        assert(init.insert(at, x).push(s.last()) =~= s.insert(at, x));
    }
}

/// Putting a feed into an ordered list leaves the list ordered, holding
/// what it held and the feed.
pub proof fn lemma_placed(order: SortOrder, urls: Seq<Seq<char>>, s: Seq<FeedView>, x: FeedView)
    requires
        in_order(order, urls, s),
    ensures
        in_order(order, urls, placed(order, urls, s, x)),
        placed(order, urls, s, x).to_multiset() == s.to_multiset().insert(x),
        placed(order, urls, s, x).len() == s.len() + 1,
    decreases s.len(),
{
    broadcast use vstd::seq_lib::group_to_multiset_ensures;

    let p = placed(order, urls, s, x);
    if s.len() > 0 && precedes(order, urls, x, s.last()) {
        let init = s.drop_last();
        let last = s.last();
        assert(in_order(order, urls, init)) by {
            assert forall|i: int, j: int| 0 <= i < j < init.len() implies !precedes(
                order,
                urls,
                init[j],
                init[i],
            ) by {
                assert(init[i] == s[i] && init[j] == s[j]);
            }
        }
        lemma_placed(order, urls, init, x);
        let q = placed(order, urls, init, x);
        assert(p == q.push(last));
        assert(init.push(last) =~= s);
        assert(p.to_multiset() == s.to_multiset().insert(x)) by {
            assert(q.push(last).to_multiset() =~= q.to_multiset().insert(last));
            assert(init.push(last).to_multiset() =~= init.to_multiset().insert(last));
            assert(init.to_multiset().insert(x).insert(last) =~= init.to_multiset().insert(
                last,
            ).insert(x));
        }
        assert forall|i: int, j: int| 0 <= i < j < p.len() implies !precedes(
            order,
            urls,
            p[j],
            p[i],
        ) by {
            if j < q.len() {
                assert(p[i] == q[i] && p[j] == q[j]);
            } else {
                // p[j] is the last feed of s; p[i] is x or a feed of s before it
                assert(p[j] == last);
                assert(p[i] == q[i]);
                assert(q.to_multiset().count(q[i]) > 0);
                if q[i] == x {
                    lemma_precedes_asymmetric(order, urls, x, last);
                } else {
                    assert(init.to_multiset().insert(x).count(q[i]) > 0);
                    assert(init.to_multiset().count(q[i]) > 0);
                    assert(init.contains(q[i]));
                    let k = choose|k: int| 0 <= k < init.len() && init[k] == q[i];
                    assert(s[k] == q[i]);
                    assert(!precedes(order, urls, s[s.len() - 1], s[k]));
                }
            }
        }
    } else {
        assert(p == s.push(x));
        assert forall|i: int, j: int| 0 <= i < j < p.len() implies !precedes(
            order,
            urls,
            p[j],
            p[i],
        ) by {
            if j < s.len() {
                assert(p[i] == s[i] && p[j] == s[j]);
            } else {
                assert(p[j] == x);
                assert(p[i] == s[i]);
                let n = s.len() - 1;
                assert(!precedes(order, urls, x, s[n]));
                if i < n {
                    assert(!precedes(order, urls, s[n], s[i]));
                    lemma_precedes_chain(order, urls, x, s[n], s[i]);
                }
            }
        }
    }
}

/// The first `k` feeds put in order are in order and are those `k` feeds.
pub proof fn lemma_arranged(order: SortOrder, urls: Seq<Seq<char>>, s: Seq<FeedView>, k: nat)
    requires
        k <= s.len(),
    ensures
        in_order(order, urls, arranged(order, urls, s, k)),
        arranged(order, urls, s, k).to_multiset() == s.take(k as int).to_multiset(),
        arranged(order, urls, s, k).len() == k,
    decreases k,
{
    broadcast use vstd::seq_lib::group_to_multiset_ensures;

    if k == 0 {
        assert(s.take(0) =~= Seq::<FeedView>::empty());
    } else {
        lemma_arranged(order, urls, s, (k - 1) as nat);
        lemma_placed(order, urls, arranged(order, urls, s, (k - 1) as nat), s[k - 1]);
        assert(s.take(k as int) =~= s.take(k - 1).push(s[k - 1]));
    }
}

/// Sorted feeds are in the configured order: no feed has to precede one
/// that is listed before it.
pub proof fn lemma_sorted_is_ordered(s: Seq<FeedView>, order: SortOrder, urls: Seq<Seq<char>>)
    ensures
        in_order(order, urls, sorted_feeds(s, order, urls)),
{
    lemma_arranged(order, urls, s, s.len());
}

/// Sorting neither loses nor invents a feed: the sorted list holds every
/// feed as often as the list it was made from.
pub proof fn lemma_sorted_is_permutation(s: Seq<FeedView>, order: SortOrder, urls: Seq<Seq<char>>)
    ensures
        sorted_feeds(s, order, urls).to_multiset() == s.to_multiset(),
        sorted_feeds(s, order, urls).len() == s.len(),
{
    lemma_arranged(order, urls, s, s.len());
    assert(s.take(s.len() as int) =~= s);
}

/// An ordered list is left as it is: sorting it changes nothing.
pub proof fn lemma_sorting_keeps_the_sorted(s: Seq<FeedView>, order: SortOrder, urls: Seq<Seq<char>>)
    requires
        in_order(order, urls, s),
    ensures
        sorted_feeds(s, order, urls) == s,
{
    lemma_arranged_in_order(order, urls, s, s.len());
    assert(s.take(s.len() as int) =~= s);
}

/// Of an ordered list, putting the first `k` feeds in order gives those
/// `k` feeds as they stand.
pub proof fn lemma_arranged_in_order(order: SortOrder, urls: Seq<Seq<char>>, s: Seq<FeedView>, k: nat)
    requires
        in_order(order, urls, s),
        k <= s.len(),
    ensures
        arranged(order, urls, s, k) == s.take(k as int),
    decreases k,
{
    if k == 0 {
        assert(s.take(0) =~= Seq::<FeedView>::empty());
    } else {
        lemma_arranged_in_order(order, urls, s, (k - 1) as nat);
        let before = s.take(k - 1);
        if k > 1 {
            assert(before.last() == s[k - 2]);
            assert(!precedes(order, urls, s[k - 1], s[k - 2]));
        }
        assert(s.take(k as int) =~= before.push(s[k - 1]));
    }
}

/// Sorting a second time changes nothing.
pub proof fn lemma_sorting_twice(s: Seq<FeedView>, order: SortOrder, urls: Seq<Seq<char>>)
    ensures
        sorted_feeds(sorted_feeds(s, order, urls), order, urls) == sorted_feeds(s, order, urls),
{
    lemma_sorted_is_ordered(s, order, urls);
    lemma_sorting_keeps_the_sorted(sorted_feeds(s, order, urls), order, urls);
}

/// Whether `a` and `b` are of equal standing: neither has to precede the
/// other.
pub open spec fn level(order: SortOrder, urls: Seq<Seq<char>>, a: FeedView, b: FeedView) -> bool {
    !precedes(order, urls, a, b) && !precedes(order, urls, b, a)
}

/// The feeds of `s` that are of equal standing with `x`, in the order they
/// have in `s`.
pub open spec fn peers(order: SortOrder, urls: Seq<Seq<char>>, s: Seq<FeedView>, x: FeedView) -> Seq<
    FeedView,
>
    decreases s.len(),
{
    if s.len() == 0 {
        Seq::empty()
    } else if level(order, urls, s.last(), x) {
        peers(order, urls, s.drop_last(), x).push(s.last())
    } else {
        peers(order, urls, s.drop_last(), x)
    }
}

/// Putting `y` into a list puts it behind its peers: among the feeds of
/// equal standing with `x`, `y` comes last if it is one of them, and the
/// others stay as they were.
pub proof fn lemma_placed_keeps_peers(
    order: SortOrder,
    urls: Seq<Seq<char>>,
    s: Seq<FeedView>,
    y: FeedView,
    x: FeedView,
)
    ensures
        peers(order, urls, placed(order, urls, s, y), x) == peers(order, urls, s.push(y), x),
    decreases s.len(),
{
    assert(s.push(y).drop_last() =~= s);
    assert(s.push(y).last() == y);
    if s.len() > 0 && precedes(order, urls, y, s.last()) {
        let rest = s.drop_last();
        let z = s.last();
        lemma_placed_keeps_peers(order, urls, rest, y, x);
        let put = placed(order, urls, rest, y);
        assert(placed(order, urls, s, y) == put.push(z));
        assert(put.push(z).drop_last() =~= put);
        assert(put.push(z).last() == z);
        assert(rest.push(y).drop_last() =~= rest);
        assert(rest.push(y).last() == y);
        if level(order, urls, y, x) && level(order, urls, z, x) {
            lemma_precedes_chain(order, urls, y, x, z);
        }
        let among = peers(order, urls, rest, x);
        assert(peers(order, urls, put, x) == if level(order, urls, y, x) {
            among.push(y)
        } else {
            among
        });
        assert(peers(order, urls, s, x) == if level(order, urls, z, x) {
            among.push(z)
        } else {
            among
        });
        assert(peers(order, urls, put.push(z), x) == if level(order, urls, z, x) {
            peers(order, urls, put, x).push(z)
        } else {
            peers(order, urls, put, x)
        });
    }
}

/// Putting the first `k` feeds of `s` in order leaves the feeds of equal
/// standing with `x` in the order they have in `s`.
pub proof fn lemma_arranged_keeps_peers(
    order: SortOrder,
    urls: Seq<Seq<char>>,
    s: Seq<FeedView>,
    x: FeedView,
    k: nat,
)
    requires
        k <= s.len(),
    ensures
        peers(order, urls, arranged(order, urls, s, k), x) == peers(
            order,
            urls,
            s.take(k as int),
            x,
        ),
    decreases k,
{
    if k == 0 {
        assert(s.take(0) =~= Seq::<FeedView>::empty());
    } else {
        lemma_arranged_keeps_peers(order, urls, s, x, (k - 1) as nat);
        let before = arranged(order, urls, s, (k - 1) as nat);
        lemma_placed_keeps_peers(order, urls, before, s[k - 1], x);
        assert(before.push(s[k - 1]).drop_last() =~= before);
        assert(s.take(k as int).drop_last() =~= s.take(k - 1));
        assert(s.take(k as int).last() == s[k - 1]);
    }
}

/// Sorting is stable: feeds of equal standing keep the order in which they
/// came. For every feed `x`, the feeds of equal standing with `x` come in
/// the sorted list in the order they have in `s`.
pub proof fn lemma_sorting_is_stable(
    s: Seq<FeedView>,
    order: SortOrder,
    urls: Seq<Seq<char>>,
    x: FeedView,
)
    ensures
        peers(order, urls, sorted_feeds(s, order, urls), x) == peers(order, urls, s, x),
{
    lemma_arranged_keeps_peers(order, urls, s, x, s.len());
    assert(s.take(s.len() as int) =~= s);
}

/// Whether the optional text `a` comes before `b`.
fn option_before(a: Option<&str>, b: Option<&str>) -> (r: bool)
    ensures
        r == option_lt(a.deep_view(), b.deep_view()),
{
    match b {
        None => false,
        Some(y) => match a {
            None => true,
            Some(x) => text_before(x, y),
        },
    }
}

/// The place of `link` among `urls`, 0 where it is not one of them.
fn rank_of(urls: &Vec<String>, link: &str) -> (r: usize)
    ensures
        r == rank(urls.deep_view(), link@),
{
    match find_text(urls, link) {
        Some(i) => i,
        None => {
            proof {
                urls.deep_view().index_of_first_ensures(link@);
            }
            0
        },
    }
}

/// Whether `a` has to be listed before `b` under `order`.
pub fn comes_before(order: &SortOrder, urls: &Vec<String>, a: &Feed, b: &Feed) -> (r: bool)
    ensures
        r == precedes(*order, urls.deep_view(), a@, b@),
{
    match order {
        SortOrder::Az => text_before(a.title(), b.title()),
        SortOrder::Za => text_before(b.title(), a.title()),
        SortOrder::Custom => rank_of(urls, a.link()) < rank_of(urls, b.link()),
        SortOrder::Newest => option_before(a.last_fetched(), b.last_fetched()),
        SortOrder::Oldest => option_before(b.last_fetched(), a.last_fetched()),
        SortOrder::Unread => false,
    }
}

/// Puts `feeds` into the order `order`, with `urls` the configured
/// addresses; feeds of equal standing keep the order they had.
pub fn sort_by_order(feeds: &mut Vec<Feed>, order: &SortOrder, urls: &Vec<String>)
    requires
        *order != SortOrder::Unread,
    ensures
        final(feeds).deep_view() == sorted_feeds(old(feeds).deep_view(), *order, urls.deep_view()),
        in_order(*order, urls.deep_view(), final(feeds).deep_view()),
        final(feeds).deep_view().to_multiset() == old(feeds).deep_view().to_multiset(),
        final(feeds).len() == old(feeds).len(),
{
    proof {
        lemma_sorted_is_ordered(old(feeds).deep_view(), *order, urls.deep_view());
        lemma_sorted_is_permutation(old(feeds).deep_view(), *order, urls.deep_view());
    }
    let mut work: Vec<Feed> = Vec::new();
    std::mem::swap(feeds, &mut work);
    let ghost input = work.deep_view();
    let ghost names = urls.deep_view();
    let mut taken: usize = 0;
    assert(input.len() == work.len());
    assert(input.skip(0) =~= input);
    assert(feeds.deep_view() =~= Seq::<FeedView>::empty());
    while work.len() > 0
        invariant
            taken <= input.len(),
            input.len() <= usize::MAX,
            names == urls.deep_view(),
            work.deep_view() == input.skip(taken as int),
            work.len() == input.len() - taken,
            feeds.deep_view() == arranged(*order, names, input, taken as nat),
            feeds.len() == taken,
        decreases work.len(),
    {
        let ghost rest = work.deep_view();
        let ghost done = feeds.deep_view();
        let x = work.remove(0);
        assert(x@ == input[taken as int]) by {
            assert(rest[0] == input[taken as int]);
        }
        assert(work.deep_view() =~= rest.remove(0));
        assert(rest.remove(0) =~= input.skip(taken + 1));
        let mut at: usize = feeds.len();
        while at > 0 && comes_before(order, urls, &x, &feeds[at - 1])
            invariant
                at <= feeds.len(),
                names == urls.deep_view(),
                done == feeds.deep_view(),
                forall|k: int| at <= k < done.len() ==> precedes(*order, names, x@, done[k]),
            decreases at,
        {
            at -= 1;
        }
        proof {
            lemma_placed_at(*order, names, done, x@, at as int);
        }
        feeds.insert(at, x);
        assert(feeds.deep_view() =~= done.insert(at as int, x@));
        taken += 1;
    }
}

/// Puts `feeds` into the configured order; feeds of equal standing keep
/// the order they had. The order `Unread` is not implemented and must not
/// be configured when this is called.
pub fn sort_feeds(feeds: &mut Vec<Feed>, config: &Config)
    requires
        config.order() != SortOrder::Unread,
    ensures
        final(feeds).deep_view() == sorted_feeds(
            old(feeds).deep_view(),
            config.order(),
            config.urls(),
        ),
        in_order(config.order(), config.urls(), final(feeds).deep_view()),
        final(feeds).deep_view().to_multiset() == old(feeds).deep_view().to_multiset(),
        final(feeds).len() == old(feeds).len(),
{
    sort_by_order(feeds, config.sort_order(), config.feed_urls());
}

} // verus!
