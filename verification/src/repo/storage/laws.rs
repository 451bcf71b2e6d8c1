//! What holds of the store whatever it holds: writes keep it well formed,
//! what is written can be read back, and a delete takes a feed's items
//! along.

use vstd::prelude::*;
use crate::config::SortOrder;
use crate::feed::normalize::{
    feed_identity, is_normalized, lemma_items_belong, normalized_feed, projects,
};
use crate::feed::source::SourceChannelView;
use crate::feed::{FeedView, ItemView};
use crate::util::{lemma_sorted_is_permutation, sorted_feeds};
use crate::repo::storage::{
    feed_ids, feeds_kept, from_url, item_ids, items_fit, items_for, items_kept, put_feed,
    put_feeds, put_fitting, put_item, put_items, row_of, MetadataView, StorageView,
};

verus! {

/// Writing a feed row keeps the identities of the table apart, adds no
/// identity but that of the row, and changes the number of rows only where
/// the identity is new.
pub proof fn lemma_put_feed(rows: Seq<FeedView>, row: FeedView)
    requires
        feed_ids(rows).no_duplicates(),
    ensures
        feed_ids(put_feed(rows, row)).no_duplicates(),
        forall|id: Seq<char>| #[trigger]
            feed_ids(put_feed(rows, row)).contains(id) <==> (id == row.id || feed_ids(
                rows,
            ).contains(id)),
        feed_ids(rows).contains(row.id) ==> feed_ids(put_feed(rows, row)) == feed_ids(rows),
        !feed_ids(rows).contains(row.id) ==> put_feed(rows, row) == rows.push(row),
        put_feed(rows, row).len() == rows.len() + (if feed_ids(rows).contains(row.id) {
            0int
        } else {
            1int
        }),
        forall|i: int|
            0 <= i < put_feed(rows, row).len() ==> (#[trigger] put_feed(rows, row)[i]) == row
                || (i < rows.len() && put_feed(rows, row)[i] == rows[i]),
        exists|i: int| 0 <= i < put_feed(rows, row).len() && put_feed(rows, row)[i] == row,
{
    let ids = feed_ids(rows);
    let r = put_feed(rows, row);
    ids.index_of_first_ensures(row.id);
    match ids.index_of_first(row.id) {
        Some(i) => {
            assert(r == rows.update(i, row));
            assert(feed_ids(r) =~= ids);
            assert(r[i] == row);
        },
        None => {
            assert(r == rows.push(row));
            assert(feed_ids(r) =~= ids.push(row.id));
            assert(r[rows.len() as int] == row);
            assert forall|id: Seq<char>| #[trigger]
                feed_ids(r).contains(id) <==> (id == row.id || ids.contains(id)) by {
                if feed_ids(r).contains(id) {
                    let k = choose|k: int| 0 <= k < feed_ids(r).len() && feed_ids(r)[k] == id;
                    if k < ids.len() {
                        assert(ids[k] == id);
                    }
                }
                if ids.contains(id) {
                    let k = choose|k: int| 0 <= k < ids.len() && ids[k] == id;
                    assert(feed_ids(r)[k] == id);
                }
                if id == row.id {
                    assert(feed_ids(r)[ids.len() as int] == id);
                }
            }
        },
    }
}

/// Writing an item row keeps the identities of the table apart; the table
/// then holds the row, and beside it only rows that it held before.
pub proof fn lemma_put_item(rows: Seq<ItemView>, row: ItemView)
    requires
        item_ids(rows).no_duplicates(),
    ensures
        item_ids(put_item(rows, row)).no_duplicates(),
        forall|id: Seq<char>| #[trigger]
            item_ids(put_item(rows, row)).contains(id) <==> (id == row.id || item_ids(
                rows,
            ).contains(id)),
        item_ids(rows).contains(row.id) ==> item_ids(put_item(rows, row)) == item_ids(rows),
        put_item(rows, row).len() == rows.len() + (if item_ids(rows).contains(row.id) {
            0int
        } else {
            1int
        }),
        forall|i: int|
            0 <= i < put_item(rows, row).len() ==> (#[trigger] put_item(rows, row)[i]) == row
                || (i < rows.len() && put_item(rows, row)[i] == rows[i]),
        forall|i: int|
            0 <= i < rows.len() && rows[i].id != row.id ==> put_item(rows, row)[i] == rows[i],
        exists|i: int| 0 <= i < put_item(rows, row).len() && put_item(rows, row)[i] == row,
{
    let ids = item_ids(rows);
    let r = put_item(rows, row);
    ids.index_of_first_ensures(row.id);
    match ids.index_of_first(row.id) {
        Some(i) => {
            assert(r == rows.update(i, row));
            assert(item_ids(r) =~= ids);
            assert(r[i] == row);
            assert forall|k: int| 0 <= k < rows.len() && rows[k].id != row.id implies r[k]
                == rows[k] by {
                assert(ids[k] == rows[k].id);
            }
        },
        None => {
            assert(r == rows.push(row));
            assert(item_ids(r) =~= ids.push(row.id));
            assert(r[rows.len() as int] == row);
            assert forall|id: Seq<char>| #[trigger]
                item_ids(r).contains(id) <==> (id == row.id || ids.contains(id)) by {
                if item_ids(r).contains(id) {
                    let k = choose|k: int| 0 <= k < item_ids(r).len() && item_ids(r)[k] == id;
                    if k < ids.len() {
                        assert(ids[k] == id);
                    }
                }
                if ids.contains(id) {
                    let k = choose|k: int| 0 <= k < ids.len() && ids[k] == id;
                    assert(item_ids(r)[k] == id);
                }
                if id == row.id {
                    assert(item_ids(r)[ids.len() as int] == id);
                }
            }
        },
    }
}

/// Where every item row names a stored feed, every row still does after an
/// item that names one has been written.
pub proof fn lemma_fit_put_item(feeds: Seq<FeedView>, rows: Seq<ItemView>, row: ItemView)
    requires
        item_ids(rows).no_duplicates(),
        items_fit(feeds, rows),
        feed_ids(feeds).contains(row.feed_id),
    ensures
        items_fit(feeds, put_item(rows, row)),
{
    lemma_put_item(rows, row);
    let r = put_item(rows, row);
    assert forall|i: int| 0 <= i < r.len() implies feed_ids(feeds).contains(
        #[trigger] r[i].feed_id,
    ) by {
        if r[i] == row {
        } else {
            assert(r[i] == rows[i]);
            assert(feed_ids(feeds).contains(rows[i].feed_id));
        }
    }
}

/// Writing items one after the other keeps the identities of the table
/// apart and, where the items name stored feeds, keeps every row naming one.
pub proof fn lemma_put_items(
    feeds: Seq<FeedView>,
    rows: Seq<ItemView>,
    items: Seq<ItemView>,
    k: nat,
)
    requires
        item_ids(rows).no_duplicates(),
        items_fit(feeds, rows),
        items_fit(feeds, items),
        k <= items.len(),
    ensures
        item_ids(put_items(rows, items, k)).no_duplicates(),
        items_fit(feeds, put_items(rows, items, k)),
    decreases k,
{
    if k > 0 {
        lemma_put_items(feeds, rows, items, (k - 1) as nat);
        let mid = put_items(rows, items, (k - 1) as nat);
        assert(feed_ids(feeds).contains(items[k - 1].feed_id));
        lemma_put_item(mid, items[k - 1]);
        lemma_fit_put_item(feeds, mid, items[k - 1]);
    }
}

/// Rows that name one of `feeds` still do when a feed row is written.
pub proof fn lemma_fit_put_feed(feeds: Seq<FeedView>, row: FeedView, items: Seq<ItemView>)
    requires
        feed_ids(feeds).no_duplicates(),
        items_fit(feeds, items),
    ensures
        items_fit(put_feed(feeds, row), items),
{
    lemma_put_feed(feeds, row);
    assert forall|i: int| 0 <= i < items.len() implies feed_ids(put_feed(feeds, row)).contains(
        #[trigger] items[i].feed_id,
    ) by {
        assert(feed_ids(feeds).contains(items[i].feed_id));
    }
}

/// A write that succeeds leaves the store well formed.
pub proof fn lemma_written_wf(s: StorageView, feed: FeedView)
    requires
        s.wf(),
        s.written(feed) is Some,
    ensures
        s.written(feed).unwrap().wf(),
        s.written(feed).unwrap().meta == s.meta,
{
    let feeds = put_feed(s.feeds, row_of(feed));
    lemma_put_feed(s.feeds, row_of(feed));
    lemma_fit_put_feed(s.feeds, row_of(feed), s.items);
    lemma_put_items(feeds, s.items, feed.items, feed.items.len());
    assert forall|i: int| 0 <= i < feeds.len() implies (#[trigger] feeds[i]).items.len() == 0 by {
        if feeds[i] == row_of(feed) {
        } else {
            assert(feeds[i] == s.feeds[i]);
        }
    }
}

/// A batch that succeeds leaves the store well formed.
pub proof fn lemma_written_all_wf(s: StorageView, feeds: Seq<FeedView>, k: nat)
    requires
        s.wf(),
        k <= feeds.len(),
        s.written_all(feeds, k) is Some,
    ensures
        s.written_all(feeds, k).unwrap().wf(),
        s.written_all(feeds, k).unwrap().meta == s.meta,
    decreases k,
{
    if k > 0 {
        lemma_written_all_wf(s, feeds, (k - 1) as nat);
        lemma_written_wf(s.written_all(feeds, (k - 1) as nat).unwrap(), feeds[k - 1]);
    }
}

/// Whether a write succeeds is decided by the feeds that its items name:
/// each has to be the feed itself or a feed stored already.
pub proof fn lemma_written_when(s: StorageView, feed: FeedView)
    requires
        s.wf(),
    ensures
        s.written(feed) is Some <==> (forall|i: int|
            0 <= i < feed.items.len() ==> (#[trigger] feed.items[i]).feed_id == feed.id
                || s.has_feed(feed.items[i].feed_id)),
{
    lemma_put_feed(s.feeds, row_of(feed));
    let feeds = put_feed(s.feeds, row_of(feed));
    if s.written(feed) is Some {
        assert forall|i: int| 0 <= i < feed.items.len() implies (#[trigger] feed.items[i]).feed_id
            == feed.id || s.has_feed(feed.items[i].feed_id) by {
            assert(feed_ids(feeds).contains(feed.items[i].feed_id));
        }
    }
    if forall|i: int|
        0 <= i < feed.items.len() ==> (#[trigger] feed.items[i]).feed_id == feed.id || s.has_feed(
            feed.items[i].feed_id,
        ) {
        assert forall|i: int| 0 <= i < feed.items.len() implies feed_ids(feeds).contains(
            #[trigger] feed.items[i].feed_id,
        ) by {
            assert(feed.items[i].feed_id == feed.id || s.has_feed(feed.items[i].feed_id));
        }
    }
}

/// The feeds that a delete keeps are feeds that were stored, in their old
/// order, and none was fetched from the address.
pub proof fn lemma_feeds_kept(feeds: Seq<FeedView>, url: Seq<char>, k: nat)
    requires
        feed_ids(feeds).no_duplicates(),
        k <= feeds.len(),
    ensures
        feed_ids(feeds_kept(feeds, url, k)).no_duplicates(),
        feeds_kept(feeds, url, k).len() <= k,
        forall|i: int|
            0 <= i < feeds_kept(feeds, url, k).len() ==> exists|j: int|
                0 <= j < k && feeds[j] == #[trigger] feeds_kept(feeds, url, k)[i],
        forall|i: int|
            0 <= i < feeds_kept(feeds, url, k).len() ==> (#[trigger] feeds_kept(
                feeds,
                url,
                k,
            )[i]).url != url,
        forall|j: int|
            0 <= j < k && feeds[j].url != url ==> feed_ids(feeds_kept(feeds, url, k)).contains(
                #[trigger] feeds[j].id,
            ),
        (forall|j: int| 0 <= j < k ==> feeds[j].url != url) ==> feeds_kept(feeds, url, k)
            == feeds.take(k as int),
    decreases k,
{
    if k == 0 {
        assert(feeds.take(0) =~= Seq::<FeedView>::empty());
    } else {
        lemma_feeds_kept(feeds, url, (k - 1) as nat);
        let prev = feeds_kept(feeds, url, (k - 1) as nat);
        let cur = feeds_kept(feeds, url, k);
        let x = feeds[k - 1];
        if x.url != url {
            assert(cur == prev.push(x));
            assert(feed_ids(cur) =~= feed_ids(prev).push(x.id));
            assert(!feed_ids(prev).contains(x.id)) by {
                if feed_ids(prev).contains(x.id) {
                    let i = choose|i: int|
                        0 <= i < feed_ids(prev).len() && feed_ids(prev)[i] == x.id;
                    let j = choose|j: int| 0 <= j < k - 1 && feeds[j] == prev[i];
                    assert(feed_ids(feeds)[j] == x.id);
                    assert(feed_ids(feeds)[k - 1] == x.id);
                }
            }
            assert forall|i: int| 0 <= i < cur.len() implies exists|j: int|
                0 <= j < k && feeds[j] == #[trigger] cur[i] by {
                if i < prev.len() {
                    let j = choose|j: int| 0 <= j < k - 1 && feeds[j] == prev[i];
                    assert(feeds[j] == cur[i]);
                } else {
                    assert(feeds[k - 1] == cur[i]);
                }
            }
            assert forall|j: int| 0 <= j < k && feeds[j].url != url implies feed_ids(
                cur,
            ).contains(#[trigger] feeds[j].id) by {
                if j < k - 1 {
                    assert(feed_ids(prev).contains(feeds[j].id));
                    let i = choose|i: int|
                        0 <= i < feed_ids(prev).len() && feed_ids(prev)[i] == feeds[j].id;
                    assert(feed_ids(cur)[i] == feeds[j].id);
                } else {
                    assert(feed_ids(cur)[prev.len() as int] == feeds[j].id);
                }
            }
            if forall|j: int| 0 <= j < k ==> feeds[j].url != url {
                assert(feeds.take(k as int) =~= feeds.take(k - 1).push(x));
            }
        } else {
            assert(cur == prev);
            assert forall|i: int| 0 <= i < cur.len() implies exists|j: int|
                0 <= j < k && feeds[j] == #[trigger] cur[i] by {
                let j = choose|j: int| 0 <= j < k - 1 && feeds[j] == prev[i];
                assert(feeds[j] == cur[i]);
            }
        }
    }
}

/// The items that a delete keeps are items that were stored, in their old
/// order, and none names a feed fetched from the address.
pub proof fn lemma_items_kept(items: Seq<ItemView>, feeds: Seq<FeedView>, url: Seq<char>, k: nat)
    requires
        item_ids(items).no_duplicates(),
        k <= items.len(),
    ensures
        item_ids(items_kept(items, feeds, url, k)).no_duplicates(),
        items_kept(items, feeds, url, k).len() <= k,
        forall|i: int|
            0 <= i < items_kept(items, feeds, url, k).len() ==> exists|j: int|
                0 <= j < k && items[j] == #[trigger] items_kept(items, feeds, url, k)[i],
        forall|i: int|
            0 <= i < items_kept(items, feeds, url, k).len() ==> !from_url(
                feeds,
                (#[trigger] items_kept(items, feeds, url, k)[i]).feed_id,
                url,
            ),
        (forall|j: int| 0 <= j < k ==> !from_url(feeds, items[j].feed_id, url)) ==> items_kept(
            items,
            feeds,
            url,
            k,
        ) == items.take(k as int),
    decreases k,
{
    if k == 0 {
        assert(items.take(0) =~= Seq::<ItemView>::empty());
    } else {
        lemma_items_kept(items, feeds, url, (k - 1) as nat);
        let prev = items_kept(items, feeds, url, (k - 1) as nat);
        let cur = items_kept(items, feeds, url, k);
        let x = items[k - 1];
        if !from_url(feeds, x.feed_id, url) {
            assert(cur == prev.push(x));
            assert(item_ids(cur) =~= item_ids(prev).push(x.id));
            assert(!item_ids(prev).contains(x.id)) by {
                if item_ids(prev).contains(x.id) {
                    let i = choose|i: int|
                        0 <= i < item_ids(prev).len() && item_ids(prev)[i] == x.id;
                    let j = choose|j: int| 0 <= j < k - 1 && items[j] == prev[i];
                    assert(item_ids(items)[j] == x.id);
                    assert(item_ids(items)[k - 1] == x.id);
                }
            }
            assert forall|i: int| 0 <= i < cur.len() implies exists|j: int|
                0 <= j < k && items[j] == #[trigger] cur[i] by {
                if i < prev.len() {
                    let j = choose|j: int| 0 <= j < k - 1 && items[j] == prev[i];
                    assert(items[j] == cur[i]);
                } else {
                    assert(items[k - 1] == cur[i]);
                }
            }
            if forall|j: int| 0 <= j < k ==> !from_url(feeds, items[j].feed_id, url) {
                assert(items.take(k as int) =~= items.take(k - 1).push(x));
            }
        } else {
            assert(cur == prev);
            assert forall|i: int| 0 <= i < cur.len() implies exists|j: int|
                0 <= j < k && items[j] == #[trigger] cur[i] by {
                let j = choose|j: int| 0 <= j < k - 1 && items[j] == prev[i];
                assert(items[j] == cur[i]);
            }
        }
    }
}

/// A delete leaves the store well formed.
pub proof fn lemma_deleted_wf(s: StorageView, url: Seq<char>)
    requires
        s.wf(),
    ensures
        s.deleted(url).wf(),
{
    let d = s.deleted(url);
    lemma_feeds_kept(s.feeds, url, s.feeds.len());
    lemma_items_kept(s.items, s.feeds, url, s.items.len());
    assert forall|i: int| 0 <= i < d.items.len() implies feed_ids(d.feeds).contains(
        #[trigger] d.items[i].feed_id,
    ) by {
        let fid = d.items[i].feed_id;
        let j = choose|j: int| 0 <= j < s.items.len() && s.items[j] == d.items[i];
        assert(feed_ids(s.feeds).contains(s.items[j].feed_id));
        let f = choose|f: int| 0 <= f < feed_ids(s.feeds).len() && feed_ids(s.feeds)[f] == fid;
        assert(s.feeds[f].id == fid);
        assert(!from_url(s.feeds, fid, url));
        assert(s.feeds[f].url != url);
    }
    assert forall|i: int| 0 <= i < d.feeds.len() implies (#[trigger] d.feeds[i]).items.len()
        == 0 by {
        let j = choose|j: int| 0 <= j < s.feeds.len() && s.feeds[j] == d.feeds[i];
    }
}

/// Writing feed rows one after the other keeps the identities apart, and no
/// row carries items.
pub proof fn lemma_put_feeds(rows: Seq<FeedView>, feeds: Seq<FeedView>, k: nat)
    requires
        feed_ids(rows).no_duplicates(),
        forall|i: int| 0 <= i < rows.len() ==> (#[trigger] rows[i]).items.len() == 0,
        k <= feeds.len(),
    ensures
        feed_ids(put_feeds(rows, feeds, k)).no_duplicates(),
        forall|i: int|
            0 <= i < put_feeds(rows, feeds, k).len() ==> (#[trigger] put_feeds(
                rows,
                feeds,
                k,
            )[i]).items.len() == 0,
    decreases k,
{
    if k > 0 {
        lemma_put_feeds(rows, feeds, (k - 1) as nat);
        let mid = put_feeds(rows, feeds, (k - 1) as nat);
        lemma_put_feed(mid, row_of(feeds[k - 1]));
        let cur = put_feeds(rows, feeds, k);
        assert forall|i: int| 0 <= i < cur.len() implies (#[trigger] cur[i]).items.len() == 0 by {
            if cur[i] == row_of(feeds[k - 1]) {
            } else {
                assert(cur[i] == mid[i]);
            }
        }
    }
}

/// Writing the item rows that name a stored feed keeps the identities apart
/// and every row naming one.
pub proof fn lemma_put_fitting(
    rows: Seq<ItemView>,
    feeds: Seq<FeedView>,
    items: Seq<ItemView>,
    k: nat,
)
    requires
        item_ids(rows).no_duplicates(),
        items_fit(feeds, rows),
        k <= items.len(),
    ensures
        item_ids(put_fitting(rows, feeds, items, k)).no_duplicates(),
        items_fit(feeds, put_fitting(rows, feeds, items, k)),
    decreases k,
{
    if k > 0 {
        lemma_put_fitting(rows, feeds, items, (k - 1) as nat);
        let mid = put_fitting(rows, feeds, items, (k - 1) as nat);
        if feed_ids(feeds).contains(items[k - 1].feed_id) {
            lemma_put_item(mid, items[k - 1]);
            lemma_fit_put_item(feeds, mid, items[k - 1]);
        }
    }
}

/// Rows that were persisted give a well-formed store, whatever they are.
pub proof fn lemma_restored_wf(
    feeds: Seq<FeedView>,
    items: Seq<ItemView>,
    meta: Option<MetadataView>,
)
    ensures
        StorageView::restored(feeds, items, meta).wf(),
{
    let none = Seq::<FeedView>::empty();
    assert(feed_ids(none) =~= Seq::<Seq<char>>::empty());
    lemma_put_feeds(none, feeds, feeds.len());
    let rows = put_feeds(none, feeds, feeds.len());
    let nothing = Seq::<ItemView>::empty();
    assert(item_ids(nothing) =~= Seq::<Seq<char>>::empty());
    lemma_put_fitting(nothing, rows, items, items.len());
}

/// Which items are among those of a feed: the stored items that name it.
pub proof fn lemma_items_for(items: Seq<ItemView>, id: Seq<char>, k: nat)
    requires
        k <= items.len(),
    ensures
        forall|x: ItemView| #[trigger]
            items_for(items, id, k).contains(x) <==> (x.feed_id == id && exists|j: int|
                0 <= j < k && items[j] == x),
        items_for(items, id, k).len() <= k,
    decreases k,
{
    if k > 0 {
        lemma_items_for(items, id, (k - 1) as nat);
        let prev = items_for(items, id, (k - 1) as nat);
        let cur = items_for(items, id, k);
        let last = items[k - 1];
        assert forall|x: ItemView| #[trigger]
            cur.contains(x) <==> (x.feed_id == id && exists|j: int|
                0 <= j < k && items[j] == x) by {
            if cur.contains(x) {
                let i = choose|i: int| 0 <= i < cur.len() && cur[i] == x;
                if i < prev.len() {
                    assert(prev[i] == x);
                    assert(prev.contains(x));
                    let j = choose|j: int| 0 <= j < k - 1 && items[j] == x;
                    assert(0 <= j < k && items[j] == x);
                } else {
                    assert(x == last);
                    assert(items[k - 1] == x);
                }
            }
            if x.feed_id == id && exists|j: int| 0 <= j < k && items[j] == x {
                let j = choose|j: int| 0 <= j < k && items[j] == x;
                if j < k - 1 {
                    assert(prev.contains(x));
                    let i = choose|i: int| 0 <= i < prev.len() && prev[i] == x;
                    assert(cur[i] == x);
                } else {
                    assert(cur == prev.push(last));
                    assert(cur[prev.len() as int] == x);
                }
            }
        }
    }
}

/// After items with identities of their own have been written, the table
/// holds each of them, and beside them only rows that it held before.
pub proof fn lemma_put_items_hold(rows: Seq<ItemView>, items: Seq<ItemView>, k: nat)
    requires
        item_ids(rows).no_duplicates(),
        item_ids(items).no_duplicates(),
        k <= items.len(),
    ensures
        item_ids(put_items(rows, items, k)).no_duplicates(),
        forall|j: int| 0 <= j < k ==> put_items(rows, items, k).contains(#[trigger] items[j]),
        forall|x: ItemView| #[trigger]
            put_items(rows, items, k).contains(x) ==> rows.contains(x) || exists|j: int|
                0 <= j < k && items[j] == x,
    decreases k,
{
    if k > 0 {
        lemma_put_items_hold(rows, items, (k - 1) as nat);
        let mid = put_items(rows, items, (k - 1) as nat);
        let cur = put_items(rows, items, k);
        let row = items[k - 1];
        lemma_put_item(mid, row);
        assert forall|j: int| 0 <= j < k implies cur.contains(#[trigger] items[j]) by {
            if j < k - 1 {
                assert(mid.contains(items[j]));
                let i = choose|i: int| 0 <= i < mid.len() && mid[i] == items[j];
                assert(item_ids(items)[j] == items[j].id);
                assert(item_ids(items)[k - 1] == row.id);
                assert(mid[i].id != row.id);
                assert(cur[i] == mid[i]);
            } else {
                let i = choose|i: int| 0 <= i < cur.len() && cur[i] == row;
                assert(cur[i] == items[j]);
            }
        }
        assert forall|x: ItemView| #[trigger] cur.contains(x) implies rows.contains(x)
            || exists|j: int| 0 <= j < k && items[j] == x by {
            let i = choose|i: int| 0 <= i < cur.len() && cur[i] == x;
            if cur[i] == row {
                assert(items[k - 1] == x);
            } else {
                assert(cur[i] == mid[i]);
                assert(mid.contains(x));
                if !rows.contains(x) {
                    let j = choose|j: int| 0 <= j < k - 1 && items[j] == x;
                    assert(0 <= j < k && items[j] == x);
                }
            }
        }
    }
}

/// Whether the items of `feed` have identities of their own and name the
/// feed, as the items of every normalized feed do.
pub open spec fn owns_its_items(feed: FeedView) -> bool {
    &&& item_ids(feed.items).no_duplicates()
    &&& forall|i: int| 0 <= i < feed.items.len() ==> (#[trigger] feed.items[i]).feed_id == feed.id
}

/// Whether `got` is the written `feed` read back from a store that was `s`
/// before the write: the same fields, every item of the written feed, and
/// beside those only items that were stored for the feed before.
pub open spec fn is_read_back(got: FeedView, s: StorageView, feed: FeedView) -> bool {
    &&& row_of(got) == row_of(feed)
    &&& forall|k: int| 0 <= k < feed.items.len() ==> got.items.contains(#[trigger] feed.items[k])
    &&& forall|x: ItemView| #[trigger]
        got.items.contains(x) ==> feed.items.contains(x) || s.items_of(feed.id).contains(x)
}

/// What is written can be read back. After a feed that owns its items has
/// been written, the store gives, in every order, a feed with the same
/// fields and with every item of the written feed; an item it gives beside
/// those was stored for the feed before.
pub proof fn lemma_write_then_read(
    s: StorageView,
    feed: FeedView,
    order: SortOrder,
    urls: Seq<Seq<char>>,
)
    requires
        s.wf(),
        owns_its_items(feed),
    ensures
        s.written(feed) is Some,
        exists|i: int|
            0 <= i < sorted_feeds(s.written(feed).unwrap().loaded(), order, urls).len()
                && is_read_back(
                #[trigger] sorted_feeds(s.written(feed).unwrap().loaded(), order, urls)[i],
                s,
                feed,
            ),
{
    lemma_written_when(s, feed);
    let t = s.written(feed).unwrap();
    lemma_written_wf(s, feed);
    lemma_put_feed(s.feeds, row_of(feed));
    let at = choose|i: int| 0 <= i < t.feeds.len() && t.feeds[i] == row_of(feed);
    let loaded = t.loaded();
    let got = loaded[at];
    assert(got == row_of(feed).with_items(t.items_of(feed.id)));
    assert(row_of(got) == row_of(feed));
    lemma_put_items_hold(s.items, feed.items, feed.items.len());
    lemma_items_for(t.items, feed.id, t.items.len());
    lemma_items_for(s.items, feed.id, s.items.len());
    assert forall|k: int| 0 <= k < feed.items.len() implies got.items.contains(
        #[trigger] feed.items[k],
    ) by {
        let x = feed.items[k];
        assert(t.items.contains(x));
        let j = choose|j: int| 0 <= j < t.items.len() && t.items[j] == x;
        assert(x.feed_id == feed.id);
    }
    assert forall|x: ItemView| #[trigger] got.items.contains(x) implies feed.items.contains(x)
        || s.items_of(feed.id).contains(x) by {
        let j = choose|j: int| 0 <= j < t.items.len() && t.items[j] == x;
        assert(t.items.contains(x));
        if s.items.contains(x) {
            let m = choose|m: int| 0 <= m < s.items.len() && s.items[m] == x;
            assert(s.items_of(feed.id).contains(x));
        } else {
            let m = choose|m: int| 0 <= m < feed.items.len() && feed.items[m] == x;
            assert(feed.items.contains(x));
        }
    }
    lemma_sorted_is_permutation(loaded, order, urls);
    let read = sorted_feeds(loaded, order, urls);
    broadcast use vstd::seq_lib::group_to_multiset_ensures;

    assert(loaded.contains(got));
    assert(loaded.to_multiset().count(got) > 0);
    assert(read.to_multiset().count(got) > 0);
    assert(read.contains(got));
    let i = choose|i: int| 0 <= i < read.len() && read[i] == got;
    assert(is_read_back(read[i], s, feed));
}

/// A feed written to a store that holds nothing of it is read back exactly:
/// where no stored item names the feed and none has the identity of one of
/// its items, the store gives the feed as it was written.
pub proof fn lemma_first_write_reads_back(s: StorageView, feed: FeedView)
    requires
        s.wf(),
        owns_its_items(feed),
        !s.has_feed(feed.id),
        forall|k: int| 0 <= k < feed.items.len() ==> !item_ids(s.items).contains(
            #[trigger] feed.items[k].id,
        ),
    ensures
        s.written(feed) is Some,
        s.written(feed).unwrap().loaded().len() == s.feeds.len() + 1,
        s.written(feed).unwrap().loaded().last() == feed,
{
    lemma_written_when(s, feed);
    let t = s.written(feed).unwrap();
    lemma_put_feed(s.feeds, row_of(feed));
    assert(t.feeds == s.feeds.push(row_of(feed)));
    lemma_fresh_items(s.items, feed.items, feed.items.len());
    assert(feed.items.take(feed.items.len() as int) =~= feed.items);
    assert forall|j: int| 0 <= j < s.items.len() implies (#[trigger] s.items[j]).feed_id
        != feed.id by {
        assert(feed_ids(s.feeds).contains(s.items[j].feed_id));
    }
    lemma_items_for_added(s.items, feed.items, feed.id, feed.items.len());
    assert(t.items_of(feed.id) =~= feed.items);
    assert(t.loaded().last() == row_of(feed).with_items(feed.items));
    assert(feed.items =~= feed.items);
}

/// Items whose identities are new to the table are added at its end, in
/// order.
pub proof fn lemma_fresh_items(rows: Seq<ItemView>, items: Seq<ItemView>, k: nat)
    requires
        item_ids(rows).no_duplicates(),
        item_ids(items).no_duplicates(),
        k <= items.len(),
        forall|j: int| 0 <= j < items.len() ==> !item_ids(rows).contains(#[trigger] items[j].id),
    ensures
        put_items(rows, items, k) == rows + items.take(k as int),
    decreases k,
{
    if k == 0 {
        assert(rows + items.take(0) =~= rows);
    } else {
        lemma_fresh_items(rows, items, (k - 1) as nat);
        let mid = put_items(rows, items, (k - 1) as nat);
        let row = items[k - 1];
        assert(mid == rows + items.take(k - 1));
        assert(!item_ids(mid).contains(row.id)) by {
            if item_ids(mid).contains(row.id) {
                let i = choose|i: int| 0 <= i < item_ids(mid).len() && item_ids(mid)[i] == row.id;
                if i < rows.len() {
                    assert(item_ids(rows)[i] == row.id);
                } else {
                    let j = i - rows.len();
                    assert(mid[i] == items[j]);
                    assert(item_ids(items)[j] == row.id);
                    assert(item_ids(items)[k - 1] == row.id);
                }
            }
        }
        item_ids(mid).index_of_first_ensures(row.id);
        assert(put_item(mid, row) == mid.push(row));
        assert(mid.push(row) =~= rows + items.take(k as int));
    }
}

/// The items of a feed among a table that names it nowhere, followed by
/// items that all name it, are those items.
pub proof fn lemma_items_for_added(
    rows: Seq<ItemView>,
    items: Seq<ItemView>,
    id: Seq<char>,
    k: nat,
)
    requires
        k <= items.len(),
        forall|j: int| 0 <= j < rows.len() ==> (#[trigger] rows[j]).feed_id != id,
        forall|j: int| 0 <= j < items.len() ==> (#[trigger] items[j]).feed_id == id,
    ensures
        items_for(rows + items.take(k as int), id, rows.len() + k) == items.take(k as int),
    decreases k,
{
    let all = rows + items.take(k as int);
    if k == 0 {
        assert(all =~= rows);
        lemma_items_for_none(rows, id, rows.len());
        assert(items.take(0) =~= Seq::<ItemView>::empty());
    } else {
        lemma_items_for_added(rows, items, id, (k - 1) as nat);
        let shorter = rows + items.take(k - 1);
        assert(all =~= shorter.push(items[k - 1]));
        lemma_items_for_prefix(all, shorter, id, (rows.len() + k - 1) as nat);
        assert(all[rows.len() + k - 1] == items[k - 1]);
        assert(items.take(k as int) =~= items.take(k - 1).push(items[k - 1]));
    }
}

/// A table that names a feed nowhere holds no items of it.
pub proof fn lemma_items_for_none(rows: Seq<ItemView>, id: Seq<char>, k: nat)
    requires
        k <= rows.len(),
        forall|j: int| 0 <= j < rows.len() ==> (#[trigger] rows[j]).feed_id != id,
    ensures
        items_for(rows, id, k) == Seq::<ItemView>::empty(),
    decreases k,
{
    if k > 0 {
        lemma_items_for_none(rows, id, (k - 1) as nat);
    }
}

/// The items of a feed among the first rows of a table depend on those rows
/// alone.
pub proof fn lemma_items_for_prefix(a: Seq<ItemView>, b: Seq<ItemView>, id: Seq<char>, k: nat)
    requires
        k <= a.len(),
        k <= b.len(),
        forall|j: int| 0 <= j < k ==> a[j] == b[j],
    ensures
        items_for(a, id, k) == items_for(b, id, k),
    decreases k,
{
    if k > 0 {
        lemma_items_for_prefix(a, b, id, (k - 1) as nat);
    }
}

/// A delete takes the items along: once the feeds fetched from an address
/// are deleted, no feed fetched from it is stored, no item that named such
/// a feed is stored, and everything else is stored as before.
pub proof fn lemma_delete_cascades(s: StorageView, url: Seq<char>)
    requires
        s.wf(),
    ensures
        !s.deleted(url).has_url(url),
        forall|i: int, j: int|
            0 <= i < s.feeds.len() && s.feeds[i].url == url && 0 <= j < s.deleted(
                url,
            ).items.len() ==> (#[trigger] s.deleted(url).items[j]).feed_id
                != (#[trigger] s.feeds[i]).id,
        forall|i: int|
            0 <= i < s.feeds.len() && s.feeds[i].url != url ==> s.deleted(url).has_feed(
                #[trigger] s.feeds[i].id,
            ),
        s.deleted(url).wf(),
{
    let d = s.deleted(url);
    lemma_feeds_kept(s.feeds, url, s.feeds.len());
    lemma_items_kept(s.items, s.feeds, url, s.items.len());
    lemma_deleted_wf(s, url);
    assert forall|i: int, j: int|
        0 <= i < s.feeds.len() && s.feeds[i].url == url && 0 <= j < d.items.len() implies (
    #[trigger] d.items[j]).feed_id != (#[trigger] s.feeds[i]).id by {
        assert(!from_url(s.feeds, d.items[j].feed_id, url));
    }
}

/// Deleting by an address from which no stored feed was fetched changes
/// nothing.
pub proof fn lemma_delete_absent_is_noop(s: StorageView, url: Seq<char>)
    requires
        s.wf(),
        !s.has_url(url),
    ensures
        s.deleted(url) == s,
{
    lemma_feeds_kept(s.feeds, url, s.feeds.len());
    lemma_items_kept(s.items, s.feeds, url, s.items.len());
    assert(s.feeds.take(s.feeds.len() as int) =~= s.feeds);
    assert(s.items.take(s.items.len() as int) =~= s.items);
    assert forall|j: int| 0 <= j < s.feeds.len() implies s.feeds[j].url != url by {
        assert(!s.has_url(url));
    }
}

/// Writing a feed whose identity is stored already updates its row in
/// place: the table keeps its length and, place by place, its identities.
pub proof fn lemma_rewrite_in_place(s: StorageView, feed: FeedView)
    requires
        s.wf(),
        s.has_feed(feed.id),
        s.written(feed) is Some,
    ensures
        s.written(feed).unwrap().feeds.len() == s.feeds.len(),
        feed_ids(s.written(feed).unwrap().feeds) == feed_ids(s.feeds),
        feed_ids(s.written(feed).unwrap().feeds).no_duplicates(),
        exists|i: int|
            0 <= i < s.feeds.len() && s.feeds[i].id == feed.id && (#[trigger] s.written(
                feed,
            ).unwrap().feeds[i]) == row_of(feed),
{
    lemma_put_feed(s.feeds, row_of(feed));
    feed_ids(s.feeds).index_of_first_ensures(feed.id);
    let i = feed_ids(s.feeds).index_of_first(feed.id).unwrap();
    assert(s.feeds[i].id == feed.id);
    assert(s.written(feed).unwrap().feeds[i] == row_of(feed));
}

/// A store written under another layout reads as empty once it has been
/// checked, in every order.
pub proof fn lemma_mismatch_reads_empty(
    s: StorageView,
    current: MetadataView,
    order: SortOrder,
    urls: Seq<Seq<char>>,
)
    requires
        !s.is_current(current),
    ensures
        s.checked(current).feeds.len() == 0,
        s.checked(current).items.len() == 0,
        sorted_feeds(s.checked(current).loaded(), order, urls) == Seq::<FeedView>::empty(),
        s.checked(current).is_current(current),
{
    assert(s.checked(current).loaded() =~= Seq::<FeedView>::empty());
}

/// A feed that was read from a document can always be stored: its items
/// all name the feed itself, so that no store refuses it.
pub proof fn lemma_read_feed_is_storable(
    s: StorageView,
    channel: SourceChannelView,
    url: Seq<char>,
    fetched: Option<Seq<char>>,
    feed: FeedView,
)
    requires
        s.wf(),
        is_normalized(channel, url, fetched, feed),
    ensures
        s.written(feed) is Some,
        s.written(feed).unwrap().wf(),
        s.written(feed).unwrap().has_feed(feed_identity(channel)),
{
    let projections = choose|p: Seq<Option<Seq<char>>>|
        projects(channel, p) && feed == #[trigger] normalized_feed(channel, url, fetched, p);
    lemma_items_belong(feed_identity(channel), channel.items, projections, channel.items.len());
    lemma_written_when(s, feed);
    lemma_written_wf(s, feed);
    lemma_put_feed(s.feeds, row_of(feed));
}

} // verus!
