//! The storage engine: a table of feeds and a table of items, each keyed by
//! an identity, and one record that describes the layout of both.

use vstd::prelude::*;
use crate::config::{Config, SortOrder};
use crate::feed::{copy_categories, copy_text, Feed, FeedView, Item, ItemView};
use crate::text::same_text;
use crate::util::{sort_feeds, sorted_feeds};

pub mod laws;

verus! {

/// What a write or a delete did.
#[derive(Debug, Clone, Copy, PartialEq, Eq, Structural)]
pub enum StorageEvent {
    Insert,
    Update,
    Delete,
    NoOp,
}

/// A write that the store refused.
#[derive(Debug, Clone, Copy, PartialEq, Eq, Structural)]
pub struct StorageError;

/// The layout of what feeds and items are stored as. A store written under
/// another layout is not read but emptied.
pub const DUCK_TYPE: &'static str =
    "feed(id,title,description,categories,url,link,ttl,pub_date,last_fetched);item(id,feed_id,title,author,content,description,text_description,categories,link,pub_date)";

/// The record that describes a store: the version of the program that wrote
/// it and the layout it wrote.
#[derive(Debug, PartialEq, Eq)]
pub struct Metadata {
    pub version: String,
    pub duck_type: String,
}

/// What a [`Metadata`] holds.
pub struct MetadataView {
    pub version: Seq<char>,
    pub duck_type: Seq<char>,
}

impl DeepView for Metadata {
    type V = MetadataView;

    open spec fn deep_view(&self) -> MetadataView {
        MetadataView { version: self.version@, duck_type: self.duck_type@ }
    }
}

impl Metadata {
    /// The record that the program of version `version` writes.
    pub fn current(version: &str) -> (r: Metadata)
        ensures
            r.deep_view() == (MetadataView { version: version@, duck_type: DUCK_TYPE@ }),
    {
        Metadata { version: version.to_owned(), duck_type: DUCK_TYPE.to_owned() }
    }

    /// Whether two records describe the same layout, whatever version wrote
    /// them.
    pub fn same_layout(&self, other: &Metadata) -> (r: bool)
        ensures
            r == (self.duck_type@ == other.duck_type@),
    {
        same_text(self.duck_type.as_str(), other.duck_type.as_str())
    }
}

/// What a store holds: the rows of the feed table, none of which carries
/// items, the rows of the item table, and the record of the layout.
pub struct StorageView {
    pub feeds: Seq<FeedView>,
    pub items: Seq<ItemView>,
    pub meta: Option<MetadataView>,
}

/// The identities of the feed rows, row by row.
pub open spec fn feed_ids(rows: Seq<FeedView>) -> Seq<Seq<char>> {
    Seq::new(rows.len(), |i: int| rows[i].id)
}

/// The identities of the item rows, row by row.
pub open spec fn item_ids(rows: Seq<ItemView>) -> Seq<Seq<char>> {
    Seq::new(rows.len(), |i: int| rows[i].id)
}

/// The row that a feed is stored as: the feed without its items.
pub open spec fn row_of(feed: FeedView) -> FeedView {
    feed.with_items(Seq::empty())
}

/// The feed table after `row` has been written: in the place of the row
/// with the same identity where there is one, at the end otherwise.
pub open spec fn put_feed(rows: Seq<FeedView>, row: FeedView) -> Seq<FeedView> {
    match feed_ids(rows).index_of_first(row.id) {
        Some(i) => rows.update(i, row),
        None => rows.push(row),
    }
}

/// The item table after `row` has been written: in the place of the row
/// with the same identity where there is one, at the end otherwise.
pub open spec fn put_item(rows: Seq<ItemView>, row: ItemView) -> Seq<ItemView> {
    match item_ids(rows).index_of_first(row.id) {
        Some(i) => rows.update(i, row),
        None => rows.push(row),
    }
}

/// The item table after the first `k` of `items` have been written, one
/// after the other.
pub open spec fn put_items(rows: Seq<ItemView>, items: Seq<ItemView>, k: nat) -> Seq<ItemView>
    decreases k,
{
    if k == 0 || k > items.len() {
        rows
    } else {
        put_item(put_items(rows, items, (k - 1) as nat), items[k - 1])
    }
}

/// Whether each of `items` names a feed that `feeds` holds.
pub open spec fn items_fit(feeds: Seq<FeedView>, items: Seq<ItemView>) -> bool {
    forall|i: int| 0 <= i < items.len() ==> feed_ids(feeds).contains(#[trigger] items[i].feed_id)
}

/// Those of the first `k` of `items` that belong to the feed `id`, in
/// order.
pub open spec fn items_for(items: Seq<ItemView>, id: Seq<char>, k: nat) -> Seq<ItemView>
    decreases k,
{
    if k == 0 || k > items.len() {
        Seq::empty()
    } else if items[k - 1].feed_id == id {
        items_for(items, id, (k - 1) as nat).push(items[k - 1])
    } else {
        items_for(items, id, (k - 1) as nat)
    }
}

/// Whether one of `feeds` has the identity `id` and was fetched from `url`.
pub open spec fn from_url(feeds: Seq<FeedView>, id: Seq<char>, url: Seq<char>) -> bool {
    exists|i: int| 0 <= i < feeds.len() && (#[trigger] feeds[i]).id == id && feeds[i].url == url
}

/// Those of the first `k` of `feeds` that were not fetched from `url`, in
/// order.
pub open spec fn feeds_kept(feeds: Seq<FeedView>, url: Seq<char>, k: nat) -> Seq<FeedView>
    decreases k,
{
    if k == 0 || k > feeds.len() {
        Seq::empty()
    } else if feeds[k - 1].url != url {
        feeds_kept(feeds, url, (k - 1) as nat).push(feeds[k - 1])
    } else {
        feeds_kept(feeds, url, (k - 1) as nat)
    }
}

/// Those of the first `k` of `items` that name no feed fetched from `url`,
/// in order.
pub open spec fn items_kept(
    items: Seq<ItemView>,
    feeds: Seq<FeedView>,
    url: Seq<char>,
    k: nat,
) -> Seq<ItemView>
    decreases k,
{
    if k == 0 || k > items.len() {
        Seq::empty()
    } else if !from_url(feeds, items[k - 1].feed_id, url) {
        items_kept(items, feeds, url, (k - 1) as nat).push(items[k - 1])
    } else {
        items_kept(items, feeds, url, (k - 1) as nat)
    }
}

/// The feed table after the rows of the first `k` of `feeds` have been
/// written, one after the other.
pub open spec fn put_feeds(rows: Seq<FeedView>, feeds: Seq<FeedView>, k: nat) -> Seq<FeedView>
    decreases k,
{
    if k == 0 || k > feeds.len() {
        rows
    } else {
        put_feed(put_feeds(rows, feeds, (k - 1) as nat), row_of(feeds[k - 1]))
    }
}

/// The item table after those of the first `k` of `items` that name one of
/// `feeds` have been written, one after the other.
pub open spec fn put_fitting(
    rows: Seq<ItemView>,
    feeds: Seq<FeedView>,
    items: Seq<ItemView>,
    k: nat,
) -> Seq<ItemView>
    decreases k,
{
    if k == 0 || k > items.len() {
        rows
    } else if feed_ids(feeds).contains(items[k - 1].feed_id) {
        put_item(put_fitting(rows, feeds, items, (k - 1) as nat), items[k - 1])
    } else {
        put_fitting(rows, feeds, items, (k - 1) as nat)
    }
}

impl StorageView {
    /// No identity occurs twice in a table, every item names a stored
    /// feed, and no feed row carries items.
    pub open spec fn wf(self) -> bool {
        &&& feed_ids(self.feeds).no_duplicates()
        &&& item_ids(self.items).no_duplicates()
        &&& items_fit(self.feeds, self.items)
        &&& forall|i: int| 0 <= i < self.feeds.len() ==> (#[trigger] self.feeds[i]).items.len() == 0
    }

    /// Whether a feed with the identity `id` is stored.
    pub open spec fn has_feed(self, id: Seq<char>) -> bool {
        feed_ids(self.feeds).contains(id)
    }

    /// The stored items of the feed `id`, in table order.
    pub open spec fn items_of(self, id: Seq<char>) -> Seq<ItemView> {
        items_for(self.items, id, self.items.len())
    }

    /// The stored feeds, each with its stored items, in table order.
    pub open spec fn loaded(self) -> Seq<FeedView> {
        Seq::new(self.feeds.len(), |i: int| self.feeds[i].with_items(self.items_of(self.feeds[i].id)))
    }

    /// The store after `feed` has been written: its row put into the feed
    /// table and its items into the item table; `None` where one of its
    /// items names a feed that would not be stored.
    pub open spec fn written(self, feed: FeedView) -> Option<StorageView> {
        let feeds = put_feed(self.feeds, row_of(feed));
        if items_fit(feeds, feed.items) {
            Some(
                StorageView {
                    feeds,
                    items: put_items(self.items, feed.items, feed.items.len()),
                    meta: self.meta,
                },
            )
        } else {
            None
        }
    }

    /// What writing `feed` does where it succeeds: an update where its
    /// identity is stored already, an insert otherwise.
    pub open spec fn write_event(self, feed: FeedView) -> StorageEvent {
        if self.has_feed(feed.id) {
            StorageEvent::Update
        } else {
            StorageEvent::Insert
        }
    }

    /// The store after the first `k` of `feeds` have been written, one
    /// after the other; `None` where one of the writes is refused.
    pub open spec fn written_all(self, feeds: Seq<FeedView>, k: nat) -> Option<StorageView>
        decreases k,
    {
        if k == 0 || k > feeds.len() {
            Some(self)
        } else {
            match self.written_all(feeds, (k - 1) as nat) {
                Some(mid) => mid.written(feeds[k - 1]),
                None => None,
            }
        }
    }

    /// What the first `k` writes of a batch did, write by write.
    pub open spec fn write_events(self, feeds: Seq<FeedView>, k: nat) -> Seq<StorageEvent>
        decreases k,
    {
        if k == 0 || k > feeds.len() {
            Seq::empty()
        } else {
            match self.written_all(feeds, (k - 1) as nat) {
                Some(mid) => self.write_events(feeds, (k - 1) as nat).push(
                    mid.write_event(feeds[k - 1]),
                ),
                None => self.write_events(feeds, (k - 1) as nat),
            }
        }
    }

    /// Whether a stored feed was fetched from `url`.
    pub open spec fn has_url(self, url: Seq<char>) -> bool {
        exists|i: int| 0 <= i < self.feeds.len() && (#[trigger] self.feeds[i]).url == url
    }

    /// The store after every feed fetched from `url` has been deleted, and
    /// with it every item that names such a feed.
    pub open spec fn deleted(self, url: Seq<char>) -> StorageView {
        StorageView {
            feeds: feeds_kept(self.feeds, url, self.feeds.len()),
            items: items_kept(self.items, self.feeds, url, self.items.len()),
            meta: self.meta,
        }
    }

    /// What deleting by `url` does: a delete where a feed was fetched from
    /// it, nothing otherwise.
    pub open spec fn delete_event(self, url: Seq<char>) -> StorageEvent {
        if self.has_url(url) {
            StorageEvent::Delete
        } else {
            StorageEvent::NoOp
        }
    }

    /// The store that persisted rows give: the feed rows written one after
    /// the other, then the item rows that name one of them.
    pub open spec fn restored(
        feeds: Seq<FeedView>,
        items: Seq<ItemView>,
        meta: Option<MetadataView>,
    ) -> StorageView {
        let rows = put_feeds(Seq::empty(), feeds, feeds.len());
        StorageView { feeds: rows, items: put_fitting(Seq::empty(), rows, items, items.len()), meta }
    }

    /// The empty store that records the layout `current`.
    pub open spec fn migrated(current: MetadataView) -> StorageView {
        StorageView { feeds: Seq::empty(), items: Seq::empty(), meta: Some(current) }
    }

    /// Whether the store was written under the layout of `current`.
    pub open spec fn is_current(self, current: MetadataView) -> bool {
        self.meta is Some && self.meta.unwrap().duck_type == current.duck_type
    }

    /// The store after the check at start-up: itself where it was written
    /// under the layout of `current`, emptied otherwise.
    pub open spec fn checked(self, current: MetadataView) -> StorageView {
        if self.is_current(current) {
            self
        } else {
            StorageView::migrated(current)
        }
    }
}

/// An index that holds `key`, with none before it that does, is the first
/// index of `key`.
pub proof fn lemma_first_index(keys: Seq<Seq<char>>, key: Seq<char>, at: int)
    requires
        0 <= at < keys.len(),
        keys[at] == key,
        forall|k: int| 0 <= k < at ==> keys[k] != key,
    ensures
        keys.index_of_first(key) == Some(at),
        keys.contains(key),
{
    keys.index_of_first_ensures(key);
    assert(keys.contains(key));
    let first = keys.index_of_first(key).unwrap();
    if first < at {
        assert(keys[first] != key);
    }
}

/// A key that no index holds has no first index.
pub proof fn lemma_no_index(keys: Seq<Seq<char>>, key: Seq<char>)
    requires
        forall|k: int| 0 <= k < keys.len() ==> keys[k] != key,
    ensures
        keys.index_of_first(key) is None,
        !keys.contains(key),
{
    keys.index_of_first_ensures(key);
}

/// The index of the feed row with the identity `id`.
fn find_feed(rows: &Vec<Feed>, id: &str) -> (r: Option<usize>)
    ensures
        match r {
            Some(i) => i < rows.len() && feed_ids(rows.deep_view()).index_of_first(id@) == Some(
                i as int,
            ),
            None => feed_ids(rows.deep_view()).index_of_first(id@) is None,
        },
        r.is_some() == feed_ids(rows.deep_view()).contains(id@),
{
    let ghost keys = feed_ids(rows.deep_view());
    let mut i: usize = 0;
    while i < rows.len()
        invariant
            i <= rows.len(),
            keys == feed_ids(rows.deep_view()),
            keys.len() == rows.len(),
            forall|k: int| 0 <= k < i ==> keys[k] != id@,
        decreases rows.len() - i,
    {
        if same_text(rows[i].id.as_str(), id) {
            proof {
                assert(keys[i as int] == rows[i as int]@.id);
                lemma_first_index(keys, id@, i as int);
            }
            return Some(i);
        }
        assert(keys[i as int] == rows[i as int]@.id);
        i += 1;
    }
    proof {
        lemma_no_index(keys, id@);
    }
    None
}

/// The index of the item row with the identity `id`.
fn find_item(rows: &Vec<Item>, id: &str) -> (r: Option<usize>)
    ensures
        match r {
            Some(i) => i < rows.len() && item_ids(rows.deep_view()).index_of_first(id@) == Some(
                i as int,
            ),
            None => item_ids(rows.deep_view()).index_of_first(id@) is None,
        },
        r.is_some() == item_ids(rows.deep_view()).contains(id@),
{
    let ghost keys = item_ids(rows.deep_view());
    let mut i: usize = 0;
    while i < rows.len()
        invariant
            i <= rows.len(),
            keys == item_ids(rows.deep_view()),
            keys.len() == rows.len(),
            forall|k: int| 0 <= k < i ==> keys[k] != id@,
        decreases rows.len() - i,
    {
        if same_text(rows[i].id.as_str(), id) {
            proof {
                assert(keys[i as int] == rows[i as int]@.id);
                lemma_first_index(keys, id@, i as int);
            }
            return Some(i);
        }
        assert(keys[i as int] == rows[i as int]@.id);
        i += 1;
    }
    proof {
        lemma_no_index(keys, id@);
    }
    None
}

/// The row that `feed` is stored as.
fn feed_row(feed: &Feed) -> (row: Feed)
    ensures
        row@ == row_of(feed@),
{
    let row = Feed {
        id: feed.id.clone(),
        title: feed.title.clone(),
        description: feed.description.clone(),
        categories: copy_categories(&feed.categories),
        url: feed.url.clone(),
        link: feed.link.clone(),
        ttl: copy_text(&feed.ttl),
        items: Vec::new(),
        pub_date: copy_text(&feed.pub_date),
        last_fetched: copy_text(&feed.last_fetched),
    };
    assert(row.items.deep_view() =~= Seq::<ItemView>::empty());
    row
}

/// Writes `row` into the feed table: in the place of the row with the same
/// identity where there is one, at the end otherwise. Says whether there was
/// one.
fn put_feed_row(rows: &mut Vec<Feed>, row: Feed) -> (existed: bool)
    ensures
        final(rows).deep_view() == put_feed(old(rows).deep_view(), row@),
        existed == feed_ids(old(rows).deep_view()).contains(row@.id),
{
    let ghost before = rows.deep_view();
    match find_feed(rows, row.id.as_str()) {
        Some(i) => {
            rows.set(i, row);
            assert(rows.deep_view() =~= before.update(i as int, row@));
            true
        },
        None => {
            rows.push(row);
            assert(rows.deep_view() =~= before.push(row@));
            false
        },
    }
}

/// Writes `row` into the item table: in the place of the row with the same
/// identity where there is one, at the end otherwise.
fn put_item_row(rows: &mut Vec<Item>, row: Item) -> (existed: bool)
    ensures
        final(rows).deep_view() == put_item(old(rows).deep_view(), row@),
        existed == item_ids(old(rows).deep_view()).contains(row@.id),
{
    let ghost before = rows.deep_view();
    match find_item(rows, row.id.as_str()) {
        Some(i) => {
            rows.set(i, row);
            assert(rows.deep_view() =~= before.update(i as int, row@));
            true
        },
        None => {
            rows.push(row);
            assert(rows.deep_view() =~= before.push(row@));
            false
        },
    }
}

/// Whether each of `items` names the feed `id` or one of `feeds`.
fn items_name_feeds(feeds: &Vec<Feed>, id: &str, items: &Vec<Item>) -> (r: bool)
    ensures
        r == (forall|i: int|
            0 <= i < items.len() ==> (#[trigger] items.deep_view()[i]).feed_id == id@ || feed_ids(
                feeds.deep_view(),
            ).contains(items.deep_view()[i].feed_id)),
{
    let mut i: usize = 0;
    while i < items.len()
        invariant
            i <= items.len(),
            forall|k: int|
                0 <= k < i ==> (#[trigger] items.deep_view()[k]).feed_id == id@ || feed_ids(
                    feeds.deep_view(),
                ).contains(items.deep_view()[k].feed_id),
        decreases items.len() - i,
    {
        let item = &items[i];
        assert(items.deep_view()[i as int] == item@);
        if !same_text(item.feed_id.as_str(), id) && find_feed(
            feeds,
            item.feed_id.as_str(),
        ).is_none() {
            return false;
        }
        i += 1;
    }
    true
}

/// The store: a table of feeds, a table of items, and the record of the
/// layout they were written under.
#[derive(Debug)]
pub struct Storage {
    feeds: Vec<Feed>,
    items: Vec<Item>,
    meta: Option<Metadata>,
}

impl View for Storage {
    type V = StorageView;

    closed spec fn view(&self) -> StorageView {
        StorageView {
            feeds: self.feeds.deep_view(),
            items: self.items.deep_view(),
            meta: self.meta.deep_view(),
        }
    }
}

impl Storage {
    #[verifier::type_invariant]
    spec fn inv(&self) -> bool {
        self@.wf()
    }

    /// A store that holds nothing and records no layout.
    fn blank() -> (r: Storage)
        ensures
            r@ == (StorageView { feeds: Seq::empty(), items: Seq::empty(), meta: None }),
    {
        let feeds: Vec<Feed> = Vec::new();
        let items: Vec<Item> = Vec::new();
        proof {
            assert(feeds.deep_view() =~= Seq::<FeedView>::empty());
            assert(items.deep_view() =~= Seq::<ItemView>::empty());
            assert(feed_ids(feeds.deep_view()) =~= Seq::<Seq<char>>::empty());
            assert(item_ids(items.deep_view()) =~= Seq::<Seq<char>>::empty());
        }
        Storage { feeds, items, meta: None }
    }

    /// A fresh store in memory: it holds nothing and records the layout of
    /// the program of version `version`.
    pub fn init(version: &str) -> (r: Storage)
        ensures
            r@ == StorageView::migrated(
                MetadataView { version: version@, duck_type: DUCK_TYPE@ },
            ),
            r@.wf(),
    {
        let feeds: Vec<Feed> = Vec::new();
        let items: Vec<Item> = Vec::new();
        proof {
            assert(feeds.deep_view() =~= Seq::<FeedView>::empty());
            assert(items.deep_view() =~= Seq::<ItemView>::empty());
            assert(feed_ids(feeds.deep_view()) =~= Seq::<Seq<char>>::empty());
            assert(item_ids(items.deep_view()) =~= Seq::<Seq<char>>::empty());
        }
        Storage { feeds, items, meta: Some(Metadata::current(version)) }
    }

    /// Opens the store over rows that were persisted earlier, under the
    /// record `meta` that was persisted with them, for the program of
    /// version `version`. The feed rows are written one after the other,
    /// then the item rows that name one of them; and before anything can be
    /// read or written the layout is checked: rows written under another
    /// layout than the current one, or under none, are dropped, and the
    /// store records the current layout. Says, beside the store, whether
    /// the rows were dropped, so that the caller can drop what it persisted.
    pub fn restore(
        feeds: Vec<Feed>,
        items: Vec<Item>,
        meta: Option<Metadata>,
        version: &str,
    ) -> (r: (Storage, bool))
        ensures
            ({
                let current = MetadataView { version: version@, duck_type: DUCK_TYPE@ };
                let rows = StorageView::restored(
                    feeds.deep_view(),
                    items.deep_view(),
                    meta.deep_view(),
                );
                &&& r.0@ == rows.checked(current)
                &&& r.1 == !rows.is_current(current)
                &&& r.0@.wf()
                &&& r.0@.is_current(current)
            }),
    {
        let mut storage = Storage::from_rows(feeds, items, meta);
        let migrated = storage.check_migration(&Metadata::current(version));
        (storage, migrated)
    }

    /// The store that rows give, before its layout has been checked.
    fn from_rows(feeds: Vec<Feed>, items: Vec<Item>, meta: Option<Metadata>) -> (r: Storage)
        ensures
            r@ == StorageView::restored(feeds.deep_view(), items.deep_view(), meta.deep_view()),
            r@.wf(),
    {
        let ghost feed_views = feeds.deep_view();
        let ghost item_views = items.deep_view();
        let mut rows: Vec<Feed> = Vec::new();
        assert(rows.deep_view() =~= Seq::<FeedView>::empty());
        let mut i: usize = 0;
        while i < feeds.len()
            invariant
                i <= feeds.len(),
                feed_views == feeds.deep_view(),
                rows.deep_view() == put_feeds(Seq::empty(), feed_views, i as nat),
            decreases feeds.len() - i,
        {
            let row = feed_row(&feeds[i]);
            put_feed_row(&mut rows, row);
            i += 1;
        }
        let mut kept: Vec<Item> = Vec::new();
        assert(kept.deep_view() =~= Seq::<ItemView>::empty());
        let mut j: usize = 0;
        while j < items.len()
            invariant
                j <= items.len(),
                item_views == items.deep_view(),
                kept.deep_view() == put_fitting(
                    Seq::empty(),
                    rows.deep_view(),
                    item_views,
                    j as nat,
                ),
            decreases items.len() - j,
        {
            if find_feed(&rows, items[j].feed_id.as_str()).is_some() {
                put_item_row(&mut kept, items[j].clone());
            }
            j += 1;
        }
        proof {
            laws::lemma_restored_wf(feed_views, item_views, meta.deep_view());
        }
        Storage { feeds: rows, items: kept, meta }
    }

    /// Empties the store and records the layout of `current`.
    pub fn migrate_db(&mut self, current: &Metadata)
        ensures
            final(self)@ == StorageView::migrated(current.deep_view()),
            final(self)@.wf(),
    {
        let feeds: Vec<Feed> = Vec::new();
        let items: Vec<Item> = Vec::new();
        proof {
            assert(feeds.deep_view() =~= Seq::<FeedView>::empty());
            assert(items.deep_view() =~= Seq::<ItemView>::empty());
            assert(feed_ids(feeds.deep_view()) =~= Seq::<Seq<char>>::empty());
            assert(item_ids(items.deep_view()) =~= Seq::<Seq<char>>::empty());
        }
        *self = Storage {
            feeds,
            items,
            meta: Some(
                Metadata {
                    version: current.version.clone(),
                    duck_type: current.duck_type.clone(),
                },
            ),
        };
    }

    /// The check at start-up: a store written under another layout than
    /// that of `current`, or under none, is emptied and records `current`;
    /// any other is left as it is. Says whether the store was emptied.
    pub fn check_migration(&mut self, current: &Metadata) -> (migrated: bool)
        ensures
            final(self)@ == old(self)@.checked(current.deep_view()),
            migrated == !old(self)@.is_current(current.deep_view()),
            final(self)@.wf(),
    {
        proof {
            use_type_invariant(&*self);
        }
        let keep = match &self.meta {
            Some(existing) => existing.same_layout(current),
            None => false,
        };
        if keep {
            false
        } else {
            self.migrate_db(current);
            true
        }
    }

    /// The stored items of the feed `id`, in table order. Never fails.
    pub fn read_items_for_feed_id(&self, id: &str) -> (r: Result<Vec<Item>, StorageError>)
        ensures
            r is Ok,
            r.unwrap().deep_view() == self@.items_of(id@),
    {
        let ghost rows = self.items.deep_view();
        let mut out: Vec<Item> = Vec::new();
        assert(out.deep_view() =~= Seq::<ItemView>::empty());
        let mut i: usize = 0;
        while i < self.items.len()
            invariant
                i <= self.items.len(),
                rows == self.items.deep_view(),
                out.deep_view() == items_for(rows, id@, i as nat),
            decreases self.items.len() - i,
        {
            let ghost before = out.deep_view();
            if same_text(self.items[i].feed_id.as_str(), id) {
                let item = self.items[i].clone();
                out.push(item);
                assert(out.deep_view() =~= before.push(rows[i as int]));
            }
            i += 1;
        }
        Ok(out)
    }

    /// The stored feeds, each with its stored items, before any ordering.
    fn load(&self) -> (r: Vec<Feed>)
        ensures
            r.deep_view() == self@.loaded(),
    {
        let ghost rows = self.feeds.deep_view();
        let mut out: Vec<Feed> = Vec::new();
        let mut i: usize = 0;
        while i < self.feeds.len()
            invariant
                i <= self.feeds.len(),
                rows == self.feeds.deep_view(),
                out.len() == i,
                forall|k: int| 0 <= k < i ==> (#[trigger] out[k])@ == self@.loaded()[k],
            decreases self.feeds.len() - i,
        {
            let row = &self.feeds[i];
            match self.read_items_for_feed_id(row.id.as_str()) {
                Ok(items) => {
                    let feed = row.clone().with_items(items);
                    out.push(feed);
                },
                Err(_) => {
                    out.push(row.clone());
                },
            }
            i += 1;
        }
        assert(out.deep_view() =~= self@.loaded());
        out
    }

    /// The stored feeds, each with its stored items, in the configured
    /// order. Never fails. The order `Unread` is not implemented and must
    /// not be configured when this is called.
    pub fn read_all(&self, config: &Config) -> (r: Result<Vec<Feed>, StorageError>)
        requires
            config.order() != SortOrder::Unread,
        ensures
            r is Ok,
            r.unwrap().deep_view() == sorted_feeds(self@.loaded(), config.order(), config.urls()),
    {
        let mut feeds = self.load();
        sort_feeds(&mut feeds, config);
        Ok(feeds)
    }

    /// Writes one item: in the place of the stored item with the same
    /// identity where there is one, at the end of the table otherwise.
    /// Refused, with nothing written, exactly where the item names a feed
    /// that is not stored.
    pub fn write_item(&mut self, item: &Item) -> (r: Result<StorageEvent, StorageError>)
        ensures
            match r {
                Ok(event) => {
                    &&& old(self)@.has_feed(item@.feed_id)
                    &&& final(self)@ == (StorageView {
                        items: put_item(old(self)@.items, item@),
                        ..old(self)@
                    })
                    &&& event == (if item_ids(old(self)@.items).contains(item@.id) {
                        StorageEvent::Update
                    } else {
                        StorageEvent::Insert
                    })
                },
                Err(_) => !old(self)@.has_feed(item@.feed_id) && final(self)@ == old(self)@,
            },
            final(self)@.wf(),
    {
        proof {
            use_type_invariant(&*self);
        }
        if find_feed(&self.feeds, item.feed_id.as_str()).is_none() {
            return Err(StorageError);
        }
        let mut local = Storage::blank();
        std::mem::swap(self, &mut local);
        let Storage { feeds, items, meta } = local;
        let mut items = items;
        proof {
            laws::lemma_put_item(items.deep_view(), item@);
            laws::lemma_fit_put_item(feeds.deep_view(), items.deep_view(), item@);
        }
        let existed = put_item_row(&mut items, item.clone());
        *self = Storage { feeds, items, meta };
        if existed {
            Ok(StorageEvent::Update)
        } else {
            Ok(StorageEvent::Insert)
        }
    }

    /// Writes one feed with its items: the feed's row in the place of the
    /// stored row with the same identity where there is one, at the end of
    /// the table otherwise, and each item likewise. All of it or nothing:
    /// the write is refused, with nothing written, exactly where one of the
    /// items names a feed that is neither this one nor stored.
    pub fn write_feed(&mut self, feed: &Feed) -> (r: Result<StorageEvent, StorageError>)
        ensures
            match r {
                Ok(event) => {
                    &&& old(self)@.written(feed@) == Some(final(self)@)
                    &&& event == old(self)@.write_event(feed@)
                },
                Err(_) => old(self)@.written(feed@) is None && final(self)@ == old(self)@,
            },
            final(self)@.wf(),
    {
        proof {
            use_type_invariant(&*self);
            laws::lemma_written_when(self@, feed@);
        }
        if !items_name_feeds(&self.feeds, feed.id.as_str(), &feed.items) {
            return Err(StorageError);
        }
        let ghost before = self@;
        let mut local = Storage::blank();
        std::mem::swap(self, &mut local);
        let Storage { feeds, items, meta } = local;
        let mut feeds = feeds;
        let mut items = items;
        let existed = put_feed_row(&mut feeds, feed_row(feed));
        let ghost stored = items.deep_view();
        let ghost new = feed.items.deep_view();
        let mut i: usize = 0;
        while i < feed.items.len()
            invariant
                i <= feed.items.len(),
                new == feed.items.deep_view(),
                items.deep_view() == put_items(stored, new, i as nat),
            decreases feed.items.len() - i,
        {
            put_item_row(&mut items, feed.items[i].clone());
            i += 1;
        }
        proof {
            laws::lemma_written_wf(before, feed@);
        }
        *self = Storage { feeds, items, meta };
        if existed {
            Ok(StorageEvent::Update)
        } else {
            Ok(StorageEvent::Insert)
        }
    }

    /// Writes a batch of feeds, one after the other, all of them or none:
    /// where one write is refused the store is left as it was before the
    /// first.
    pub fn write_feeds(&mut self, feeds: &Vec<Feed>) -> (r: Result<Vec<StorageEvent>, StorageError>)
        ensures
            match r {
                Ok(events) => {
                    &&& old(self)@.written_all(feeds.deep_view(), feeds.len() as nat) == Some(
                        final(self)@,
                    )
                    &&& events@ == old(self)@.write_events(feeds.deep_view(), feeds.len() as nat)
                },
                Err(_) => {
                    &&& old(self)@.written_all(feeds.deep_view(), feeds.len() as nat) is None
                    &&& final(self)@ == old(self)@
                },
            },
            final(self)@.wf(),
    {
        proof {
            use_type_invariant(&*self);
        }
        let ghost before = self@;
        let ghost batch = feeds.deep_view();
        let mut work = Storage {
            feeds: crate::feed::copy_feeds(&self.feeds),
            items: crate::feed::copy_items(&self.items),
            meta: match &self.meta {
                Some(m) => Some(
                    Metadata { version: m.version.clone(), duck_type: m.duck_type.clone() },
                ),
                None => None,
            },
        };
        assert(work@ == before);
        let mut events: Vec<StorageEvent> = Vec::new();
        let mut i: usize = 0;
        while i < feeds.len()
            invariant
                i <= feeds.len(),
                batch == feeds.deep_view(),
                before.written_all(batch, i as nat) == Some(work@),
                events@ == before.write_events(batch, i as nat),
                self@ == before,
                before.wf(),
            decreases feeds.len() - i,
        {
            match work.write_feed(&feeds[i]) {
                Ok(event) => {
                    events.push(event);
                },
                Err(_) => {
                    proof {
                        lemma_refused_stays(before, batch, (i + 1) as nat, feeds.len() as nat);
                    }
                    return Err(StorageError);
                },
            }
            i += 1;
        }
        proof {
            use_type_invariant(&work);
        }
        *self = work;
        Ok(events)
    }

    /// Deletes every feed fetched from `url`, and with it every item that
    /// names such a feed. Where no feed was fetched from `url` nothing
    /// changes and nothing fails.
    pub fn delete_feed_with_url(&mut self, url: &str) -> (r: Result<StorageEvent, StorageError>)
        ensures
            r == Ok::<StorageEvent, StorageError>(old(self)@.delete_event(url@)),
            final(self)@ == old(self)@.deleted(url@),
            final(self)@.wf(),
    {
        proof {
            use_type_invariant(&*self);
        }
        let ghost before = self@;
        let mut local = Storage::blank();
        std::mem::swap(self, &mut local);
        let Storage { feeds, items, meta } = local;
        let ghost old_feeds = feeds.deep_view();
        let ghost old_items = items.deep_view();

        let mut kept_feeds: Vec<Feed> = Vec::new();
        assert(kept_feeds.deep_view() =~= Seq::<FeedView>::empty());
        let mut found = false;
        let mut i: usize = 0;
        while i < feeds.len()
            invariant
                i <= feeds.len(),
                old_feeds == feeds.deep_view(),
                kept_feeds.deep_view() == feeds_kept(old_feeds, url@, i as nat),
                found == (exists|k: int| 0 <= k < i && (#[trigger] old_feeds[k]).url == url@),
            decreases feeds.len() - i,
        {
            let ghost so_far = kept_feeds.deep_view();
            assert(old_feeds[i as int] == feeds[i as int]@);
            if same_text(feeds[i].url.as_str(), url) {
                found = true;
            } else {
                kept_feeds.push(feeds[i].clone());
                assert(kept_feeds.deep_view() =~= so_far.push(old_feeds[i as int]));
            }
            i += 1;
        }
        let mut kept_items: Vec<Item> = Vec::new();
        assert(kept_items.deep_view() =~= Seq::<ItemView>::empty());
        let mut j: usize = 0;
        while j < items.len()
            invariant
                j <= items.len(),
                old_items == items.deep_view(),
                old_feeds == feeds.deep_view(),
                kept_items.deep_view() == items_kept(old_items, old_feeds, url@, j as nat),
            decreases items.len() - j,
        {
            let ghost so_far = kept_items.deep_view();
            assert(old_items[j as int] == items[j as int]@);
            if !names_feed_from(&feeds, items[j].feed_id.as_str(), url) {
                kept_items.push(items[j].clone());
                assert(kept_items.deep_view() =~= so_far.push(old_items[j as int]));
            }
            j += 1;
        }
        proof {
            laws::lemma_deleted_wf(before, url@);
        }
        *self = Storage { feeds: kept_feeds, items: kept_items, meta };
        if found {
            Ok(StorageEvent::Delete)
        } else {
            Ok(StorageEvent::NoOp)
        }
    }
}

/// Whether one of `feeds` has the identity `id` and was fetched from `url`.
fn names_feed_from(feeds: &Vec<Feed>, id: &str, url: &str) -> (r: bool)
    ensures
        r == from_url(feeds.deep_view(), id@, url@),
{
    let ghost rows = feeds.deep_view();
    let mut i: usize = 0;
    while i < feeds.len()
        invariant
            i <= feeds.len(),
            rows == feeds.deep_view(),
            forall|k: int| 0 <= k < i ==> !((#[trigger] rows[k]).id == id@ && rows[k].url == url@),
        decreases feeds.len() - i,
    {
        assert(rows[i as int] == feeds[i as int]@);
        if same_text(feeds[i].id.as_str(), id) && same_text(feeds[i].url.as_str(), url) {
            return true;
        }
        i += 1;
    }
    false
}

/// Once a write of a batch is refused, the batch is refused.
pub proof fn lemma_refused_stays(s: StorageView, feeds: Seq<FeedView>, k: nat, n: nat)
    requires
        0 < k <= n <= feeds.len(),
        s.written_all(feeds, k) is None,
    ensures
        s.written_all(feeds, n) is None,
    decreases n - k,
{
    if k < n {
        lemma_refused_stays(s, feeds, k, (n - 1) as nat);
    }
}

} // verus!
