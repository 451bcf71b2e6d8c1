//! From a document as it states itself to the domain model: identities are
//! derived in a fixed order of preference, the author is the first that is
//! not empty along a chain of fields, and descriptions get their plain-text
//! projection.

use vstd::prelude::*;
use crate::feed::html::{parse_html, plain_text};
use crate::feed::source::{
    current_time, normalize_rfc2822, parsed_channel, read_channel, rfc2822_normal_form,
    SourceChannel, SourceChannelView, SourceItem, SourceItemView,
};
use crate::feed::{copy_categories, copy_text, Feed, FeedView, Item, ItemView};
use crate::text::{join, joined, push_char, push_text};

verus! {

/// Why a document, or one of its items, has no place in the model.
#[derive(Debug, Clone, Copy, PartialEq, Eq, Structural)]
pub enum ParseError {
    /// The bytes are no syndication document.
    Document,
    /// An item has no identifier, no link and no title to derive an
    /// identity from.
    Identity,
    /// The clock gives no time that can be recorded as the time of
    /// fetching.
    Clock,
}

/// The separator between the creators of an item: a comma and a space.
pub open spec fn creator_separator() -> Seq<char> {
    seq![',', ' ']
}

/// The identity of a feed: the first identifier the document provides,
/// otherwise the link of the channel.
pub open spec fn feed_identity(channel: SourceChannelView) -> Seq<char> {
    if channel.identifiers.len() > 0 {
        channel.identifiers[0]
    } else {
        channel.link
    }
}

/// `feed_id`, a colon and `rest`.
pub open spec fn synthesized(feed_id: Seq<char>, rest: Seq<char>) -> Seq<char> {
    feed_id + seq![':'] + rest
}

/// The identity of an item of the feed `feed_id`, in order of preference:
/// the unique identifier where it is flagged as a permanent link; the first
/// identifier the document provides; the feed's identity with the item's
/// link; the feed's identity with the item's title. An item with none of
/// these has no identity.
pub open spec fn item_identity(feed_id: Seq<char>, item: SourceItemView) -> Option<Seq<char>> {
    if item.guid is Some && item.guid.unwrap().permalink {
        Some(item.guid.unwrap().value)
    } else if item.identifiers.len() > 0 {
        Some(item.identifiers[0])
    } else if item.link is Some {
        Some(synthesized(feed_id, item.link.unwrap()))
    } else if item.title is Some {
        Some(synthesized(feed_id, item.title.unwrap()))
    } else {
        None
    }
}

/// Whether an optional text is there and not empty.
pub open spec fn filled(text: Option<Seq<char>>) -> bool {
    text is Some && text.unwrap().len() > 0
}

/// The author of an item: the first that is not empty of the author field,
/// the author of the podcast extension, and the creators joined by a comma
/// and a space.
pub open spec fn item_author(item: SourceItemView) -> Option<Seq<char>> {
    if filled(item.author) {
        item.author
    } else if filled(item.itunes_author) {
        item.itunes_author
    } else if joined(item.creators, creator_separator()).len() > 0 {
        Some(joined(item.creators, creator_separator()))
    } else {
        None
    }
}

/// Whether `projection` can stand for the plain text of `description`:
/// there is none, or it is the plain-text projection of the description.
pub open spec fn admissible(description: Option<Seq<char>>, projection: Option<Seq<char>>) -> bool {
    projection is Some ==> description is Some && plain_text(description.unwrap()) == projection
}

/// The item of the model that `item` of the feed `feed_id` becomes, with
/// `projection` the plain text that its description was found to read;
/// `None` where it has no identity.
pub open spec fn normalized_item(
    feed_id: Seq<char>,
    item: SourceItemView,
    projection: Option<Seq<char>>,
) -> Option<ItemView> {
    match item_identity(feed_id, item) {
        Some(id) => Some(
            ItemView {
                id,
                feed_id,
                title: item.title,
                author: item_author(item),
                content: item.content,
                text_content: None,
                description: item.description,
                text_description: projection,
                categories: item.categories,
                link: item.link,
                pub_date: item.pub_date,
            },
        ),
        None => None,
    }
}

/// The items of the model that the first `k` of `items` become, in order,
/// with `projections` the plain texts that their descriptions were found to
/// read, item by item; those without an identity are left out.
pub open spec fn normalized_items(
    feed_id: Seq<char>,
    items: Seq<SourceItemView>,
    projections: Seq<Option<Seq<char>>>,
    k: nat,
) -> Seq<ItemView>
    decreases k,
{
    if k == 0 || k > items.len() || k > projections.len() {
        Seq::empty()
    } else {
        match normalized_item(feed_id, items[k - 1], projections[k - 1]) {
            Some(item) => normalized_items(feed_id, items, projections, (k - 1) as nat).push(item),
            None => normalized_items(feed_id, items, projections, (k - 1) as nat),
        }
    }
}

/// The publication date of a channel in its normal form, where it states
/// one that can be read.
pub open spec fn normalized_date(pub_date: Option<Seq<char>>) -> Option<Seq<char>> {
    match pub_date {
        Some(text) => rfc2822_normal_form(text),
        None => None,
    }
}

/// The feed of the model that `channel`, fetched from `url` at the time
/// `fetched`, becomes, with `projections` the plain texts that the
/// descriptions of its items were found to read.
pub open spec fn normalized_feed(
    channel: SourceChannelView,
    url: Seq<char>,
    fetched: Option<Seq<char>>,
    projections: Seq<Option<Seq<char>>>,
) -> FeedView {
    FeedView {
        id: feed_identity(channel),
        title: channel.title,
        description: channel.description,
        categories: channel.categories,
        url,
        link: channel.link,
        ttl: channel.ttl,
        items: normalized_items(
            feed_identity(channel),
            channel.items,
            projections,
            channel.items.len(),
        ),
        pub_date: normalized_date(channel.pub_date),
        last_fetched: fetched,
    }
}

/// Whether `projections` gives each item of `channel` a plain text that can
/// stand for its description.
pub open spec fn projects(channel: SourceChannelView, projections: Seq<Option<Seq<char>>>) -> bool {
    &&& projections.len() == channel.items.len()
    &&& forall|i: int|
        0 <= i < channel.items.len() ==> admissible(
            (#[trigger] channel.items[i]).description,
            projections[i],
        )
}

/// Whether `feed` is what `channel`, fetched from `url` at the time
/// `fetched`, becomes: each of its items has the plain-text projection of
/// its description or none.
pub open spec fn is_normalized(
    channel: SourceChannelView,
    url: Seq<char>,
    fetched: Option<Seq<char>>,
    feed: FeedView,
) -> bool {
    exists|projections: Seq<Option<Seq<char>>>|
        projects(channel, projections) && feed == #[trigger] normalized_feed(
            channel,
            url,
            fetched,
            projections,
        )
}

/// Whether `feed` is what reading `bytes`, fetched from `url`, gives: the
/// normalized document, with whatever time of fetching the feed records.
pub open spec fn is_reading(bytes: Seq<u8>, url: Seq<char>, feed: FeedView) -> bool {
    parsed_channel(bytes) is Some && is_normalized(
        parsed_channel(bytes).unwrap(),
        url,
        feed.last_fetched,
        feed,
    )
}

/// `feed_id`, a colon and `rest` in one string.
fn synthesize(feed_id: &str, rest: &str) -> (r: String)
    ensures
        r@ == synthesized(feed_id@, rest@),
{
    let mut id = String::new();
    push_text(&mut id, feed_id);
    push_char(&mut id, ':');
    push_text(&mut id, rest);
    assert(id@ =~= synthesized(feed_id@, rest@));
    id
}

/// Whether an optional string is there and not empty.
fn is_filled(text: &Option<String>) -> (r: bool)
    ensures
        r == filled(text.deep_view()),
{
    match text {
        Some(s) => !s.as_str().is_empty(),
        None => false,
    }
}

impl Item {
    /// The identity of `source` as an item of the feed `feed_id`, in the
    /// order of preference of [`item_identity`].
    pub fn derive_id(feed_id: &str, source: &SourceItem) -> (r: Option<String>)
        ensures
            r.deep_view() == item_identity(feed_id@, source@),
    {
        let permanent = match &source.guid {
            Some(guid) => guid.permalink,
            None => false,
        };
        if permanent {
            match &source.guid {
                Some(guid) => Some(guid.value.clone()),
                None => None,
            }
        } else if source.identifiers.len() > 0 {
            Some(source.identifiers[0].clone())
        } else {
            match &source.link {
                Some(link) => Some(synthesize(feed_id, link.as_str())),
                None => match &source.title {
                    Some(title) => Some(synthesize(feed_id, title.as_str())),
                    None => None,
                },
            }
        }
    }

    /// The author of `source`: the first that is not empty along the chain
    /// of [`item_author`].
    pub fn derive_author(source: &SourceItem) -> (r: Option<String>)
        ensures
            r.deep_view() == item_author(source@),
    {
        if is_filled(&source.author) {
            copy_text(&source.author)
        } else if is_filled(&source.itunes_author) {
            copy_text(&source.itunes_author)
        } else {
            proof {
                reveal_strlit(", ");
                assert(", "@ =~= creator_separator());
            }
            let creators = join(&source.creators, ", ");
            if creators.as_str().is_empty() {
                None
            } else {
                Some(creators)
            }
        }
    }

    /// The item with the identity `id` that `source` becomes in the feed
    /// `feed_id`, with `projection` for the plain text of its description.
    fn assemble(id: String, feed_id: &str, source: &SourceItem, projection: Option<String>) -> (item:
        Item)
        requires
            item_identity(feed_id@, source@) == Some(id@),
        ensures
            normalized_item(feed_id@, source@, projection.deep_view()) == Some(item@),
    {
        Item {
            id,
            feed_id: feed_id.to_owned(),
            title: copy_text(&source.title),
            author: Item::derive_author(source),
            content: copy_text(&source.content),
            text_content: None,
            description: copy_text(&source.description),
            text_description: projection,
            categories: copy_categories(&source.categories),
            link: copy_text(&source.link),
            pub_date: copy_text(&source.pub_date),
        }
    }

    /// The item of the model that `source` becomes in the feed `feed_id`
    /// once its description has been found to read `projection`. Fails
    /// with [`ParseError::Identity`] exactly where no identity can be
    /// derived.
    pub fn from_projected(feed_id: &str, source: &SourceItem, projection: Option<String>) -> (r:
        Result<Item, ParseError>)
        ensures
            match r {
                Ok(item) => normalized_item(feed_id@, source@, projection.deep_view()) == Some(
                    item@,
                ),
                Err(e) => e == ParseError::Identity && item_identity(feed_id@, source@) is None,
            },
    {
        match Item::derive_id(feed_id, source) {
            None => Err(ParseError::Identity),
            Some(id) => Ok(Item::assemble(id, feed_id, source, projection)),
        }
    }

    /// The item of the model that `source` becomes in the feed `feed_id`.
    /// Its identity and the feed it names are those that the source item
    /// and `feed_id` fix. Its plain-text description, where it has one,
    /// is the plain-text projection of its description; it has none where
    /// the description is missing or has no such projection, nor where the
    /// parser gives the description up.
    /// Fails with [`ParseError::Identity`] exactly where no identity can be
    /// derived: no permanent unique identifier, no identifier, no link and
    /// no title.
    pub fn from_source(feed_id: &str, source: &SourceItem) -> (r: Result<Item, ParseError>)
        ensures
            match r {
                Ok(item) => {
                    &&& normalized_item(feed_id@, source@, item@.text_description) == Some(item@)
                    &&& admissible(source@.description, item@.text_description)
                    &&& item_identity(feed_id@, source@) == Some(item@.id)
                    &&& item@.feed_id == feed_id@
                },
                Err(e) => e == ParseError::Identity && item_identity(feed_id@, source@) is None,
            },
    {
        match Item::derive_id(feed_id, source) {
            None => Err(ParseError::Identity),
            Some(id) => {
                let projection = match &source.description {
                    Some(markup) => match parse_html(markup.as_str()) {
                        Ok(text) => Some(text),
                        Err(_) => None,
                    },
                    None => None,
                };
                Ok(Item::assemble(id, feed_id, source, projection))
            },
        }
    }
}

impl Feed {
    /// The identity of the feed that `channel` becomes: its first
    /// identifier, otherwise its link.
    pub fn derive_id(channel: &SourceChannel) -> (r: String)
        ensures
            r@ == feed_identity(channel@),
    {
        if channel.identifiers.len() > 0 {
            channel.identifiers[0].clone()
        } else {
            channel.link.clone()
        }
    }

    /// The feed that `channel`, fetched from `url` at the time `fetched`,
    /// becomes. Items without an identity are left out; the others keep
    /// their order, and each has the plain-text projection of its
    /// description or none.
    pub fn from_channel(channel: &SourceChannel, url: String, fetched: Option<String>) -> (feed:
        Feed)
        ensures
            is_normalized(channel@, url@, fetched.deep_view(), feed@),
            feed@.id == feed_identity(channel@),
            feed@.last_fetched == fetched.deep_view(),
    {
        let id = Feed::derive_id(channel);
        let ghost sources = channel.items.deep_view();
        let ghost mut projections: Seq<Option<Seq<char>>> = Seq::empty();
        let mut items: Vec<Item> = Vec::new();
        let mut i: usize = 0;
        assert(items.deep_view() =~= Seq::<ItemView>::empty());
        while i < channel.items.len()
            invariant
                i <= channel.items.len(),
                sources == channel.items.deep_view(),
                id@ == feed_identity(channel@),
                projections.len() == i,
                forall|k: int|
                    0 <= k < i ==> admissible((#[trigger] sources[k]).description, projections[k]),
                items.deep_view() == normalized_items(id@, sources, projections, i as nat),
            decreases channel.items.len() - i,
        {
            let ghost before = items.deep_view();
            let ghost found = projections;
            assert(sources[i as int] == channel.items[i as int]@);
            match Item::from_source(id.as_str(), &channel.items[i]) {
                Ok(item) => {
                    proof {
                        projections = found.push(item@.text_description);
                        lemma_items_prefix(id@, sources, found, projections, i as nat);
                    }
                    items.push(item);
                    assert(items.deep_view() =~= before.push(item@));
                },
                Err(_) => {
                    proof {
                        projections = found.push(None);
                        lemma_items_prefix(id@, sources, found, projections, i as nat);
                    }
                },
            }
            i += 1;
        }
        let pub_date = match &channel.pub_date {
            Some(text) => normalize_rfc2822(text.as_str()),
            None => None,
        };
        let feed = Feed {
            id,
            title: channel.title.clone(),
            description: channel.description.clone(),
            categories: copy_categories(&channel.categories),
            url,
            link: channel.link.clone(),
            ttl: copy_text(&channel.ttl),
            items,
            pub_date,
            last_fetched: fetched,
        };
        proof {
            assert(projects(channel@, projections));
            assert(feed@ == normalized_feed(channel@, url@, fetched.deep_view(), projections));
        }
        feed
    }

    /// Reads `bytes`, fetched from `url`, as a syndication document and
    /// normalizes it, recording `now` as the time of fetching. Fails with
    /// [`ParseError::Document`] exactly where the bytes are no such
    /// document, and with [`ParseError::Clock`] exactly where they are one
    /// and `now` holds no time.
    pub fn read_at(bytes: &[u8], url: String, now: Option<String>) -> (r: Result<Feed, ParseError>)
        ensures
            match r {
                Ok(feed) => {
                    &&& is_reading(bytes@, url@, feed@)
                    &&& now is Some
                    &&& feed@.last_fetched == now.deep_view()
                },
                Err(e) => if parsed_channel(bytes@) is None {
                    e == ParseError::Document
                } else {
                    e == ParseError::Clock && now is None
                },
            },
    {
        match read_channel(bytes) {
            None => Err(ParseError::Document),
            Some(channel) => match now {
                Some(time) => Ok(Feed::from_channel(&channel, url, Some(time))),
                None => Err(ParseError::Clock),
            },
        }
    }

    /// Reads `bytes`, fetched from `url`, as a syndication document and
    /// normalizes it, recording the current time as the time of fetching.
    /// Fails with [`ParseError::Document`] exactly where the bytes are no
    /// such document, and with [`ParseError::Clock`] only where they are
    /// one and the clock gives no time to record.
    pub fn read_from(bytes: &[u8], url: String) -> (r: Result<Feed, ParseError>)
        ensures
            match r {
                Ok(feed) => is_reading(bytes@, url@, feed@) && feed@.last_fetched is Some,
                Err(e) => {
                    &&& e == ParseError::Document || e == ParseError::Clock
                    &&& e == ParseError::Document <==> parsed_channel(bytes@) is None
                },
            },
    {
        Feed::read_at(bytes, url, current_time())
    }
}

/// The items that the first `k` source items become depend on the plain
/// texts found for those `k` alone.
pub proof fn lemma_items_prefix(
    feed_id: Seq<char>,
    items: Seq<SourceItemView>,
    a: Seq<Option<Seq<char>>>,
    b: Seq<Option<Seq<char>>>,
    k: nat,
)
    requires
        k <= items.len(),
        k <= a.len(),
        k <= b.len(),
        forall|i: int| 0 <= i < k ==> a[i] == b[i],
    ensures
        normalized_items(feed_id, items, a, k) == normalized_items(feed_id, items, b, k),
    decreases k,
{
    if k > 0 {
        lemma_items_prefix(feed_id, items, a, b, (k - 1) as nat);
    }
}

/// Deriving the identity of an item again gives the same identity: two
/// normalizations of one source item under one feed, whatever its
/// description was found to read, agree on the identity of the item, and
/// both name the feed.
pub proof fn lemma_item_identity_is_stable(
    feed_id: Seq<char>,
    item: SourceItemView,
    first: Option<Seq<char>>,
    second: Option<Seq<char>>,
)
    ensures
        normalized_item(feed_id, item, first) is Some <==> item_identity(feed_id, item) is Some,
        normalized_item(feed_id, item, first) is Some <==> normalized_item(
            feed_id,
            item,
            second,
        ) is Some,
        normalized_item(feed_id, item, first) is Some ==> {
            &&& normalized_item(feed_id, item, first).unwrap().id == normalized_item(
                feed_id,
                item,
                second,
            ).unwrap().id
            &&& normalized_item(feed_id, item, first).unwrap().id == item_identity(
                feed_id,
                item,
            ).unwrap()
            &&& normalized_item(feed_id, item, first).unwrap().feed_id == feed_id
            &&& normalized_item(feed_id, item, second).unwrap().feed_id == feed_id
        },
{
}

/// The items of one document have the same identities however their
/// descriptions were found to read.
pub proof fn lemma_item_ids(
    feed_id: Seq<char>,
    items: Seq<SourceItemView>,
    a: Seq<Option<Seq<char>>>,
    b: Seq<Option<Seq<char>>>,
    k: nat,
)
    requires
        k <= items.len(),
        k <= a.len(),
        k <= b.len(),
    ensures
        normalized_items(feed_id, items, a, k).len() == normalized_items(feed_id, items, b, k).len(),
        forall|i: int|
            0 <= i < normalized_items(feed_id, items, a, k).len() ==> (
            #[trigger] normalized_items(feed_id, items, a, k)[i]).id == normalized_items(
                feed_id,
                items,
                b,
                k,
            )[i].id,
    decreases k,
{
    if k > 0 {
        lemma_item_ids(feed_id, items, a, b, (k - 1) as nat);
        lemma_item_identity_is_stable(feed_id, items[k - 1], a[k - 1], b[k - 1]);
    }
}

/// Deriving identities again from the same document gives the same
/// identities: two readings of the same bytes, whatever address and time of
/// fetching they record and whatever the descriptions were found to read,
/// agree on the identity of the feed and, item by item, on the identities
/// of its items.
pub proof fn lemma_identity_is_stable(
    bytes: Seq<u8>,
    url_a: Seq<char>,
    a: FeedView,
    url_b: Seq<char>,
    b: FeedView,
)
    requires
        is_reading(bytes, url_a, a),
        is_reading(bytes, url_b, b),
    ensures
        a.id == b.id,
        a.items.len() == b.items.len(),
        forall|i: int| 0 <= i < a.items.len() ==> a.items[i].id == b.items[i].id,
        forall|i: int| 0 <= i < a.items.len() ==> a.items[i].feed_id == a.id,
{
    let channel = parsed_channel(bytes).unwrap();
    let pa = choose|p: Seq<Option<Seq<char>>>|
        projects(channel, p) && a == #[trigger] normalized_feed(channel, url_a, a.last_fetched, p);
    let pb = choose|p: Seq<Option<Seq<char>>>|
        projects(channel, p) && b == #[trigger] normalized_feed(channel, url_b, b.last_fetched, p);
    lemma_item_ids(feed_identity(channel), channel.items, pa, pb, channel.items.len());
    lemma_items_belong(feed_identity(channel), channel.items, pa, channel.items.len());
}

/// Every normalized item has the plain text that was handed in for it,
/// beside the description it was handed in for.
pub proof fn lemma_items_projected(
    feed_id: Seq<char>,
    items: Seq<SourceItemView>,
    projections: Seq<Option<Seq<char>>>,
    k: nat,
)
    requires
        k <= items.len(),
        k <= projections.len(),
        forall|j: int| 0 <= j < k ==> admissible((#[trigger] items[j]).description, projections[j]),
    ensures
        forall|i: int|
            0 <= i < normalized_items(feed_id, items, projections, k).len() ==> admissible(
                (#[trigger] normalized_items(feed_id, items, projections, k)[i]).description,
                normalized_items(feed_id, items, projections, k)[i].text_description,
            ),
    decreases k,
{
    if k > 0 {
        lemma_items_projected(feed_id, items, projections, (k - 1) as nat);
        assert(admissible(items[k - 1].description, projections[k - 1]));
    }
}

/// In a feed that was read from a document, the plain-text description of
/// an item is the plain-text projection of its description, wherever it
/// has one.
pub proof fn lemma_read_items_are_projected(
    channel: SourceChannelView,
    url: Seq<char>,
    fetched: Option<Seq<char>>,
    feed: FeedView,
)
    requires
        is_normalized(channel, url, fetched, feed),
    ensures
        forall|i: int|
            0 <= i < feed.items.len() ==> admissible(
                (#[trigger] feed.items[i]).description,
                feed.items[i].text_description,
            ),
{
    let projections = choose|p: Seq<Option<Seq<char>>>|
        projects(channel, p) && feed == #[trigger] normalized_feed(channel, url, fetched, p);
    lemma_items_projected(feed_identity(channel), channel.items, projections, channel.items.len());
}

/// Every normalized item carries the identity of its feed.
pub proof fn lemma_items_belong(
    feed_id: Seq<char>,
    items: Seq<SourceItemView>,
    projections: Seq<Option<Seq<char>>>,
    k: nat,
)
    ensures
        forall|i: int|
            0 <= i < normalized_items(feed_id, items, projections, k).len() ==> (
            #[trigger] normalized_items(feed_id, items, projections, k)[i]).feed_id == feed_id,
        normalized_items(feed_id, items, projections, k).len() <= k,
    decreases k,
{
    if k == 0 || k > items.len() || k > projections.len() {
    } else {
        lemma_items_belong(feed_id, items, projections, (k - 1) as nat);
    }
}

} // verus!
