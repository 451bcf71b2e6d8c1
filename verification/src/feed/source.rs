//! What a syndication document says, as plain values, before any rule of the
//! library has been applied to it; and the calls that read such a document.

use vstd::prelude::*;
use std::fmt::Write;
use crate::feed::{Category, CategoryView};

verus! {

/// The globally unique identifier an item may carry.
#[derive(Debug, PartialEq, Eq)]
pub struct SourceGuid {
    pub value: String,
    /// Whether the document flags the identifier as a permanent link.
    pub permalink: bool,
}

/// What a [`SourceGuid`] holds.
pub struct SourceGuidView {
    pub value: Seq<char>,
    pub permalink: bool,
}

impl DeepView for SourceGuid {
    type V = SourceGuidView;

    open spec fn deep_view(&self) -> SourceGuidView {
        SourceGuidView { value: self.value@, permalink: self.permalink }
    }
}

/// One item of a document as the document states it.
#[derive(Debug, PartialEq, Eq)]
pub struct SourceItem {
    pub title: Option<String>,
    pub link: Option<String>,
    pub description: Option<String>,
    pub author: Option<String>,
    /// The author named by the podcast extension.
    pub itunes_author: Option<String>,
    /// The creators named by the Dublin Core extension.
    pub creators: Vec<String>,
    /// The identifiers given by the Dublin Core extension.
    pub identifiers: Vec<String>,
    pub guid: Option<SourceGuid>,
    pub content: Option<String>,
    pub categories: Vec<Category>,
    pub pub_date: Option<String>,
}

/// What a [`SourceItem`] holds.
pub struct SourceItemView {
    pub title: Option<Seq<char>>,
    pub link: Option<Seq<char>>,
    pub description: Option<Seq<char>>,
    pub author: Option<Seq<char>>,
    pub itunes_author: Option<Seq<char>>,
    pub creators: Seq<Seq<char>>,
    pub identifiers: Seq<Seq<char>>,
    pub guid: Option<SourceGuidView>,
    pub content: Option<Seq<char>>,
    pub categories: Seq<CategoryView>,
    pub pub_date: Option<Seq<char>>,
}

impl View for SourceItem {
    type V = SourceItemView;

    open spec fn view(&self) -> SourceItemView {
        SourceItemView {
            title: self.title.deep_view(),
            link: self.link.deep_view(),
            description: self.description.deep_view(),
            author: self.author.deep_view(),
            itunes_author: self.itunes_author.deep_view(),
            creators: self.creators.deep_view(),
            identifiers: self.identifiers.deep_view(),
            guid: self.guid.deep_view(),
            content: self.content.deep_view(),
            categories: self.categories.deep_view(),
            pub_date: self.pub_date.deep_view(),
        }
    }
}

impl DeepView for SourceItem {
    type V = SourceItemView;

    open spec fn deep_view(&self) -> SourceItemView {
        self@
    }
}

/// A document as it states itself: the channel and its items in order.
#[derive(Debug, PartialEq, Eq)]
pub struct SourceChannel {
    pub title: String,
    pub link: String,
    pub description: String,
    pub ttl: Option<String>,
    pub pub_date: Option<String>,
    /// The identifiers given by the Dublin Core extension.
    pub identifiers: Vec<String>,
    pub categories: Vec<Category>,
    pub items: Vec<SourceItem>,
}

/// What a [`SourceChannel`] holds.
pub struct SourceChannelView {
    pub title: Seq<char>,
    pub link: Seq<char>,
    pub description: Seq<char>,
    pub ttl: Option<Seq<char>>,
    pub pub_date: Option<Seq<char>>,
    pub identifiers: Seq<Seq<char>>,
    pub categories: Seq<CategoryView>,
    pub items: Seq<SourceItemView>,
}

impl View for SourceChannel {
    type V = SourceChannelView;

    open spec fn view(&self) -> SourceChannelView {
        SourceChannelView {
            title: self.title@,
            link: self.link@,
            description: self.description@,
            ttl: self.ttl.deep_view(),
            pub_date: self.pub_date.deep_view(),
            identifiers: self.identifiers.deep_view(),
            categories: self.categories.deep_view(),
            items: self.items.deep_view(),
        }
    }
}

/// A document as `rss` hands it out after parsing.
#[verifier::external_type_specification]
#[verifier::external_body]
pub struct ExternChannel(rss::Channel);

/// What reading `bytes` as a syndication document gives; `None` where the
/// bytes are no such document.
pub uninterp spec fn parsed_channel(bytes: Seq<u8>) -> Option<SourceChannelView>;

/// The items that a parsed document holds, in document order.
pub uninterp spec fn held_items(document: rss::Channel) -> Seq<SourceItemView>;

/// Reads `bytes` as a syndication document and hands back what the channel
/// says of itself, with no items yet, beside the parsed document.
///
/// Trusted: `rss::Channel::read_from` is a function of the bytes alone and
/// returns an error for bytes that are no document. The contract gives what
/// it reads a name: the fields copied here, and the items the document holds.
#[verifier::external_body]
fn parse_document(bytes: &[u8]) -> (r: Option<(SourceChannel, rss::Channel)>)
    ensures
        match r {
            Some((head, document)) => {
                &&& head.items@.len() == 0
                &&& parsed_channel(bytes@) == Some(
                    SourceChannelView { items: held_items(document), ..head@ },
                )
            },
            None => parsed_channel(bytes@) is None,
        },
{
    let doc = rss::Channel::read_from(bytes).ok()?;
    let head = SourceChannel {
        title: doc.title.clone(),
        link: doc.link.clone(),
        description: doc.description.clone(),
        ttl: doc.ttl.clone(),
        pub_date: doc.pub_date.clone(),
        identifiers: doc.dublin_core_ext.clone().unwrap_or_default().identifiers,
        categories: doc.categories.iter().map(|c| Category { name: c.name.clone(), domain: c.domain.clone() }).collect(),
        items: Vec::new(),
    };
    Some((head, doc))
}

/// How many items a parsed document holds.
///
/// Trusted: the length of the public field `items` of `rss::Channel`.
#[verifier::external_body]
fn item_count(document: &rss::Channel) -> (n: usize)
    ensures
        n == held_items(*document).len(),
{
    document.items.len()
}

/// The item at `index` of a parsed document, carried over field by field; an
/// extension that is absent contributes nothing.
///
/// Trusted: moves public fields of a copy of the item, of its `Guid` and of
/// its two extensions; `unwrap_or_default` stands for an absent Dublin Core
/// extension with one that holds no creators and no identifiers.
#[verifier::external_body]
fn item_at(document: &rss::Channel, index: usize) -> (r: SourceItem)
    requires
        index < held_items(*document).len(),
    ensures
        r@ == held_items(*document)[index as int],
{
    let item = document.items[index].clone();
    let core = item.dublin_core_ext.unwrap_or_default();
    SourceItem {
        title: item.title,
        link: item.link,
        description: item.description,
        author: item.author,
        itunes_author: item.itunes_ext.and_then(|x| x.author),
        creators: core.creators,
        identifiers: core.identifiers,
        guid: item.guid.map(|g| SourceGuid { value: g.value, permalink: g.permalink }),
        content: item.content,
        categories: item.categories.into_iter().map(|c| Category { name: c.name, domain: c.domain }).collect(),
        pub_date: item.pub_date,
    }
}

/// Reads `bytes` as a syndication document: the channel and its items in
/// document order, or `None` where the bytes are no such document.
pub fn read_channel(bytes: &[u8]) -> (r: Option<SourceChannel>)
    ensures
        match r {
            Some(channel) => parsed_channel(bytes@) == Some(channel@),
            None => parsed_channel(bytes@) is None,
        },
{
    match parse_document(bytes) {
        None => None,
        Some((head, document)) => {
            let n = item_count(&document);
            let mut items: Vec<SourceItem> = Vec::new();
            let mut i: usize = 0;
            while i < n
                invariant
                    i <= n,
                    n == held_items(document).len(),
                    items@.len() == i,
                    forall|k: int| 0 <= k < i ==> (#[trigger] items@[k])@ == held_items(document)[k],
                decreases n - i,
            {
                items.push(item_at(&document, i));
                i += 1;
            }
            let channel = SourceChannel {
                title: head.title,
                link: head.link,
                description: head.description,
                ttl: head.ttl,
                pub_date: head.pub_date,
                identifiers: head.identifiers,
                categories: head.categories,
                items,
            };
            assert(channel@.items =~= held_items(document));
            Some(channel)
        },
    }
}

/// The RFC 2822 text of the date and time that `text` states in RFC 2822
/// form; `None` where `text` states none, or one that RFC 2822 cannot write.
pub uninterp spec fn rfc2822_normal_form(text: Seq<char>) -> Option<Seq<char>>;

/// Rewrites a date and time given in RFC 2822 form into the one form that
/// `chrono` writes.
///
/// Trusted: `chrono::DateTime::parse_from_rfc2822` is a function of the text
/// alone and returns an error for text it does not accept; formatting the
/// parsed value with the `RFC2822` item fails, without a panic, for a year
/// outside 0 to 9999. The contract gives the outcome a name.
#[verifier::external_body]
pub(crate) fn normalize_rfc2822(text: &str) -> (r: Option<String>)
    ensures
        r.deep_view() == rfc2822_normal_form(text@),
{
    let parsed = chrono::DateTime::parse_from_rfc2822(text).ok()?;
    let items = [chrono::format::Item::Fixed(chrono::format::Fixed::RFC2822)];
    let mut out = String::new();
    write!(out, "{}", parsed.format_with_items(items.iter())).ok()?;
    Some(out)
}

/// The current time in RFC 2822 form, told in universal time; `None` where
/// the clock stands before 1970 or beyond what RFC 2822 can write.
///
/// Trusted: nothing is promised of the text, which differs from call to
/// call. The clock is read through `SystemTime::now`; the count of seconds
/// goes to `chrono::DateTime::from_timestamp` and is formatted with the
/// `RFC2822` item, each of which reports a failure in its result.
#[verifier::external_body]
pub(crate) fn current_time() -> Option<String> {
    let since = std::time::SystemTime::now().duration_since(std::time::UNIX_EPOCH).ok()?;
    let utc = chrono::DateTime::from_timestamp(since.as_secs() as i64, since.subsec_nanos())?;
    let items = [chrono::format::Item::Fixed(chrono::format::Fixed::RFC2822)];
    let mut out = String::new();
    write!(out, "{}", utc.format_with_items(items.iter())).ok()?;
    Some(out)
}

} // verus!
