//! The domain model: feeds, their items and categories, each with the
//! mathematical value ("view") that the contracts of the library speak of.

use vstd::prelude::*;

pub mod html;
pub mod normalize;
pub mod source;

verus! {

/// A category a feed or an item is filed under.
#[derive(Debug, PartialEq, Eq)]
pub struct Category {
    pub name: String,
    pub domain: Option<String>,
}

/// What a [`Category`] holds.
pub struct CategoryView {
    pub name: Seq<char>,
    pub domain: Option<Seq<char>>,
}

impl View for Category {
    type V = CategoryView;

    open spec fn view(&self) -> CategoryView {
        CategoryView { name: self.name@, domain: self.domain.deep_view() }
    }
}

impl DeepView for Category {
    type V = CategoryView;

    open spec fn deep_view(&self) -> CategoryView {
        self@
    }
}

impl Clone for Category {
    fn clone(&self) -> (r: Self)
        ensures
            r@ == self@,
    {
        Category { name: self.name.clone(), domain: copy_text(&self.domain) }
    }
}

/// A copy of an optional string.
pub fn copy_text(o: &Option<String>) -> (r: Option<String>)
    ensures
        r.deep_view() == o.deep_view(),
{
    match o {
        Some(s) => Some(s.clone()),
        None => None,
    }
}

/// A copy of a list of strings.
pub fn copy_texts(v: &Vec<String>) -> (r: Vec<String>)
    ensures
        r.deep_view() == v.deep_view(),
{
    let mut out: Vec<String> = Vec::new();
    let mut i: usize = 0;
    while i < v.len()
        invariant
            i <= v.len(),
            out.len() == i,
            forall|k: int| 0 <= k < i ==> out[k]@ == v[k]@,
        decreases v.len() - i,
    {
        out.push(v[i].clone());
        i += 1;
    }
    assert(out.deep_view() =~= v.deep_view());
    out
}

/// A copy of a list of categories.
pub fn copy_categories(v: &Vec<Category>) -> (r: Vec<Category>)
    ensures
        r.deep_view() == v.deep_view(),
{
    let mut out: Vec<Category> = Vec::new();
    let mut i: usize = 0;
    while i < v.len()
        invariant
            i <= v.len(),
            out.len() == i,
            forall|k: int| 0 <= k < i ==> out[k]@ == v[k]@,
        decreases v.len() - i,
    {
        out.push(v[i].clone());
        i += 1;
    }
    assert(out.deep_view() =~= v.deep_view());
    out
}

/// The borrowed text of an optional string.
pub fn text_ref(o: &Option<String>) -> (r: Option<&str>)
    ensures
        r.deep_view() == o.deep_view(),
{
    match o {
        Some(s) => Some(s.as_str()),
        None => None,
    }
}

/// One entry of a feed.
#[derive(Debug, PartialEq, Eq)]
pub struct Item {
    pub id: String,
    pub feed_id: String,
    pub title: Option<String>,
    pub author: Option<String>,
    pub content: Option<String>,
    pub text_content: Option<String>,
    pub description: Option<String>,
    pub text_description: Option<String>,
    pub categories: Vec<Category>,
    pub link: Option<String>,
    pub pub_date: Option<String>,
}

/// What an [`Item`] holds.
pub struct ItemView {
    pub id: Seq<char>,
    pub feed_id: Seq<char>,
    pub title: Option<Seq<char>>,
    pub author: Option<Seq<char>>,
    pub content: Option<Seq<char>>,
    pub text_content: Option<Seq<char>>,
    pub description: Option<Seq<char>>,
    pub text_description: Option<Seq<char>>,
    pub categories: Seq<CategoryView>,
    pub link: Option<Seq<char>>,
    pub pub_date: Option<Seq<char>>,
}

impl ItemView {
    /// The content shown for the item: the plain-text projection where there
    /// is one, the raw content otherwise.
    pub open spec fn shown_content(self) -> Option<Seq<char>> {
        if self.text_content is Some {
            self.text_content
        } else {
            self.content
        }
    }

    /// The description shown for the item: the plain-text projection where
    /// there is one, the raw description otherwise.
    pub open spec fn shown_description(self) -> Option<Seq<char>> {
        if self.text_description is Some {
            self.text_description
        } else {
            self.description
        }
    }
}

impl View for Item {
    type V = ItemView;

    open spec fn view(&self) -> ItemView {
        ItemView {
            id: self.id@,
            feed_id: self.feed_id@,
            title: self.title.deep_view(),
            author: self.author.deep_view(),
            content: self.content.deep_view(),
            text_content: self.text_content.deep_view(),
            description: self.description.deep_view(),
            text_description: self.text_description.deep_view(),
            categories: self.categories.deep_view(),
            link: self.link.deep_view(),
            pub_date: self.pub_date.deep_view(),
        }
    }
}

impl DeepView for Item {
    type V = ItemView;

    open spec fn deep_view(&self) -> ItemView {
        self@
    }
}

impl Clone for Item {
    fn clone(&self) -> (r: Self)
        ensures
            r@ == self@,
    {
        Item {
            id: self.id.clone(),
            feed_id: self.feed_id.clone(),
            title: copy_text(&self.title),
            author: copy_text(&self.author),
            content: copy_text(&self.content),
            text_content: copy_text(&self.text_content),
            description: copy_text(&self.description),
            text_description: copy_text(&self.text_description),
            categories: copy_categories(&self.categories),
            link: copy_text(&self.link),
            pub_date: copy_text(&self.pub_date),
        }
    }
}

impl Item {
    /// The identity of the item.
    pub fn id(&self) -> (r: &str)
        ensures
            r@ == self@.id,
    {
        self.id.as_str()
    }

    /// The identity of the feed the item belongs to.
    pub fn feed_id(&self) -> (r: &str)
        ensures
            r@ == self@.feed_id,
    {
        self.feed_id.as_str()
    }

    pub fn title(&self) -> (r: Option<&str>)
        ensures
            r.deep_view() == self@.title,
    {
        text_ref(&self.title)
    }

    pub fn author(&self) -> (r: Option<&str>)
        ensures
            r.deep_view() == self@.author,
    {
        text_ref(&self.author)
    }

    /// The content to show: the plain-text projection takes precedence over
    /// the raw content.
    pub fn content(&self) -> (r: Option<&str>)
        ensures
            r.deep_view() == self@.shown_content(),
    {
        if self.text_content.is_some() {
            text_ref(&self.text_content)
        } else {
            text_ref(&self.content)
        }
    }

    /// The description to show: the plain-text projection takes precedence
    /// over the raw markup.
    pub fn description(&self) -> (r: Option<&str>)
        ensures
            r.deep_view() == self@.shown_description(),
    {
        if self.text_description.is_some() {
            text_ref(&self.text_description)
        } else {
            text_ref(&self.description)
        }
    }

    pub fn categories(&self) -> (r: &[Category])
        ensures
            r@ == self.categories@,
            r.deep_view() == self@.categories,
    {
        let r = self.categories.as_slice();
        assert(r.deep_view() =~= self.categories.deep_view());
        r
    }

    pub fn link(&self) -> (r: Option<&str>)
        ensures
            r.deep_view() == self@.link,
    {
        text_ref(&self.link)
    }

    pub fn pub_date(&self) -> (r: Option<&str>)
        ensures
            r.deep_view() == self@.pub_date,
    {
        text_ref(&self.pub_date)
    }
}

/// A copy of a list of items.
pub fn copy_items(v: &Vec<Item>) -> (r: Vec<Item>)
    ensures
        r.deep_view() == v.deep_view(),
{
    let mut out: Vec<Item> = Vec::new();
    let mut i: usize = 0;
    while i < v.len()
        invariant
            i <= v.len(),
            out.len() == i,
            forall|k: int| 0 <= k < i ==> out[k]@ == v[k]@,
        decreases v.len() - i,
    {
        out.push(v[i].clone());
        i += 1;
    }
    assert(out.deep_view() =~= v.deep_view());
    out
}

/// One syndication document, normalized, with its items.
#[derive(Debug, PartialEq, Eq)]
pub struct Feed {
    pub id: String,
    pub title: String,
    pub description: String,
    pub categories: Vec<Category>,
    pub url: String,
    pub link: String,
    pub ttl: Option<String>,
    pub items: Vec<Item>,
    pub pub_date: Option<String>,
    pub last_fetched: Option<String>,
}

/// What a [`Feed`] holds.
pub struct FeedView {
    pub id: Seq<char>,
    pub title: Seq<char>,
    pub description: Seq<char>,
    pub categories: Seq<CategoryView>,
    pub url: Seq<char>,
    pub link: Seq<char>,
    pub ttl: Option<Seq<char>>,
    pub items: Seq<ItemView>,
    pub pub_date: Option<Seq<char>>,
    pub last_fetched: Option<Seq<char>>,
}

impl FeedView {
    /// The same feed with another list of items.
    pub open spec fn with_items(self, items: Seq<ItemView>) -> FeedView {
        FeedView { items, ..self }
    }
}

impl View for Feed {
    type V = FeedView;

    open spec fn view(&self) -> FeedView {
        FeedView {
            id: self.id@,
            title: self.title@,
            description: self.description@,
            categories: self.categories.deep_view(),
            url: self.url@,
            link: self.link@,
            ttl: self.ttl.deep_view(),
            items: self.items.deep_view(),
            pub_date: self.pub_date.deep_view(),
            last_fetched: self.last_fetched.deep_view(),
        }
    }
}

impl DeepView for Feed {
    type V = FeedView;

    open spec fn deep_view(&self) -> FeedView {
        self@
    }
}

impl Clone for Feed {
    fn clone(&self) -> (r: Self)
        ensures
            r@ == self@,
    {
        Feed {
            id: self.id.clone(),
            title: self.title.clone(),
            description: self.description.clone(),
            categories: copy_categories(&self.categories),
            url: self.url.clone(),
            link: self.link.clone(),
            ttl: copy_text(&self.ttl),
            items: copy_items(&self.items),
            pub_date: copy_text(&self.pub_date),
            last_fetched: copy_text(&self.last_fetched),
        }
    }
}

impl Feed {
    /// The identity of the feed.
    pub fn id(&self) -> (r: &str)
        ensures
            r@ == self@.id,
    {
        self.id.as_str()
    }

    pub fn title(&self) -> (r: &str)
        ensures
            r@ == self@.title,
    {
        self.title.as_str()
    }

    pub fn description(&self) -> (r: &str)
        ensures
            r@ == self@.description,
    {
        self.description.as_str()
    }

    pub fn categories(&self) -> (r: &[Category])
        ensures
            r@ == self.categories@,
            r.deep_view() == self@.categories,
    {
        let r = self.categories.as_slice();
        assert(r.deep_view() =~= self.categories.deep_view());
        r
    }

    /// The address the feed was fetched from.
    pub fn url(&self) -> (r: &str)
        ensures
            r@ == self@.url,
    {
        self.url.as_str()
    }

    /// The address of the site the feed describes.
    pub fn link(&self) -> (r: &str)
        ensures
            r@ == self@.link,
    {
        self.link.as_str()
    }

    pub fn ttl(&self) -> (r: Option<&str>)
        ensures
            r.deep_view() == self@.ttl,
    {
        text_ref(&self.ttl)
    }

    pub fn items(&self) -> (r: &[Item])
        ensures
            r@ == self.items@,
            r.deep_view() == self@.items,
    {
        let r = self.items.as_slice();
        assert(r.deep_view() =~= self.items.deep_view());
        r
    }

    pub fn pub_date(&self) -> (r: Option<&str>)
        ensures
            r.deep_view() == self@.pub_date,
    {
        text_ref(&self.pub_date)
    }

    /// When the feed was last fetched, if it ever was.
    pub fn last_fetched(&self) -> (r: Option<&str>)
        ensures
            r.deep_view() == self@.last_fetched,
    {
        text_ref(&self.last_fetched)
    }

    /// The same feed with `items` in place of its own.
    pub fn with_items(self, items: Vec<Item>) -> (r: Feed)
        ensures
            r@ == self@.with_items(items.deep_view()),
    {
        Feed {
            id: self.id,
            title: self.title,
            description: self.description,
            categories: self.categories,
            url: self.url,
            link: self.link,
            ttl: self.ttl,
            items,
            pub_date: self.pub_date,
            last_fetched: self.last_fetched,
        }
    }
}

/// A copy of a list of feeds.
pub fn copy_feeds(v: &Vec<Feed>) -> (r: Vec<Feed>)
    ensures
        r.deep_view() == v.deep_view(),
{
    let mut out: Vec<Feed> = Vec::new();
    let mut i: usize = 0;
    while i < v.len()
        invariant
            i <= v.len(),
            out.len() == i,
            forall|k: int| 0 <= k < i ==> out[k]@ == v[k]@,
        decreases v.len() - i,
    {
        out.push(v[i].clone());
        i += 1;
    }
    assert(out.deep_view() =~= v.deep_view());
    out
}

} // verus!
