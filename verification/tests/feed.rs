use moccasin::feed::normalize::ParseError;
use moccasin::feed::source::{read_channel, SourceChannel, SourceGuid, SourceItem};
use moccasin::feed::{Category, Feed, Item};

const DOCUMENT: &str = r#"<?xml version="1.0" encoding="UTF-8"?>
<rss version="2.0" xmlns:dc="http://purl.org/dc/elements/1.1/" xmlns:itunes="http://www.itunes.com/dtds/podcast-1.0.dtd">
<channel>
<title>Example Feed</title>
<link>https://example.com/</link>
<description>An example</description>
<ttl>60</ttl>
<pubDate>Wed, 18 Feb 2015 23:16:09 GMT</pubDate>
<category domain="d">News</category>
<item><title>First</title><link>https://example.com/1</link><guid isPermaLink="true">https://example.com/1</guid><description>&lt;p&gt;Hello &lt;b&gt;world&lt;/b&gt;&lt;/p&gt;</description><author>a@example.com</author><pubDate>Tue, 17 Feb 2015 10:00:00 GMT</pubDate><category>Tech</category></item>
<item><title>Second</title><guid isPermaLink="false">abc</guid><dc:creator>Ann</dc:creator><dc:creator>Bob</dc:creator></item>
<item><link>https://example.com/3</link><itunes:author>Cy</itunes:author></item>
<item><description>no identity</description></item>
</channel>
</rss>"#;

fn bare_item() -> SourceItem {
    SourceItem {
        title: None,
        link: None,
        description: None,
        author: None,
        itunes_author: None,
        creators: vec![],
        identifiers: vec![],
        guid: None,
        content: None,
        categories: vec![],
        pub_date: None,
    }
}

fn bare_channel() -> SourceChannel {
    SourceChannel {
        title: "T".to_string(),
        link: "https://site/".to_string(),
        description: "D".to_string(),
        ttl: None,
        pub_date: None,
        identifiers: vec![],
        categories: vec![],
        items: vec![],
    }
}

#[test]
fn read_channel_carries_the_document_over() {
    let channel = read_channel(DOCUMENT.as_bytes()).expect("a document");
    assert_eq!(channel.title, "Example Feed");
    assert_eq!(channel.link, "https://example.com/");
    assert_eq!(channel.description, "An example");
    assert_eq!(channel.ttl, Some("60".to_string()));
    assert_eq!(channel.pub_date, Some("Wed, 18 Feb 2015 23:16:09 GMT".to_string()));
    assert_eq!(
        channel.categories,
        vec![Category { name: "News".to_string(), domain: Some("d".to_string()) }]
    );
    assert_eq!(channel.items.len(), 4);
    assert_eq!(channel.items[0].title, Some("First".to_string()));
    assert_eq!(
        channel.items[0].guid,
        Some(SourceGuid { value: "https://example.com/1".to_string(), permalink: true })
    );
    assert_eq!(channel.items[0].author, Some("a@example.com".to_string()));
    assert_eq!(
        channel.items[1].guid,
        Some(SourceGuid { value: "abc".to_string(), permalink: false })
    );
    assert_eq!(channel.items[1].creators, vec!["Ann".to_string(), "Bob".to_string()]);
    assert_eq!(channel.items[2].itunes_author, Some("Cy".to_string()));
    assert_eq!(channel.items[3].description, Some("no identity".to_string()));
}

#[test]
fn read_channel_refuses_what_is_no_document() {
    assert_eq!(read_channel(b"not a feed"), None);
    assert_eq!(read_channel(b""), None);
    assert_eq!(read_channel(b"<html><body/></html>"), None);
}

#[test]
fn read_from_normalizes_the_document() {
    let feed = Feed::read_from(DOCUMENT.as_bytes(), "https://example.com/rss".to_string())
        .expect("a feed");
    assert_eq!(feed.id(), "https://example.com/");
    assert_eq!(feed.title(), "Example Feed");
    assert_eq!(feed.description(), "An example");
    assert_eq!(feed.url(), "https://example.com/rss");
    assert_eq!(feed.link(), "https://example.com/");
    assert_eq!(feed.ttl(), Some("60"));
    assert_eq!(feed.pub_date(), Some("Wed, 18 Feb 2015 23:16:09 +0000"));
    assert!(feed.last_fetched().is_some());
    assert_eq!(feed.categories().len(), 1);
    assert_eq!(feed.items().len(), 3);

    let first = &feed.items()[0];
    assert_eq!(first.id(), "https://example.com/1");
    assert_eq!(first.feed_id(), "https://example.com/");
    assert_eq!(first.title(), Some("First"));
    assert_eq!(first.author(), Some("a@example.com"));
    assert_eq!(first.description(), Some("Hello world\n\n"));
    assert_eq!(first.link(), Some("https://example.com/1"));
    assert_eq!(first.pub_date(), Some("Tue, 17 Feb 2015 10:00:00 GMT"));
    assert_eq!(first.categories().len(), 1);

    let second = &feed.items()[1];
    assert_eq!(second.id(), "https://example.com/:Second");
    assert_eq!(second.author(), Some("Ann, Bob"));

    let third = &feed.items()[2];
    assert_eq!(third.id(), "https://example.com/:https://example.com/3");
    assert_eq!(third.author(), Some("Cy"));
    assert_eq!(third.title(), None);
}

#[test]
fn read_from_fails_on_what_is_no_document() {
    assert_eq!(
        Feed::read_from(b"<oops", "u".to_string()).err(),
        Some(ParseError::Document)
    );
}

#[test]
fn identity_is_the_same_on_every_reading() {
    let a = Feed::read_from(DOCUMENT.as_bytes(), "https://a/".to_string()).expect("a feed");
    let b = Feed::read_from(DOCUMENT.as_bytes(), "https://b/".to_string()).expect("a feed");
    assert_eq!(a.id(), b.id());
    assert_eq!(a.items().len(), b.items().len());
    for (x, y) in a.items().iter().zip(b.items().iter()) {
        assert_eq!(x.id(), y.id());
        assert_eq!(x.feed_id(), a.id());
    }
}

#[test]
fn feed_identity_prefers_the_identifier() {
    let mut channel = bare_channel();
    assert_eq!(Feed::derive_id(&channel), "https://site/");
    channel.identifiers = vec!["urn:feed:1".to_string(), "urn:feed:2".to_string()];
    assert_eq!(Feed::derive_id(&channel), "urn:feed:1");
}

#[test]
fn item_identity_follows_the_order_of_preference() {
    let mut item = bare_item();
    assert_eq!(Item::derive_id("F", &item), None);
    item.title = Some("Title".to_string());
    assert_eq!(Item::derive_id("F", &item), Some("F:Title".to_string()));
    item.link = Some("https://l".to_string());
    assert_eq!(Item::derive_id("F", &item), Some("F:https://l".to_string()));
    item.guid = Some(SourceGuid { value: "g".to_string(), permalink: false });
    assert_eq!(Item::derive_id("F", &item), Some("F:https://l".to_string()));
    item.identifiers = vec!["id-1".to_string(), "id-2".to_string()];
    assert_eq!(Item::derive_id("F", &item), Some("id-1".to_string()));
    item.guid = Some(SourceGuid { value: "g".to_string(), permalink: true });
    assert_eq!(Item::derive_id("F", &item), Some("g".to_string()));
}

#[test]
fn item_without_link_and_title_is_a_parse_failure() {
    let mut item = bare_item();
    item.description = Some("text".to_string());
    item.author = Some("someone".to_string());
    assert_eq!(Item::from_source("F", &item).err(), Some(ParseError::Identity));
}

#[test]
fn author_is_the_first_that_is_not_empty() {
    let mut item = bare_item();
    assert_eq!(Item::derive_author(&item), None);
    item.creators = vec!["Ann".to_string(), "Bob".to_string(), "Cy".to_string()];
    assert_eq!(Item::derive_author(&item), Some("Ann, Bob, Cy".to_string()));
    item.itunes_author = Some("Pod".to_string());
    assert_eq!(Item::derive_author(&item), Some("Pod".to_string()));
    item.author = Some("".to_string());
    assert_eq!(Item::derive_author(&item), Some("Pod".to_string()));
    item.author = Some("Main".to_string());
    assert_eq!(Item::derive_author(&item), Some("Main".to_string()));
    let mut only_empty = bare_item();
    only_empty.creators = vec!["".to_string()];
    assert_eq!(Item::derive_author(&only_empty), None);
}

#[test]
fn from_source_copies_the_fields() {
    let mut source = bare_item();
    source.title = Some("T".to_string());
    source.link = Some("L".to_string());
    source.content = Some("C".to_string());
    source.description = Some("<h1>Big</h1>".to_string());
    source.pub_date = Some("someday".to_string());
    source.categories = vec![Category { name: "n".to_string(), domain: None }];
    let item = Item::from_source("feed", &source).expect("an item");
    assert_eq!(item.id(), "feed:L");
    assert_eq!(item.feed_id(), "feed");
    assert_eq!(item.title(), Some("T"));
    assert_eq!(item.link(), Some("L"));
    assert_eq!(item.content(), Some("C"));
    assert_eq!(item.description(), Some("# Big\n\n"));
    assert_eq!(item.description, Some("<h1>Big</h1>".to_string()));
    assert_eq!(item.pub_date(), Some("someday"));
    assert_eq!(item.categories(), &[Category { name: "n".to_string(), domain: None }][..]);
}

#[test]
fn description_falls_back_on_the_raw_markup() {
    let mut source = bare_item();
    source.title = Some("T".to_string());
    source.description = Some("".to_string());
    let item = Item::from_source("feed", &source).expect("an item");
    assert_eq!(item.text_description, None);
    assert_eq!(item.description(), Some(""));
}

#[test]
fn content_prefers_the_projection() {
    let mut source = bare_item();
    source.title = Some("T".to_string());
    source.content = Some("<raw>".to_string());
    let mut item = Item::from_source("feed", &source).expect("an item");
    assert_eq!(item.content(), Some("<raw>"));
    item.text_content = Some("plain".to_string());
    assert_eq!(item.content(), Some("plain"));
}

#[test]
fn from_channel_drops_items_without_identity_and_keeps_order() {
    let mut channel = bare_channel();
    let mut a = bare_item();
    a.title = Some("a".to_string());
    let nameless = bare_item();
    let mut b = bare_item();
    b.link = Some("b".to_string());
    channel.items = vec![a, nameless, b];
    channel.pub_date = Some("not a date".to_string());
    let feed = Feed::from_channel(&channel, "u".to_string(), Some("now".to_string()));
    assert_eq!(feed.items().len(), 2);
    assert_eq!(feed.items()[0].id(), "https://site/:a");
    assert_eq!(feed.items()[1].id(), "https://site/:b");
    assert_eq!(feed.pub_date(), None);
    assert_eq!(feed.last_fetched(), Some("now"));
    assert_eq!(feed.url(), "u");
}

#[test]
fn publication_date_is_rewritten_in_one_form() {
    let mut channel = bare_channel();
    channel.pub_date = Some("18 Feb 2015 23:16:09 +0100".to_string());
    let feed = Feed::from_channel(&channel, "u".to_string(), None);
    assert_eq!(feed.pub_date(), Some("Wed, 18 Feb 2015 23:16:09 +0100"));
    assert_eq!(feed.last_fetched(), None);
    channel.pub_date = Some("Wed, 18 Feb 12015 23:16:09 GMT".to_string());
    let far = Feed::from_channel(&channel, "u".to_string(), None);
    assert_eq!(far.pub_date(), None);
}

#[test]
fn with_items_replaces_the_items_only() {
    let channel = bare_channel();
    let feed = Feed::from_channel(&channel, "u".to_string(), None);
    let mut source = bare_item();
    source.title = Some("x".to_string());
    let item = Item::from_source(feed.id(), &source).expect("an item");
    let with = feed.clone().with_items(vec![item.clone()]);
    assert_eq!(with.items(), &[item][..]);
    assert_eq!(with.id(), feed.id());
    assert_eq!(with.title(), feed.title());
}

#[test]
fn an_item_normalized_twice_has_one_identity() {
    let mut source = bare_item();
    source.title = Some("T".to_string());
    source.description = Some("<p>some <b>text</b></p>".to_string());
    let first = Item::from_source("feed", &source).expect("an item");
    let second = Item::from_source("feed", &source).expect("an item");
    assert_eq!(first.id(), "feed:T");
    assert_eq!(first.id(), second.id());
    assert_eq!(first.feed_id(), "feed");
    assert_eq!(second.feed_id(), "feed");
}

#[test]
fn the_time_of_fetching_is_told_in_universal_time() {
    let feed = Feed::read_from(DOCUMENT.as_bytes(), "https://example.com/rss".to_string())
        .expect("a feed");
    let fetched = feed.last_fetched().expect("a time of fetching");
    assert!(fetched.ends_with("+0000"));
    assert_eq!(fetched.matches(':').count(), 2);
}

#[test]
fn a_projection_handed_in_is_kept_as_it_is() {
    let mut source = bare_item();
    source.link = Some("L".to_string());
    source.description = Some("<p>markup</p>".to_string());
    let item = Item::from_projected("feed", &source, Some("plain".to_string())).expect("an item");
    assert_eq!(item.id(), "feed:L");
    assert_eq!(item.feed_id(), "feed");
    assert_eq!(item.description(), Some("plain"));
    let bare = Item::from_projected("feed", &source, None).expect("an item");
    assert_eq!(bare.description(), Some("<p>markup</p>"));
    assert_eq!(
        Item::from_projected("feed", &bare_item(), Some("plain".to_string())).err(),
        Some(ParseError::Identity)
    );
}

#[test]
fn a_feed_is_read_at_the_time_handed_in() {
    let now = "Thu, 29 Oct 2026 12:00:00 +0000".to_string();
    let feed = Feed::read_at(DOCUMENT.as_bytes(), "https://a/".to_string(), Some(now.clone()))
        .expect("a feed");
    assert_eq!(feed.last_fetched(), Some(now.as_str()));
    assert_eq!(feed.url(), "https://a/");
    assert_eq!(feed.items().len(), 3);
}

#[test]
fn no_feed_is_read_without_a_time() {
    assert_eq!(
        Feed::read_at(DOCUMENT.as_bytes(), "https://a/".to_string(), None).err(),
        Some(ParseError::Clock)
    );
    assert_eq!(
        Feed::read_at(b"<oops", "https://a/".to_string(), None).err(),
        Some(ParseError::Document)
    );
    assert_eq!(
        Feed::read_at(b"<oops", "https://a/".to_string(), Some("now".to_string())).err(),
        Some(ParseError::Document)
    );
}
