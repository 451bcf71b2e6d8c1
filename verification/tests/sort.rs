use moccasin::config::SortOrder;
use moccasin::feed::Feed;
use moccasin::util::{comes_before, sort_by_order};

fn feed(title: &str, link: &str, fetched: Option<&str>) -> Feed {
    Feed {
        id: link.to_string(),
        title: title.to_string(),
        description: String::new(),
        categories: vec![],
        url: link.to_string(),
        link: link.to_string(),
        ttl: None,
        items: vec![],
        pub_date: None,
        last_fetched: fetched.map(|s| s.to_string()),
    }
}

fn links(feeds: &Vec<Feed>) -> Vec<&str> {
    feeds.iter().map(|f| f.link()).collect()
}

fn urls(list: &[&str]) -> Vec<String> {
    list.iter().map(|s| s.to_string()).collect()
}

#[test]
fn custom_order_follows_the_configured_addresses() {
    let mut feeds = vec![feed("a", "A", None), feed("b", "B", None), feed("c", "C", None)];
    sort_by_order(&mut feeds, &SortOrder::Custom, &urls(&["B", "A", "C"]));
    assert_eq!(links(&feeds), vec!["B", "A", "C"]);
}

#[test]
fn custom_order_puts_unconfigured_feeds_first() {
    let mut feeds = vec![feed("a", "A", None), feed("x", "X", None), feed("b", "B", None)];
    sort_by_order(&mut feeds, &SortOrder::Custom, &urls(&["B", "A"]));
    assert_eq!(links(&feeds), vec!["X", "B", "A"]);
}

#[test]
fn titles_sort_upwards_and_downwards() {
    let mut feeds = vec![
        feed("pear", "1", None),
        feed("Apple", "2", None),
        feed("apple", "3", None),
        feed("", "4", None),
        feed("pea", "5", None),
    ];
    sort_by_order(&mut feeds, &SortOrder::Az, &vec![]);
    assert_eq!(links(&feeds), vec!["4", "2", "3", "5", "1"]);
    sort_by_order(&mut feeds, &SortOrder::Za, &vec![]);
    assert_eq!(links(&feeds), vec!["1", "5", "3", "2", "4"]);
}

#[test]
fn equal_titles_keep_their_order() {
    let mut feeds = vec![feed("same", "1", None), feed("same", "2", None), feed("a", "3", None)];
    sort_by_order(&mut feeds, &SortOrder::Az, &vec![]);
    assert_eq!(links(&feeds), vec!["3", "1", "2"]);
    sort_by_order(&mut feeds, &SortOrder::Za, &vec![]);
    assert_eq!(links(&feeds), vec!["1", "2", "3"]);
}

#[test]
fn fetch_times_sort_with_never_first() {
    let mut feeds = vec![
        feed("a", "1", Some("Tue, 2")),
        feed("b", "2", None),
        feed("c", "3", Some("Mon, 1")),
    ];
    sort_by_order(&mut feeds, &SortOrder::Newest, &vec![]);
    assert_eq!(links(&feeds), vec!["2", "3", "1"]);
    sort_by_order(&mut feeds, &SortOrder::Oldest, &vec![]);
    assert_eq!(links(&feeds), vec!["1", "3", "2"]);
}

#[test]
fn sorting_keeps_every_feed() {
    let mut feeds = vec![feed("b", "1", None), feed("a", "2", None), feed("b", "3", None)];
    sort_by_order(&mut feeds, &SortOrder::Az, &vec![]);
    assert_eq!(feeds.len(), 3);
    let mut seen = links(&feeds);
    seen.sort();
    assert_eq!(seen, vec!["1", "2", "3"]);
    let mut none: Vec<Feed> = vec![];
    sort_by_order(&mut none, &SortOrder::Za, &vec![]);
    assert!(none.is_empty());
}

#[test]
fn comes_before_is_strict() {
    let a = feed("a", "A", Some("1"));
    let b = feed("b", "B", Some("2"));
    let none: Vec<String> = vec![];
    assert!(comes_before(&SortOrder::Az, &none, &a, &b));
    assert!(!comes_before(&SortOrder::Az, &none, &b, &a));
    assert!(!comes_before(&SortOrder::Az, &none, &a, &a));
    assert!(comes_before(&SortOrder::Za, &none, &b, &a));
    assert!(comes_before(&SortOrder::Newest, &none, &a, &b));
    assert!(comes_before(&SortOrder::Oldest, &none, &b, &a));
    assert!(comes_before(&SortOrder::Custom, &urls(&["A", "B"]), &a, &b));
    assert!(!comes_before(&SortOrder::Custom, &urls(&["B", "A"]), &a, &b));
    assert!(!comes_before(&SortOrder::Unread, &none, &a, &b));
}

#[test]
fn non_ascii_titles_sort_by_code_point() {
    let mut feeds = vec![feed("é", "1", None), feed("z", "2", None), feed("日本", "3", None)];
    sort_by_order(&mut feeds, &SortOrder::Az, &vec![]);
    assert_eq!(links(&feeds), vec!["2", "1", "3"]);
}

#[test]
fn sorting_a_sorted_list_changes_nothing() {
    let orders =
        [SortOrder::Az, SortOrder::Za, SortOrder::Custom, SortOrder::Newest, SortOrder::Oldest];
    let configured = urls(&["C", "A", "B"]);
    for order in orders.iter() {
        let mut feeds = vec![
            feed("b", "B", Some("Tue, 17 Feb 2015 10:00:00 +0000")),
            feed("a", "A", None),
            feed("c", "C", Some("Mon, 16 Feb 2015 10:00:00 +0000")),
            feed("a", "D", Some("Tue, 17 Feb 2015 10:00:00 +0000")),
        ];
        sort_by_order(&mut feeds, order, &configured);
        let once: Vec<String> = feeds.iter().map(|f| f.link().to_string()).collect();
        sort_by_order(&mut feeds, order, &configured);
        let twice: Vec<String> = feeds.iter().map(|f| f.link().to_string()).collect();
        assert_eq!(once, twice);
    }
}

#[test]
fn feeds_of_equal_standing_keep_their_order_in_every_order() {
    let same = Some("Tue, 17 Feb 2015 10:00:00 +0000");
    let mut feeds = vec![
        feed("t", "3", same),
        feed("t", "1", same),
        feed("t", "2", same),
    ];
    let orders =
        [SortOrder::Az, SortOrder::Za, SortOrder::Custom, SortOrder::Newest, SortOrder::Oldest];
    for order in orders.iter() {
        sort_by_order(&mut feeds, order, &vec![]);
        assert_eq!(links(&feeds), vec!["3", "1", "2"]);
    }
}

#[test]
fn fetch_times_compare_as_texts() {
    let monday = feed("m", "M", Some("Mon, 16 Feb 2015 10:00:00 +0000"));
    let friday = feed("f", "F", Some("Fri, 13 Feb 2015 10:00:00 +0000"));
    let mut feeds = vec![monday, friday];
    sort_by_order(&mut feeds, &SortOrder::Newest, &vec![]);
    assert_eq!(links(&feeds), vec!["F", "M"]);
    sort_by_order(&mut feeds, &SortOrder::Oldest, &vec![]);
    assert_eq!(links(&feeds), vec!["M", "F"]);
}
