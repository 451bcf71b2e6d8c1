use moccasin::config::{Args, Config, Preferences};
use moccasin::feed::Feed;
use moccasin::repo::storage::{StorageEvent, Storage};
use moccasin::repo::{make_feed_request, Command, FetchErr, Repository, RepositoryEvent, Response};
use std::path::PathBuf;

fn args(timeout: Option<u64>, interval: Option<u64>) -> Args {
    Args { config: None, color_scheme: None, interval, timeout, no_cache: true }
}

fn config_with(urls: &[&str], order: Option<&str>, timeout: Option<u64>) -> Config {
    let preferences = Preferences {
        feeds: urls.iter().map(|s| s.to_string()).collect(),
        color_scheme: None,
        sort_feeds: order.map(|s| s.to_string()),
        refresh_interval: None,
        refresh_timeout: None,
        cache_feeds: None,
    };
    Config::read_from_toml(
        args(timeout, None),
        PathBuf::from("/tmp/m"),
        PathBuf::from("/tmp/m/c.toml"),
        preferences,
        None,
        None,
    )
}

fn feed(title: &str, link: &str) -> Feed {
    Feed {
        id: link.to_string(),
        title: title.to_string(),
        description: String::new(),
        categories: vec![],
        url: link.to_string(),
        link: link.to_string(),
        ttl: None,
        items: vec![],
        pub_date: None,
        last_fetched: None,
    }
}

fn operation(commands: &Vec<Command>) -> u64 {
    match commands.last() {
        Some(Command::FetchAll { operation, .. }) => *operation,
        Some(Command::FetchOne { operation, .. }) => *operation,
        other => panic!("no fetch among the commands: {:?}", other),
    }
}

#[test]
fn refresh_announces_and_hands_out_the_requests() {
    let config = config_with(&["u1", "u2"], None, Some(7));
    let mut repo = Repository::init("1");
    let commands = repo.refresh_all(&config);
    assert_eq!(
        commands,
        vec![Command::FetchAll {
            operation: 0,
            urls: vec!["u1".to_string(), "u2".to_string()],
            timeout: 7
        }]
    );
    assert_eq!(repo.take_events(), vec![RepositoryEvent::Requesting(2)]);
    assert_eq!(repo.take_events(), vec![]);
}

#[test]
fn refresh_counts_every_request_and_gathers_the_feeds() {
    let config = config_with(&["ok1", "bad", "ok2"], None, None);
    let mut repo = Repository::init("1");
    let op = operation(&repo.refresh_all(&config));
    repo.settle(op, Ok(feed("zeta", "ok1")));
    repo.settle(op, Err(FetchErr::Request));
    assert_eq!(repo.tick(&config), vec![]);
    repo.settle(op, Ok(feed("alpha", "ok2")));
    assert_eq!(
        repo.take_events(),
        vec![
            RepositoryEvent::Requesting(3),
            RepositoryEvent::Requested((1, 3)),
            RepositoryEvent::Requested((2, 3)),
            RepositoryEvent::Requested((3, 3)),
        ]
    );
    assert_eq!(repo.tick(&config), vec![]);
    assert_eq!(
        repo.take_events(),
        vec![RepositoryEvent::RetrievedAll(vec![feed("alpha", "ok2"), feed("zeta", "ok1")])]
    );
    assert_eq!(repo.read_all(&config), Ok(vec![feed("alpha", "ok2"), feed("zeta", "ok1")]));
}

#[test]
fn refresh_delivers_in_the_configured_order_whatever_the_order_of_completion() {
    let config = config_with(&["B", "A", "C"], Some("custom"), None);
    let mut repo = Repository::init("1");
    let op = operation(&repo.refresh_all(&config));
    repo.settle(op, Ok(feed("c", "C")));
    repo.settle(op, Ok(feed("a", "A")));
    repo.settle(op, Ok(feed("b", "B")));
    repo.tick(&config);
    let events = repo.take_events();
    assert_eq!(
        events.last(),
        Some(&RepositoryEvent::RetrievedAll(vec![feed("b", "B"), feed("a", "A"), feed("c", "C")]))
    );
}

#[test]
fn refresh_where_every_request_fails_delivers_no_feeds() {
    let config = config_with(&["a", "b"], None, None);
    let mut repo = Repository::init("1");
    let op = operation(&repo.refresh_all(&config));
    repo.settle(op, Err(FetchErr::Parse));
    repo.settle(op, Err(FetchErr::Deserialize));
    repo.tick(&config);
    assert_eq!(
        repo.take_events(),
        vec![
            RepositoryEvent::Requesting(2),
            RepositoryEvent::Requested((1, 2)),
            RepositoryEvent::Requested((2, 2)),
            RepositoryEvent::RetrievedAll(vec![]),
        ]
    );
}

#[test]
fn refresh_of_no_address_is_over_at_once() {
    let config = config_with(&[], None, None);
    let mut repo = Repository::init("1");
    let commands = repo.refresh_all(&config);
    assert_eq!(commands, vec![Command::FetchAll { operation: 0, urls: vec![], timeout: 5 }]);
    repo.tick(&config);
    assert_eq!(
        repo.take_events(),
        vec![RepositoryEvent::Requesting(0), RepositoryEvent::RetrievedAll(vec![])]
    );
    let again = repo.refresh_all(&config);
    assert_eq!(again.len(), 1);
    assert_eq!(repo.take_events(), vec![RepositoryEvent::Requesting(0)]);
}

#[test]
fn a_second_refresh_supersedes_the_first() {
    let config = config_with(&["a", "b"], None, None);
    let mut repo = Repository::init("1");
    let first = operation(&repo.refresh_all(&config));
    repo.settle(first, Ok(feed("a", "a")));
    let commands = repo.refresh_all(&config);
    let second = operation(&commands);
    assert_ne!(first, second);
    assert_eq!(commands[0], Command::Cancel { operation: first });
    assert_eq!(
        repo.take_events(),
        vec![
            RepositoryEvent::Requesting(2),
            RepositoryEvent::Requested((1, 2)),
            RepositoryEvent::Aborted,
            RepositoryEvent::Requesting(2),
        ]
    );
    repo.settle(first, Ok(feed("b", "b")));
    repo.tick(&config);
    assert_eq!(repo.take_events(), vec![]);
    repo.settle(second, Ok(feed("x", "a")));
    repo.settle(second, Ok(feed("y", "b")));
    repo.tick(&config);
    assert_eq!(
        repo.take_events(),
        vec![
            RepositoryEvent::Requested((1, 2)),
            RepositoryEvent::Requested((2, 2)),
            RepositoryEvent::RetrievedAll(vec![feed("x", "a"), feed("y", "b")]),
        ]
    );
}

#[test]
fn reports_after_the_end_of_a_refresh_are_ignored() {
    let config = config_with(&["a"], None, None);
    let mut repo = Repository::init("1");
    let op = operation(&repo.refresh_all(&config));
    repo.settle(op, Ok(feed("a", "a")));
    repo.settle(op, Ok(feed("late", "late")));
    repo.settle(op + 17, Ok(feed("stranger", "s")));
    repo.tick(&config);
    assert_eq!(
        repo.take_events(),
        vec![
            RepositoryEvent::Requesting(1),
            RepositoryEvent::Requested((1, 1)),
            RepositoryEvent::RetrievedAll(vec![feed("a", "a")]),
        ]
    );
}

#[test]
fn adding_a_feed_announces_fetches_and_stores_it() {
    let config = config_with(&[], None, Some(3));
    let mut repo = Repository::init("1");
    let commands = repo.add_feed_url("https://new", &config);
    assert_eq!(
        commands,
        vec![Command::FetchOne { operation: 0, url: "https://new".to_string(), timeout: 3 }]
    );
    repo.settle_one(0, Ok(feed("new", "https://new")));
    repo.tick(&config);
    assert_eq!(
        repo.take_events(),
        vec![
            RepositoryEvent::Requesting(1),
            RepositoryEvent::Requested((1, 1)),
            RepositoryEvent::RetrievedOne(feed("new", "https://new")),
        ]
    );
    assert_eq!(repo.read_all(&config), Ok(vec![feed("new", "https://new")]));
}

#[test]
fn adding_a_feed_that_fails_is_an_error() {
    let config = config_with(&[], None, None);
    let mut repo = Repository::init("1");
    let op = operation(&repo.add_feed_url("https://gone", &config));
    repo.settle_one(op, Err(FetchErr::Request));
    repo.settle_one(op, Ok(feed("late", "late")));
    repo.tick(&config);
    assert_eq!(
        repo.take_events(),
        vec![RepositoryEvent::Requesting(1), RepositoryEvent::Errored]
    );
    assert_eq!(repo.read_all(&config), Ok(vec![]));
}

#[test]
fn adding_and_refreshing_do_not_cancel_each_other() {
    let config = config_with(&["a"], None, None);
    let mut repo = Repository::init("1");
    let many = operation(&repo.refresh_all(&config));
    let one = operation(&repo.add_feed_url("b", &config));
    assert_ne!(many, one);
    let second = repo.add_feed_url("c", &config);
    assert_eq!(second[0], Command::Cancel { operation: one });
    repo.settle_one(one, Ok(feed("stale", "b")));
    repo.settle(many, Ok(feed("a", "a")));
    repo.settle_one(operation(&second), Ok(feed("c", "c")));
    repo.tick(&config);
    assert_eq!(
        repo.take_events(),
        vec![
            RepositoryEvent::Requesting(1),
            RepositoryEvent::Requesting(1),
            RepositoryEvent::Aborted,
            RepositoryEvent::Requesting(1),
            RepositoryEvent::Requested((1, 1)),
            RepositoryEvent::Requested((1, 1)),
            RepositoryEvent::RetrievedAll(vec![feed("a", "a")]),
            RepositoryEvent::RetrievedOne(feed("c", "c")),
        ]
    );
}

#[test]
fn adding_a_feed_that_is_stored_updates_it_in_place() {
    let config = config_with(&[], None, None);
    let mut repo = Repository::init("1");
    let first = operation(&repo.add_feed_url("u", &config));
    repo.settle_one(first, Ok(feed("old title", "u")));
    let other = operation(&repo.add_feed_url("v", &config));
    repo.settle_one(other, Ok(feed("other", "v")));
    repo.tick(&config);
    let again = operation(&repo.add_feed_url("u", &config));
    repo.settle_one(again, Ok(feed("new title", "u")));
    repo.tick(&config);
    let read = repo.read_all(&config).expect("feeds");
    assert_eq!(read.len(), 2);
    assert_eq!(read.iter().filter(|f| f.id() == "u").count(), 1);
    assert!(read.iter().any(|f| f.id() == "u" && f.title() == "new title"));
}

#[test]
fn the_timer_starts_a_refresh_on_the_next_tick() {
    let config = config_with(&["a"], None, Some(9));
    let mut repo = Repository::init("1");
    repo.notify(RepositoryEvent::Refresh);
    assert_eq!(repo.take_events(), vec![]);
    let commands = repo.tick(&config);
    assert_eq!(
        commands,
        vec![Command::FetchAll { operation: 0, urls: vec!["a".to_string()], timeout: 9 }]
    );
    assert_eq!(repo.take_events(), vec![RepositoryEvent::Requesting(1)]);
    assert_eq!(repo.tick(&config), vec![]);
}

#[test]
fn other_messages_pass_through_unchanged() {
    let config = config_with(&[], None, None);
    let mut repo = Repository::init("1");
    repo.notify(RepositoryEvent::Requesting(4));
    repo.notify(RepositoryEvent::Errored);
    repo.notify(RepositoryEvent::Requested((1, 4)));
    repo.notify(RepositoryEvent::Aborted);
    repo.tick(&config);
    assert_eq!(repo.pop_event(), Some(RepositoryEvent::Requesting(4)));
    assert_eq!(
        repo.take_events(),
        vec![
            RepositoryEvent::Errored,
            RepositoryEvent::Requested((1, 4)),
            RepositoryEvent::Aborted,
        ]
    );
    assert_eq!(repo.pop_event(), None);
}

#[test]
fn feeds_that_the_store_refuses_are_still_passed_on() {
    let config = config_with(&[], None, None);
    let mut repo = Repository::init("1");
    let mut broken = feed("a", "a");
    broken.items = vec![moccasin::feed::Item {
        id: "i".to_string(),
        feed_id: "elsewhere".to_string(),
        title: None,
        author: None,
        content: None,
        text_content: None,
        description: None,
        text_description: None,
        categories: vec![],
        link: None,
        pub_date: None,
    }];
    repo.notify(RepositoryEvent::RetrievedAll(vec![feed("b", "b"), broken.clone()]));
    repo.tick(&config);
    assert_eq!(
        repo.take_events(),
        vec![RepositoryEvent::RetrievedAll(vec![feed("b", "b"), broken.clone()])]
    );
    assert_eq!(repo.read_all(&config), Ok(vec![]));
}

#[test]
fn a_single_feed_that_the_store_refuses_is_an_error() {
    let config = config_with(&[], None, None);
    let mut repo = Repository::init("1");
    let mut broken = feed("a", "a");
    broken.items = vec![moccasin::feed::Item {
        id: "i".to_string(),
        feed_id: "elsewhere".to_string(),
        title: None,
        author: None,
        content: None,
        text_content: None,
        description: None,
        text_description: None,
        categories: vec![],
        link: None,
        pub_date: None,
    }];
    repo.notify(RepositoryEvent::RetrievedOne(broken));
    repo.tick(&config);
    assert_eq!(repo.take_events(), vec![RepositoryEvent::Errored]);
    assert_eq!(repo.read_all(&config), Ok(vec![]));
}

#[test]
fn removing_a_feed_deletes_it_from_the_store() {
    let config = config_with(&[], None, None);
    let mut storage = Storage::init("1");
    storage.write_feed(&feed("a", "ua")).expect("written");
    let mut repo = Repository::with_storage(storage);
    assert_eq!(repo.remove_feed_url("nowhere"), Ok(StorageEvent::NoOp));
    assert_eq!(repo.remove_feed_url("ua"), Ok(StorageEvent::Delete));
    assert_eq!(repo.read_all(&config), Ok(vec![]));
}

#[test]
fn the_timer_is_off_at_interval_zero() {
    let on = Config::create_initialized(
        args(None, Some(60)),
        PathBuf::from("/tmp/m"),
        PathBuf::from("/tmp/m/c.toml"),
        vec![],
    );
    assert_eq!(Repository::timer_interval(&on), Some(60));
    let off = Config::create_initialized(
        args(None, Some(0)),
        PathBuf::from("/tmp/m"),
        PathBuf::from("/tmp/m/c.toml"),
        vec![],
    );
    assert_eq!(Repository::timer_interval(&off), None);
}

#[test]
fn a_settled_request_becomes_a_feed_or_a_reason() {
    assert_eq!(make_feed_request(Response::Failed), Err(FetchErr::Request));
    assert_eq!(make_feed_request(Response::Unreadable), Err(FetchErr::Deserialize));
    assert_eq!(
        make_feed_request(Response::Body {
            status: 200,
            url: "u".to_string(),
            bytes: b"junk".to_vec()
        }),
        Err(FetchErr::Parse)
    );
    let document = b"<rss version=\"2.0\"><channel><title>T</title><link>L</link><description>D</description></channel></rss>";
    let feed = make_feed_request(Response::Body {
        status: 200,
        url: "u".to_string(),
        bytes: document.to_vec(),
    })
    .expect("a feed");
    assert_eq!(feed.id(), "L");
    assert_eq!(feed.title(), "T");
    assert_eq!(feed.url(), "u");
    assert!(feed.last_fetched().is_some());
}

#[test]
fn only_an_answer_that_reports_success_is_read() {
    let document = b"<rss version=\"2.0\"><channel><title>T</title><link>L</link><description>D</description></channel></rss>";
    let answer = |status: u16| {
        make_feed_request(Response::Body {
            status,
            url: "u".to_string(),
            bytes: document.to_vec(),
        })
    };
    assert_eq!(answer(500), Err(FetchErr::Request));
    assert_eq!(answer(404), Err(FetchErr::Request));
    assert_eq!(answer(301), Err(FetchErr::Request));
    assert_eq!(answer(300), Err(FetchErr::Request));
    assert_eq!(answer(199), Err(FetchErr::Request));
    assert_eq!(answer(0), Err(FetchErr::Request));
    assert!(answer(200).is_ok());
    assert!(answer(204).is_ok());
    assert!(answer(299).is_ok());
    assert_eq!(
        make_feed_request(Response::Body {
            status: 503,
            url: "u".to_string(),
            bytes: b"junk".to_vec()
        }),
        Err(FetchErr::Request)
    );
}

#[test]
fn events_can_be_copied() {
    let event = RepositoryEvent::RetrievedAll(vec![feed("a", "a")]);
    assert_eq!(event.clone(), event);
    assert_eq!(RepositoryEvent::Requested((2, 3)).clone(), RepositoryEvent::Requested((2, 3)));
}
