//! The composition root: it owns the store, the queue of results that
//! background work hands in, the queue of events for the consumer, and the
//! one slot per class of operation that may be in flight.

use vstd::prelude::*;
use crate::config::{Config, SortOrder};
use crate::feed::{copy_feeds, copy_texts, Feed, FeedView};
use crate::repo::storage::{
    MetadataView, Storage, StorageError, StorageEvent, StorageView, DUCK_TYPE,
};
use crate::repo::{Command, CommandView, EventView, FetchErr, RepositoryEvent};
use crate::util::{sort_by_order, sorted_feeds};

verus! {

/// A refresh in flight: how many requests it made, how many have settled,
/// and the feeds that the settled ones gave, in the order in which they
/// settled.
///
/// Invariant: the order to deliver the feeds in is one that orders feeds,
/// never `Unread`.
#[derive(Debug)]
pub struct Refresh {
    operation: u64,
    total: usize,
    completed: usize,
    feeds: Vec<Feed>,
    /// The order to deliver the feeds in, as configured when it started.
    order: SortOrder,
    /// The configured addresses, as they were when it started.
    urls: Vec<String>,
}

impl Refresh {
    #[verifier::type_invariant]
    closed spec fn orders(self) -> bool {
        self.order != SortOrder::Unread
    }
}

/// What a [`Refresh`] holds.
pub struct RefreshView {
    pub operation: u64,
    pub total: usize,
    pub completed: usize,
    pub feeds: Seq<FeedView>,
    pub order: SortOrder,
    pub urls: Seq<Seq<char>>,
}

impl DeepView for Refresh {
    type V = RefreshView;

    closed spec fn deep_view(&self) -> RefreshView {
        RefreshView {
            operation: self.operation,
            total: self.total,
            completed: self.completed,
            feeds: self.feeds.deep_view(),
            order: self.order,
            urls: self.urls.deep_view(),
        }
    }
}

/// What a repository holds: the store, the events that wait for the
/// consumer, the messages that wait for the next tick, the single fetch and
/// the refresh in flight, and the number of the next operation.
pub struct RepositoryView {
    pub storage: StorageView,
    pub outbox: Seq<EventView>,
    pub inbox: Seq<EventView>,
    pub one: Option<u64>,
    pub many: Option<RefreshView>,
    pub next: u64,
}

/// The number that follows `n`; after the largest comes 0.
pub open spec fn following(n: u64) -> u64 {
    if n == u64::MAX {
        0
    } else {
        (n + 1) as u64
    }
}

/// The number of a new operation: `next`, or the number after it where
/// `next` is the number of the operation that the new one supersedes.
pub open spec fn fresh(next: u64, superseded: Option<u64>) -> u64 {
    if superseded == Some(next) {
        following(next)
    } else {
        next
    }
}

/// What a settled request gave, as the contracts speak of it.
pub open spec fn outcome_view(outcome: Result<Feed, FetchErr>) -> Result<FeedView, FetchErr> {
    match outcome {
        Ok(feed) => Ok(feed@),
        Err(e) => Err(e),
    }
}

impl RepositoryView {
    /// The events that starting an operation of `count` requests sends,
    /// given the operation of its class that is in flight: an `Aborted`
    /// where there is one, then `Requesting`.
    pub open spec fn start_events(in_flight: bool, count: usize) -> Seq<EventView> {
        if in_flight {
            seq![EventView::Aborted, EventView::Requesting(count)]
        } else {
            seq![EventView::Requesting(count)]
        }
    }

    /// The number of the refresh in flight, if there is one.
    pub open spec fn refresh_in_flight(self) -> Option<u64> {
        match self.many {
            Some(refresh) => Some(refresh.operation),
            None => None,
        }
    }

    /// The repository after a refresh of `urls` has been started: a refresh
    /// in flight is superseded, and the consumer learns of both. A refresh
    /// of no address at all is over at once, with no feeds.
    pub open spec fn refreshed(self, urls: Seq<Seq<char>>, order: SortOrder) -> RepositoryView {
        let operation = fresh(self.next, self.refresh_in_flight());
        let outbox = self.outbox + Self::start_events(self.many is Some, urls.len() as usize);
        if urls.len() == 0 {
            RepositoryView {
                outbox,
                inbox: self.inbox.push(EventView::RetrievedAll(Seq::empty())),
                many: None,
                next: following(operation),
                ..self
            }
        } else {
            RepositoryView {
                outbox,
                many: Some(
                    RefreshView {
                        operation,
                        total: urls.len() as usize,
                        completed: 0,
                        feeds: Seq::empty(),
                        order,
                        urls,
                    },
                ),
                next: following(operation),
                ..self
            }
        }
    }

    /// The work that starting a refresh of `urls` hands out: the
    /// cancellation of the refresh in flight, where there is one, and the
    /// requests.
    pub open spec fn refresh_commands(self, urls: Seq<Seq<char>>, timeout: u64) -> Seq<
        CommandView,
    > {
        let operation = fresh(self.next, self.refresh_in_flight());
        let fetch = CommandView::FetchAll { operation, urls, timeout };
        match self.many {
            Some(old) => seq![CommandView::Cancel { operation: old.operation }, fetch],
            None => seq![fetch],
        }
    }

    /// The repository after a fetch of one address has been started: a
    /// single fetch in flight is superseded; a refresh in flight is not
    /// touched.
    pub open spec fn added(self) -> RepositoryView {
        let operation = fresh(self.next, self.one);
        RepositoryView {
            outbox: self.outbox + Self::start_events(self.one is Some, 1),
            one: Some(operation),
            next: following(operation),
            ..self
        }
    }

    /// The work that starting a fetch of `url` hands out.
    pub open spec fn add_commands(self, url: Seq<char>, timeout: u64) -> Seq<CommandView> {
        let operation = fresh(self.next, self.one);
        let fetch = CommandView::FetchOne { operation, url, timeout };
        match self.one {
            Some(old) => seq![CommandView::Cancel { operation: old }, fetch],
            None => seq![fetch],
        }
    }

    /// Whether a request of the refresh `operation` is still awaited.
    pub open spec fn awaits(self, operation: u64) -> bool {
        self.many is Some && self.many.unwrap().operation == operation
            && self.many.unwrap().completed < self.many.unwrap().total
    }

    /// The repository after one request of the refresh `operation` has
    /// settled. A request of an operation that is not in flight changes
    /// nothing. Otherwise the counter goes up by one and is announced, a
    /// feed joins those gathered, and with the last request the gathered
    /// feeds are queued, in the configured order, and the refresh is over.
    pub open spec fn settled(self, operation: u64, outcome: Result<FeedView, FetchErr>) -> RepositoryView {
        if !self.awaits(operation) {
            self
        } else {
            let refresh = self.many.unwrap();
            let completed = (refresh.completed + 1) as usize;
            let feeds = match outcome {
                Ok(feed) => refresh.feeds.push(feed),
                Err(_) => refresh.feeds,
            };
            let outbox = self.outbox.push(EventView::Requested(completed, refresh.total));
            if completed == refresh.total {
                RepositoryView {
                    outbox,
                    inbox: self.inbox.push(
                        EventView::RetrievedAll(sorted_feeds(feeds, refresh.order, refresh.urls)),
                    ),
                    many: None,
                    ..self
                }
            } else {
                RepositoryView {
                    outbox,
                    many: Some(RefreshView { completed, feeds, ..refresh }),
                    ..self
                }
            }
        }
    }

    /// The repository after the single fetch `operation` has settled. One
    /// that is not in flight changes nothing. Otherwise the fetch is over:
    /// a feed is announced and queued, a failure is reported.
    pub open spec fn settled_one(self, operation: u64, outcome: Result<FeedView, FetchErr>) -> RepositoryView {
        if self.one != Some(operation) {
            self
        } else {
            match outcome {
                Ok(feed) => RepositoryView {
                    outbox: self.outbox.push(EventView::Requested(1, 1)),
                    inbox: self.inbox.push(EventView::RetrievedOne(feed)),
                    one: None,
                    ..self
                },
                Err(_) => RepositoryView {
                    outbox: self.outbox.push(EventView::Errored),
                    one: None,
                    ..self
                },
            }
        }
    }

    /// The store after a batch has been handed to it: the batch written
    /// where the store takes it, the store as it was where it does not.
    pub open spec fn stored_all(storage: StorageView, feeds: Seq<FeedView>) -> StorageView {
        match storage.written_all(feeds, feeds.len()) {
            Some(after) => after,
            None => storage,
        }
    }

    /// The store after one feed has been handed to it.
    pub open spec fn stored_one(storage: StorageView, feed: FeedView) -> StorageView {
        match storage.written(feed) {
            Some(after) => after,
            None => storage,
        }
    }

    /// The repository after one queued message has been handled. Feeds
    /// are stored first and then passed on: the feeds of a refresh are
    /// passed on whether or not the store takes them, a single feed that
    /// the store refuses is reported as an error instead. A request for a
    /// refresh starts one; every other message is passed on as it is.
    pub open spec fn handled(self, message: EventView, config: Config) -> RepositoryView {
        match message {
            EventView::RetrievedAll(feeds) => RepositoryView {
                storage: Self::stored_all(self.storage, feeds),
                outbox: self.outbox.push(message),
                ..self
            },
            EventView::RetrievedOne(feed) => RepositoryView {
                storage: Self::stored_one(self.storage, feed),
                outbox: self.outbox.push(
                    if self.storage.written(feed) is Some {
                        message
                    } else {
                        EventView::Errored
                    },
                ),
                ..self
            },
            EventView::Refresh => self.refreshed(config.urls(), config.order()),
            _ => RepositoryView { outbox: self.outbox.push(message), ..self },
        }
    }

    /// The work that handling one queued message hands out.
    pub open spec fn handle_commands(self, message: EventView, config: Config) -> Seq<
        CommandView,
    > {
        match message {
            EventView::Refresh => self.refresh_commands(config.urls(), config.timeout()),
            _ => Seq::empty(),
        }
    }

    /// The repository after the first `k` of `messages` have been handled,
    /// one after the other.
    pub open spec fn handled_all(self, messages: Seq<EventView>, config: Config, k: nat) -> RepositoryView
        decreases k,
    {
        if k == 0 || k > messages.len() {
            self
        } else {
            self.handled_all(messages, config, (k - 1) as nat).handled(messages[k - 1], config)
        }
    }

    /// The work that handling the first `k` of `messages` hands out.
    pub open spec fn commands_of_all(self, messages: Seq<EventView>, config: Config, k: nat) -> Seq<
        CommandView,
    >
        decreases k,
    {
        if k == 0 || k > messages.len() {
            Seq::empty()
        } else {
            self.commands_of_all(messages, config, (k - 1) as nat) + self.handled_all(
                messages,
                config,
                (k - 1) as nat,
            ).handle_commands(messages[k - 1], config)
        }
    }

    /// The repository after a tick: every message that was queued handled,
    /// in the order in which it was queued. What the tick itself queues
    /// waits for the next.
    pub open spec fn ticked(self, config: Config) -> RepositoryView {
        (RepositoryView { inbox: Seq::empty(), ..self }).handled_all(
            self.inbox,
            config,
            self.inbox.len(),
        )
    }

    /// The work that a tick hands out.
    pub open spec fn tick_commands(self, config: Config) -> Seq<CommandView> {
        (RepositoryView { inbox: Seq::empty(), ..self }).commands_of_all(
            self.inbox,
            config,
            self.inbox.len(),
        )
    }
}

/// The number that follows `n`.
fn next_after(n: u64) -> (r: u64)
    ensures
        r == following(n),
{
    if n == u64::MAX {
        0
    } else {
        n + 1
    }
}

/// The composition root.
#[derive(Debug)]
pub struct Repository {
    storage: Storage,
    outbox: Vec<RepositoryEvent>,
    inbox: Vec<RepositoryEvent>,
    handle_one: Option<u64>,
    handle_many: Option<Refresh>,
    next_operation: u64,
}

impl View for Repository {
    type V = RepositoryView;

    closed spec fn view(&self) -> RepositoryView {
        RepositoryView {
            storage: self.storage@,
            outbox: self.outbox.deep_view(),
            inbox: self.inbox.deep_view(),
            one: self.handle_one,
            many: self.handle_many.deep_view(),
            next: self.next_operation,
        }
    }
}

impl Repository {
    /// A repository over `storage`, with nothing queued and nothing in
    /// flight.
    pub fn with_storage(storage: Storage) -> (r: Repository)
        ensures
            r@ == (RepositoryView {
                storage: storage@,
                outbox: Seq::empty(),
                inbox: Seq::empty(),
                one: None,
                many: None,
                next: 0,
            }),
    {
        let outbox: Vec<RepositoryEvent> = Vec::new();
        let inbox: Vec<RepositoryEvent> = Vec::new();
        assert(outbox.deep_view() =~= Seq::<EventView>::empty());
        assert(inbox.deep_view() =~= Seq::<EventView>::empty());
        Repository {
            storage,
            outbox,
            inbox,
            handle_one: None,
            handle_many: None,
            next_operation: 0,
        }
    }

    /// A repository over a fresh store in memory, written under the layout
    /// of the program of version `version`.
    pub fn init(version: &str) -> (r: Repository)
        ensures
            r@ == (RepositoryView {
                storage: StorageView::migrated(
                    MetadataView { version: version@, duck_type: DUCK_TYPE@ },
                ),
                outbox: Seq::empty(),
                inbox: Seq::empty(),
                one: None,
                many: None,
                next: 0,
            }),
    {
        Repository::with_storage(Storage::init(version))
    }

    /// The seconds between two requests of the timer for a refresh; `None`
    /// where the configured interval is 0, which switches the timer off.
    pub fn timer_interval(config: &Config) -> (r: Option<u64>)
        ensures
            r == (if config.interval() > 0 {
                Some(config.interval())
            } else {
                None
            }),
    {
        let interval = config.refresh_interval();
        if interval > 0 {
            Some(interval)
        } else {
            None
        }
    }

    /// Queues a message for the next tick, behind those already queued. The
    /// timer queues its requests for a refresh this way.
    pub fn notify(&mut self, message: RepositoryEvent)
        ensures
            final(self)@ == (RepositoryView {
                inbox: old(self)@.inbox.push(message.deep_view()),
                ..old(self)@
            }),
    {
        let ghost before = self.inbox.deep_view();
        self.inbox.push(message);
        assert(self.inbox.deep_view() =~= before.push(message.deep_view()));
    }

    /// Hands the consumer the events that wait for it, oldest first, and
    /// forgets them.
    pub fn take_events(&mut self) -> (events: Vec<RepositoryEvent>)
        ensures
            events.deep_view() == old(self)@.outbox,
            final(self)@ == (RepositoryView { outbox: Seq::empty(), ..old(self)@ }),
    {
        let mut events: Vec<RepositoryEvent> = Vec::new();
        std::mem::swap(&mut self.outbox, &mut events);
        assert(self.outbox.deep_view() =~= Seq::<EventView>::empty());
        events
    }

    /// Hands the consumer the oldest event that waits for it, if one does,
    /// and forgets it.
    pub fn pop_event(&mut self) -> (event: Option<RepositoryEvent>)
        ensures
            match event {
                Some(e) => {
                    &&& old(self)@.outbox.len() > 0
                    &&& e.deep_view() == old(self)@.outbox[0]
                    &&& final(self)@ == (RepositoryView {
                        outbox: old(self)@.outbox.drop_first(),
                        ..old(self)@
                    })
                },
                None => old(self)@.outbox.len() == 0 && final(self)@ == old(self)@,
            },
    {
        if self.outbox.len() == 0 {
            return None;
        }
        let ghost before = self.outbox.deep_view();
        let event = self.outbox.remove(0);
        assert(self.outbox.deep_view() =~= before.drop_first());
        assert(before[0] == event.deep_view());
        Some(event)
    }

    /// The stored feeds with their items, in the configured order. The
    /// order `Unread` is not implemented and must not be configured when
    /// this is called.
    pub fn read_all(&self, config: &Config) -> (r: Result<Vec<Feed>, StorageError>)
        requires
            config.order() != SortOrder::Unread,
        ensures
            r is Ok,
            r.unwrap().deep_view() == sorted_feeds(
                self@.storage.loaded(),
                config.order(),
                config.urls(),
            ),
    {
        self.storage.read_all(config)
    }

    /// Deletes the feeds fetched from `url` and their items. Nothing else
    /// changes; where no feed was fetched from `url`, nothing changes at
    /// all, and nothing fails.
    pub fn remove_feed_url(&mut self, url: &str) -> (r: Result<StorageEvent, StorageError>)
        ensures
            r == Ok::<StorageEvent, StorageError>(old(self)@.storage.delete_event(url@)),
            final(self)@ == (RepositoryView {
                storage: old(self)@.storage.deleted(url@),
                ..old(self)@
            }),
    {
        self.storage.delete_feed_with_url(url)
    }

    /// Starts a refresh of the configured feeds. A refresh still in flight
    /// is superseded first: it is cancelled, whatever its requests still
    /// report is ignored, and the consumer is told `Aborted`. Then the
    /// consumer is told how many requests are made, and the requests are
    /// handed out. A single fetch in flight is not touched. The order
    /// `Unread` is not implemented and must not be configured.
    pub fn refresh_all(&mut self, config: &Config) -> (commands: Vec<Command>)
        requires
            config.order() != SortOrder::Unread,
        ensures
            final(self)@ == old(self)@.refreshed(config.urls(), config.order()),
            commands.deep_view() == old(self)@.refresh_commands(config.urls(), config.timeout()),
    {
        let ghost before = self@;
        let ghost sent = self.outbox.deep_view();
        let ghost queued = self.inbox.deep_view();
        let mut commands: Vec<Command> = Vec::new();
        let mut operation = self.next_operation;
        match &self.handle_many {
            Some(old) => {
                commands.push(Command::Cancel { operation: old.operation });
                self.outbox.push(RepositoryEvent::Aborted);
                if old.operation == operation {
                    operation = next_after(operation);
                }
            },
            None => {},
        }
        let urls = copy_texts(config.feed_urls());
        let count = urls.len();
        assert(count == config.urls().len());
        self.outbox.push(RepositoryEvent::Requesting(count));
        assert(self.outbox.deep_view() =~= sent + RepositoryView::start_events(
            before.many is Some,
            count,
        ));
        let feeds: Vec<Feed> = Vec::new();
        assert(feeds.deep_view() =~= Seq::<FeedView>::empty());
        if count == 0 {
            self.inbox.push(RepositoryEvent::RetrievedAll(feeds));
            assert(self.inbox.deep_view() =~= queued.push(
                EventView::RetrievedAll(Seq::empty()),
            ));
            self.handle_many = None;
        } else {
            self.handle_many = Some(
                Refresh {
                    operation,
                    total: count,
                    completed: 0,
                    feeds,
                    order: *config.sort_order(),
                    urls: copy_texts(&urls),
                },
            );
        }
        self.next_operation = next_after(operation);
        commands.push(Command::FetchAll { operation, urls, timeout: config.refresh_timeout() });
        assert(commands.deep_view() =~= before.refresh_commands(config.urls(), config.timeout()));
        commands
    }

    /// Starts the fetch of one feed from `url`. A single fetch still in
    /// flight is superseded first, as a refresh is by a refresh; a refresh
    /// in flight is not touched.
    pub fn add_feed_url(&mut self, url: &str, config: &Config) -> (commands: Vec<Command>)
        ensures
            final(self)@ == old(self)@.added(),
            commands.deep_view() == old(self)@.add_commands(url@, config.timeout()),
    {
        let ghost before = self@;
        let ghost sent = self.outbox.deep_view();
        let mut commands: Vec<Command> = Vec::new();
        let mut operation = self.next_operation;
        match self.handle_one {
            Some(old) => {
                commands.push(Command::Cancel { operation: old });
                self.outbox.push(RepositoryEvent::Aborted);
                if old == operation {
                    operation = next_after(operation);
                }
            },
            None => {},
        }
        self.outbox.push(RepositoryEvent::Requesting(1));
        assert(self.outbox.deep_view() =~= sent + RepositoryView::start_events(
            before.one is Some,
            1,
        ));
        self.handle_one = Some(operation);
        self.next_operation = next_after(operation);
        commands.push(
            Command::FetchOne { operation, url: url.to_owned(), timeout: config.refresh_timeout() },
        );
        assert(commands.deep_view() =~= before.add_commands(url@, config.timeout()));
        commands
    }

    /// Takes note that one request of the refresh `operation` has settled,
    /// with a feed or without. See [`RepositoryView::settled`].
    pub fn settle(&mut self, operation: u64, outcome: Result<Feed, FetchErr>)
        ensures
            final(self)@ == old(self)@.settled(operation, outcome_view(outcome)),
    {
        let ghost before = self@;
        let counting = match &self.handle_many {
            Some(refresh) => refresh.operation == operation && refresh.completed < refresh.total,
            None => false,
        };
        if !counting {
            return ;
        }
        let mut slot: Option<Refresh> = None;
        std::mem::swap(&mut self.handle_many, &mut slot);
        assert(slot.deep_view() == before.many);
        match slot {
            None => {},
            Some(refresh) => {
                proof {
                    use_type_invariant(&refresh);
                }
                let Refresh { operation, total, completed, feeds, order, urls } = refresh;
                let mut feeds = feeds;
                let ghost gathered = feeds.deep_view();
                let ghost sent = self.outbox.deep_view();
                let ghost queued = self.inbox.deep_view();
                let completed = completed + 1;
                match outcome {
                    Ok(feed) => {
                        feeds.push(feed);
                        assert(feeds.deep_view() =~= gathered.push(feed@));
                    },
                    Err(_) => {},
                }
                self.outbox.push(RepositoryEvent::Requested((completed, total)));
                assert(self.outbox.deep_view() =~= sent.push(
                    EventView::Requested(completed, total),
                ));
                if completed == total {
                    sort_by_order(&mut feeds, &order, &urls);
                    self.inbox.push(RepositoryEvent::RetrievedAll(feeds));
                    assert(self.inbox.deep_view() =~= queued.push(
                        EventView::RetrievedAll(feeds.deep_view()),
                    ));
                } else {
                    self.handle_many = Some(
                        Refresh { operation, total, completed, feeds, order, urls },
                    );
                }
            },
        }
    }

    /// Takes note that the single fetch `operation` has settled, with a
    /// feed or without. See [`RepositoryView::settled_one`].
    pub fn settle_one(&mut self, operation: u64, outcome: Result<Feed, FetchErr>)
        ensures
            final(self)@ == old(self)@.settled_one(operation, outcome_view(outcome)),
    {
        let current = match self.handle_one {
            Some(op) => op == operation,
            None => false,
        };
        if !current {
            return ;
        }
        let ghost sent = self.outbox.deep_view();
        let ghost queued = self.inbox.deep_view();
        self.handle_one = None;
        match outcome {
            Ok(feed) => {
                self.outbox.push(RepositoryEvent::Requested((1, 1)));
                assert(self.outbox.deep_view() =~= sent.push(EventView::Requested(1, 1)));
                self.inbox.push(RepositoryEvent::RetrievedOne(feed));
                assert(self.inbox.deep_view() =~= queued.push(EventView::RetrievedOne(feed@)));
            },
            Err(_) => {
                self.outbox.push(RepositoryEvent::Errored);
                assert(self.outbox.deep_view() =~= sent.push(EventView::Errored));
            },
        }
    }

    /// Handles one message taken off the queue.
    fn handle(&mut self, message: RepositoryEvent, config: &Config) -> (commands: Vec<Command>)
        requires
            config.order() != SortOrder::Unread,
        ensures
            final(self)@ == old(self)@.handled(message.deep_view(), *config),
            commands.deep_view() == old(self)@.handle_commands(message.deep_view(), *config),
    {
        let ghost sent = self.outbox.deep_view();
        match message {
            RepositoryEvent::RetrievedAll(feeds) => {
                let _ = self.storage.write_feeds(&feeds);
                self.outbox.push(RepositoryEvent::RetrievedAll(feeds));
                assert(self.outbox.deep_view() =~= sent.push(
                    EventView::RetrievedAll(feeds.deep_view()),
                ));
                let commands: Vec<Command> = Vec::new();
                assert(commands.deep_view() =~= Seq::<CommandView>::empty());
                commands
            },
            RepositoryEvent::RetrievedOne(feed) => {
                match self.storage.write_feed(&feed) {
                    Ok(_) => {
                        self.outbox.push(RepositoryEvent::RetrievedOne(feed));
                        assert(self.outbox.deep_view() =~= sent.push(
                            EventView::RetrievedOne(feed@),
                        ));
                    },
                    Err(_) => {
                        self.outbox.push(RepositoryEvent::Errored);
                        assert(self.outbox.deep_view() =~= sent.push(EventView::Errored));
                    },
                }
                let commands: Vec<Command> = Vec::new();
                assert(commands.deep_view() =~= Seq::<CommandView>::empty());
                commands
            },
            RepositoryEvent::Refresh => self.refresh_all(config),
            other => {
                let ghost passed = other.deep_view();
                self.outbox.push(other);
                assert(self.outbox.deep_view() =~= sent.push(passed));
                let commands: Vec<Command> = Vec::new();
                assert(commands.deep_view() =~= Seq::<CommandView>::empty());
                commands
            },
        }
    }

    /// Handles every queued message, in the order in which it was queued,
    /// and returns at once: feeds are stored first and then passed on to
    /// the consumer, a request for a refresh starts one, every other
    /// message is passed on as it is. A store that refuses the feeds of a
    /// refresh does not stop them from being passed on; a single feed that
    /// it refuses is reported as an error. Returns the work that the
    /// refreshes started here hand out. The order `Unread` is not implemented and
    /// must not be configured.
    pub fn tick(&mut self, config: &Config) -> (commands: Vec<Command>)
        requires
            config.order() != SortOrder::Unread,
        ensures
            final(self)@ == old(self)@.ticked(*config),
            commands.deep_view() == old(self)@.tick_commands(*config),
    {
        let ghost before = self@;
        let ghost start = RepositoryView { inbox: Seq::empty(), ..before };
        let mut messages: Vec<RepositoryEvent> = Vec::new();
        std::mem::swap(&mut self.inbox, &mut messages);
        let ghost queued = messages.deep_view();
        assert(self.inbox.deep_view() =~= Seq::<EventView>::empty());
        assert(self@ == start);
        let mut commands: Vec<Command> = Vec::new();
        assert(commands.deep_view() =~= Seq::<CommandView>::empty());
        let mut done: usize = 0;
        let total = messages.len();
        assert(queued.skip(0) =~= queued);
        while messages.len() > 0
            invariant
                config.order() != SortOrder::Unread,
                done <= total,
                total == queued.len(),
                messages.len() == total - done,
                messages.deep_view() == queued.skip(done as int),
                self@ == start.handled_all(queued, *config, done as nat),
                commands.deep_view() == start.commands_of_all(queued, *config, done as nat),
            decreases messages.len(),
        {
            let ghost rest = messages.deep_view();
            let ghost so_far = commands.deep_view();
            let message = messages.remove(0);
            assert(message.deep_view() == queued[done as int]) by {
                assert(rest[0] == queued[done as int]);
            }
            assert(messages.deep_view() =~= rest.remove(0));
            assert(rest.remove(0) =~= queued.skip(done + 1));
            let mut more = self.handle(message, config);
            let ghost added = more.deep_view();
            append_commands(&mut commands, &mut more);
            assert(commands.deep_view() == so_far + added);
            done += 1;
        }
        commands
    }
}

/// Moves the commands of `more` behind those of `commands`.
fn append_commands(commands: &mut Vec<Command>, more: &mut Vec<Command>)
    ensures
        final(commands).deep_view() == old(commands).deep_view() + old(more).deep_view(),
{
    let ghost a = commands.deep_view();
    let ghost b = more.deep_view();
    commands.append(more);
    assert(commands.deep_view() =~= a + b);
}

} // verus!
