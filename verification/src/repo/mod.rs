//! The repository: what is stored, what is being fetched, and the events
//! that tell the rest of the program about both.

use vstd::prelude::*;
use crate::feed::normalize::{is_reading, ParseError};
use crate::feed::source::parsed_channel;
use crate::feed::{copy_feeds, Feed, FeedView};

pub mod laws;
pub mod repo;
pub mod storage;

pub use repo::Repository;

verus! {

/// What the repository tells its consumer, and what its background work
/// tells the repository.
#[derive(Debug, PartialEq, Eq)]
pub enum RepositoryEvent {
    /// The timer asks for a refresh. Never passed on to the consumer.
    Refresh,
    /// A refresh has finished with these feeds.
    RetrievedAll(Vec<Feed>),
    /// A single feed has been fetched.
    RetrievedOne(Feed),
    /// So many requests have been started.
    Requesting(usize),
    /// So many requests have settled, of so many.
    Requested((usize, usize)),
    /// A single fetch has failed.
    Errored,
    /// An operation in flight has been cancelled.
    Aborted,
}

/// What a [`RepositoryEvent`] holds.
pub enum EventView {
    Refresh,
    RetrievedAll(Seq<FeedView>),
    RetrievedOne(FeedView),
    Requesting(usize),
    Requested(usize, usize),
    Errored,
    Aborted,
}

impl DeepView for RepositoryEvent {
    type V = EventView;

    open spec fn deep_view(&self) -> EventView {
        match self {
            RepositoryEvent::Refresh => EventView::Refresh,
            RepositoryEvent::RetrievedAll(feeds) => EventView::RetrievedAll(feeds.deep_view()),
            RepositoryEvent::RetrievedOne(feed) => EventView::RetrievedOne(feed@),
            RepositoryEvent::Requesting(n) => EventView::Requesting(*n),
            RepositoryEvent::Requested(counts) => EventView::Requested(counts.0, counts.1),
            RepositoryEvent::Errored => EventView::Errored,
            RepositoryEvent::Aborted => EventView::Aborted,
        }
    }
}

impl Clone for RepositoryEvent {
    fn clone(&self) -> (r: Self)
        ensures
            r.deep_view() == self.deep_view(),
    {
        match self {
            RepositoryEvent::Refresh => RepositoryEvent::Refresh,
            RepositoryEvent::RetrievedAll(feeds) => RepositoryEvent::RetrievedAll(
                copy_feeds(feeds),
            ),
            RepositoryEvent::RetrievedOne(feed) => RepositoryEvent::RetrievedOne(feed.clone()),
            RepositoryEvent::Requesting(n) => RepositoryEvent::Requesting(*n),
            RepositoryEvent::Requested(counts) => RepositoryEvent::Requested(
                (counts.0, counts.1),
            ),
            RepositoryEvent::Errored => RepositoryEvent::Errored,
            RepositoryEvent::Aborted => RepositoryEvent::Aborted,
        }
    }
}

/// Why one request gave no feed.
#[derive(Debug, Clone, Copy, PartialEq, Eq, Structural)]
pub enum FetchErr {
    /// The network call itself failed.
    Request,
    /// The body of the response could not be read.
    Deserialize,
    /// The body was read but gives no feed: it is no syndication document,
    /// or no time of fetching could be recorded for it.
    Parse,
}

/// How one request ended, as far as the network is concerned.
#[derive(Debug, PartialEq, Eq)]
pub enum Response {
    /// The network call failed: no answer, no connection, or too late.
    Failed,
    /// An answer came but its body could not be read.
    Unreadable,
    /// An answer came from `url` with the status code `status` and the
    /// body `bytes`.
    Body { status: u16, url: String, bytes: Vec<u8> },
}

/// Whether a status code reports success: 200 to 299.
pub open spec fn is_success(status: u16) -> bool {
    200 <= status <= 299
}

/// What a settled request gives: the feed, or the reason for none. Only an
/// answer that reports success is read; any other counts as a failed
/// request, whatever its body holds.
pub open spec fn is_outcome(response: Response, outcome: Result<Feed, FetchErr>) -> bool {
    match response {
        Response::Failed => outcome == Err::<Feed, FetchErr>(FetchErr::Request),
        Response::Unreadable => outcome == Err::<Feed, FetchErr>(FetchErr::Deserialize),
        Response::Body { status, url, bytes } => if !is_success(status) {
            outcome == Err::<Feed, FetchErr>(FetchErr::Request)
        } else {
            match outcome {
                Ok(feed) => is_reading(bytes@, url@, feed@) && feed@.last_fetched is Some,
                Err(e) => e == FetchErr::Parse,
            }
        },
    }
}

/// Turns the end of a request into a feed: the body, read and normalized,
/// or the reason why there is none. A failed call, and an answer with a
/// status other than success, gives `Request`; an unreadable body
/// `Deserialize`; a body that cannot be read as a feed `Parse`, which is
/// what a body that is no syndication document always gives.
pub fn make_feed_request(response: Response) -> (outcome: Result<Feed, FetchErr>)
    ensures
        is_outcome(response, outcome),
        response matches Response::Body { status, bytes, .. } ==> is_success(status)
            && parsed_channel(bytes@) is None ==> outcome == Err::<Feed, FetchErr>(
            FetchErr::Parse,
        ),
{
    match response {
        Response::Failed => Err(FetchErr::Request),
        Response::Unreadable => Err(FetchErr::Deserialize),
        Response::Body { status, url, bytes } => {
            if status < 200 || status > 299 {
                Err(FetchErr::Request)
            } else {
                match Feed::read_from(bytes.as_slice(), url) {
                    Ok(feed) => Ok(feed),
                    Err(_) => Err(FetchErr::Parse),
                }
            }
        },
    }
}

/// Work that the repository hands to whoever does the network's part.
#[derive(Debug, PartialEq, Eq)]
pub enum Command {
    /// Request every address at once, each within `timeout` seconds, and
    /// report each request as it settles under the number `operation`.
    FetchAll { operation: u64, urls: Vec<String>, timeout: u64 },
    /// Request one address within `timeout` seconds and report how it
    /// settles under the number `operation`.
    FetchOne { operation: u64, url: String, timeout: u64 },
    /// Stop the requests of `operation`; what they still report is ignored.
    Cancel { operation: u64 },
}

/// What a [`Command`] holds.
pub enum CommandView {
    FetchAll { operation: u64, urls: Seq<Seq<char>>, timeout: u64 },
    FetchOne { operation: u64, url: Seq<char>, timeout: u64 },
    Cancel { operation: u64 },
}

impl DeepView for Command {
    type V = CommandView;

    open spec fn deep_view(&self) -> CommandView {
        match self {
            Command::FetchAll { operation, urls, timeout } => CommandView::FetchAll {
                operation: *operation,
                urls: urls.deep_view(),
                timeout: *timeout,
            },
            Command::FetchOne { operation, url, timeout } => CommandView::FetchOne {
                operation: *operation,
                url: url@,
                timeout: *timeout,
            },
            Command::Cancel { operation } => CommandView::Cancel { operation: *operation },
        }
    }
}

} // verus!
