//! The state of the program as the user sees it: which feed and item are
//! selected, which panel has the focus, what the command line holds, and
//! how far a fetch has come.

use vstd::prelude::*;
use vstd::view::View as _;
use crate::config::Config;
use crate::config::SortOrder;
use crate::feed::{copy_items, Feed, FeedView, Item, ItemView};
use crate::repo::repo::{Repository, RepositoryView};
use crate::repo::storage::StorageView;
use crate::repo::{Command, CommandView, EventView, RepositoryEvent};
use crate::text::{
    insert_char, remove_char, same_text, split_words, with_char, without_char, words,
};
use crate::util::sorted_feeds;

verus! {

/// How far the work in the background has come.
#[derive(Debug, PartialEq, Eq)]
pub enum Status {
    /// So many requests of so many have settled.
    Loading(usize, usize),
    /// The last operation failed, for this reason.
    Errored(String),
    /// Nothing is going on.
    Done,
}

/// What a [`Status`] holds.
pub enum StatusView {
    Loading(usize, usize),
    Errored(Seq<char>),
    Done,
}

impl DeepView for Status {
    type V = StatusView;

    open spec fn deep_view(&self) -> StatusView {
        match self {
            Status::Loading(n, total) => StatusView::Loading(*n, *total),
            Status::Errored(reason) => StatusView::Errored(reason@),
            Status::Done => StatusView::Done,
        }
    }
}

/// What the consumer is told when a single fetch has failed.
pub const REQUEST_FAILED: &'static str = "request failed";

/// What the consumer is told about a command that is none.
pub const UNRECOGNIZED_COMMAND: &'static str = "unrecognized command";

/// What the consumer is told about a command that is not implemented.
pub const NOT_IMPLEMENTED: &'static str = "search is not implemented";

impl StatusView {
    /// The smaller of two counts.
    pub open spec fn at_most(n: int, limit: usize) -> usize {
        if n <= limit {
            n as usize
        } else {
            limit
        }
    }

    /// Whether following `event` stays within the numbers a machine can
    /// count to.
    pub open spec fn can_follow(self, event: EventView) -> bool {
        match (self, event) {
            (StatusView::Loading(_, total), EventView::Requesting(amount)) => total + amount
                <= usize::MAX,
            _ => true,
        }
    }

    /// The status after `event`. A start of requests while loading adds to
    /// the total and keeps the progress; otherwise it begins a new count. A
    /// settled request while loading moves the progress up by one, never
    /// beyond the total; otherwise it sets the counts it reports. Feeds
    /// that arrive end the loading, a failure is an error, a cancellation
    /// ends the loading, and a request of the timer changes nothing.
    pub open spec fn after(self, event: EventView) -> StatusView {
        match event {
            EventView::Requesting(amount) => match self {
                StatusView::Loading(current, total) => StatusView::Loading(
                    current,
                    (total + amount) as usize,
                ),
                _ => StatusView::Loading(0, amount),
            },
            EventView::Requested(completed, total) => match self {
                StatusView::Loading(current, of) => StatusView::Loading(
                    Self::at_most(current + 1, of),
                    of,
                ),
                _ => StatusView::Loading(completed, total),
            },
            EventView::RetrievedAll(_) => StatusView::Done,
            EventView::RetrievedOne(_) => match self {
                StatusView::Loading(_, _) => StatusView::Done,
                _ => self,
            },
            EventView::Errored => StatusView::Errored(REQUEST_FAILED@),
            EventView::Refresh => self,
            EventView::Aborted => StatusView::Done,
        }
    }
}

impl Status {
    /// The status at the start: nothing is going on.
    pub fn new() -> (r: Status)
        ensures
            r.deep_view() == StatusView::Done,
    {
        Status::Done
    }

    /// The status after `event`; see [`StatusView::after`].
    pub fn on_event(self, event: &RepositoryEvent) -> (r: Status)
        requires
            self.deep_view().can_follow(event.deep_view()),
        ensures
            r.deep_view() == self.deep_view().after(event.deep_view()),
    {
        match event {
            RepositoryEvent::Requesting(amount) => match self {
                Status::Loading(current, total) => Status::Loading(current, total + *amount),
                _ => Status::Loading(0, *amount),
            },
            RepositoryEvent::Requested(counts) => match self {
                Status::Loading(current, total) => {
                    let next = if current < total {
                        current + 1
                    } else {
                        total
                    };
                    Status::Loading(next, total)
                },
                _ => Status::Loading(counts.0, counts.1),
            },
            RepositoryEvent::RetrievedAll(_) => Status::Done,
            RepositoryEvent::RetrievedOne(_) => match self {
                Status::Loading(_, _) => Status::Done,
                other => other,
            },
            RepositoryEvent::Errored => Status::Errored(REQUEST_FAILED.to_owned()),
            RepositoryEvent::Refresh => self,
            RepositoryEvent::Aborted => Status::Done,
        }
    }

    /// The status after `event`, or the status as it is where the numbers
    /// would grow beyond what a machine can count to.
    pub fn follow(self, event: &RepositoryEvent) -> (r: Status)
        ensures
            r.deep_view() == (if self.deep_view().can_follow(event.deep_view()) {
                self.deep_view().after(event.deep_view())
            } else {
                self.deep_view()
            }),
    {
        let fits = match (&self, event) {
            (Status::Loading(_, total), RepositoryEvent::Requesting(amount)) => *amount
                <= usize::MAX - *total,
            _ => true,
        };
        if fits {
            self.on_event(event)
        } else {
            self
        }
    }
}

/// A command typed into the console.
#[derive(Debug, PartialEq, Eq)]
pub enum ConsoleCommand {
    AddFeed(String),
    DeleteFeed(Option<String>),
    Search(String),
}

/// What a [`ConsoleCommand`] holds.
pub enum ConsoleCommandView {
    AddFeed(Seq<char>),
    DeleteFeed(Option<Seq<char>>),
    Search(Seq<char>),
}

impl DeepView for ConsoleCommand {
    type V = ConsoleCommandView;

    open spec fn deep_view(&self) -> ConsoleCommandView {
        match self {
            ConsoleCommand::AddFeed(url) => ConsoleCommandView::AddFeed(url@),
            ConsoleCommand::DeleteFeed(url) => ConsoleCommandView::DeleteFeed(url.deep_view()),
            ConsoleCommand::Search(query) => ConsoleCommandView::Search(query@),
        }
    }
}

/// Why a line is no command.
#[derive(Debug, Clone, Copy, PartialEq, Eq, Structural)]
pub enum ConsoleCommandError {
    BadCommand,
    BadArgument,
}

/// The words from the second on, one after the other with nothing between.
pub open spec fn squeezed(parts: Seq<Seq<char>>, k: nat) -> Seq<char>
    decreases k,
{
    if k <= 1 || k > parts.len() {
        Seq::empty()
    } else {
        squeezed(parts, (k - 1) as nat) + parts[k - 1]
    }
}

/// The command that the words `parts` spell. The first word names the
/// command, `:a` or `:add`, `:s` or `:search`, `:d` or `:delete`; adding
/// takes the second word as the address and needs one, searching takes
/// the remaining words together and needs some, deleting takes the second
/// word where there is one.
pub open spec fn command_of(parts: Seq<Seq<char>>) -> Result<
    ConsoleCommandView,
    ConsoleCommandError,
> {
    if parts.len() == 0 {
        Err(ConsoleCommandError::BadCommand)
    } else if parts[0] == ":a"@ || parts[0] == ":add"@ {
        if parts.len() > 1 {
            Ok(ConsoleCommandView::AddFeed(parts[1]))
        } else {
            Err(ConsoleCommandError::BadArgument)
        }
    } else if parts[0] == ":s"@ || parts[0] == ":search"@ {
        if squeezed(parts, parts.len()).len() > 0 {
            Ok(ConsoleCommandView::Search(squeezed(parts, parts.len())))
        } else {
            Err(ConsoleCommandError::BadArgument)
        }
    } else if parts[0] == ":d"@ || parts[0] == ":delete"@ {
        if parts.len() > 1 {
            Ok(ConsoleCommandView::DeleteFeed(Some(parts[1])))
        } else {
            Ok(ConsoleCommandView::DeleteFeed(None))
        }
    } else {
        Err(ConsoleCommandError::BadCommand)
    }
}

/// What a parsed line is, as the contracts speak of it.
pub open spec fn parsed_view(r: Result<ConsoleCommand, ConsoleCommandError>) -> Result<
    ConsoleCommandView,
    ConsoleCommandError,
> {
    match r {
        Ok(command) => Ok(command.deep_view()),
        Err(e) => Err(e),
    }
}

impl ConsoleCommand {
    /// The command that the line `s` spells; see [`command_of`].
    pub fn from_str(s: &str) -> (r: Result<ConsoleCommand, ConsoleCommandError>)
        ensures
            parsed_view(r) == command_of(words(s@)),
    {
        let parts = split_words(s);
        let ghost views = parts.deep_view();
        if parts.len() == 0 {
            return Err(ConsoleCommandError::BadCommand);
        }
        let cmd = parts[0].as_str();
        assert(views[0] == cmd@);
        if same_text(cmd, ":a") || same_text(cmd, ":add") {
            if parts.len() > 1 {
                assert(views[1] == parts[1]@);
                Ok(ConsoleCommand::AddFeed(parts[1].clone()))
            } else {
                Err(ConsoleCommandError::BadArgument)
            }
        } else if same_text(cmd, ":s") || same_text(cmd, ":search") {
            let mut query = String::new();
            let mut i: usize = 1;
            while i < parts.len()
                invariant
                    1 <= i <= parts.len(),
                    views == parts.deep_view(),
                    query@ == squeezed(views, i as nat),
                decreases parts.len() - i,
            {
                assert(views[i as int] == parts[i as int]@);
                crate::text::push_text(&mut query, parts[i].as_str());
                i += 1;
            }
            if query.as_str().is_empty() {
                Err(ConsoleCommandError::BadArgument)
            } else {
                Ok(ConsoleCommand::Search(query))
            }
        } else if same_text(cmd, ":d") || same_text(cmd, ":delete") {
            if parts.len() > 1 {
                assert(views[1] == parts[1]@);
                Ok(ConsoleCommand::DeleteFeed(Some(parts[1].clone())))
            } else {
                Ok(ConsoleCommand::DeleteFeed(None))
            }
        } else {
            Err(ConsoleCommandError::BadCommand)
        }
    }
}

/// The panel that has the focus.
#[derive(Debug, Clone, Copy, PartialEq, Eq, Structural)]
pub enum View {
    MainList,
    SubList,
    Detail,
}

/// The tab that is shown.
#[derive(Debug, Clone, Copy, PartialEq, Eq, Structural)]
pub enum Tab {
    Browse,
    Favorites,
    Tags,
}

impl Tab {
    /// The tab at `index`: `Favorites` at 1, `Tags` at 2, `Browse` at
    /// every other.
    pub open spec fn at(index: usize) -> Tab {
        if index == 1 {
            Tab::Favorites
        } else if index == 2 {
            Tab::Tags
        } else {
            Tab::Browse
        }
    }

    /// The place of the tab in the bar.
    pub open spec fn place(self) -> usize {
        match self {
            Tab::Browse => 0,
            Tab::Favorites => 1,
            Tab::Tags => 2,
        }
    }

    /// The tab to the right, around the end.
    pub open spec fn right(self) -> Tab {
        match self {
            Tab::Browse => Tab::Favorites,
            Tab::Favorites => Tab::Tags,
            Tab::Tags => Tab::Browse,
        }
    }

    /// The tab to the left, around the end.
    pub open spec fn left(self) -> Tab {
        match self {
            Tab::Browse => Tab::Tags,
            Tab::Favorites => Tab::Browse,
            Tab::Tags => Tab::Favorites,
        }
    }

    /// The place of the tab in the bar, from 0.
    pub fn index_of(&self) -> (r: usize)
        ensures
            r == self.place(),
            r < 3,
            Tab::at(r) == *self,
    {
        match self {
            Tab::Browse => 0,
            Tab::Favorites => 1,
            Tab::Tags => 2,
        }
    }

    /// The name of the tab.
    pub fn to_string(&self) -> (r: String)
        ensures
            r@ == (match self {
                Tab::Browse => "Browse"@,
                Tab::Favorites => "Favorites"@,
                Tab::Tags => "Tags"@,
            }),
    {
        match self {
            Tab::Browse => "Browse".to_owned(),
            Tab::Favorites => "Favorites".to_owned(),
            Tab::Tags => "Tags".to_owned(),
        }
    }
}

impl From<usize> for Tab {
    fn from(value: usize) -> (r: Tab) {
        if value == 1 {
            Tab::Favorites
        } else if value == 2 {
            Tab::Tags
        } else {
            Tab::Browse
        }
    }
}

impl vstd::std_specs::convert::FromSpecImpl<usize> for Tab {
    open spec fn obeys_from_spec() -> bool {
        true
    }

    open spec fn from_spec(value: usize) -> Tab {
        Tab::at(value)
    }
}

/// Which row of a list is selected, and which row is the first on screen.
#[derive(Debug, Clone, Copy, PartialEq, Eq, Structural)]
pub struct ListState {
    pub offset: usize,
    pub selected: Option<usize>,
}

impl ListState {
    /// Nothing selected, nothing scrolled.
    pub open spec fn fresh() -> ListState {
        ListState { offset: 0, selected: None }
    }

    /// The state with `index` selected; with nothing selected the list is
    /// scrolled back to its start.
    pub open spec fn selecting(self, index: Option<usize>) -> ListState {
        ListState {
            selected: index,
            offset: if index is None {
                0
            } else {
                self.offset
            },
        }
    }

    /// The row the scrollbar stands at: the selected row, or the first row
    /// on screen where none is selected.
    pub open spec fn shown(self) -> usize {
        match self.selected {
            Some(i) => i,
            None => self.offset,
        }
    }

    pub fn new() -> (r: ListState)
        ensures
            r == ListState::fresh(),
    {
        ListState { offset: 0, selected: None }
    }

    pub fn selected(&self) -> (r: Option<usize>)
        ensures
            r == self.selected,
    {
        self.selected
    }

    pub fn offset(&self) -> (r: usize)
        ensures
            r == self.offset,
    {
        self.offset
    }

    /// Selects `index`; see [`ListState::selecting`].
    pub fn select(&mut self, index: Option<usize>)
        ensures
            *final(self) == old(self).selecting(index),
    {
        self.selected = index;
        if index.is_none() {
            self.offset = 0;
        }
    }

    /// The row the scrollbar stands at.
    pub fn position(&self) -> (r: usize)
        ensures
            r == self.shown(),
    {
        match self.selected {
            Some(i) => i,
            None => self.offset,
        }
    }
}

impl Default for ListState {
    fn default() -> (r: ListState)
        ensures
            r == ListState::fresh(),
    {
        ListState::new()
    }
}

/// Where a scrollbar stands, and how long what it scrolls is.
#[derive(Debug, Clone, Copy, PartialEq, Eq, Structural)]
pub struct ScrollbarState {
    pub content_length: usize,
    pub position: usize,
}

impl ScrollbarState {
    /// At the start of nothing.
    pub open spec fn fresh() -> ScrollbarState {
        ScrollbarState { content_length: 0, position: 0 }
    }

    /// One step on, not beyond the last row.
    pub open spec fn stepped(self) -> ScrollbarState {
        let last = if self.content_length > 0 {
            (self.content_length - 1) as usize
        } else {
            0usize
        };
        let on = if self.position < usize::MAX {
            (self.position + 1) as usize
        } else {
            self.position
        };
        ScrollbarState {
            position: if on <= last {
                on
            } else {
                last
            },
            ..self
        }
    }

    /// One step back, not before the first row.
    pub open spec fn stepped_back(self) -> ScrollbarState {
        ScrollbarState {
            position: if self.position > 0 {
                (self.position - 1) as usize
            } else {
                0
            },
            ..self
        }
    }

    pub fn new() -> (r: ScrollbarState)
        ensures
            r == ScrollbarState::fresh(),
    {
        ScrollbarState { content_length: 0, position: 0 }
    }

    /// This state at `position`.
    pub fn position(self, position: usize) -> (r: ScrollbarState)
        ensures
            r == (ScrollbarState { position, ..self }),
    {
        ScrollbarState { position, ..self }
    }

    /// This state for a content of `content_length` rows.
    pub fn content_length(self, content_length: usize) -> (r: ScrollbarState)
        ensures
            r == (ScrollbarState { content_length, ..self }),
    {
        ScrollbarState { content_length, ..self }
    }

    /// Moves one step on.
    pub fn next(&mut self)
        ensures
            *final(self) == old(self).stepped(),
    {
        let last = if self.content_length > 0 {
            self.content_length - 1
        } else {
            0
        };
        let on = if self.position < usize::MAX {
            self.position + 1
        } else {
            self.position
        };
        self.position = if on <= last {
            on
        } else {
            last
        };
    }

    /// Moves one step back.
    pub fn prev(&mut self)
        ensures
            *final(self) == old(self).stepped_back(),
    {
        self.position = if self.position > 0 {
            self.position - 1
        } else {
            0
        };
    }
}

impl Default for ScrollbarState {
    fn default() -> (r: ScrollbarState)
        ensures
            r == ScrollbarState::fresh(),
    {
        ScrollbarState::new()
    }
}

/// The row selected after a step down a list of `len` rows: the first
/// after the last or after none, the next otherwise; unchanged for an empty
/// list.
pub open spec fn selected_next(selected: Option<usize>, len: nat) -> Option<usize> {
    if len == 0 {
        selected
    } else {
        match selected {
            Some(i) => if i >= len - 1 {
                Some(0)
            } else {
                Some((i + 1) as usize)
            },
            None => Some(0),
        }
    }
}

/// The row selected after a step up a list of `len` rows: the last before
/// the first, the first after none, the one before otherwise; unchanged
/// for an empty list.
pub open spec fn selected_previous(selected: Option<usize>, len: nat) -> Option<usize> {
    if len == 0 {
        selected
    } else {
        match selected {
            Some(i) => if i == 0 {
                Some((len - 1) as usize)
            } else {
                Some((i - 1) as usize)
            },
            None => Some(0),
        }
    }
}

/// A list with a selection.
#[derive(Debug)]
pub struct StatefulList<T> {
    pub state: ListState,
    pub items: Vec<T>,
}

impl<T> StatefulList<T> {
    /// A list of `items` with nothing selected.
    pub fn with_items(items: Vec<T>) -> (r: StatefulList<T>)
        ensures
            r.state == ListState::fresh(),
            r.items == items,
    {
        StatefulList { state: ListState::new(), items }
    }

    /// Moves the selection one row down, around the end.
    pub fn next(&mut self)
        ensures
            final(self).items == old(self).items,
            final(self).state == (if old(self).items@.len() == 0 {
                old(self).state
            } else {
                old(self).state.selecting(
                    selected_next(old(self).state.selected, old(self).items@.len()),
                )
            }),
    {
        if self.items.len() == 0 {
            return ;
        }
        let i = match self.state.selected() {
            Some(i) => {
                if i >= self.items.len() - 1 {
                    0
                } else {
                    i + 1
                }
            },
            None => 0,
        };
        self.state.select(Some(i));
    }

    /// Moves the selection one row up, around the end.
    pub fn previous(&mut self)
        ensures
            final(self).items == old(self).items,
            final(self).state == (if old(self).items@.len() == 0 {
                old(self).state
            } else {
                old(self).state.selecting(
                    selected_previous(old(self).state.selected, old(self).items@.len()),
                )
            }),
    {
        if self.items.len() == 0 {
            return ;
        }
        let i = match self.state.selected() {
            Some(i) => {
                if i == 0 {
                    self.items.len() - 1
                } else {
                    i - 1
                }
            },
            None => 0,
        };
        self.state.select(Some(i));
    }

    /// Selects nothing.
    pub fn unselect(&mut self)
        ensures
            final(self).items == old(self).items,
            final(self).state == old(self).state.selecting(None),
    {
        self.state.select(None);
    }

    pub fn items(&self) -> (r: &Vec<T>)
        ensures
            *r == self.items,
    {
        &self.items
    }

    /// The selected item, where a row is selected and the list has it.
    pub fn current(&self) -> (r: Option<&T>)
        ensures
            match self.state.selected {
                Some(i) => if i < self.items@.len() {
                    r == Some(&self.items@[i as int])
                } else {
                    r is None
                },
                None => r is None,
            },
    {
        match self.state.selected() {
            Some(i) => {
                if i < self.items.len() {
                    Some(&self.items[i])
                } else {
                    None
                }
            },
            None => None,
        }
    }
}

/// The command line: what has been typed, where the cursor stands, counted
/// in characters, and whether the line is shown.
#[derive(Debug)]
pub struct InputState {
    pub input: String,
    pub cursor_position: usize,
    pub show_input: bool,
}

impl InputState {
    /// An empty line that is not shown.
    pub fn new() -> (r: InputState)
        ensures
            r.input@.len() == 0,
            r.cursor_position == 0,
            !r.show_input,
    {
        InputState { input: String::new(), cursor_position: 0, show_input: false }
    }
}

/// Those of the first `k` of `feeds` whose link is not `link`, in order.
pub open spec fn feeds_not_linked(feeds: Seq<FeedView>, link: Seq<char>, k: nat) -> Seq<FeedView>
    decreases k,
{
    if k == 0 || k > feeds.len() {
        Seq::empty()
    } else if feeds[k - 1].link != link {
        feeds_not_linked(feeds, link, (k - 1) as nat).push(feeds[k - 1])
    } else {
        feeds_not_linked(feeds, link, (k - 1) as nat)
    }
}

/// Whether one of `feeds` has the link `link`.
pub open spec fn has_link(feeds: Seq<FeedView>, link: Seq<char>) -> bool {
    exists|i: int| 0 <= i < feeds.len() && (#[trigger] feeds[i]).link == link
}

/// Takes the feeds with the link `link` out of `feeds`; the others keep
/// their order.
pub fn retain_not_linked(feeds: &mut Vec<Feed>, link: &str)
    ensures
        final(feeds).deep_view() == feeds_not_linked(
            old(feeds).deep_view(),
            link@,
            old(feeds).deep_view().len(),
        ),
{
    let mut work: Vec<Feed> = Vec::new();
    std::mem::swap(feeds, &mut work);
    let ghost input = work.deep_view();
    let mut taken: usize = 0;
    assert(input.len() == work.len());
    assert(input.skip(0) =~= input);
    assert(feeds.deep_view() =~= Seq::<FeedView>::empty());
    while work.len() > 0
        invariant
            taken <= input.len(),
            input.len() <= usize::MAX,
            work.deep_view() == input.skip(taken as int),
            work.len() == input.len() - taken,
            feeds.deep_view() == feeds_not_linked(input, link@, taken as nat),
        decreases work.len(),
    {
        let ghost rest = work.deep_view();
        let ghost kept = feeds.deep_view();
        let x = work.remove(0);
        assert(x@ == input[taken as int]) by {
            assert(rest[0] == input[taken as int]);
        }
        assert(work.deep_view() =~= rest.remove(0));
        assert(rest.remove(0) =~= input.skip(taken + 1));
        if !same_text(x.link.as_str(), link) {
            feeds.push(x);
            assert(feeds.deep_view() =~= kept.push(x@));
        }
        taken += 1;
    }
}

/// Whether one of `feeds` has the link `link`.
pub fn find_link(feeds: &Vec<Feed>, link: &str) -> (r: bool)
    ensures
        r == has_link(feeds.deep_view(), link@),
{
    let ghost views = feeds.deep_view();
    let mut i: usize = 0;
    while i < feeds.len()
        invariant
            i <= feeds.len(),
            views == feeds.deep_view(),
            forall|k: int| 0 <= k < i ==> (#[trigger] views[k]).link != link@,
        decreases feeds.len() - i,
    {
        assert(views[i as int] == feeds[i as int]@);
        if same_text(feeds[i].link.as_str(), link) {
            return true;
        }
        i += 1;
    }
    false
}

/// The state of the program.
#[derive(Debug)]
pub struct App {
    pub config: Config,
    pub repo: Repository,
    pub running: bool,
    pub active_view: View,
    pub active_tab: Tab,
    pub feeds: StatefulList<Feed>,
    pub feeds_scroll: ScrollbarState,
    pub items: StatefulList<Item>,
    pub items_scroll: ScrollbarState,
    pub detail_scroll: ScrollbarState,
    pub detail_scroll_index: u16,
    pub show_keybinds: bool,
    pub status: Status,
    pub command_state: InputState,
    pub dimensions: (u16, u16),
}

/// What an [`App`] holds.
pub struct AppView {
    pub config: Config,
    pub repo: RepositoryView,
    pub running: bool,
    pub active_view: View,
    pub active_tab: Tab,
    pub feeds: Seq<FeedView>,
    pub feeds_state: ListState,
    pub feeds_scroll: ScrollbarState,
    pub items: Seq<ItemView>,
    pub items_state: ListState,
    pub items_scroll: ScrollbarState,
    pub detail_scroll: ScrollbarState,
    pub detail_scroll_index: u16,
    pub show_keybinds: bool,
    pub status: StatusView,
    pub input: Seq<char>,
    pub cursor_position: usize,
    pub show_input: bool,
    pub dimensions: (u16, u16),
}

/// What submitting a command asks of the caller.
#[derive(Debug)]
pub struct Submission {
    /// Work for whoever does the network's part.
    pub commands: Vec<Command>,
    /// Whether the configured feeds changed, so that the file needs
    /// writing.
    pub config_changed: bool,
}

impl AppView {
    /// The selected feed, where one is selected and the list has it.
    pub open spec fn current_feed(self) -> Option<FeedView> {
        match self.feeds_state.selected {
            Some(i) => if i < self.feeds.len() {
                Some(self.feeds[i as int])
            } else {
                None
            },
            None => None,
        }
    }

    /// The selected item, where one is selected and the list has it.
    pub open spec fn current_item(self) -> Option<ItemView> {
        match self.items_state.selected {
            Some(i) => if i < self.items.len() {
                Some(self.items[i as int])
            } else {
                None
            },
            None => None,
        }
    }

    /// The state after the selection of feeds has moved to `state`: the
    /// scrollbar follows, and the items of the feed now selected are
    /// listed.
    pub open spec fn with_feed_selection(self, state: ListState) -> AppView {
        let moved = AppView {
            feeds_state: state,
            feeds_scroll: ScrollbarState { position: state.shown(), ..self.feeds_scroll },
            ..self
        };
        match moved.current_feed() {
            Some(feed) => AppView {
                items: feed.items,
                items_scroll: ScrollbarState {
                    content_length: feed.items.len() as usize,
                    ..moved.items_scroll
                },
                ..moved
            },
            None => moved,
        }
    }

    /// The selection of feeds after a step down.
    pub open spec fn feeds_down(self) -> ListState {
        if self.feeds.len() == 0 {
            self.feeds_state
        } else {
            self.feeds_state.selecting(selected_next(self.feeds_state.selected, self.feeds.len()))
        }
    }

    /// The selection of feeds after a step up.
    pub open spec fn feeds_up(self) -> ListState {
        if self.feeds.len() == 0 {
            self.feeds_state
        } else {
            self.feeds_state.selecting(
                selected_previous(self.feeds_state.selected, self.feeds.len()),
            )
        }
    }

    pub open spec fn next_feed(self) -> AppView {
        self.with_feed_selection(self.feeds_down())
    }

    pub open spec fn prev_feed(self) -> AppView {
        self.with_feed_selection(self.feeds_up())
    }

    /// The state after the selection of items has moved to `state`: the
    /// scrollbar follows.
    pub open spec fn with_item_selection(self, state: ListState) -> AppView {
        AppView {
            items_state: state,
            items_scroll: ScrollbarState { position: state.shown(), ..self.items_scroll },
            ..self
        }
    }

    pub open spec fn next_item(self) -> AppView {
        self.with_item_selection(
            if self.items.len() == 0 {
                self.items_state
            } else {
                self.items_state.selecting(
                    selected_next(self.items_state.selected, self.items.len()),
                )
            },
        )
    }

    pub open spec fn prev_item(self) -> AppView {
        self.with_item_selection(
            if self.items.len() == 0 {
                self.items_state
            } else {
                self.items_state.selecting(
                    selected_previous(self.items_state.selected, self.items.len()),
                )
            },
        )
    }

    /// The state with no item selected and the list of items scrolled back.
    pub open spec fn reset_items_scroll(self) -> AppView {
        AppView {
            items_state: self.items_state.selecting(None),
            items_scroll: ScrollbarState { position: 0, ..self.items_scroll },
            ..self
        }
    }

    /// The state with the detail scrolled back.
    pub open spec fn reset_detail_scroll(self) -> AppView {
        AppView {
            detail_scroll_index: 0,
            detail_scroll: ScrollbarState { position: 0, ..self.detail_scroll },
            ..self
        }
    }

    /// The state after the focus has moved one panel on. Without a selected
    /// feed the focus is on the list of feeds. From there it moves to the
    /// items, selecting the first where none is selected; from the items to
    /// the detail where an item is selected; and from the last panel that
    /// can have it back to the feeds where `wrap` is set.
    pub open spec fn next_view(self, wrap: bool) -> AppView {
        if self.current_feed() is None {
            AppView { active_view: View::MainList, ..self }
        } else {
            match self.active_view {
                View::MainList => {
                    let moved = if self.items_state.selected is None {
                        self.next_item()
                    } else {
                        self
                    };
                    AppView { active_view: View::SubList, ..moved }
                },
                View::SubList => if self.current_item() is Some {
                    AppView { active_view: View::Detail, ..self }
                } else if wrap {
                    AppView { active_view: View::MainList, ..self }
                } else {
                    self
                },
                View::Detail => if wrap {
                    AppView { active_view: View::MainList, ..self }
                } else {
                    self
                },
            }
        }
    }

    /// The state after the focus has moved one panel back. Without a
    /// selected feed the focus is on the list of feeds. From the detail it
    /// moves to the items, from the items to the feeds, and from the feeds,
    /// where `wrap` is set, to the last panel that can have it.
    pub open spec fn prev_view(self, wrap: bool) -> AppView {
        if self.current_feed() is None {
            AppView { active_view: View::MainList, ..self }
        } else {
            match self.active_view {
                View::MainList => if wrap && self.current_item() is Some {
                    AppView { active_view: View::Detail, ..self }
                } else if wrap {
                    AppView { active_view: View::SubList, ..self }
                } else {
                    self
                },
                View::SubList => AppView { active_view: View::MainList, ..self },
                View::Detail => AppView { active_view: View::SubList, ..self },
            }
        }
    }

    /// The state after a step down in the panel that has the focus.
    pub open spec fn next(self) -> AppView {
        match self.active_view {
            View::MainList => self.reset_items_scroll().reset_detail_scroll().next_feed(),
            View::SubList => self.reset_detail_scroll().next_item(),
            View::Detail => AppView {
                detail_scroll_index: if self.detail_scroll_index < u16::MAX {
                    (self.detail_scroll_index + 1) as u16
                } else {
                    u16::MAX
                },
                detail_scroll: self.detail_scroll.stepped(),
                ..self
            },
        }
    }

    /// The state after a step up in the panel that has the focus.
    pub open spec fn prev(self) -> AppView {
        match self.active_view {
            View::MainList => self.reset_items_scroll().reset_detail_scroll().prev_feed(),
            View::SubList => self.reset_detail_scroll().prev_item(),
            View::Detail => AppView {
                detail_scroll_index: if self.detail_scroll_index > 0 {
                    (self.detail_scroll_index - 1) as u16
                } else {
                    0
                },
                detail_scroll: self.detail_scroll.stepped_back(),
                ..self
            },
        }
    }

    /// The state after the selection has been given up: that of the item
    /// where one is selected, that of the feed otherwise; the focus moves
    /// one panel back.
    pub open spec fn unselect(self) -> AppView {
        (if self.current_item() is Some {
            AppView { items_state: self.items_state.selecting(None), ..self }
        } else {
            AppView { feeds_state: self.feeds_state.selecting(None), ..self }
        }).prev_view(false)
    }

    /// What to open: the link of the selected feed from the list of feeds,
    /// the link of the selected item from the list of items.
    pub open spec fn link_to_open(self) -> Option<Seq<char>> {
        match self.active_view {
            View::MainList => match self.current_feed() {
                Some(feed) => Some(feed.link),
                None => None,
            },
            View::SubList => match self.current_item() {
                Some(item) => item.link,
                None => None,
            },
            View::Detail => None,
        }
    }

    /// A cursor position held within the line.
    pub open spec fn clamp_cursor(self, position: usize) -> usize {
        if position <= self.input.len() {
            position
        } else {
            self.input.len() as usize
        }
    }

    /// The state after the console has been shown or hidden: shown with
    /// `line` typed and the cursor behind it, or with an empty line.
    pub open spec fn toggle_console(self, line: Option<Seq<char>>) -> AppView {
        match line {
            Some(text) => AppView {
                input: text,
                cursor_position: text.len() as usize,
                show_input: !self.show_input,
                ..self
            },
            None => AppView {
                input: Seq::empty(),
                cursor_position: 0,
                show_input: !self.show_input,
                ..self
            },
        }
    }

    pub open spec fn move_cursor_left(self) -> AppView {
        AppView {
            cursor_position: self.clamp_cursor(
                if self.cursor_position > 0 {
                    (self.cursor_position - 1) as usize
                } else {
                    0
                },
            ),
            ..self
        }
    }

    pub open spec fn move_cursor_right(self) -> AppView {
        AppView {
            cursor_position: self.clamp_cursor(
                if self.cursor_position < usize::MAX {
                    (self.cursor_position + 1) as usize
                } else {
                    usize::MAX
                },
            ),
            ..self
        }
    }

    /// The state after `c` has been typed at the cursor.
    pub open spec fn enter_char(self, c: char) -> AppView {
        (AppView { input: with_char(self.input, self.cursor_position as int, c), ..self })
            .move_cursor_right()
    }

    /// The state after the character before the cursor has been deleted.
    pub open spec fn delete_char(self) -> AppView {
        if self.cursor_position != 0 {
            (AppView { input: without_char(self.input, self.cursor_position - 1), ..self })
                .move_cursor_left()
        } else {
            self
        }
    }

    /// The address that a command to delete names: its own, otherwise the
    /// link of the selected feed.
    pub open spec fn address_to_delete(self, named: Option<Seq<char>>) -> Option<Seq<char>> {
        match named {
            Some(url) => Some(url),
            None => match self.current_feed() {
                Some(feed) => Some(feed.link),
                None => None,
            },
        }
    }

    /// The configured feeds after the line in the console has been
    /// submitted.
    pub open spec fn submitted_urls(self) -> Seq<Seq<char>> {
        match command_of(words(self.input)) {
            Ok(ConsoleCommandView::AddFeed(url)) => if self.config.urls().contains(url) {
                self.config.urls()
            } else {
                self.config.urls().push(url)
            },
            Ok(ConsoleCommandView::DeleteFeed(named)) => match self.address_to_delete(named) {
                Some(url) => crate::config::without(self.config.urls(), url),
                None => self.config.urls(),
            },
            _ => self.config.urls(),
        }
    }

    /// The work that submitting the line in the console hands out.
    pub open spec fn submit_commands(self) -> Seq<CommandView> {
        match command_of(words(self.input)) {
            Ok(ConsoleCommandView::AddFeed(url)) => self.repo.add_commands(
                url,
                self.config.timeout(),
            ),
            _ => Seq::empty(),
        }
    }

    /// The state after the line in the console has been submitted, but for
    /// the configuration. Adding starts the fetch of the feed; deleting
    /// takes the feed out of the store and out of the list and gives the
    /// selection up; a search and a line that is no command are reported
    /// as errors. In every case the console is emptied and hidden.
    pub open spec fn submitted(self) -> AppView {
        let handled = match command_of(words(self.input)) {
            Ok(ConsoleCommandView::AddFeed(url)) => AppView { repo: self.repo.added(), ..self },
            Ok(ConsoleCommandView::DeleteFeed(named)) => match self.address_to_delete(named) {
                Some(url) => (AppView {
                    repo: RepositoryView {
                        storage: self.repo.storage.deleted(url),
                        ..self.repo
                    },
                    feeds: feeds_not_linked(self.feeds, url, self.feeds.len()),
                    feeds_state: self.feeds_state.selecting(None),
                    ..self
                }).reset_items_scroll().reset_detail_scroll(),
                None => self,
            },
            Ok(ConsoleCommandView::Search(_)) => AppView {
                status: StatusView::Errored(NOT_IMPLEMENTED@),
                ..self
            },
            Err(_) => AppView { status: StatusView::Errored(UNRECOGNIZED_COMMAND@), ..self },
        };
        AppView {
            input: Seq::empty(),
            cursor_position: 0,
            show_input: !self.show_input,
            ..handled
        }
    }

    /// Whether `config` is the configuration of this state with the feeds
    /// `urls` configured and nothing else changed.
    pub open spec fn configured(self, config: Config, urls: Seq<Seq<char>>) -> bool {
        &&& config.urls() == urls
        &&& config.order() == self.config.order()
        &&& config.cache() == self.config.cache()
        &&& config.interval() == self.config.interval()
        &&& config.timeout() == self.config.timeout()
        &&& config.colors() == self.config.colors()
        &&& config.dir() == self.config.dir()
        &&& config.file() == self.config.file()
    }

    /// Whether `event` ends the taking in of events for one tick.
    pub open spec fn ends_tick(event: EventView) -> bool {
        match event {
            EventView::RetrievedAll(_) => true,
            EventView::RetrievedOne(_) => true,
            EventView::Errored => true,
            EventView::Aborted => true,
            _ => false,
        }
    }

    /// The status after `event`, as far as the numbers can follow.
    pub open spec fn status_after(self, event: EventView) -> StatusView {
        if self.status.can_follow(event) {
            self.status.after(event)
        } else {
            self.status
        }
    }

    /// The state after one event of the repository has been taken in: the
    /// status follows; the feeds of a refresh replace those listed; a
    /// single feed joins them unless one with its link is listed.
    pub open spec fn took_in(self, event: EventView) -> AppView {
        let status = self.status_after(event);
        match event {
            EventView::RetrievedAll(feeds) => AppView { feeds, status, ..self },
            EventView::RetrievedOne(feed) => if has_link(self.feeds, feed.link) {
                AppView { status, ..self }
            } else {
                AppView { feeds: self.feeds.push(feed), status, ..self }
            },
            _ => AppView { status, ..self },
        }
    }

    /// The state after the events that wait in the repository have been
    /// taken in, oldest first, up to and with the first that ends the
    /// taking in.
    pub open spec fn absorbed(self) -> AppView
        decreases self.repo.outbox.len(),
    {
        if self.repo.outbox.len() == 0 {
            self
        } else {
            let event = self.repo.outbox[0];
            let rest = AppView {
                repo: RepositoryView { outbox: self.repo.outbox.drop_first(), ..self.repo },
                ..self
            };
            let taken = AppView { repo: rest.repo, ..rest.took_in(event) };
            if Self::ends_tick(event) {
                taken
            } else {
                taken.absorbed()
            }
        }
    }

    /// The state after a tick: the repository has handled what was queued
    /// for it, and the events it holds for the consumer have been taken in.
    pub open spec fn ticked(self) -> AppView {
        (AppView { repo: self.repo.ticked(self.config), ..self }).absorbed()
    }
}

impl DeepView for App {
    type V = AppView;

    open spec fn deep_view(&self) -> AppView {
        AppView {
            config: self.config,
            repo: self.repo@,
            running: self.running,
            active_view: self.active_view,
            active_tab: self.active_tab,
            feeds: self.feeds.items.deep_view(),
            feeds_state: self.feeds.state,
            feeds_scroll: self.feeds_scroll,
            items: self.items.items.deep_view(),
            items_state: self.items.state,
            items_scroll: self.items_scroll,
            detail_scroll: self.detail_scroll,
            detail_scroll_index: self.detail_scroll_index,
            show_keybinds: self.show_keybinds,
            status: self.status.deep_view(),
            input: self.command_state.input@,
            cursor_position: self.command_state.cursor_position,
            show_input: self.command_state.show_input,
            dimensions: self.dimensions,
        }
    }
}

impl App {
    /// The program at its start: the stored feeds listed in the configured
    /// order, nothing selected, the focus on the list of feeds, nothing
    /// going on. The order `Unread` is not implemented and must not be
    /// configured.
    pub fn init(dimensions: (u16, u16), config: Config, repo: Repository) -> (app: App)
        requires
            config.order() != SortOrder::Unread,
        ensures
            app.deep_view() == (AppView {
                config,
                repo: repo@,
                running: true,
                active_view: View::MainList,
                active_tab: Tab::Browse,
                feeds: sorted_feeds(repo@.storage.loaded(), config.order(), config.urls()),
                feeds_state: ListState::fresh(),
                feeds_scroll: ScrollbarState {
                    content_length: repo@.storage.loaded().len() as usize,
                    position: 0,
                },
                items: Seq::empty(),
                items_state: ListState::fresh(),
                items_scroll: ScrollbarState::fresh(),
                detail_scroll: ScrollbarState::fresh(),
                detail_scroll_index: 0,
                show_keybinds: false,
                status: StatusView::Done,
                input: Seq::empty(),
                cursor_position: 0,
                show_input: false,
                dimensions,
            }),
    {
        let feeds = match repo.read_all(&config) {
            Ok(feeds) => feeds,
            Err(_) => Vec::new(),
        };
        proof {
            crate::util::lemma_sorted_is_permutation(
                repo@.storage.loaded(),
                config.order(),
                config.urls(),
            );
        }
        let count = feeds.len();
        assert(count == feeds.deep_view().len());
        let items: Vec<Item> = Vec::new();
        assert(items.deep_view() =~= Seq::<ItemView>::empty());
        let command_state = InputState::new();
        assert(command_state.input@ =~= Seq::<char>::empty());
        App {
            config,
            repo,
            running: true,
            dimensions,
            active_view: View::MainList,
            active_tab: Tab::Browse,
            feeds: StatefulList::with_items(feeds),
            feeds_scroll: ScrollbarState::new().content_length(count),
            items: StatefulList::with_items(items),
            items_scroll: ScrollbarState::new(),
            detail_scroll: ScrollbarState::new(),
            detail_scroll_index: 0,
            status: Status::new(),
            show_keybinds: false,
            command_state,
        }
    }

    /// Takes in one event of the repository.
    fn take_in(&mut self, event: RepositoryEvent)
        ensures
            final(self).deep_view() == old(self).deep_view().took_in(event.deep_view()),
    {
        let mut status = Status::Done;
        std::mem::swap(&mut self.status, &mut status);
        self.status = status.follow(&event);
        match event {
            RepositoryEvent::RetrievedAll(feeds) => {
                self.set_feeds(feeds);
            },
            RepositoryEvent::RetrievedOne(feed) => {
                if !find_link(&self.feeds.items, feed.link.as_str()) {
                    let ghost before = self.feeds.items.deep_view();
                    self.feeds.items.push(feed);
                    assert(self.feeds.items.deep_view() =~= before.push(feed@));
                }
            },
            _ => {},
        }
    }

    /// Handles the tick of the terminal: lets the repository handle what
    /// was queued for it, then takes in the events it holds, up to and
    /// with the first that ends an operation. Returns the work that the
    /// repository hands out. The order `Unread` is not implemented and
    /// must not be configured.
    pub fn tick(&mut self) -> (commands: Vec<Command>)
        requires
            old(self).config.order() != SortOrder::Unread,
        ensures
            final(self).deep_view() == old(self).deep_view().ticked(),
            commands.deep_view() == old(self).deep_view().repo.tick_commands(old(self).config),
    {
        let commands = self.repo.tick(&self.config);
        let ghost start = self.deep_view();
        loop
            invariant_except_break
                self.deep_view().absorbed() == start.absorbed(),
            ensures
                self.deep_view() == start.absorbed(),
            decreases self.repo@.outbox.len(),
        {
            match self.repo.pop_event() {
                None => {
                    break ;
                },
                Some(event) => {
                    let stop = match &event {
                        RepositoryEvent::RetrievedAll(_) => true,
                        RepositoryEvent::RetrievedOne(_) => true,
                        RepositoryEvent::Errored => true,
                        RepositoryEvent::Aborted => true,
                        _ => false,
                    };
                    self.take_in(event);
                    if stop {
                        break ;
                    }
                },
            }
        }
        commands
    }

    /// Stops the program.
    pub fn quit(&mut self)
        ensures
            final(self).deep_view() == (AppView { running: false, ..old(self).deep_view() }),
    {
        self.running = false;
    }

    pub fn set_dimensions(&mut self, dimensions: (u16, u16))
        ensures
            final(self).deep_view() == (AppView { dimensions, ..old(self).deep_view() }),
    {
        self.dimensions = dimensions;
    }

    /// The rows that a list has on a screen of the current height: eight
    /// less than the height, none on a lower screen.
    pub open spec fn rows(dimensions: (u16, u16)) -> int {
        if dimensions.1 >= 8 {
            dimensions.1 - 8
        } else {
            0
        }
    }

    /// Whether the feeds do not fit on the screen.
    pub fn should_render_feeds_scroll(&self) -> (r: bool)
        ensures
            r == (self.feeds.items@.len() > App::rows(self.dimensions)),
    {
        let rows: usize = if self.dimensions.1 >= 8 {
            (self.dimensions.1 - 8) as usize
        } else {
            0
        };
        self.feeds.items.len() > rows
    }

    /// Whether the items do not fit on the screen.
    pub fn should_render_items_scroll(&self) -> (r: bool)
        ensures
            r == (self.items.items@.len() > App::rows(self.dimensions)),
    {
        let rows: usize = if self.dimensions.1 >= 8 {
            (self.dimensions.1 - 8) as usize
        } else {
            0
        };
        self.items.items.len() > rows
    }

    /// The detail never shows a scrollbar.
    pub fn should_render_detail_scroll(&self) -> (r: bool)
        ensures
            !r,
    {
        false
    }

    pub fn should_render_console(&self) -> (r: bool)
        ensures
            r == self.command_state.show_input,
    {
        self.command_state.show_input
    }

    /// The selected feed.
    pub fn current_feed(&self) -> (r: Option<&Feed>)
        ensures
            r.deep_view() == self.deep_view().current_feed(),
    {
        self.feeds.current()
    }

    /// The selected item.
    pub fn current_item(&self) -> (r: Option<&Item>)
        ensures
            r.deep_view() == self.deep_view().current_item(),
    {
        self.items.current()
    }

    /// Lists the items of the selected feed, where one is selected, and
    /// lets the scrollbar of the feeds follow the selection.
    fn follow_feed(&mut self)
        ensures
            final(self).deep_view() == old(self).deep_view().with_feed_selection(
                old(self).feeds.state,
            ),
    {
        self.feeds_scroll = self.feeds_scroll.position(self.feeds.state.position());
        let items = match self.feeds.current() {
            Some(feed) => Some(copy_items(&feed.items)),
            None => None,
        };
        match items {
            Some(items) => {
                let count = items.len();
                assert(count == items.deep_view().len());
                self.items.items = items;
                self.items_scroll = self.items_scroll.content_length(count);
            },
            None => {},
        }
    }

    /// Moves the selection of feeds one down and lists the items of the
    /// feed then selected.
    pub fn next_feed(&mut self)
        ensures
            final(self).deep_view() == old(self).deep_view().next_feed(),
    {
        self.feeds.next();
        self.follow_feed();
    }

    /// Moves the selection of feeds one up and lists the items of the feed
    /// then selected.
    pub fn prev_feed(&mut self)
        ensures
            final(self).deep_view() == old(self).deep_view().prev_feed(),
    {
        self.feeds.previous();
        self.follow_feed();
    }

    pub fn next_item(&mut self)
        ensures
            final(self).deep_view() == old(self).deep_view().next_item(),
    {
        self.items.next();
        self.items_scroll = self.items_scroll.position(self.items.state.position());
    }

    pub fn prev_item(&mut self)
        ensures
            final(self).deep_view() == old(self).deep_view().prev_item(),
    {
        self.items.previous();
        self.items_scroll = self.items_scroll.position(self.items.state.position());
    }

    /// Moves the focus one panel on; see [`AppView::next_view`].
    pub fn next_view(&mut self, wrap: bool)
        ensures
            final(self).deep_view() == old(self).deep_view().next_view(wrap),
    {
        let has_current_feed = self.current_feed().is_some();
        let has_current_item = self.current_item().is_some();
        if !has_current_feed {
            self.active_view = View::MainList;
            return ;
        }
        match self.active_view {
            View::MainList => {
                if self.items.state.selected().is_none() {
                    self.next_item();
                }
                self.active_view = View::SubList;
            },
            View::SubList => {
                if has_current_item {
                    self.active_view = View::Detail;
                } else if wrap {
                    self.active_view = View::MainList;
                }
            },
            View::Detail => {
                if wrap {
                    self.active_view = View::MainList;
                }
            },
        }
    }

    /// Moves the focus one panel back; see [`AppView::prev_view`].
    pub fn prev_view(&mut self, wrap: bool)
        ensures
            final(self).deep_view() == old(self).deep_view().prev_view(wrap),
    {
        let has_current_feed = self.current_feed().is_some();
        let has_current_item = self.current_item().is_some();
        if !has_current_feed {
            self.active_view = View::MainList;
            return ;
        }
        match self.active_view {
            View::MainList => {
                if wrap && has_current_item {
                    self.active_view = View::Detail;
                } else if wrap {
                    self.active_view = View::SubList;
                }
            },
            View::SubList => {
                self.active_view = View::MainList;
            },
            View::Detail => {
                self.active_view = View::SubList;
            },
        }
    }

    /// Moves one step down in the panel that has the focus.
    pub fn next(&mut self)
        ensures
            final(self).deep_view() == old(self).deep_view().next(),
    {
        match self.active_view {
            View::MainList => {
                self.reset_items_scroll();
                self.reset_detail_scroll();
                self.next_feed();
            },
            View::SubList => {
                self.reset_detail_scroll();
                self.next_item();
            },
            View::Detail => {
                if self.detail_scroll_index < u16::MAX {
                    self.detail_scroll_index = self.detail_scroll_index + 1;
                }
                self.detail_scroll.next();
            },
        }
    }

    /// Moves one step up in the panel that has the focus.
    pub fn prev(&mut self)
        ensures
            final(self).deep_view() == old(self).deep_view().prev(),
    {
        match self.active_view {
            View::MainList => {
                self.reset_items_scroll();
                self.reset_detail_scroll();
                self.prev_feed();
            },
            View::SubList => {
                self.reset_detail_scroll();
                self.prev_item();
            },
            View::Detail => {
                if self.detail_scroll_index > 0 {
                    self.detail_scroll_index = self.detail_scroll_index - 1;
                }
                self.detail_scroll.prev();
            },
        }
    }

    pub fn next_tab(&mut self)
        ensures
            final(self).deep_view() == (AppView {
                active_tab: old(self).active_tab.right(),
                ..old(self).deep_view()
            }),
    {
        let next_tab = match self.active_tab {
            Tab::Browse => Tab::Favorites,
            Tab::Favorites => Tab::Tags,
            Tab::Tags => Tab::Browse,
        };
        self.active_tab = next_tab;
    }

    pub fn prev_tab(&mut self)
        ensures
            final(self).deep_view() == (AppView {
                active_tab: old(self).active_tab.left(),
                ..old(self).deep_view()
            }),
    {
        let prev_tab = match self.active_tab {
            Tab::Browse => Tab::Tags,
            Tab::Favorites => Tab::Browse,
            Tab::Tags => Tab::Favorites,
        };
        self.active_tab = prev_tab;
    }

    pub fn set_tab(&mut self, index: usize)
        ensures
            final(self).deep_view() == (AppView {
                active_tab: Tab::at(index),
                ..old(self).deep_view()
            }),
    {
        self.active_tab = Tab::from(index);
    }

    /// Gives the selection up; see [`AppView::unselect`].
    pub fn unselect(&mut self)
        ensures
            final(self).deep_view() == old(self).deep_view().unselect(),
    {
        if self.current_item().is_some() {
            self.items.state.select(None);
        } else {
            self.feeds.state.select(None);
        }
        self.prev_view(false);
    }

    /// The link that the user asks to open; see [`AppView::link_to_open`].
    /// Opening it is the caller's part.
    pub fn open(&self) -> (r: Option<String>)
        ensures
            r.deep_view() == self.deep_view().link_to_open(),
    {
        match self.active_view {
            View::MainList => match self.current_feed() {
                Some(feed) => Some(feed.link.clone()),
                None => None,
            },
            View::SubList => match self.current_item() {
                Some(item) => crate::feed::copy_text(&item.link),
                None => None,
            },
            View::Detail => None,
        }
    }

    /// The configuration file, which the user asks to open. Opening it is
    /// the caller's part.
    pub fn open_config(&self) -> (r: std::path::PathBuf)
        ensures
            r == self.config.file(),
    {
        self.config.config_file_path()
    }

    /// Starts a refresh of the configured feeds; see
    /// [`Repository::refresh_all`].
    pub fn refresh_all(&mut self) -> (commands: Vec<Command>)
        requires
            old(self).config.order() != SortOrder::Unread,
        ensures
            final(self).deep_view() == (AppView {
                repo: old(self).repo@.refreshed(old(self).config.urls(), old(self).config.order()),
                ..old(self).deep_view()
            }),
            commands.deep_view() == old(self).repo@.refresh_commands(
                old(self).config.urls(),
                old(self).config.timeout(),
            ),
    {
        self.repo.refresh_all(&self.config)
    }

    pub fn toggle_keybinds(&mut self)
        ensures
            final(self).deep_view() == (AppView {
                show_keybinds: !old(self).show_keybinds,
                ..old(self).deep_view()
            }),
    {
        self.show_keybinds = !self.show_keybinds;
    }

    /// Shows or hides the console; see [`AppView::toggle_console`].
    pub fn toggle_console(&mut self, cmd: Option<&str>)
        ensures
            final(self).deep_view() == old(self).deep_view().toggle_console(cmd.deep_view()),
    {
        match cmd {
            Some(text) => {
                self.command_state.input = text.to_owned();
                self.command_state.cursor_position = vstd::string::StrSliceExecFns::unicode_len(
                    text,
                );
            },
            None => {
                self.command_state.input = String::new();
                self.reset_cursor();
            },
        }
        self.command_state.show_input = !self.command_state.show_input;
    }

    pub fn move_cursor_left(&mut self)
        ensures
            final(self).deep_view() == old(self).deep_view().move_cursor_left(),
    {
        let moved = if self.command_state.cursor_position > 0 {
            self.command_state.cursor_position - 1
        } else {
            0
        };
        self.command_state.cursor_position = self.clamp_cursor(moved);
    }

    pub fn move_cursor_right(&mut self)
        ensures
            final(self).deep_view() == old(self).deep_view().move_cursor_right(),
    {
        let moved = if self.command_state.cursor_position < usize::MAX {
            self.command_state.cursor_position + 1
        } else {
            usize::MAX
        };
        self.command_state.cursor_position = self.clamp_cursor(moved);
    }

    /// Types `new_char` at the cursor.
    pub fn enter_char(&mut self, new_char: char)
        ensures
            final(self).deep_view() == old(self).deep_view().enter_char(new_char),
    {
        self.command_state.input = insert_char(
            self.command_state.input.as_str(),
            self.command_state.cursor_position,
            new_char,
        );
        self.move_cursor_right();
    }

    /// Deletes the character before the cursor.
    pub fn delete_char(&mut self)
        ensures
            final(self).deep_view() == old(self).deep_view().delete_char(),
    {
        if self.command_state.cursor_position != 0 {
            self.command_state.input = remove_char(
                self.command_state.input.as_str(),
                self.command_state.cursor_position - 1,
            );
            self.move_cursor_left();
        }
    }

    /// A cursor position held within the line.
    pub fn clamp_cursor(&self, new_cursor_pos: usize) -> (r: usize)
        ensures
            r == self.deep_view().clamp_cursor(new_cursor_pos),
    {
        let len = vstd::string::StrSliceExecFns::unicode_len(self.command_state.input.as_str());
        if new_cursor_pos <= len {
            new_cursor_pos
        } else {
            len
        }
    }

    pub fn reset_cursor(&mut self)
        ensures
            final(self).deep_view() == (AppView { cursor_position: 0, ..old(self).deep_view() }),
    {
        self.command_state.cursor_position = 0;
    }

    /// Lists `feeds` in place of those listed.
    pub fn set_feeds(&mut self, feeds: Vec<Feed>)
        ensures
            final(self).deep_view() == (AppView {
                feeds: feeds.deep_view(),
                ..old(self).deep_view()
            }),
    {
        self.feeds.items = feeds;
    }

    pub fn reset_items_scroll(&mut self)
        ensures
            final(self).deep_view() == old(self).deep_view().reset_items_scroll(),
    {
        self.items.state.select(None);
        self.items_scroll = self.items_scroll.position(0);
    }

    pub fn reset_detail_scroll(&mut self)
        ensures
            final(self).deep_view() == old(self).deep_view().reset_detail_scroll(),
    {
        self.detail_scroll_index = 0;
        self.detail_scroll = self.detail_scroll.position(0);
    }
    /// Submits the line in the console; see [`AppView::submitted`]. Says
    /// what work the caller has to hand on and whether the configured
    /// feeds changed.
    pub fn submit_command(&mut self) -> (r: Submission)
        ensures
            final(self).deep_view() == (AppView {
                config: final(self).config,
                ..old(self).deep_view().submitted()
            }),
            old(self).deep_view().configured(
                final(self).config,
                old(self).deep_view().submitted_urls(),
            ),
            r.commands.deep_view() == old(self).deep_view().submit_commands(),
            r.config_changed == (final(self).config.urls() != old(self).config.urls()),
    {
        let ghost before = self.deep_view();
        let mut commands: Vec<Command> = Vec::new();
        assert(commands.deep_view() =~= Seq::<CommandView>::empty());
        let mut config_changed = false;
        match ConsoleCommand::from_str(self.command_state.input.as_str()) {
            Ok(ConsoleCommand::AddFeed(url)) => {
                config_changed = self.config.add_feed_url(url.as_str());
                commands = self.repo.add_feed_url(url.as_str(), &self.config);
                proof {
                    if config_changed {
                        assert(before.config.urls().push(url@).len() != before.config.urls().len());
                    }
                }
            },
            Ok(ConsoleCommand::DeleteFeed(maybe_url)) => {
                let target = match maybe_url {
                    Some(url) => Some(url),
                    None => match self.current_feed() {
                        Some(feed) => Some(feed.link.clone()),
                        None => None,
                    },
                };
                match target {
                    Some(url) => {
                        config_changed = self.config.remove_feed_url(url.as_str());
                        proof {
                            crate::config::lemma_without(before.config.urls(), url@);
                            if !config_changed {
                                crate::config::lemma_filter_keeps_all(
                                    before.config.urls(),
                                    url@,
                                );
                            }
                        }
                        let _ = self.repo.remove_feed_url(url.as_str());
                        retain_not_linked(&mut self.feeds.items, url.as_str());
                        self.feeds.state.select(None);
                        self.reset_items_scroll();
                        self.reset_detail_scroll();
                    },
                    None => {},
                }
            },
            Ok(ConsoleCommand::Search(_)) => {
                self.status = Status::Errored(NOT_IMPLEMENTED.to_owned());
            },
            Err(_) => {
                self.status = Status::Errored(UNRECOGNIZED_COMMAND.to_owned());
            },
        }
        self.command_state.input = String::new();
        self.reset_cursor();
        self.toggle_console(None);
        Submission { commands, config_changed }
    }
}

} // verus!
