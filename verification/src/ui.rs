//! What the screen shows, as far as it can be said without drawing: where a
//! line starts, how wide the margins of a dialog are, and what the status
//! bar reads.

use vstd::prelude::*;
use vstd::view::View as _;
use crate::app::{Status, StatusView};
use crate::feed::{Feed, FeedView};
use crate::text::push_text;

verus! {

/// How a line of text is set within its area.
#[derive(Debug, Clone, Copy, PartialEq, Eq, Structural)]
pub enum Alignment {
    Left,
    Center,
    Right,
}

/// How far from the left edge of an area `text_area_width` wide a line
/// `line_width` wide starts: at the edge, with the middles of line and
/// area together, or with the right ends together; never before the edge.
pub open spec fn line_offset(line_width: u16, text_area_width: u16, alignment: Alignment) -> int {
    match alignment {
        Alignment::Center => if text_area_width / 2 >= line_width / 2 {
            text_area_width / 2 - line_width / 2
        } else {
            0
        },
        Alignment::Right => if text_area_width >= line_width {
            text_area_width - line_width
        } else {
            0
        },
        Alignment::Left => 0,
    }
}

/// Where a line starts within its area; see [`line_offset`].
pub fn get_line_offset(line_width: u16, text_area_width: u16, alignment: Alignment) -> (r: u16)
    ensures
        r == line_offset(line_width, text_area_width, alignment),
{
    match alignment {
        Alignment::Center => {
            let area = text_area_width / 2;
            let line = line_width / 2;
            if area >= line {
                area - line
            } else {
                0
            }
        },
        Alignment::Right => {
            if text_area_width >= line_width {
                text_area_width - line_width
            } else {
                0
            }
        },
        Alignment::Left => 0,
    }
}

/// The share of an area that is left on each side of a dialog which takes
/// `part` of `whole` shares: half of what the dialog leaves.
pub fn centered_rect_ratio(ratio: (u32, u32)) -> (each: u32)
    requires
        ratio.0 <= ratio.1,
    ensures
        each == (ratio.1 - ratio.0) / 2,
{
    (ratio.1 - ratio.0) / 2
}

/// The cells that are left on each side of a dialog `inner` cells wide in
/// an area `outer` cells wide: half of what the dialog leaves.
pub fn centered_rect_sized(inner: u16, outer: u16) -> (each: u16)
    requires
        inner <= outer,
    ensures
        each == (outer - inner) / 2,
{
    (outer - inner) / 2
}

/// What the status bar shows.
#[derive(Debug, PartialEq, Eq)]
pub enum StatusLine {
    /// Nothing: a loading of no requests.
    Blank,
    /// A gauge at `completed` of `total`.
    Gauge { completed: usize, total: usize },
    /// A line of text.
    Text(String),
}

/// What a [`StatusLine`] holds.
pub enum StatusLineView {
    Blank,
    Gauge { completed: usize, total: usize },
    Text(Seq<char>),
}

impl DeepView for StatusLine {
    type V = StatusLineView;

    open spec fn deep_view(&self) -> StatusLineView {
        match self {
            StatusLine::Blank => StatusLineView::Blank,
            StatusLine::Gauge { completed, total } => StatusLineView::Gauge {
                completed: *completed,
                total: *total,
            },
            StatusLine::Text(text) => StatusLineView::Text(text@),
        }
    }
}

/// What the status bar shows for `status` while `current` is the selected
/// feed: a gauge while loading, the time of the last fetch of the selected
/// feed when nothing is going on, the reason after an error.
pub open spec fn status_line(status: StatusView, current: Option<FeedView>) -> StatusLineView {
    match status {
        StatusView::Loading(completed, total) => if total > 0 {
            StatusLineView::Gauge { completed, total }
        } else {
            StatusLineView::Blank
        },
        StatusView::Done => match current {
            Some(feed) => StatusLineView::Text(
                "Last fetched: "@ + (match feed.last_fetched {
                    Some(date) => date,
                    None => "never"@,
                }),
            ),
            None => StatusLineView::Text("[no selection]"@),
        },
        StatusView::Errored(reason) => StatusLineView::Text("ERROR: "@ + reason),
    }
}

/// What the status bar shows; see [`status_line`].
pub fn render_status_bar(status: &Status, current: Option<&Feed>) -> (r: StatusLine)
    ensures
        r.deep_view() == status_line(status.deep_view(), current.deep_view()),
{
    match status {
        Status::Loading(completed, total) => {
            if *total > 0 {
                StatusLine::Gauge { completed: *completed, total: *total }
            } else {
                StatusLine::Blank
            }
        },
        Status::Done => match current {
            Some(feed) => {
                let mut message = "Last fetched: ".to_owned();
                match feed.last_fetched() {
                    Some(date) => push_text(&mut message, date),
                    None => push_text(&mut message, "never"),
                }
                StatusLine::Text(message)
            },
            None => StatusLine::Text("[no selection]".to_owned()),
        },
        Status::Errored(reason) => {
            let mut message = "ERROR: ".to_owned();
            push_text(&mut message, reason.as_str());
            StatusLine::Text(message)
        },
    }
}

} // verus!
