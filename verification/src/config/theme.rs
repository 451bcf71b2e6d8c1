//! Colour themes: a base style and optional styles for the parts of the
//! screen, each falling back on another where it is left out.

use vstd::prelude::*;
use crate::config::toml::{
    entries_view, entry, get, lookup, parse_toml, parsed_toml, EntryView, TomlEntry, TomlValue,
    TomlView,
};
use crate::text::same_text;

verus! {

/// A terminal colour.
#[derive(Debug, Clone, Copy, PartialEq, Eq, Structural)]
pub enum Color {
    Reset,
    Black,
    Red,
    Green,
    Yellow,
    Blue,
    Magenta,
    Cyan,
    Gray,
    DarkGray,
    LightRed,
    LightGreen,
    LightYellow,
    LightBlue,
    LightMagenta,
    LightCyan,
    White,
    Rgb(u8, u8, u8),
    Indexed(u8),
}

/// A set of text modifiers, one bit each.
#[derive(Debug, Clone, Copy, PartialEq, Eq, Structural)]
pub struct Modifier {
    pub bits: u16,
}

/// The bit of the modifier that dims text.
pub const DIM: u16 = 0x0002;

/// The bit of the modifier that swaps foreground and background.
pub const REVERSED: u16 = 0x0040;

/// How a piece of the screen is drawn: colours to set, modifiers to switch
/// on and modifiers to switch off.
#[derive(Debug, Clone, Copy, PartialEq, Eq, Structural)]
pub struct Style {
    pub fg: Option<Color>,
    pub bg: Option<Color>,
    pub add_modifier: Modifier,
    pub sub_modifier: Modifier,
}

impl Style {
    /// The style that sets nothing.
    pub open spec fn plain() -> Style {
        Style {
            fg: None,
            bg: None,
            add_modifier: Modifier { bits: 0 },
            sub_modifier: Modifier { bits: 0 },
        }
    }

    /// This style with the foreground `color`.
    pub open spec fn with_fg(self, color: Color) -> Style {
        Style { fg: Some(color), ..self }
    }

    /// This style with the background `color`.
    pub open spec fn with_bg(self, color: Color) -> Style {
        Style { bg: Some(color), ..self }
    }

    /// This style with the modifiers `bits` switched on, and no longer
    /// switched off.
    pub open spec fn with_modifier(self, bits: u16) -> Style {
        Style {
            add_modifier: Modifier { bits: self.add_modifier.bits | bits },
            sub_modifier: Modifier { bits: self.sub_modifier.bits & !bits },
            ..self
        }
    }

    /// A style with the two colours set.
    pub open spec fn colors(fg: Color, bg: Color) -> Style {
        Style::plain().with_fg(fg).with_bg(bg)
    }

    /// The style that sets nothing.
    pub fn new() -> (r: Style)
        ensures
            r == Style::plain(),
    {
        Style {
            fg: None,
            bg: None,
            add_modifier: Modifier { bits: 0 },
            sub_modifier: Modifier { bits: 0 },
        }
    }

    /// This style with the foreground `color`.
    pub fn fg(self, color: Color) -> (r: Style)
        ensures
            r == self.with_fg(color),
    {
        Style { fg: Some(color), ..self }
    }

    /// This style with the background `color`.
    pub fn bg(self, color: Color) -> (r: Style)
        ensures
            r == self.with_bg(color),
    {
        Style { bg: Some(color), ..self }
    }

    /// This style with the modifiers `bits` switched on, and no longer
    /// switched off.
    pub fn add_modifier(self, bits: u16) -> (r: Style)
        ensures
            r == self.with_modifier(bits),
    {
        Style {
            add_modifier: Modifier { bits: self.add_modifier.bits | bits },
            sub_modifier: Modifier { bits: self.sub_modifier.bits & !bits },
            ..self
        }
    }

    /// This style, dimmed.
    pub fn dim(self) -> (r: Style)
        ensures
            r == self.with_modifier(DIM),
    {
        self.add_modifier(DIM)
    }

    /// This style with foreground and background swapped.
    pub fn reversed(self) -> (r: Style)
        ensures
            r == self.with_modifier(REVERSED),
    {
        self.add_modifier(REVERSED)
    }
}

impl Default for Style {
    fn default() -> (r: Style)
        ensures
            r == Style::plain(),
    {
        Style::new()
    }
}

/// A theme file that cannot be read as a theme.
#[derive(Debug, Clone, Copy, PartialEq, Eq, Structural)]
pub struct ParseThemeError;

impl ParseThemeError {
    /// What to tell the user.
    pub fn message(&self) -> (r: &'static str)
        ensures
            r@ == "error parsing theme"@,
    {
        "error parsing theme"
    }
}

/// The red, green and blue parts that `text` states as a hexadecimal colour
/// such as `#fefd72`; `None` where it states none.
pub uninterp spec fn hex_rgb(text: Seq<char>) -> Option<(u8, u8, u8)>;

/// Reads a hexadecimal colour.
///
/// Trusted: `colorsys::Rgb::from_hex_str` is a function of the text alone
/// and returns an error for text that is no hexadecimal colour; its three
/// parts are whole numbers from 0 to 255, which the casts keep as they are.
/// The contract gives the outcome a name.
#[verifier::external_body]
fn parse_hex(text: &str) -> (r: Option<(u8, u8, u8)>)
    ensures
        r == hex_rgb(text@),
{
    colorsys::Rgb::from_hex_str(text).ok().map(|c| (c.red() as u8, c.green() as u8, c.blue() as u8))
}

/// The colour that the outcome of reading a hexadecimal colour stands for:
/// `Reset` where there was none to read.
pub open spec fn color_of(rgb: Option<(u8, u8, u8)>) -> Color {
    match rgb {
        Some((r, g, b)) => Color::Rgb(r, g, b),
        None => Color::Reset,
    }
}

/// The colour that `text` states in hexadecimal form.
pub open spec fn hex_color(text: Seq<char>) -> Color {
    color_of(hex_rgb(text))
}

/// The colour with the given parts, or `Reset` for none.
pub fn color_from(rgb: Option<(u8, u8, u8)>) -> (r: Color)
    ensures
        r == color_of(rgb),
{
    match rgb {
        Some((r, g, b)) => Color::Rgb(r, g, b),
        None => Color::Reset,
    }
}

/// The colour that `c` states in hexadecimal form; `Reset` where it states
/// none.
pub fn make_color(c: &str) -> (r: Color)
    ensures
        r == hex_color(c@),
{
    color_from(parse_hex(c))
}

/// A colour theme.
#[derive(Debug, Clone, Copy, PartialEq, Eq, Structural)]
pub struct Theme {
    pub base: Style,
    pub overlay: Option<Style>,
    pub status: Option<Style>,
    pub selection: Option<Style>,
    pub selection_active: Option<Style>,
    pub border: Option<Style>,
    pub border_active: Option<Style>,
    pub scrollbar: Option<Style>,
}

impl Theme {
    /// The style of the selection that has the focus: its own, otherwise
    /// the base style reversed.
    pub open spec fn active_selection_style(self) -> Style {
        match self.selection_active {
            Some(s) => s,
            None => self.base.with_modifier(REVERSED),
        }
    }

    /// The style of a selection without the focus: its own, otherwise that
    /// of the selection that has it.
    pub open spec fn selection_style(self) -> Style {
        match self.selection {
            Some(s) => s,
            None => self.active_selection_style(),
        }
    }

    /// The style of the border that has the focus: its own, otherwise the
    /// base style.
    pub open spec fn active_border_style(self) -> Style {
        match self.border_active {
            Some(s) => s,
            None => self.base,
        }
    }

    /// The style of a border without the focus: its own, otherwise that of
    /// the border that has it, dimmed.
    pub open spec fn border_style(self) -> Style {
        match self.border {
            Some(s) => s,
            None => self.active_border_style().with_modifier(DIM),
        }
    }

    /// The style of the scrollbar's thumb: the foreground of the scrollbar
    /// style, and nothing else.
    pub open spec fn thumb_style(self) -> Style {
        match self.scrollbar {
            Some(s) => match s.fg {
                Some(fg) => Style::plain().with_fg(fg),
                None => Style::plain(),
            },
            None => Style::plain(),
        }
    }

    /// The style of the scrollbar's track: drawn in the background colour
    /// of the scrollbar style, or of the base style, where one is set.
    pub open spec fn track_style(self) -> Style {
        match self.scrollbar {
            Some(s) => if s.bg is Some {
                Style::plain().with_fg(s.bg.unwrap())
            } else if self.base.bg is Some {
                Style::plain().with_fg(self.base.bg.unwrap())
            } else {
                Style::plain().with_modifier(DIM)
            },
            None => self.base.with_modifier(DIM),
        }
    }

    pub fn base(&self) -> (r: Style)
        ensures
            r == self.base,
    {
        self.base
    }

    /// The style of overlays: their own, otherwise the base style.
    pub fn overlay(&self) -> (r: Style)
        ensures
            r == (match self.overlay {
                Some(s) => s,
                None => self.base,
            }),
    {
        match self.overlay {
            Some(s) => s,
            None => self.base,
        }
    }

    /// The style of the status bar: its own, otherwise the base style.
    pub fn status(&self) -> (r: Style)
        ensures
            r == (match self.status {
                Some(s) => s,
                None => self.base,
            }),
    {
        match self.status {
            Some(s) => s,
            None => self.base,
        }
    }

    pub fn selection(&self) -> (r: Style)
        ensures
            r == self.selection_style(),
    {
        if let Some(s) = self.selection {
            s
        } else {
            self.active_selection()
        }
    }

    pub fn active_selection(&self) -> (r: Style)
        ensures
            r == self.active_selection_style(),
    {
        if let Some(s) = self.selection_active {
            s
        } else {
            self.base.add_modifier(REVERSED)
        }
    }

    pub fn border(&self) -> (r: Style)
        ensures
            r == self.border_style(),
    {
        if let Some(s) = self.border {
            s
        } else {
            self.active_border().add_modifier(DIM)
        }
    }

    pub fn active_border(&self) -> (r: Style)
        ensures
            r == self.active_border_style(),
    {
        if let Some(s) = self.border_active {
            s
        } else {
            self.base
        }
    }

    pub fn scrollbar_thumb(&self) -> (r: Style)
        ensures
            r == self.thumb_style(),
    {
        if let Some(s) = self.scrollbar {
            if let Some(fg) = s.fg {
                Style::new().fg(fg)
            } else {
                Style::new()
            }
        } else {
            Style::new()
        }
    }

    pub fn scrollbar_track(&self) -> (r: Style)
        ensures
            r == self.track_style(),
    {
        if let Some(s) = self.scrollbar {
            if let Some(bg) = s.bg {
                Style::new().fg(bg)
            } else if let Some(bg) = self.base.bg {
                Style::new().fg(bg)
            } else {
                Style::new().dim()
            }
        } else {
            self.base.dim()
        }
    }

    /// The theme that sets nothing but a dimmed scrollbar.
    pub open spec fn plain() -> Theme {
        Theme {
            base: Style::plain(),
            overlay: None,
            status: None,
            selection: None,
            selection_active: None,
            border: None,
            border_active: None,
            scrollbar: Some(Style::plain().with_modifier(DIM)),
        }
    }

    /// White on midnight blue, with grey and yellow highlights.
    pub open spec fn borland_spec() -> Theme {
        let white = hex_color("#FFFFFF"@);
        let gray = hex_color("#bbbbbb"@);
        let midnight = hex_color("#000080"@);
        let yellow = hex_color("#fefd72"@);
        Theme {
            base: Style::colors(white, midnight),
            overlay: Some(Style::colors(midnight, gray)),
            status: Some(Style::colors(gray, midnight)),
            selection: Some(Style::colors(midnight, gray)),
            selection_active: Some(Style::colors(midnight, yellow)),
            border: Some(Style::plain().with_fg(gray)),
            border_active: Some(Style::plain().with_fg(white)),
            scrollbar: Some(Style::colors(white, gray)),
        }
    }

    pub fn borland() -> (r: Theme)
        ensures
            r == Theme::borland_spec(),
    {
        let white = make_color("#FFFFFF");
        let gray = make_color("#bbbbbb");
        let midnight = make_color("#000080");
        let yellow = make_color("#fefd72");
        Theme {
            base: Style::new().fg(white).bg(midnight),
            overlay: Some(Style::new().fg(midnight).bg(gray)),
            status: Some(Style::new().fg(gray).bg(midnight)),
            border: Some(Style::new().fg(gray)),
            border_active: Some(Style::new().fg(white)),
            selection: Some(Style::new().fg(midnight).bg(gray)),
            selection_active: Some(Style::new().fg(midnight).bg(yellow)),
            scrollbar: Some(Style::new().fg(white).bg(gray)),
        }
    }

    /// Light grey on charcoal, with amber highlights.
    pub open spec fn darcula_spec() -> Theme {
        let background = hex_color("#242424"@);
        let bright_black = hex_color("#707070"@);
        let bright_blue = hex_color("#7A9EC2"@);
        let bright_white = hex_color("#CCCCCC"@);
        let bright_yellow = hex_color("#CD9731"@);
        let yellow = hex_color("#FFC66D"@);
        Theme {
            base: Style::colors(bright_white, background),
            overlay: Some(Style::colors(background, bright_blue)),
            status: Some(Style::colors(bright_yellow, background)),
            selection: Some(Style::colors(background, bright_yellow)),
            selection_active: Some(Style::colors(background, yellow)),
            border: Some(Style::plain().with_fg(bright_black)),
            border_active: Some(Style::plain().with_fg(bright_yellow)),
            scrollbar: Some(Style::plain().with_fg(bright_black)),
        }
    }

    pub fn darcula() -> (r: Theme)
        ensures
            r == Theme::darcula_spec(),
    {
        let background = make_color("#242424");
        let bright_black = make_color("#707070");
        let bright_blue = make_color("#7A9EC2");
        let bright_white = make_color("#CCCCCC");
        let bright_yellow = make_color("#CD9731");
        let yellow = make_color("#FFC66D");
        Theme {
            base: Style::new().fg(bright_white).bg(background),
            overlay: Some(Style::new().fg(background).bg(bright_blue)),
            status: Some(Style::new().fg(bright_yellow).bg(background)),
            border: Some(Style::new().fg(bright_black)),
            border_active: Some(Style::new().fg(bright_yellow)),
            selection: Some(Style::new().fg(background).bg(bright_yellow)),
            selection_active: Some(Style::new().fg(background).bg(yellow)),
            scrollbar: Some(Style::new().fg(bright_black)),
        }
    }

    /// Everything on black; only the active selection stands out.
    pub open spec fn focus_spec() -> Theme {
        Theme {
            base: Style::plain().with_bg(Color::Black),
            overlay: Some(Style::plain().with_modifier(REVERSED)),
            status: None,
            selection: None,
            selection_active: Some(Style::plain().with_modifier(REVERSED)),
            border: Some(Style::colors(Color::Black, Color::Black)),
            border_active: Some(Style::plain()),
            scrollbar: Some(Style::plain().with_bg(Color::Black)),
        }
    }

    pub fn focus() -> (r: Theme)
        ensures
            r == Theme::focus_spec(),
    {
        Theme {
            base: Style::new().bg(Color::Black),
            overlay: Some(Style::new().reversed()),
            status: None,
            border: Some(Style::new().fg(Color::Black).bg(Color::Black)),
            border_active: Some(Style::new()),
            selection: None,
            selection_active: Some(Style::new().reversed()),
            scrollbar: Some(Style::new().bg(Color::Black)),
        }
    }

    /// The terminal's own colours with green highlights.
    pub open spec fn jungle_spec() -> Theme {
        Theme {
            base: Style::plain(),
            overlay: None,
            status: None,
            selection: Some(Style::plain().with_modifier(DIM).with_modifier(REVERSED)),
            selection_active: Some(Style::plain().with_fg(Color::Green).with_modifier(REVERSED)),
            border: Some(Style::plain().with_modifier(DIM)),
            border_active: Some(Style::plain().with_fg(Color::Green)),
            scrollbar: Some(Style::plain().with_modifier(DIM)),
        }
    }

    pub fn jungle() -> (r: Theme)
        ensures
            r == Theme::jungle_spec(),
    {
        Theme {
            base: Style::new(),
            overlay: None,
            status: None,
            border: Some(Style::new().dim()),
            border_active: Some(Style::new().fg(Color::Green)),
            selection: Some(Style::new().dim().reversed()),
            selection_active: Some(Style::new().fg(Color::Green).reversed()),
            scrollbar: Some(Style::new().dim()),
        }
    }

    /// Bright green on near-black.
    pub open spec fn matrix_spec() -> Theme {
        let bright_green = hex_color("#49f27e"@);
        let mid_green = hex_color("#29ad53"@);
        let dark_green = hex_color("#04100a"@);
        Theme {
            base: Style::colors(bright_green, dark_green),
            overlay: None,
            status: None,
            selection: Some(Style::colors(dark_green, mid_green)),
            selection_active: Some(Style::colors(dark_green, bright_green)),
            border: Some(Style::plain().with_fg(mid_green)),
            border_active: Some(Style::plain().with_fg(bright_green)),
            scrollbar: Some(Style::plain()),
        }
    }

    pub fn matrix() -> (r: Theme)
        ensures
            r == Theme::matrix_spec(),
    {
        let bright_green = make_color("#49f27e");
        let mid_green = make_color("#29ad53");
        let dark_green = make_color("#04100a");
        Theme {
            base: Style::new().fg(bright_green).bg(dark_green),
            overlay: None,
            status: None,
            border: Some(Style::new().fg(mid_green)),
            border_active: Some(Style::new().fg(bright_green)),
            selection: Some(Style::new().fg(dark_green).bg(mid_green)),
            selection_active: Some(Style::new().fg(dark_green).bg(bright_green)),
            scrollbar: Some(Style::new()),
        }
    }

    /// Red on black.
    pub open spec fn redshift_spec() -> Theme {
        Theme {
            base: Style::colors(Color::Red, Color::Black),
            overlay: None,
            status: None,
            selection: Some(Style::plain().with_modifier(DIM).with_modifier(REVERSED)),
            selection_active: Some(Style::plain().with_fg(Color::Red).with_modifier(REVERSED)),
            border: Some(Style::plain().with_modifier(DIM)),
            border_active: Some(Style::plain().with_fg(Color::Red)),
            scrollbar: Some(Style::plain().with_modifier(DIM)),
        }
    }

    pub fn redshift() -> (r: Theme)
        ensures
            r == Theme::redshift_spec(),
    {
        Theme {
            base: Style::new().fg(Color::Red).bg(Color::Black),
            overlay: None,
            status: None,
            selection_active: Some(Style::new().fg(Color::Red).reversed()),
            border_active: Some(Style::new().fg(Color::Red)),
            selection: Some(Style::new().dim().reversed()),
            border: Some(Style::new().dim()),
            scrollbar: Some(Style::new().dim()),
        }
    }

    /// Amber on dark brown.
    pub open spec fn wyse_spec() -> Theme {
        let bright_amber = hex_color("#eaac1f"@);
        let dark_amber = hex_color("#936708"@);
        let black = hex_color("#231d17"@);
        Theme {
            base: Style::colors(bright_amber, black),
            overlay: None,
            status: None,
            selection: Some(Style::colors(black, dark_amber)),
            selection_active: Some(Style::colors(black, bright_amber)),
            border: Some(Style::plain().with_fg(dark_amber)),
            border_active: Some(Style::plain().with_fg(bright_amber)),
            scrollbar: Some(Style::plain()),
        }
    }

    pub fn wyse() -> (r: Theme)
        ensures
            r == Theme::wyse_spec(),
    {
        let bright_amber = make_color("#eaac1f");
        let dark_amber = make_color("#936708");
        let black = make_color("#231d17");
        Theme {
            base: Style::new().fg(bright_amber).bg(black),
            overlay: None,
            status: None,
            border: Some(Style::new().fg(dark_amber)),
            border_active: Some(Style::new().fg(bright_amber)),
            selection: Some(Style::new().fg(black).bg(dark_amber)),
            selection_active: Some(Style::new().fg(black).bg(bright_amber)),
            scrollbar: Some(Style::new()),
        }
    }

    /// The built-in theme called `name`, if there is one.
    pub open spec fn named_spec(name: Seq<char>) -> Option<Theme> {
        if name == "default"@ {
            Some(Theme::plain())
        } else if name == "borland"@ {
            Some(Theme::borland_spec())
        } else if name == "darcula"@ {
            Some(Theme::darcula_spec())
        } else if name == "focus"@ {
            Some(Theme::focus_spec())
        } else if name == "jungle"@ {
            Some(Theme::jungle_spec())
        } else if name == "matrix"@ {
            Some(Theme::matrix_spec())
        } else if name == "redshift"@ {
            Some(Theme::redshift_spec())
        } else if name == "wyse"@ {
            Some(Theme::wyse_spec())
        } else {
            None
        }
    }

    /// The built-in theme called `name`; `None` for any other name.
    pub fn named(name: &str) -> (r: Option<Theme>)
        ensures
            r == Theme::named_spec(name@),
    {
        if crate::text::same_text(name, "default") {
            Some(Theme::default())
        } else if crate::text::same_text(name, "borland") {
            Some(Theme::borland())
        } else if crate::text::same_text(name, "darcula") {
            Some(Theme::darcula())
        } else if crate::text::same_text(name, "focus") {
            Some(Theme::focus())
        } else if crate::text::same_text(name, "jungle") {
            Some(Theme::jungle())
        } else if crate::text::same_text(name, "matrix") {
            Some(Theme::matrix())
        } else if crate::text::same_text(name, "redshift") {
            Some(Theme::redshift())
        } else if crate::text::same_text(name, "wyse") {
            Some(Theme::wyse())
        } else {
            None
        }
    }
}

impl Default for Theme {
    fn default() -> (r: Theme)
        ensures
            r == Theme::plain(),
    {
        Theme {
            base: Style::new(),
            overlay: None,
            status: None,
            selection_active: None,
            selection: None,
            border_active: None,
            border: None,
            scrollbar: Some(Style::new().dim()),
        }
    }
}

/// Why a value of a theme file names no style.
#[derive(Debug, Clone, Copy, PartialEq, Eq, Structural)]
pub enum ParseColorError {
    InvalidFormat,
    InvalidDigit,
    Empty,
}

/// `text` in lower case.
pub uninterp spec fn lowercased(text: Seq<char>) -> Seq<char>;

/// `text` in lower case.
///
/// Trusted: `str::to_lowercase` is a function of the text alone; the
/// contract gives its result a name.
#[verifier::external_body]
fn lowercase(text: &str) -> (r: String)
    ensures
        r@ == lowercased(text@),
{
    text.to_lowercase()
}

/// Whether `text` starts with a number sign.
pub open spec fn is_hex_like(text: Seq<char>) -> bool {
    text.len() > 0 && text[0] == '#'
}

/// The colour that the lower-case name `name` stands for.
pub open spec fn named_color(name: Seq<char>) -> Option<Color> {
    if name == "black"@ {
        Some(Color::Black)
    } else if name == "red"@ {
        Some(Color::Red)
    } else if name == "green"@ {
        Some(Color::Green)
    } else if name == "yellow"@ {
        Some(Color::Yellow)
    } else if name == "blue"@ {
        Some(Color::Blue)
    } else if name == "magenta"@ {
        Some(Color::Magenta)
    } else if name == "cyan"@ {
        Some(Color::Cyan)
    } else if name == "gray"@ {
        Some(Color::Gray)
    } else if name == "lightblack"@ || name == "darkgray"@ {
        Some(Color::DarkGray)
    } else if name == "lightred"@ {
        Some(Color::LightRed)
    } else if name == "lightgreen"@ {
        Some(Color::LightGreen)
    } else if name == "lightyellow"@ {
        Some(Color::LightYellow)
    } else if name == "lightblue"@ {
        Some(Color::LightBlue)
    } else if name == "lightmagenta"@ {
        Some(Color::LightMagenta)
    } else if name == "lightcyan"@ {
        Some(Color::LightCyan)
    } else if name == "white"@ {
        Some(Color::White)
    } else {
        None
    }
}

/// The colour that the lower-case name `name` stands for.
fn color_by_name(name: &str) -> (r: Option<Color>)
    ensures
        r == named_color(name@),
{
    if same_text(name, "black") {
        Some(Color::Black)
    } else if same_text(name, "red") {
        Some(Color::Red)
    } else if same_text(name, "green") {
        Some(Color::Green)
    } else if same_text(name, "yellow") {
        Some(Color::Yellow)
    } else if same_text(name, "blue") {
        Some(Color::Blue)
    } else if same_text(name, "magenta") {
        Some(Color::Magenta)
    } else if same_text(name, "cyan") {
        Some(Color::Cyan)
    } else if same_text(name, "gray") {
        Some(Color::Gray)
    } else if same_text(name, "lightblack") || same_text(name, "darkgray") {
        Some(Color::DarkGray)
    } else if same_text(name, "lightred") {
        Some(Color::LightRed)
    } else if same_text(name, "lightgreen") {
        Some(Color::LightGreen)
    } else if same_text(name, "lightyellow") {
        Some(Color::LightYellow)
    } else if same_text(name, "lightblue") {
        Some(Color::LightBlue)
    } else if same_text(name, "lightmagenta") {
        Some(Color::LightMagenta)
    } else if same_text(name, "lightcyan") {
        Some(Color::LightCyan)
    } else if same_text(name, "white") {
        Some(Color::White)
    } else {
        None
    }
}

/// The style that the name `name` stands for: the foreground of a named
/// colour, in whatever case it is written, or of a hexadecimal colour
/// where the name starts with a number sign.
pub open spec fn style_by_name(name: Seq<char>) -> Result<Style, ParseColorError> {
    let lower = lowercased(name);
    match named_color(lower) {
        Some(c) => Ok(Style::plain().with_fg(c)),
        None => if is_hex_like(lower) {
            Ok(Style::plain().with_fg(hex_color(lower)))
        } else {
            Err(ParseColorError::InvalidFormat)
        },
    }
}

/// The style of a record, given the styles that its entries `fg` and `bg`
/// stand for: the foreground style, the plain one where it is missing or
/// no style, with the foreground of the background style as its
/// background. A background style without a foreground is no style.
pub open spec fn style_by_record(
    fg: Option<Result<Style, ParseColorError>>,
    bg: Option<Result<Style, ParseColorError>>,
) -> Result<Style, ParseColorError> {
    let style = match fg {
        Some(Ok(s)) => s,
        _ => Style::plain(),
    };
    match bg {
        Some(Ok(b)) => match b.fg {
            Some(c) => Ok(style.with_bg(c)),
            None => Err(ParseColorError::InvalidFormat),
        },
        _ => Ok(style),
    }
}

/// The style that a value of a theme file stands for: a name, or a record
/// with a foreground and a background.
pub open spec fn style_of(value: TomlView) -> Result<Style, ParseColorError>
    decreases value, 0nat,
{
    match value {
        TomlView::String(name) => style_by_name(name),
        TomlView::Table(record) => style_by_record(
            styled(record, "fg"@, record.len()),
            styled(record, "bg"@, record.len()),
        ),
        _ => Err(ParseColorError::InvalidFormat),
    }
}

/// The style that stands under `key` among the first `k` entries of
/// `record`, where an entry has that key.
pub open spec fn styled(record: Seq<EntryView>, key: Seq<char>, k: nat) -> Option<
    Result<Style, ParseColorError>,
>
    decreases record, k,
{
    if k == 0 || k > record.len() {
        None
    } else {
        match styled(record, key, (k - 1) as nat) {
            Some(r) => Some(r),
            None => if record[k - 1].key == key {
                Some(style_of(record[k - 1].value))
            } else {
                None
            },
        }
    }
}

/// The style under a key is the style of the value under that key.
pub proof fn lemma_styled(record: Seq<EntryView>, key: Seq<char>, k: nat)
    requires
        k <= record.len(),
    ensures
        styled(record, key, k) == (match lookup(record, key, k) {
            Some(v) => Some(style_of(v)),
            None => None,
        }),
    decreases k,
{
    if k > 0 {
        lemma_styled(record, key, (k - 1) as nat);
    }
}

/// The style that `value` stands for; see [`style_of`].
pub fn try_style_from_toml(value: &TomlValue) -> (r: Result<Style, ParseColorError>)
    ensures
        r == style_of(value@),
    decreases value,
{
    match value {
        TomlValue::String(name) => {
            let lower = lowercase(name.as_str());
            match color_by_name(lower.as_str()) {
                Some(c) => Ok(Style::new().fg(c)),
                None => {
                    let hex_like = match lower.as_str().chars().next() {
                        Some(c) => c == '#',
                        None => false,
                    };
                    if hex_like {
                        Ok(Style::new().fg(make_color(lower.as_str())))
                    } else {
                        Err(ParseColorError::InvalidFormat)
                    }
                },
            }
        },
        TomlValue::Table(record) => {
            let ghost views = entries_view(record@, record@.len());
            proof {
                lemma_styled(views, "fg"@, views.len());
                lemma_styled(views, "bg"@, views.len());
            }
            let style = match get(record, "fg") {
                Some(v) => match try_style_from_toml(v) {
                    Ok(s) => s,
                    Err(_) => Style::new(),
                },
                None => Style::new(),
            };
            match get(record, "bg") {
                Some(v) => match try_style_from_toml(v) {
                    Ok(b) => match b.fg {
                        Some(c) => Ok(style.bg(c)),
                        None => Err(ParseColorError::InvalidFormat),
                    },
                    Err(_) => Ok(style),
                },
                None => Ok(style),
            }
        },
        _ => Err(ParseColorError::InvalidFormat),
    }
}

/// Where a theme comes from once its name or its scheme has been read:
/// it is there, or it has to be read from a file.
#[derive(Debug, PartialEq, Eq)]
pub enum ThemeSource {
    Ready(Theme),
    File(String),
}

/// What a [`ThemeSource`] holds.
pub enum ThemeSourceView {
    Ready(Theme),
    File(Seq<char>),
}

impl DeepView for ThemeSource {
    type V = ThemeSourceView;

    open spec fn deep_view(&self) -> ThemeSourceView {
        match self {
            ThemeSource::Ready(theme) => ThemeSourceView::Ready(*theme),
            ThemeSource::File(path) => ThemeSourceView::File(path@),
        }
    }
}

/// The style of the part `key` of a scheme, where the scheme gives one.
pub open spec fn part(scheme: Seq<EntryView>, key: Seq<char>) -> Option<Style> {
    match entry(scheme, key) {
        Some(v) => match style_of(v) {
            Ok(s) => Some(s),
            Err(_) => None,
        },
        None => None,
    }
}

/// The theme that a scheme spells out, part by part. A part that is
/// missing or no style is left out; the base style is then the plain one.
pub open spec fn theme_by_scheme(scheme: Seq<EntryView>) -> Theme {
    Theme {
        base: match part(scheme, "base"@) {
            Some(s) => s,
            None => Style::plain(),
        },
        overlay: part(scheme, "overlay"@),
        status: part(scheme, "status"@),
        selection: part(scheme, "selection"@),
        selection_active: part(scheme, "selection_active"@),
        border: part(scheme, "border"@),
        border_active: part(scheme, "border_active"@),
        scrollbar: part(scheme, "scrollbar"@),
    }
}

/// The theme that the name `name` stands for: a built-in theme, or the
/// file of that name.
pub open spec fn source_by_name(name: Seq<char>) -> ThemeSourceView {
    match Theme::named_spec(name) {
        Some(theme) => ThemeSourceView::Ready(theme),
        None => ThemeSourceView::File(name),
    }
}

/// The theme that a value of the configuration stands for: a name, or a
/// scheme spelled out; anything else is an error.
pub open spec fn source_of(value: TomlView) -> Result<ThemeSourceView, ParseThemeError> {
    match value {
        TomlView::String(name) => Ok(source_by_name(name)),
        TomlView::Table(scheme) => Ok(ThemeSourceView::Ready(theme_by_scheme(scheme))),
        _ => Err(ParseThemeError),
    }
}

/// What a theme source is, as the contracts speak of it.
pub open spec fn source_view(r: Result<ThemeSource, ParseThemeError>) -> Result<
    ThemeSourceView,
    ParseThemeError,
> {
    match r {
        Ok(source) => Ok(source.deep_view()),
        Err(e) => Err(e),
    }
}

/// The style of the part `key` of a scheme.
fn part_of(scheme: &Vec<TomlEntry>, key: &str) -> (r: Option<Style>)
    ensures
        r == part(entries_view(scheme@, scheme@.len()), key@),
{
    match get(scheme, key) {
        Some(v) => match try_style_from_toml(v) {
            Ok(s) => Some(s),
            Err(_) => None,
        },
        None => None,
    }
}

impl Theme {
    /// The theme that the name `s` stands for: a built-in theme, or the
    /// file of that name, which is the caller's to read.
    pub fn from_str(s: &str) -> (r: ThemeSource)
        ensures
            r.deep_view() == source_by_name(s@),
    {
        match Theme::named(s) {
            Some(theme) => ThemeSource::Ready(theme),
            None => ThemeSource::File(s.to_owned()),
        }
    }

    /// The theme that a value of the configuration stands for; see
    /// [`source_of`].
    pub fn try_from(value: &TomlValue) -> (r: Result<ThemeSource, ParseThemeError>)
        ensures
            source_view(r) == source_of(value@),
    {
        match value {
            TomlValue::String(name) => Ok(Theme::from_str(name.as_str())),
            TomlValue::Table(scheme) => Ok(
                ThemeSource::Ready(
                    Theme {
                        base: match part_of(scheme, "base") {
                            Some(s) => s,
                            None => Style::new(),
                        },
                        overlay: part_of(scheme, "overlay"),
                        status: part_of(scheme, "status"),
                        selection: part_of(scheme, "selection"),
                        selection_active: part_of(scheme, "selection_active"),
                        border: part_of(scheme, "border"),
                        border_active: part_of(scheme, "border_active"),
                        scrollbar: part_of(scheme, "scrollbar"),
                    },
                ),
            ),
            _ => Err(ParseThemeError),
        }
    }

    /// The theme that the text of a theme file stands for: the text has to
    /// be a configuration file, and what it holds a theme.
    pub fn from_file_text(text: &str) -> (r: Result<ThemeSource, ParseThemeError>)
        ensures
            source_view(r) == (match parsed_toml(text@) {
                Some(value) => source_of(value),
                None => Err(ParseThemeError),
            }),
    {
        match parse_toml(text) {
            Some(value) => Theme::try_from(&value),
            None => Err(ParseThemeError),
        }
    }
}

/// How many theme files may name one another before the search for a
/// theme is given up.
pub const THEME_FILES: usize = 8;

/// Where the search for a theme stands: it is found, it is lost, or the
/// file at `path` is to be read next, `followed` files having been read
/// before it.
#[derive(Debug, PartialEq, Eq)]
pub enum ThemeSearch {
    Found(Theme),
    Lost,
    Read { path: String, followed: usize },
}

/// What a [`ThemeSearch`] holds.
pub enum ThemeSearchView {
    Found(Theme),
    Lost,
    Read { path: Seq<char>, followed: usize },
}

impl DeepView for ThemeSearch {
    type V = ThemeSearchView;

    open spec fn deep_view(&self) -> ThemeSearchView {
        match self {
            ThemeSearch::Found(theme) => ThemeSearchView::Found(*theme),
            ThemeSearch::Lost => ThemeSearchView::Lost,
            ThemeSearch::Read { path, followed } => ThemeSearchView::Read {
                path: path@,
                followed: *followed,
            },
        }
    }
}

/// Where a search begins: with the theme, or with the first file to read.
pub open spec fn search_from(source: ThemeSourceView) -> ThemeSearchView {
    match source {
        ThemeSourceView::Ready(theme) => ThemeSearchView::Found(theme),
        ThemeSourceView::File(path) => ThemeSearchView::Read { path, followed: 0 },
    }
}

/// Where a search stands once the file that followed `followed` others has
/// been read and taken for `source`: a theme ends it; a file that is no
/// theme loses it; a file that names another is followed unless
/// [`THEME_FILES`] files have been read by then.
pub open spec fn search_after(
    followed: usize,
    source: Result<ThemeSourceView, ParseThemeError>,
) -> ThemeSearchView {
    match source {
        Ok(ThemeSourceView::Ready(theme)) => ThemeSearchView::Found(theme),
        Ok(ThemeSourceView::File(path)) => if followed + 1 < THEME_FILES {
            ThemeSearchView::Read { path, followed: (followed + 1) as usize }
        } else {
            ThemeSearchView::Lost
        },
        Err(_) => ThemeSearchView::Lost,
    }
}

impl Theme {
    /// Begins the search for the theme that `source` stands for.
    pub fn search(source: ThemeSource) -> (r: ThemeSearch)
        ensures
            r.deep_view() == search_from(source.deep_view()),
    {
        match source {
            ThemeSource::Ready(theme) => ThemeSearch::Found(theme),
            ThemeSource::File(path) => ThemeSearch::Read { path, followed: 0 },
        }
    }

    /// Goes on with a search once the file that followed `followed` others
    /// has been read and taken for `source`. A search that goes on has
    /// followed one file more, and fewer than [`THEME_FILES`]: no search
    /// reads more files than that.
    pub fn search_next(followed: usize, source: Result<ThemeSource, ParseThemeError>) -> (r:
        ThemeSearch)
        ensures
            r.deep_view() == search_after(followed, source_view(source)),
            r matches ThemeSearch::Read { followed: next, .. } ==> next == followed + 1 && next
                < THEME_FILES,
    {
        match source {
            Ok(ThemeSource::Ready(theme)) => ThemeSearch::Found(theme),
            Ok(ThemeSource::File(path)) => {
                if followed < THEME_FILES - 1 {
                    ThemeSearch::Read { path, followed: followed + 1 }
                } else {
                    ThemeSearch::Lost
                }
            },
            Err(_) => ThemeSearch::Lost,
        }
    }

    /// Goes on with a search once the file that followed `followed` others
    /// has been looked for: `text` is what it holds, `None` where there is
    /// no such file or it cannot be read, which loses the search.
    pub fn search_on(followed: usize, text: Option<&str>) -> (r: ThemeSearch)
        ensures
            r.deep_view() == (match text {
                Some(text) => search_after(
                    followed,
                    match parsed_toml(text@) {
                        Some(value) => source_of(value),
                        None => Err(ParseThemeError),
                    },
                ),
                None => ThemeSearchView::Lost,
            }),
            r matches ThemeSearch::Read { followed: next, .. } ==> next == followed + 1 && next
                < THEME_FILES,
    {
        match text {
            Some(text) => Theme::search_next(followed, Theme::from_file_text(text)),
            None => ThemeSearch::Lost,
        }
    }
}

/// The colours of a terminal emulator's scheme file, which a theme can be
/// told in.
#[derive(Debug)]
pub struct ColorSchemeFile {
    pub colors: Colors,
}

/// The groups of colours of a scheme file.
#[derive(Debug)]
pub struct Colors {
    pub name: Option<String>,
    pub author: Option<String>,
    pub primary: Option<PrimaryColors>,
    pub cursor: Option<CursorColors>,
    pub normal: Option<VariantColors>,
    pub bright: Option<VariantColors>,
    pub dim: Option<VariantColors>,
}

#[derive(Debug)]
pub struct PrimaryColors {
    pub foreground: Option<String>,
    pub background: Option<String>,
    pub bright_foreground: Option<String>,
    pub dim_foreground: Option<String>,
}

#[derive(Debug)]
pub struct CursorColors {
    pub text: Option<String>,
    pub cursor: Option<String>,
}

#[derive(Debug)]
pub struct VariantColors {
    pub black: Option<String>,
    pub red: Option<String>,
    pub green: Option<String>,
    pub yellow: Option<String>,
    pub blue: Option<String>,
    pub magenta: Option<String>,
    pub cyan: Option<String>,
    pub white: Option<String>,
}

} // verus!
