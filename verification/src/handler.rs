//! What the keys and the mouse do: each event is turned into one action on
//! the state of the program, and the action is carried out.

use vstd::prelude::*;
use vstd::view::View as _;
use crate::app::{App, AppView, Submission};
use crate::config::SortOrder;
use crate::repo::{Command, CommandView};

verus! {

/// A key, as far as the program tells keys apart.
#[derive(Debug, Clone, Copy, PartialEq, Eq, Structural)]
pub enum KeyCode {
    Char(char),
    Enter,
    Backspace,
    Left,
    Right,
    Up,
    Down,
    Esc,
    Tab,
    BackTab,
    Other,
}

/// A key event.
#[derive(Debug, Clone, Copy, PartialEq, Eq, Structural)]
pub struct KeyEvent {
    pub code: KeyCode,
    /// Whether the control key, and no other modifier, is held.
    pub control: bool,
    /// Whether the key went down, rather than up or on repeating.
    pub press: bool,
}

/// What the mouse did, as far as the program tells it apart.
#[derive(Debug, Clone, Copy, PartialEq, Eq, Structural)]
pub enum MouseEventKind {
    ScrollDown,
    ScrollUp,
    ScrollRight,
    ScrollLeft,
    DownLeft,
    DownRight,
    Other,
}

/// The line that a key opens the console with.
#[derive(Debug, Clone, Copy, PartialEq, Eq, Structural)]
pub enum Prompt {
    Add,
    Delete,
    Search,
    Bare,
}

impl Prompt {
    /// The text of the line.
    pub open spec fn text(self) -> Seq<char> {
        match self {
            Prompt::Add => ":add "@,
            Prompt::Delete => ":delete "@,
            Prompt::Search => ":search "@,
            Prompt::Bare => ":"@,
        }
    }

    /// The text of the line.
    pub fn line(self) -> (r: &'static str)
        ensures
            r@ == self.text(),
    {
        match self {
            Prompt::Add => ":add ",
            Prompt::Delete => ":delete ",
            Prompt::Search => ":search ",
            Prompt::Bare => ":",
        }
    }
}

/// One action on the state of the program.
#[derive(Debug, Clone, Copy, PartialEq, Eq, Structural)]
pub enum Action {
    Nothing,
    Quit,
    SubmitCommand,
    EnterChar(char),
    DeleteChar,
    CursorLeft,
    CursorRight,
    CloseConsole,
    OpenConsole(Prompt),
    ToggleKeybinds,
    Next,
    Prev,
    NextView,
    PrevView,
    NextTab,
    PrevTab,
    SetTab(usize),
    Unselect,
    Open,
    Refresh,
    OpenConfig,
}

/// Whether `code` is the letter `lower` in either case.
pub open spec fn is_letter(code: KeyCode, lower: char, upper: char) -> bool {
    code == KeyCode::Char(lower) || code == KeyCode::Char(upper)
}

/// What a key does while the console is shown: it edits the line, submits
/// it, or closes the console; control and C quits.
pub open spec fn console_action(key: KeyEvent) -> Action {
    if is_letter(key.code, 'c', 'C') && key.control {
        Action::Quit
    } else {
        match key.code {
            KeyCode::Enter => Action::SubmitCommand,
            KeyCode::Char(c) => Action::EnterChar(c),
            KeyCode::Backspace => Action::DeleteChar,
            KeyCode::Left => Action::CursorLeft,
            KeyCode::Right => Action::CursorRight,
            KeyCode::Esc => Action::CloseConsole,
            _ => Action::Nothing,
        }
    }
}

/// What a key does while neither the console nor the help is shown.
pub open spec fn browse_action(key: KeyEvent) -> Action {
    if is_letter(key.code, 'q', 'Q') {
        Action::Quit
    } else if is_letter(key.code, 'c', 'C') && key.control {
        Action::Quit
    } else if key.code == KeyCode::Down || key.code == KeyCode::Char('j') {
        Action::Next
    } else if key.code == KeyCode::Up || key.code == KeyCode::Char('k') {
        Action::Prev
    } else if key.code == KeyCode::Right || key.code == KeyCode::Enter || key.code
        == KeyCode::Char('l') {
        Action::NextView
    } else if key.code == KeyCode::Left || key.code == KeyCode::Char('h') {
        Action::PrevView
    } else if (key.code == KeyCode::Tab || key.code == KeyCode::Char('n')) && key.control {
        Action::NextTab
    } else if (key.code == KeyCode::BackTab || key.code == KeyCode::Char('p')) && key.control {
        Action::PrevTab
    } else {
        match key.code {
            KeyCode::Char('b') => Action::SetTab(0),
            KeyCode::Char('f') => Action::SetTab(1),
            KeyCode::Char('t') => Action::SetTab(2),
            KeyCode::Esc => Action::Unselect,
            KeyCode::Char('a') => Action::OpenConsole(Prompt::Add),
            KeyCode::Char('d') => Action::OpenConsole(Prompt::Delete),
            KeyCode::Char('/') => Action::OpenConsole(Prompt::Search),
            KeyCode::Char(':') => Action::OpenConsole(Prompt::Bare),
            KeyCode::Char('o') => Action::Open,
            KeyCode::Char('r') => Action::Refresh,
            KeyCode::Char('?') => Action::ToggleKeybinds,
            KeyCode::Char(',') => Action::OpenConfig,
            _ => Action::Nothing,
        }
    }
}

/// What a key does, given whether the console, or else the help, is shown.
/// Where only presses count, every other event does nothing. While the
/// help is shown, Q quits and every other key closes the help.
pub open spec fn action_of(key: KeyEvent, console: bool, keybinds: bool, presses_only: bool) -> Action {
    if presses_only && !key.press {
        Action::Nothing
    } else if console {
        console_action(key)
    } else if keybinds {
        if is_letter(key.code, 'q', 'Q') {
            Action::Quit
        } else {
            Action::ToggleKeybinds
        }
    } else {
        browse_action(key)
    }
}

/// What a key does; see [`action_of`].
pub fn key_action(key: &KeyEvent, console: bool, keybinds: bool, presses_only: bool) -> (r: Action)
    ensures
        r == action_of(*key, console, keybinds, presses_only),
{
    let quit_letter = match key.code {
        KeyCode::Char(c) => c == 'q' || c == 'Q',
        _ => false,
    };
    let interrupt = match key.code {
        KeyCode::Char(c) => (c == 'c' || c == 'C') && key.control,
        _ => false,
    };
    if presses_only && !key.press {
        return Action::Nothing;
    }
    if console {
        if interrupt {
            return Action::Quit;
        }
        return match key.code {
            KeyCode::Enter => Action::SubmitCommand,
            KeyCode::Char(c) => Action::EnterChar(c),
            KeyCode::Backspace => Action::DeleteChar,
            KeyCode::Left => Action::CursorLeft,
            KeyCode::Right => Action::CursorRight,
            KeyCode::Esc => Action::CloseConsole,
            _ => Action::Nothing,
        };
    }
    if keybinds {
        if quit_letter {
            return Action::Quit;
        }
        return Action::ToggleKeybinds;
    }
    if quit_letter || interrupt {
        return Action::Quit;
    }
    match key.code {
        KeyCode::Down => Action::Next,
        KeyCode::Up => Action::Prev,
        KeyCode::Right => Action::NextView,
        KeyCode::Enter => Action::NextView,
        KeyCode::Left => Action::PrevView,
        KeyCode::Tab => if key.control {
            Action::NextTab
        } else {
            Action::Nothing
        },
        KeyCode::BackTab => if key.control {
            Action::PrevTab
        } else {
            Action::Nothing
        },
        KeyCode::Esc => Action::Unselect,
        KeyCode::Char(c) => {
            if c == 'j' {
                Action::Next
            } else if c == 'k' {
                Action::Prev
            } else if c == 'l' {
                Action::NextView
            } else if c == 'h' {
                Action::PrevView
            } else if c == 'n' && key.control {
                Action::NextTab
            } else if c == 'p' && key.control {
                Action::PrevTab
            } else if c == 'b' {
                Action::SetTab(0)
            } else if c == 'f' {
                Action::SetTab(1)
            } else if c == 't' {
                Action::SetTab(2)
            } else if c == 'a' {
                Action::OpenConsole(Prompt::Add)
            } else if c == 'd' {
                Action::OpenConsole(Prompt::Delete)
            } else if c == '/' {
                Action::OpenConsole(Prompt::Search)
            } else if c == ':' {
                Action::OpenConsole(Prompt::Bare)
            } else if c == 'o' {
                Action::Open
            } else if c == 'r' {
                Action::Refresh
            } else if c == '?' {
                Action::ToggleKeybinds
            } else if c == ',' {
                Action::OpenConfig
            } else {
                Action::Nothing
            }
        },
        _ => Action::Nothing,
    }
}

/// What the mouse does: the wheel steps through the panel that has the
/// focus, or moves the focus; the left button moves the focus on, the
/// right button back.
pub open spec fn mouse_action_of(kind: MouseEventKind) -> Action {
    match kind {
        MouseEventKind::ScrollDown => Action::Next,
        MouseEventKind::ScrollUp => Action::Prev,
        MouseEventKind::ScrollRight => Action::NextView,
        MouseEventKind::DownLeft => Action::NextView,
        MouseEventKind::ScrollLeft => Action::PrevView,
        MouseEventKind::DownRight => Action::PrevView,
        MouseEventKind::Other => Action::Nothing,
    }
}

/// What the mouse does; see [`mouse_action_of`].
pub fn mouse_action(kind: MouseEventKind) -> (r: Action)
    ensures
        r == mouse_action_of(kind),
{
    match kind {
        MouseEventKind::ScrollDown => Action::Next,
        MouseEventKind::ScrollUp => Action::Prev,
        MouseEventKind::ScrollRight => Action::NextView,
        MouseEventKind::DownLeft => Action::NextView,
        MouseEventKind::ScrollLeft => Action::PrevView,
        MouseEventKind::DownRight => Action::PrevView,
        MouseEventKind::Other => Action::Nothing,
    }
}

/// What an action leaves for the caller to do.
#[derive(Debug)]
pub struct Effects {
    /// Work for whoever does the network's part.
    pub commands: Vec<Command>,
    /// A link to open with the program the system has for it.
    pub open: Option<String>,
    /// The configuration file, to be opened likewise.
    pub open_config: Option<std::path::PathBuf>,
    /// Whether the configured feeds changed, so that the file needs
    /// writing.
    pub config_changed: bool,
}

/// The state after `action`, where the action is one that changes nothing
/// but the state itself.
pub open spec fn acted(before: AppView, action: Action) -> AppView {
    match action {
        Action::Quit => AppView { running: false, ..before },
        Action::EnterChar(c) => before.enter_char(c),
        Action::DeleteChar => before.delete_char(),
        Action::CursorLeft => before.move_cursor_left(),
        Action::CursorRight => before.move_cursor_right(),
        Action::CloseConsole => before.toggle_console(None),
        Action::OpenConsole(prompt) => before.toggle_console(Some(prompt.text())),
        Action::ToggleKeybinds => AppView { show_keybinds: !before.show_keybinds, ..before },
        Action::Next => before.next(),
        Action::Prev => before.prev(),
        Action::NextView => before.next_view(false),
        Action::PrevView => before.prev_view(false),
        Action::NextTab => AppView { active_tab: before.active_tab.right(), ..before },
        Action::PrevTab => AppView { active_tab: before.active_tab.left(), ..before },
        Action::SetTab(index) => AppView { active_tab: crate::app::Tab::at(index), ..before },
        Action::Unselect => before.unselect(),
        Action::Refresh => AppView {
            repo: before.repo.refreshed(before.config.urls(), before.config.order()),
            ..before
        },
        Action::SubmitCommand => before.submitted(),
        _ => before,
    }
}

/// The work that `action` hands out.
pub open spec fn action_commands(before: AppView, action: Action) -> Seq<CommandView> {
    match action {
        Action::Refresh => before.repo.refresh_commands(
            before.config.urls(),
            before.config.timeout(),
        ),
        Action::SubmitCommand => before.submit_commands(),
        _ => Seq::empty(),
    }
}

/// Carries `action` out on `app`. Only submitting a command changes the
/// configuration, and only in its feeds. The order `Unread` is not
/// implemented and must not be configured.
pub fn apply(app: &mut App, action: Action) -> (effects: Effects)
    requires
        old(app).config.order() != SortOrder::Unread,
    ensures
        final(app).deep_view() == (AppView {
            config: final(app).config,
            ..acted(old(app).deep_view(), action)
        }),
        action != Action::SubmitCommand ==> final(app).config == old(app).config,
        action == Action::SubmitCommand ==> old(app).deep_view().configured(
            final(app).config,
            old(app).deep_view().submitted_urls(),
        ),
        effects.commands.deep_view() == action_commands(old(app).deep_view(), action),
        effects.open.deep_view() == (if action == Action::Open {
            old(app).deep_view().link_to_open()
        } else {
            None
        }),
        effects.open_config == (if action == Action::OpenConfig {
            Some(old(app).config.file())
        } else {
            None
        }),
        effects.config_changed == (final(app).config.urls() != old(app).config.urls()),
{
    let mut commands: Vec<Command> = Vec::new();
    assert(commands.deep_view() =~= Seq::<CommandView>::empty());
    let mut open: Option<String> = None;
    let mut open_config: Option<std::path::PathBuf> = None;
    let mut config_changed = false;
    match action {
        Action::Nothing => {},
        Action::Quit => app.quit(),
        Action::SubmitCommand => {
            let Submission { commands: work, config_changed: changed } = app.submit_command();
            commands = work;
            config_changed = changed;
        },
        Action::EnterChar(c) => app.enter_char(c),
        Action::DeleteChar => app.delete_char(),
        Action::CursorLeft => app.move_cursor_left(),
        Action::CursorRight => app.move_cursor_right(),
        Action::CloseConsole => app.toggle_console(None),
        Action::OpenConsole(prompt) => app.toggle_console(Some(prompt.line())),
        Action::ToggleKeybinds => app.toggle_keybinds(),
        Action::Next => app.next(),
        Action::Prev => app.prev(),
        Action::NextView => app.next_view(false),
        Action::PrevView => app.prev_view(false),
        Action::NextTab => app.next_tab(),
        Action::PrevTab => app.prev_tab(),
        Action::SetTab(index) => app.set_tab(index),
        Action::Unselect => app.unselect(),
        Action::Open => {
            open = app.open();
        },
        Action::Refresh => {
            commands = app.refresh_all();
        },
        Action::OpenConfig => {
            open_config = Some(app.open_config());
        },
    }
    Effects { commands, open, open_config, config_changed }
}

/// Handles a key event: turns it into an action, given what is shown, and
/// carries the action out. `presses_only` says whether only presses count,
/// as they do where releases are reported too.
pub fn handle_key_events(key_event: KeyEvent, app: &mut App, presses_only: bool) -> (effects: Effects)
    requires
        old(app).config.order() != SortOrder::Unread,
    ensures
        ({
            let before = old(app).deep_view();
            let action = action_of(key_event, before.show_input, before.show_keybinds, presses_only);
            &&& final(app).deep_view() == (AppView {
                config: final(app).config,
                ..acted(before, action)
            })
            &&& action != Action::SubmitCommand ==> final(app).config == old(app).config
            &&& action == Action::SubmitCommand ==> before.configured(
                final(app).config,
                before.submitted_urls(),
            )
            &&& effects.commands.deep_view() == action_commands(before, action)
            &&& effects.open.deep_view() == (if action == Action::Open {
                before.link_to_open()
            } else {
                None
            })
            &&& effects.open_config == (if action == Action::OpenConfig {
                Some(old(app).config.file())
            } else {
                None
            })
            &&& effects.config_changed == (final(app).config.urls() != old(app).config.urls())
        }),
{
    let action = key_action(
        &key_event,
        app.should_render_console(),
        app.show_keybinds,
        presses_only,
    );
    apply(app, action)
}

/// Handles a mouse event; see [`mouse_action_of`].
pub fn handle_mouse_events(kind: MouseEventKind, app: &mut App) -> (effects: Effects)
    requires
        old(app).config.order() != SortOrder::Unread,
    ensures
        final(app).deep_view() == acted(old(app).deep_view(), mouse_action_of(kind)),
        effects.commands.deep_view() == Seq::<CommandView>::empty(),
        effects.open is None,
        effects.open_config is None,
        !effects.config_changed,
{
    let effects = apply(app, mouse_action(kind));
    effects
}

/// Handles a change of the size of the terminal.
pub fn handle_resize_events(dimensions: (u16, u16), app: &mut App)
    ensures
        final(app).deep_view() == (AppView { dimensions, ..old(app).deep_view() }),
{
    app.set_dimensions(dimensions);
}

} // verus!
