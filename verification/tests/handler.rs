use moccasin::app::{App, Tab, View};
use moccasin::config::{Args, Config};
use moccasin::handler::{
    apply, handle_key_events, handle_mouse_events, handle_resize_events, key_action, mouse_action,
    Action, KeyCode, KeyEvent, MouseEventKind, Prompt,
};
use moccasin::repo::{Command, Repository};
use std::path::PathBuf;

fn app() -> App {
    let args = Args { config: None, color_scheme: None, interval: None, timeout: None, no_cache: true };
    let config = Config::create_initialized(
        args,
        PathBuf::from("/tmp/m"),
        PathBuf::from("/tmp/m/moccasin.toml"),
        vec!["u".to_string()],
    );
    App::init((80, 24), config, Repository::init("1"))
}

fn key(code: KeyCode) -> KeyEvent {
    KeyEvent { code, control: false, press: true }
}

fn ctrl(code: KeyCode) -> KeyEvent {
    KeyEvent { code, control: true, press: true }
}

fn browse(k: KeyEvent) -> Action {
    key_action(&k, false, false, false)
}

#[test]
fn keys_in_browse_mode() {
    assert_eq!(browse(key(KeyCode::Char('q'))), Action::Quit);
    assert_eq!(browse(key(KeyCode::Char('Q'))), Action::Quit);
    assert_eq!(browse(ctrl(KeyCode::Char('c'))), Action::Quit);
    assert_eq!(browse(ctrl(KeyCode::Char('C'))), Action::Quit);
    assert_eq!(browse(key(KeyCode::Char('c'))), Action::Nothing);
    assert_eq!(browse(key(KeyCode::Down)), Action::Next);
    assert_eq!(browse(key(KeyCode::Char('j'))), Action::Next);
    assert_eq!(browse(key(KeyCode::Up)), Action::Prev);
    assert_eq!(browse(key(KeyCode::Char('k'))), Action::Prev);
    assert_eq!(browse(key(KeyCode::Right)), Action::NextView);
    assert_eq!(browse(key(KeyCode::Enter)), Action::NextView);
    assert_eq!(browse(key(KeyCode::Char('l'))), Action::NextView);
    assert_eq!(browse(key(KeyCode::Left)), Action::PrevView);
    assert_eq!(browse(key(KeyCode::Char('h'))), Action::PrevView);
    assert_eq!(browse(ctrl(KeyCode::Tab)), Action::NextTab);
    assert_eq!(browse(ctrl(KeyCode::Char('n'))), Action::NextTab);
    assert_eq!(browse(key(KeyCode::Tab)), Action::Nothing);
    assert_eq!(browse(key(KeyCode::Char('n'))), Action::Nothing);
    assert_eq!(browse(ctrl(KeyCode::BackTab)), Action::PrevTab);
    assert_eq!(browse(ctrl(KeyCode::Char('p'))), Action::PrevTab);
    assert_eq!(browse(key(KeyCode::Char('p'))), Action::Nothing);
    assert_eq!(browse(key(KeyCode::Char('b'))), Action::SetTab(0));
    assert_eq!(browse(key(KeyCode::Char('f'))), Action::SetTab(1));
    assert_eq!(browse(key(KeyCode::Char('t'))), Action::SetTab(2));
    assert_eq!(browse(key(KeyCode::Esc)), Action::Unselect);
    assert_eq!(browse(key(KeyCode::Char('a'))), Action::OpenConsole(Prompt::Add));
    assert_eq!(browse(key(KeyCode::Char('d'))), Action::OpenConsole(Prompt::Delete));
    assert_eq!(browse(key(KeyCode::Char('/'))), Action::OpenConsole(Prompt::Search));
    assert_eq!(browse(key(KeyCode::Char(':'))), Action::OpenConsole(Prompt::Bare));
    assert_eq!(browse(key(KeyCode::Char('o'))), Action::Open);
    assert_eq!(browse(key(KeyCode::Char('r'))), Action::Refresh);
    assert_eq!(browse(key(KeyCode::Char('?'))), Action::ToggleKeybinds);
    assert_eq!(browse(key(KeyCode::Char(','))), Action::OpenConfig);
    assert_eq!(browse(key(KeyCode::Char('z'))), Action::Nothing);
    assert_eq!(browse(key(KeyCode::Backspace)), Action::Nothing);
    assert_eq!(browse(key(KeyCode::Other)), Action::Nothing);
    assert_eq!(browse(ctrl(KeyCode::Char('j'))), Action::Next);
}

#[test]
fn keys_in_console_mode() {
    let console = |k: KeyEvent| key_action(&k, true, true, false);
    assert_eq!(console(ctrl(KeyCode::Char('c'))), Action::Quit);
    assert_eq!(console(key(KeyCode::Char('c'))), Action::EnterChar('c'));
    assert_eq!(console(key(KeyCode::Char('q'))), Action::EnterChar('q'));
    assert_eq!(console(ctrl(KeyCode::Char('x'))), Action::EnterChar('x'));
    assert_eq!(console(key(KeyCode::Enter)), Action::SubmitCommand);
    assert_eq!(console(key(KeyCode::Backspace)), Action::DeleteChar);
    assert_eq!(console(key(KeyCode::Left)), Action::CursorLeft);
    assert_eq!(console(key(KeyCode::Right)), Action::CursorRight);
    assert_eq!(console(key(KeyCode::Esc)), Action::CloseConsole);
    assert_eq!(console(key(KeyCode::Up)), Action::Nothing);
    assert_eq!(console(key(KeyCode::Tab)), Action::Nothing);
}

#[test]
fn keys_while_the_help_is_shown() {
    let help = |k: KeyEvent| key_action(&k, false, true, false);
    assert_eq!(help(key(KeyCode::Char('q'))), Action::Quit);
    assert_eq!(help(key(KeyCode::Char('Q'))), Action::Quit);
    assert_eq!(help(key(KeyCode::Char('j'))), Action::ToggleKeybinds);
    assert_eq!(help(key(KeyCode::Esc)), Action::ToggleKeybinds);
    assert_eq!(help(ctrl(KeyCode::Char('c'))), Action::ToggleKeybinds);
}

#[test]
fn releases_do_nothing_where_only_presses_count() {
    let release = KeyEvent { code: KeyCode::Char('q'), control: false, press: false };
    assert_eq!(key_action(&release, false, false, true), Action::Nothing);
    assert_eq!(key_action(&release, true, false, true), Action::Nothing);
    assert_eq!(key_action(&release, false, false, false), Action::Quit);
    assert_eq!(key_action(&key(KeyCode::Char('q')), false, false, true), Action::Quit);
}

#[test]
fn the_mouse_steps_and_moves_the_focus() {
    assert_eq!(mouse_action(MouseEventKind::ScrollDown), Action::Next);
    assert_eq!(mouse_action(MouseEventKind::ScrollUp), Action::Prev);
    assert_eq!(mouse_action(MouseEventKind::ScrollRight), Action::NextView);
    assert_eq!(mouse_action(MouseEventKind::DownLeft), Action::NextView);
    assert_eq!(mouse_action(MouseEventKind::ScrollLeft), Action::PrevView);
    assert_eq!(mouse_action(MouseEventKind::DownRight), Action::PrevView);
    assert_eq!(mouse_action(MouseEventKind::Other), Action::Nothing);
}

#[test]
fn prompts_have_their_lines() {
    assert_eq!(Prompt::Add.line(), ":add ");
    assert_eq!(Prompt::Delete.line(), ":delete ");
    assert_eq!(Prompt::Search.line(), ":search ");
    assert_eq!(Prompt::Bare.line(), ":");
}

#[test]
fn key_events_act_on_the_program() {
    let mut app = app();
    let effects = handle_key_events(key(KeyCode::Char('a')), &mut app, false);
    assert!(effects.commands.is_empty());
    assert!(app.should_render_console());
    assert_eq!(app.command_state.input, ":add ");
    handle_key_events(key(KeyCode::Char('x')), &mut app, false);
    handle_key_events(key(KeyCode::Char('q')), &mut app, false);
    assert_eq!(app.command_state.input, ":add xq");
    assert!(app.running);
    handle_key_events(key(KeyCode::Backspace), &mut app, false);
    handle_key_events(key(KeyCode::Left), &mut app, false);
    handle_key_events(key(KeyCode::Char('y')), &mut app, false);
    assert_eq!(app.command_state.input, ":add yx");
    let effects = handle_key_events(key(KeyCode::Enter), &mut app, false);
    assert!(effects.config_changed);
    assert_eq!(
        effects.commands,
        vec![Command::FetchOne { operation: 0, url: "yx".to_string(), timeout: 0 }]
    );
    assert!(!app.should_render_console());
    handle_key_events(key(KeyCode::Char('?')), &mut app, false);
    assert!(app.show_keybinds);
    handle_key_events(key(KeyCode::Char('j')), &mut app, false);
    assert!(!app.show_keybinds);
    handle_key_events(key(KeyCode::Char('f')), &mut app, false);
    assert_eq!(app.active_tab, Tab::Favorites);
    handle_key_events(ctrl(KeyCode::Tab), &mut app, false);
    assert_eq!(app.active_tab, Tab::Tags);
    let effects = handle_key_events(key(KeyCode::Char('r')), &mut app, false);
    assert_eq!(effects.commands.len(), 1);
    let effects = handle_key_events(key(KeyCode::Char(',')), &mut app, false);
    assert_eq!(effects.open_config, Some(PathBuf::from("/tmp/m/moccasin.toml")));
    let effects = handle_key_events(key(KeyCode::Char('o')), &mut app, false);
    assert_eq!(effects.open, None);
    handle_key_events(key(KeyCode::Char('q')), &mut app, false);
    assert!(!app.running);
}

#[test]
fn escape_closes_the_console() {
    let mut app = app();
    apply(&mut app, Action::OpenConsole(Prompt::Bare));
    assert_eq!(app.command_state.input, ":");
    handle_key_events(key(KeyCode::Esc), &mut app, false);
    assert!(!app.should_render_console());
    assert_eq!(app.command_state.input, "");
}

#[test]
fn mouse_and_resize_events_act_on_the_program() {
    let mut app = app();
    let effects = handle_mouse_events(MouseEventKind::ScrollDown, &mut app);
    assert!(effects.commands.is_empty());
    handle_mouse_events(MouseEventKind::DownLeft, &mut app);
    assert_eq!(app.active_view, View::MainList);
    handle_resize_events((120, 40), &mut app);
    assert_eq!(app.dimensions, (120, 40));
}

#[test]
fn doing_nothing_changes_nothing() {
    let mut app = app();
    let effects = apply(&mut app, Action::Nothing);
    assert!(effects.commands.is_empty());
    assert_eq!(effects.open, None);
    assert_eq!(effects.open_config, None);
    assert!(!effects.config_changed);
    assert!(app.running);
}
