use moccasin::config::theme::{
    make_color, try_style_from_toml, Color, Modifier, ParseColorError, ParseThemeError, Style,
    Theme, ThemeSearch, ThemeSource, DIM, REVERSED, THEME_FILES,
};
use moccasin::config::toml::{TomlEntry, TomlValue};

fn name(s: &str) -> TomlValue {
    TomlValue::String(s.to_string())
}

fn table(entries: Vec<(&str, TomlValue)>) -> TomlValue {
    TomlValue::Table(
        entries.into_iter().map(|(k, v)| TomlEntry { key: k.to_string(), value: v }).collect(),
    )
}

fn plain() -> Style {
    Style::new()
}

#[test]
fn hexadecimal_colours_are_read() {
    assert_eq!(make_color("#FFFFFF"), Color::Rgb(255, 255, 255));
    assert_eq!(make_color("#000080"), Color::Rgb(0, 0, 128));
    assert_eq!(make_color("#fefd72"), Color::Rgb(254, 253, 114));
    assert_eq!(make_color("#777"), Color::Rgb(119, 119, 119));
    assert_eq!(make_color("F7b3aA"), Color::Rgb(247, 179, 170));
}

#[test]
fn what_is_no_colour_resets() {
    assert_eq!(make_color("Magenta"), Color::Reset);
    assert_eq!(make_color(""), Color::Reset);
    assert_eq!(make_color("#12345g"), Color::Reset);
    assert_eq!(make_color("#0000"), Color::Reset);
}

#[test]
fn styles_are_built_step_by_step() {
    let style = plain().fg(Color::Red).bg(Color::Black);
    assert_eq!(style.fg, Some(Color::Red));
    assert_eq!(style.bg, Some(Color::Black));
    assert_eq!(style.add_modifier, Modifier { bits: 0 });
    assert_eq!(plain().dim().add_modifier, Modifier { bits: DIM });
    assert_eq!(plain().dim().reversed().add_modifier, Modifier { bits: DIM | REVERSED });
    let undone = Style { sub_modifier: Modifier { bits: DIM | REVERSED }, ..plain() };
    assert_eq!(undone.add_modifier(DIM).sub_modifier, Modifier { bits: REVERSED });
    assert_eq!(Style::default(), plain());
    assert_eq!(DIM, 2);
    assert_eq!(REVERSED, 64);
}

#[test]
fn parts_fall_back_on_each_other() {
    let base = plain().fg(Color::White).bg(Color::Blue);
    let theme = Theme {
        base,
        overlay: None,
        status: None,
        selection: None,
        selection_active: None,
        border: None,
        border_active: None,
        scrollbar: None,
    };
    assert_eq!(theme.base(), base);
    assert_eq!(theme.overlay(), base);
    assert_eq!(theme.status(), base);
    assert_eq!(theme.active_selection(), base.reversed());
    assert_eq!(theme.selection(), base.reversed());
    assert_eq!(theme.active_border(), base);
    assert_eq!(theme.border(), base.dim());
    assert_eq!(theme.scrollbar_thumb(), plain());
    assert_eq!(theme.scrollbar_track(), base.dim());
}

#[test]
fn parts_that_are_set_are_used() {
    let red = plain().fg(Color::Red);
    let green = plain().fg(Color::Green);
    let theme = Theme {
        base: plain(),
        overlay: Some(red),
        status: Some(green),
        selection: Some(red),
        selection_active: Some(green),
        border: Some(red),
        border_active: Some(green),
        scrollbar: Some(plain().fg(Color::Cyan).bg(Color::Gray)),
    };
    assert_eq!(theme.overlay(), red);
    assert_eq!(theme.status(), green);
    assert_eq!(theme.selection(), red);
    assert_eq!(theme.active_selection(), green);
    assert_eq!(theme.border(), red);
    assert_eq!(theme.active_border(), green);
    assert_eq!(theme.scrollbar_thumb(), plain().fg(Color::Cyan));
    assert_eq!(theme.scrollbar_track(), plain().fg(Color::Gray));
}

#[test]
fn the_track_takes_the_background_it_finds() {
    let mut theme = Theme::default();
    theme.scrollbar = Some(plain().fg(Color::Cyan));
    assert_eq!(theme.scrollbar_track(), plain().dim());
    theme.base = plain().bg(Color::Black);
    assert_eq!(theme.scrollbar_track(), plain().fg(Color::Black));
    theme.scrollbar = Some(plain());
    assert_eq!(theme.scrollbar_thumb(), plain());
}

#[test]
fn the_default_theme_dims_the_scrollbar() {
    let theme = Theme::default();
    assert_eq!(theme.base, plain());
    assert_eq!(theme.scrollbar, Some(plain().dim()));
    assert_eq!(theme.overlay, None);
    assert_eq!(theme.selection_active, None);
}

#[test]
fn built_in_themes_have_their_colours() {
    let borland = Theme::borland();
    assert_eq!(borland.base, plain().fg(Color::Rgb(255, 255, 255)).bg(Color::Rgb(0, 0, 128)));
    assert_eq!(
        borland.selection_active,
        Some(plain().fg(Color::Rgb(0, 0, 128)).bg(Color::Rgb(254, 253, 114)))
    );
    assert_eq!(borland.border, Some(plain().fg(Color::Rgb(187, 187, 187))));
    let darcula = Theme::darcula();
    assert_eq!(darcula.base, plain().fg(Color::Rgb(204, 204, 204)).bg(Color::Rgb(36, 36, 36)));
    assert_eq!(darcula.scrollbar, Some(plain().fg(Color::Rgb(112, 112, 112))));
    let focus = Theme::focus();
    assert_eq!(focus.base, plain().bg(Color::Black));
    assert_eq!(focus.border, Some(plain().fg(Color::Black).bg(Color::Black)));
    assert_eq!(focus.selection, None);
    let jungle = Theme::jungle();
    assert_eq!(jungle.border_active, Some(plain().fg(Color::Green)));
    assert_eq!(jungle.selection, Some(plain().dim().reversed()));
    let matrix = Theme::matrix();
    assert_eq!(matrix.base, plain().fg(Color::Rgb(73, 242, 126)).bg(Color::Rgb(4, 16, 10)));
    let redshift = Theme::redshift();
    assert_eq!(redshift.base, plain().fg(Color::Red).bg(Color::Black));
    assert_eq!(redshift.selection_active, Some(plain().fg(Color::Red).reversed()));
    let wyse = Theme::wyse();
    assert_eq!(wyse.base, plain().fg(Color::Rgb(234, 172, 31)).bg(Color::Rgb(35, 29, 23)));
    assert_eq!(wyse.border, Some(plain().fg(Color::Rgb(147, 103, 8))));
}

#[test]
fn themes_have_names() {
    assert_eq!(Theme::named("default"), Some(Theme::default()));
    assert_eq!(Theme::named("borland"), Some(Theme::borland()));
    assert_eq!(Theme::named("darcula"), Some(Theme::darcula()));
    assert_eq!(Theme::named("focus"), Some(Theme::focus()));
    assert_eq!(Theme::named("jungle"), Some(Theme::jungle()));
    assert_eq!(Theme::named("matrix"), Some(Theme::matrix()));
    assert_eq!(Theme::named("redshift"), Some(Theme::redshift()));
    assert_eq!(Theme::named("wyse"), Some(Theme::wyse()));
    assert_eq!(Theme::named("Borland"), None);
    assert_eq!(Theme::from_str("wyse"), ThemeSource::Ready(Theme::wyse()));
    assert_eq!(Theme::from_str("my.toml"), ThemeSource::File("my.toml".to_string()));
}

#[test]
fn styles_are_named_in_any_case() {
    assert_eq!(try_style_from_toml(&name("red")), Ok(plain().fg(Color::Red)));
    assert_eq!(try_style_from_toml(&name("RED")), Ok(plain().fg(Color::Red)));
    assert_eq!(try_style_from_toml(&name("LightBlack")), Ok(plain().fg(Color::DarkGray)));
    assert_eq!(try_style_from_toml(&name("darkgray")), Ok(plain().fg(Color::DarkGray)));
    assert_eq!(try_style_from_toml(&name("white")), Ok(plain().fg(Color::White)));
    assert_eq!(try_style_from_toml(&name("lightCyan")), Ok(plain().fg(Color::LightCyan)));
    assert_eq!(try_style_from_toml(&name("#FF0000")), Ok(plain().fg(Color::Rgb(255, 0, 0))));
    assert_eq!(try_style_from_toml(&name("#zz")), Ok(plain().fg(Color::Reset)));
}

#[test]
fn what_names_no_style_is_an_error() {
    assert_eq!(try_style_from_toml(&name("reddish")), Err(ParseColorError::InvalidFormat));
    assert_eq!(try_style_from_toml(&name("")), Err(ParseColorError::InvalidFormat));
    assert_eq!(try_style_from_toml(&TomlValue::Integer(3)), Err(ParseColorError::InvalidFormat));
    assert_eq!(try_style_from_toml(&TomlValue::Boolean(true)), Err(ParseColorError::InvalidFormat));
    assert_eq!(try_style_from_toml(&TomlValue::Array(vec![])), Err(ParseColorError::InvalidFormat));
}

#[test]
fn records_give_foreground_and_background() {
    let both = table(vec![("fg", name("red")), ("bg", name("#000080"))]);
    assert_eq!(try_style_from_toml(&both), Ok(plain().fg(Color::Red).bg(Color::Rgb(0, 0, 128))));
    let fg_only = table(vec![("fg", name("green"))]);
    assert_eq!(try_style_from_toml(&fg_only), Ok(plain().fg(Color::Green)));
    let bg_only = table(vec![("bg", name("blue"))]);
    assert_eq!(try_style_from_toml(&bg_only), Ok(plain().bg(Color::Blue)));
    let bad_fg = table(vec![("fg", name("nope")), ("bg", name("blue"))]);
    assert_eq!(try_style_from_toml(&bad_fg), Ok(plain().bg(Color::Blue)));
    let bad_bg = table(vec![("fg", name("red")), ("bg", TomlValue::Integer(1))]);
    assert_eq!(try_style_from_toml(&bad_bg), Ok(plain().fg(Color::Red)));
    assert_eq!(try_style_from_toml(&table(vec![])), Ok(plain()));
}

#[test]
fn a_background_without_a_colour_is_an_error() {
    let nested = table(vec![("bg", table(vec![("bg", name("red"))]))]);
    assert_eq!(try_style_from_toml(&nested), Err(ParseColorError::InvalidFormat));
    let nested_fg = table(vec![("bg", table(vec![("fg", name("red"))]))]);
    assert_eq!(try_style_from_toml(&nested_fg), Ok(plain().bg(Color::Red)));
}

#[test]
fn schemes_are_read_part_by_part() {
    let scheme = table(vec![
        ("base", table(vec![("fg", name("white")), ("bg", name("black"))])),
        ("overlay", name("yellow")),
        ("border", name("not a colour")),
        ("selection_active", name("#00ff00")),
        ("scrollbar", TomlValue::Integer(1)),
    ]);
    let theme = match Theme::try_from(&scheme) {
        Ok(ThemeSource::Ready(theme)) => theme,
        other => panic!("no theme: {:?}", other),
    };
    assert_eq!(theme.base, plain().fg(Color::White).bg(Color::Black));
    assert_eq!(theme.overlay, Some(plain().fg(Color::Yellow)));
    assert_eq!(theme.status, None);
    assert_eq!(theme.border, None);
    assert_eq!(theme.selection_active, Some(plain().fg(Color::Rgb(0, 255, 0))));
    assert_eq!(theme.scrollbar, None);
    let empty = match Theme::try_from(&table(vec![])) {
        Ok(ThemeSource::Ready(theme)) => theme,
        other => panic!("no theme: {:?}", other),
    };
    assert_eq!(empty.base, plain());
    assert_eq!(empty.scrollbar, None);
}

#[test]
fn theme_values_name_a_theme_or_a_file() {
    assert_eq!(Theme::try_from(&name("matrix")), Ok(ThemeSource::Ready(Theme::matrix())));
    assert_eq!(
        Theme::try_from(&name("themes/mine.toml")),
        Ok(ThemeSource::File("themes/mine.toml".to_string()))
    );
    assert_eq!(Theme::try_from(&TomlValue::Integer(1)), Err(ParseThemeError));
    assert_eq!(Theme::try_from(&TomlValue::Float), Err(ParseThemeError));
    assert_eq!(ParseThemeError.message(), "error parsing theme");
}

#[test]
fn theme_files_are_read() {
    let text = "base = { fg = \"red\", bg = \"black\" }\nstatus = \"CYAN\"\n";
    let theme = match Theme::from_file_text(text) {
        Ok(ThemeSource::Ready(theme)) => theme,
        other => panic!("no theme: {:?}", other),
    };
    assert_eq!(theme.base, plain().fg(Color::Red).bg(Color::Black));
    assert_eq!(theme.status, Some(plain().fg(Color::Cyan)));
    assert_eq!(Theme::from_file_text("= broken"), Err(ParseThemeError));
}

#[test]
fn a_search_begins_with_the_theme_or_its_first_file() {
    assert_eq!(
        Theme::search(ThemeSource::Ready(Theme::matrix())),
        ThemeSearch::Found(Theme::matrix())
    );
    assert_eq!(
        Theme::search(ThemeSource::File("mine.toml".to_string())),
        ThemeSearch::Read { path: "mine.toml".to_string(), followed: 0 }
    );
}

#[test]
fn a_search_follows_eight_files_and_no_more() {
    assert_eq!(THEME_FILES, 8);
    let next = || Ok(ThemeSource::File("next.toml".to_string()));
    assert_eq!(
        Theme::search_next(0, next()),
        ThemeSearch::Read { path: "next.toml".to_string(), followed: 1 }
    );
    assert_eq!(
        Theme::search_next(6, next()),
        ThemeSearch::Read { path: "next.toml".to_string(), followed: 7 }
    );
    assert_eq!(Theme::search_next(7, next()), ThemeSearch::Lost);
    assert_eq!(Theme::search_next(usize::MAX, next()), ThemeSearch::Lost);
    assert_eq!(
        Theme::search_next(7, Ok(ThemeSource::Ready(Theme::wyse()))),
        ThemeSearch::Found(Theme::wyse())
    );
    assert_eq!(Theme::search_next(0, Err(ParseThemeError)), ThemeSearch::Lost);
}

#[test]
fn a_search_reads_the_text_of_a_file() {
    assert_eq!(Theme::search_on(0, None), ThemeSearch::Lost);
    assert_eq!(Theme::search_on(0, Some("not = [toml")), ThemeSearch::Lost);
    match Theme::search_on(0, Some("[base]\nfg = \"red\"\n")) {
        ThemeSearch::Found(theme) => assert_eq!(theme.base().fg, Some(Color::Red)),
        other => panic!("no theme: {:?}", other),
    }
}
