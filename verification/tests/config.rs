use moccasin::config::theme::Theme;
use moccasin::config::toml::TomlValue;
use moccasin::config::{
    distinct_texts, read_preferences, to_unsigned, Args, CacheControl, Config, ConfigError,
    Preferences, SortOrder, DEFAULT_REFRESH_INTERVAL, DEFAULT_REFRESH_TIMEOUT,
};
use std::path::PathBuf;

fn no_args() -> Args {
    Args { config: None, color_scheme: None, interval: None, timeout: None, no_cache: false }
}

fn no_preferences() -> Preferences {
    Preferences {
        feeds: vec![],
        color_scheme: None,
        sort_feeds: None,
        refresh_interval: None,
        refresh_timeout: None,
        cache_feeds: None,
    }
}

fn build(args: Args, preferences: Preferences) -> Config {
    Config::read_from_toml(
        args,
        PathBuf::from("/home/u/.config/moccasin"),
        PathBuf::from("/home/u/.config/moccasin/moccasin.toml"),
        preferences,
        None,
        None,
    )
}

#[test]
fn defaults_apply_where_nothing_is_said() {
    let config = build(no_args(), no_preferences());
    assert!(config.feed_urls().is_empty());
    assert_eq!(*config.sort_order(), SortOrder::Az);
    assert!(config.should_cache());
    assert_eq!(config.refresh_interval(), 300);
    assert_eq!(config.refresh_timeout(), 5);
    assert_eq!(DEFAULT_REFRESH_INTERVAL, 300);
    assert_eq!(DEFAULT_REFRESH_TIMEOUT, 5);
    assert_eq!(*config.theme(), Theme::default());
}

#[test]
fn the_command_line_wins_over_the_file() {
    let mut preferences = no_preferences();
    preferences.refresh_interval = Some(60);
    preferences.refresh_timeout = Some(10);
    preferences.cache_feeds = Some(true);
    let mut args = no_args();
    args.interval = Some(1);
    args.timeout = Some(2);
    args.no_cache = true;
    let config = build(args, preferences);
    assert_eq!(config.refresh_interval(), 1);
    assert_eq!(config.refresh_timeout(), 2);
    assert!(!config.should_cache());
}

#[test]
fn the_file_wins_over_the_defaults() {
    let mut preferences = no_preferences();
    preferences.refresh_interval = Some(60);
    preferences.refresh_timeout = Some(10);
    preferences.cache_feeds = Some(false);
    preferences.sort_feeds = Some("newest".to_string());
    preferences.feeds = vec!["a".to_string(), "b".to_string(), "a".to_string()];
    let config = build(no_args(), preferences);
    assert_eq!(config.refresh_interval(), 60);
    assert_eq!(config.refresh_timeout(), 10);
    assert!(!config.should_cache());
    assert_eq!(*config.sort_order(), SortOrder::Newest);
    assert_eq!(*config.feed_urls(), vec!["a".to_string(), "b".to_string()]);
}

#[test]
fn themes_are_chosen_by_the_command_line_first() {
    let config = Config::read_from_toml(
        no_args(),
        PathBuf::from("d"),
        PathBuf::from("d/f"),
        no_preferences(),
        Some(Theme::jungle()),
        Some(Theme::focus()),
    );
    assert_eq!(*config.theme(), Theme::jungle());
    let config = Config::read_from_toml(
        no_args(),
        PathBuf::from("d"),
        PathBuf::from("d/f"),
        no_preferences(),
        None,
        Some(Theme::focus()),
    );
    assert_eq!(*config.theme(), Theme::focus());
}

#[test]
fn negative_settings_wrap_around() {
    assert_eq!(to_unsigned(0), 0);
    assert_eq!(to_unsigned(42), 42);
    assert_eq!(to_unsigned(-1), u64::MAX);
    assert_eq!(to_unsigned(i64::MIN), 1u64 << 63);
    assert_eq!(to_unsigned(i64::MAX), i64::MAX as u64);
    let mut preferences = no_preferences();
    preferences.refresh_interval = Some(-2);
    assert_eq!(build(no_args(), preferences).refresh_interval(), u64::MAX - 1);
}

#[test]
fn sort_orders_have_names() {
    assert_eq!(SortOrder::from_str("a-z"), Ok(SortOrder::Az));
    assert_eq!(SortOrder::from_str("z-a"), Ok(SortOrder::Za));
    assert_eq!(SortOrder::from_str("newest"), Ok(SortOrder::Newest));
    assert_eq!(SortOrder::from_str("oldest"), Ok(SortOrder::Oldest));
    assert_eq!(SortOrder::from_str("custom"), Ok(SortOrder::Custom));
    assert_eq!(SortOrder::from_str("unread"), Ok(SortOrder::Az));
    assert_eq!(SortOrder::from_str(""), Ok(SortOrder::Az));
    assert_eq!(SortOrder::from_str("Z-A"), Ok(SortOrder::Az));
    assert_eq!(SortOrder::default(), SortOrder::Az);
}

#[test]
fn cache_control_follows_the_flag() {
    assert_eq!(CacheControl::from(true), CacheControl::Always);
    assert_eq!(CacheControl::from(false), CacheControl::Never);
    assert_eq!(CacheControl::default(), CacheControl::Always);
}

#[test]
fn paths_are_kept_and_extended() {
    let config = build(no_args(), no_preferences());
    assert_eq!(config.config_dir_path(), PathBuf::from("/home/u/.config/moccasin"));
    assert_eq!(
        config.config_file_path(),
        PathBuf::from("/home/u/.config/moccasin/moccasin.toml")
    );
    assert_eq!(config.db_path(), PathBuf::from("/home/u/.config/moccasin").join("moccasin.db"));
    assert_eq!(config.themes_path(), PathBuf::from("/home/u/.config/moccasin").join("themes"));
}

#[test]
fn adding_an_address_adds_it_once() {
    let mut config = build(no_args(), no_preferences());
    assert!(config.add_feed_url("a"));
    assert!(config.add_feed_url("b"));
    assert!(!config.add_feed_url("a"));
    assert_eq!(*config.feed_urls(), vec!["a".to_string(), "b".to_string()]);
}

#[test]
fn removing_an_address_keeps_the_order_of_the_rest() {
    let mut preferences = no_preferences();
    preferences.feeds = vec!["a".to_string(), "b".to_string(), "c".to_string()];
    let mut config = build(no_args(), preferences);
    assert!(config.remove_feed_url("b"));
    assert!(!config.remove_feed_url("b"));
    assert!(!config.remove_feed_url("zzz"));
    assert_eq!(*config.feed_urls(), vec!["a".to_string(), "c".to_string()]);
    assert!(config.remove_feed_url("a"));
    assert!(config.remove_feed_url("c"));
    assert!(config.feed_urls().is_empty());
}

#[test]
fn a_first_start_takes_the_stub_and_the_interval() {
    let mut args = no_args();
    args.interval = Some(12);
    args.timeout = Some(99);
    let config = Config::create_initialized(
        args,
        PathBuf::from("d"),
        PathBuf::from("d/f"),
        vec!["x".to_string(), "x".to_string(), "y".to_string()],
    );
    assert_eq!(*config.feed_urls(), vec!["x".to_string(), "y".to_string()]);
    assert_eq!(config.refresh_interval(), 12);
    assert_eq!(config.refresh_timeout(), 0);
    assert!(config.should_cache());
    assert_eq!(*config.sort_order(), SortOrder::Az);
    assert_eq!(config.config_dir_path(), PathBuf::from("d"));
}

#[test]
fn distinct_texts_keeps_first_occurrences() {
    let texts = vec!["b", "a", "b", "c", "a"].into_iter().map(String::from).collect();
    assert_eq!(distinct_texts(texts), vec!["b".to_string(), "a".to_string(), "c".to_string()]);
    assert_eq!(distinct_texts(vec![]), Vec::<String>::new());
}

#[test]
fn preferences_are_read_from_the_file() {
    let text = r##"
[sources]
feeds = ["https://a/rss", 7, "https://b/rss"]

[preferences]
color_scheme = "borland"
sort_feeds = "z-a"
refresh_interval = 120
refresh_timeout = 8
cache_feeds = false
"##;
    let preferences = read_preferences(text).expect("preferences");
    assert_eq!(preferences.feeds, vec!["https://a/rss".to_string(), "https://b/rss".to_string()]);
    assert_eq!(preferences.color_scheme, Some(TomlValue::String("borland".to_string())));
    assert_eq!(preferences.sort_feeds, Some("z-a".to_string()));
    assert_eq!(preferences.refresh_interval, Some(120));
    assert_eq!(preferences.refresh_timeout, Some(8));
    assert_eq!(preferences.cache_feeds, Some(false));
}

#[test]
fn settings_of_the_wrong_kind_are_ignored() {
    let text = r##"
[sources]

[preferences]
sort_feeds = 3
refresh_interval = "often"
refresh_timeout = 1.5
cache_feeds = "yes"
"##;
    let preferences = read_preferences(text).expect("preferences");
    assert!(preferences.feeds.is_empty());
    assert_eq!(preferences.color_scheme, None);
    assert_eq!(preferences.sort_feeds, None);
    assert_eq!(preferences.refresh_interval, None);
    assert_eq!(preferences.refresh_timeout, None);
    assert_eq!(preferences.cache_feeds, None);
}

#[test]
fn a_file_without_preferences_is_fine() {
    let preferences = read_preferences("[sources]\nfeeds = [\"x\"]\n").expect("preferences");
    assert_eq!(preferences.feeds, vec!["x".to_string()]);
    assert_eq!(preferences.sort_feeds, None);
}

#[test]
fn unusable_files_are_told_apart() {
    assert_eq!(read_preferences("this is = = not toml").err(), Some(ConfigError::Syntax));
    assert_eq!(read_preferences("").err(), Some(ConfigError::Sources));
    assert_eq!(read_preferences("sources = 3\n").err(), Some(ConfigError::Sources));
    assert_eq!(read_preferences("[sources]\nfeeds = \"one\"\n").err(), Some(ConfigError::Feeds));
    assert_eq!(
        read_preferences("preferences = true\n[sources]\n").err(),
        Some(ConfigError::Preferences)
    );
}

#[test]
fn the_default_configuration_names_nothing() {
    let config = Config::default();
    assert_eq!(config.config_dir_path(), PathBuf::new());
    assert_eq!(config.config_file_path(), PathBuf::new());
    assert!(config.feed_urls().is_empty());
    assert_eq!(*config.sort_order(), SortOrder::Az);
    assert_eq!(config.refresh_interval(), 0);
    assert_eq!(config.refresh_timeout(), 0);
    assert_eq!(*config.theme(), Theme::default());
}
