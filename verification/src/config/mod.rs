//! What the user has configured: the feeds to follow, how to order them,
//! how often to refresh them, and how the screen looks.

use vstd::prelude::*;
use crate::text::same_text;

pub mod theme;
pub mod toml;

verus! {

/// The name of the database file inside the configuration directory.
pub const DEFAULT_DB_FILE: &'static str = "moccasin.db";

/// The name of the directory of theme files inside the configuration
/// directory.
pub const THEMES_DIR: &'static str = "themes";

/// Seconds between two refreshes where nothing else is configured.
pub const DEFAULT_REFRESH_INTERVAL: u64 = 300;

/// Seconds a request may take where nothing else is configured.
pub const DEFAULT_REFRESH_TIMEOUT: u64 = 5;

/// What the command line says.
#[derive(Debug, Clone)]
pub struct Args {
    /// A configuration file to use in place of the default one.
    pub config: Option<String>,
    /// A theme, built in or a path to a theme file.
    pub color_scheme: Option<String>,
    /// Seconds between two refreshes.
    pub interval: Option<u64>,
    /// Seconds a request may take.
    pub timeout: Option<u64>,
    /// Keep nothing on disk.
    pub no_cache: bool,
}

/// The order in which feeds are listed.
#[derive(Debug, Clone, Copy, PartialEq, Eq, Structural)]
pub enum SortOrder {
    Az,
    Za,
    Unread,
    Newest,
    Oldest,
    Custom,
}

impl Default for SortOrder {
    fn default() -> (r: SortOrder)
        ensures
            r == SortOrder::Az,
    {
        SortOrder::Az
    }
}

/// Whether feeds are kept on disk.
#[derive(Debug, Clone, Copy, PartialEq, Eq, Structural)]
pub enum CacheControl {
    Always,
    Never,
}

impl Default for CacheControl {
    fn default() -> (r: CacheControl)
        ensures
            r == CacheControl::Always,
    {
        CacheControl::Always
    }
}

impl CacheControl {
    /// `Always` for `true`, `Never` for `false`.
    pub open spec fn of(value: bool) -> CacheControl {
        if value {
            CacheControl::Always
        } else {
            CacheControl::Never
        }
    }
}

impl From<bool> for CacheControl {
    fn from(value: bool) -> (r: CacheControl) {
        if value {
            CacheControl::Always
        } else {
            CacheControl::Never
        }
    }
}

impl vstd::std_specs::convert::FromSpecImpl<bool> for CacheControl {
    open spec fn obeys_from_spec() -> bool {
        true
    }

    open spec fn from_spec(value: bool) -> CacheControl {
        CacheControl::of(value)
    }
}

/// No text fails to name a sort order: unknown names mean `Az`.
#[derive(Debug, Clone, Copy, PartialEq, Eq, Structural)]
pub struct SortOrderError;

/// The sort order that `name` stands for; any unknown name stands for `Az`.
pub open spec fn sort_order_of(name: Seq<char>) -> SortOrder {
    if name == "z-a"@ {
        SortOrder::Za
    } else if name == "newest"@ {
        SortOrder::Newest
    } else if name == "oldest"@ {
        SortOrder::Oldest
    } else if name == "custom"@ {
        SortOrder::Custom
    } else {
        SortOrder::Az
    }
}

impl SortOrder {
    /// The sort order that `s` names: `z-a`, `newest`, `oldest` and
    /// `custom` name their own, everything else names `Az`. Never fails.
    pub fn from_str(s: &str) -> (r: Result<SortOrder, SortOrderError>)
        ensures
            r == Ok::<SortOrder, SortOrderError>(sort_order_of(s@)),
    {
        if same_text(s, "z-a") {
            Ok(SortOrder::Za)
        } else if same_text(s, "newest") {
            Ok(SortOrder::Newest)
        } else if same_text(s, "oldest") {
            Ok(SortOrder::Oldest)
        } else if same_text(s, "custom") {
            Ok(SortOrder::Custom)
        } else {
            Ok(SortOrder::Az)
        }
    }
}

/// A path in the file system, which the library only carries around.
#[verifier::external_type_specification]
#[verifier::external_body]
pub struct ExternPathBuf(std::path::PathBuf);

/// A copy of a path.
///
/// Trusted: `PathBuf::clone` gives a path equal to the one it copies.
#[verifier::external_body]
fn copy_path(path: &std::path::PathBuf) -> (r: std::path::PathBuf)
    ensures
        r == *path,
{
    path.clone()
}

/// The path that the text `text` spells.
pub uninterp spec fn spelled_path(text: Seq<char>) -> std::path::PathBuf;

/// The path that `text` spells.
///
/// Trusted: `PathBuf::from` takes the text over as it stands, so that the
/// path is a function of the text alone. The contract gives it a name.
#[verifier::external_body]
fn path_of(text: &str) -> (r: std::path::PathBuf)
    ensures
        r == spelled_path(text@),
{
    std::path::PathBuf::from(text)
}

/// The path of the entry `name` inside the directory `dir`.
pub uninterp spec fn entry_path(dir: std::path::PathBuf, name: Seq<char>) -> std::path::PathBuf;

/// The path of the entry `name` inside the directory `dir`.
///
/// Trusted: `Path::join` is a function of the two paths alone; it puts the
/// platform's separator between them where one is needed. The contract
/// gives its result a name.
#[verifier::external_body]
fn child_path(dir: &std::path::PathBuf, name: &str) -> (r: std::path::PathBuf)
    ensures
        r == entry_path(*dir, name@),
{
    dir.join(name)
}

/// What the preferences file says, as far as it says anything.
#[derive(Debug, PartialEq, Eq)]
pub struct Preferences {
    /// The feeds listed under the sources, in file order.
    pub feeds: Vec<String>,
    /// What the file says of the theme.
    pub color_scheme: Option<toml::TomlValue>,
    pub sort_feeds: Option<String>,
    pub refresh_interval: Option<i64>,
    pub refresh_timeout: Option<i64>,
    pub cache_feeds: Option<bool>,
}

/// What a [`Preferences`] holds.
pub struct PreferencesView {
    pub feeds: Seq<Seq<char>>,
    pub color_scheme: Option<toml::TomlView>,
    pub sort_feeds: Option<Seq<char>>,
    pub refresh_interval: Option<i64>,
    pub refresh_timeout: Option<i64>,
    pub cache_feeds: Option<bool>,
}

impl DeepView for Preferences {
    type V = PreferencesView;

    open spec fn deep_view(&self) -> PreferencesView {
        PreferencesView {
            feeds: self.feeds.deep_view(),
            color_scheme: match self.color_scheme {
                Some(v) => Some(v@),
                None => None,
            },
            sort_feeds: self.sort_feeds.deep_view(),
            refresh_interval: self.refresh_interval,
            refresh_timeout: self.refresh_timeout,
            cache_feeds: self.cache_feeds,
        }
    }
}

/// Why a preferences file cannot be used.
#[derive(Debug, Clone, Copy, PartialEq, Eq, Structural)]
pub enum ConfigError {
    /// The text is no configuration file.
    Syntax,
    /// The file has no table of sources.
    Sources,
    /// What the sources list as feeds is no list.
    Feeds,
    /// What the file has as preferences is no table.
    Preferences,
}

/// The texts among the first `k` of `values`, in order; what is no text is
/// left out.
pub open spec fn texts_of(values: Seq<toml::TomlView>, k: nat) -> Seq<Seq<char>>
    decreases k,
{
    if k == 0 || k > values.len() {
        Seq::empty()
    } else {
        match values[k - 1] {
            toml::TomlView::String(s) => texts_of(values, (k - 1) as nat).push(s),
            _ => texts_of(values, (k - 1) as nat),
        }
    }
}

/// The feeds that the top of a file lists: those under `feeds` in the
/// table `sources`, none where that table lists none.
pub open spec fn listed_feeds(top: Seq<toml::EntryView>) -> Result<Seq<Seq<char>>, ConfigError> {
    match toml::entry(top, "sources"@) {
        Some(toml::TomlView::Table(sources)) => match toml::entry(sources, "feeds"@) {
            Some(toml::TomlView::Array(values)) => Ok(texts_of(values, values.len())),
            Some(_) => Err(ConfigError::Feeds),
            None => Ok(Seq::empty()),
        },
        _ => Err(ConfigError::Sources),
    }
}

/// The text under `key`, where a text stands there.
pub open spec fn text_at(table: Seq<toml::EntryView>, key: Seq<char>) -> Option<Seq<char>> {
    match toml::entry(table, key) {
        Some(toml::TomlView::String(s)) => Some(s),
        _ => None,
    }
}

/// The whole number under `key`, where one stands there.
pub open spec fn integer_at(table: Seq<toml::EntryView>, key: Seq<char>) -> Option<i64> {
    match toml::entry(table, key) {
        Some(toml::TomlView::Integer(i)) => Some(i),
        _ => None,
    }
}

/// The truth value under `key`, where one stands there.
pub open spec fn boolean_at(table: Seq<toml::EntryView>, key: Seq<char>) -> Option<bool> {
    match toml::entry(table, key) {
        Some(toml::TomlView::Boolean(b)) => Some(b),
        _ => None,
    }
}

/// What a file with the feeds `feeds` and the table of preferences
/// `preferences` says.
pub open spec fn preferences_in(feeds: Seq<Seq<char>>, preferences: Seq<toml::EntryView>) -> PreferencesView {
    PreferencesView {
        feeds,
        color_scheme: toml::entry(preferences, "color_scheme"@),
        sort_feeds: text_at(preferences, "sort_feeds"@),
        refresh_interval: integer_at(preferences, "refresh_interval"@),
        refresh_timeout: integer_at(preferences, "refresh_timeout"@),
        cache_feeds: boolean_at(preferences, "cache_feeds"@),
    }
}

/// What a file says: its feeds, and its preferences as far as it has any.
/// A file has to have a table of sources; what that lists as feeds has to
/// be a list; what the file has as preferences has to be a table.
pub open spec fn preferences_of(doc: toml::TomlView) -> Result<PreferencesView, ConfigError> {
    match doc {
        toml::TomlView::Table(top) => match listed_feeds(top) {
            Err(e) => Err(e),
            Ok(feeds) => match toml::entry(top, "preferences"@) {
                Some(toml::TomlView::Table(preferences)) => Ok(preferences_in(feeds, preferences)),
                Some(_) => Err(ConfigError::Preferences),
                None => Ok(preferences_in(feeds, Seq::empty())),
            },
        },
        _ => Err(ConfigError::Sources),
    }
}

/// What a read file is, as the contracts speak of it.
pub open spec fn read_view(r: Result<Preferences, ConfigError>) -> Result<
    PreferencesView,
    ConfigError,
> {
    match r {
        Ok(p) => Ok(p.deep_view()),
        Err(e) => Err(e),
    }
}

/// The strings among `values`, in order.
fn strings_among(values: &Vec<toml::TomlValue>) -> (r: Vec<String>)
    ensures
        r.deep_view() == texts_of(
            toml::values_view(values@, values@.len()),
            values@.len(),
        ),
{
    let ghost views = toml::values_view(values@, values@.len());
    proof {
        toml::lemma_values_view(values@, values@.len());
    }
    let mut out: Vec<String> = Vec::new();
    assert(out.deep_view() =~= Seq::<Seq<char>>::empty());
    let mut i: usize = 0;
    while i < values.len()
        invariant
            i <= values.len(),
            views == toml::values_view(values@, values@.len()),
            views.len() == values.len(),
            forall|k: int| 0 <= k < values.len() ==> #[trigger] views[k] == toml::value_view(values@[k]),
            out.deep_view() == texts_of(views, i as nat),
        decreases values.len() - i,
    {
        let ghost before = out.deep_view();
        match &values[i] {
            toml::TomlValue::String(s) => {
                out.push(s.clone());
                assert(out.deep_view() =~= before.push(s@));
            },
            _ => {},
        }
        i += 1;
    }
    out
}

/// What the table of preferences `preferences` says, beside the feeds
/// `feeds`.
fn preferences_from(feeds: Vec<String>, preferences: &Vec<toml::TomlEntry>) -> (r: Preferences)
    ensures
        r.deep_view() == preferences_in(
            feeds.deep_view(),
            toml::entries_view(preferences@, preferences@.len()),
        ),
{
    Preferences {
        feeds,
        color_scheme: match toml::get(preferences, "color_scheme") {
            Some(v) => Some(toml::copy_value(v)),
            None => None,
        },
        sort_feeds: match toml::get(preferences, "sort_feeds") {
            Some(toml::TomlValue::String(s)) => Some(s.clone()),
            _ => None,
        },
        refresh_interval: match toml::get(preferences, "refresh_interval") {
            Some(toml::TomlValue::Integer(i)) => Some(*i),
            _ => None,
        },
        refresh_timeout: match toml::get(preferences, "refresh_timeout") {
            Some(toml::TomlValue::Integer(i)) => Some(*i),
            _ => None,
        },
        cache_feeds: match toml::get(preferences, "cache_feeds") {
            Some(toml::TomlValue::Boolean(b)) => Some(*b),
            _ => None,
        },
    }
}

/// What the parsed file `doc` says; see [`preferences_of`].
pub fn read_document(doc: &toml::TomlValue) -> (r: Result<Preferences, ConfigError>)
    ensures
        read_view(r) == preferences_of(doc@),
{
    match doc {
        toml::TomlValue::Table(top) => {
            let feeds = match toml::get(top, "sources") {
                Some(toml::TomlValue::Table(sources)) => match toml::get(sources, "feeds") {
                    Some(toml::TomlValue::Array(values)) => {
                        proof {
                            toml::lemma_values_view(values@, values@.len());
                        }
                        strings_among(values)
                    },
                    Some(_) => {
                        return Err(ConfigError::Feeds);
                    },
                    None => {
                        let none: Vec<String> = Vec::new();
                        assert(none.deep_view() =~= Seq::<Seq<char>>::empty());
                        none
                    },
                },
                _ => {
                    return Err(ConfigError::Sources);
                },
            };
            match toml::get(top, "preferences") {
                Some(toml::TomlValue::Table(preferences)) => Ok(
                    preferences_from(feeds, preferences),
                ),
                Some(_) => Err(ConfigError::Preferences),
                None => {
                    let empty: Vec<toml::TomlEntry> = Vec::new();
                    assert(toml::entries_view(empty@, empty@.len()) =~= Seq::<
                        toml::EntryView,
                    >::empty());
                    Ok(preferences_from(feeds, &empty))
                },
            }
        },
        _ => Err(ConfigError::Sources),
    }
}

/// What the text of a preferences file says: `Syntax` where the text is no
/// configuration file, otherwise what the file says.
pub fn read_preferences(text: &str) -> (r: Result<Preferences, ConfigError>)
    ensures
        read_view(r) == (match toml::parsed_toml(text@) {
            Some(doc) => preferences_of(doc),
            None => Err(ConfigError::Syntax),
        }),
{
    match toml::parse_toml(text) {
        Some(doc) => read_document(&doc),
        None => Err(ConfigError::Syntax),
    }
}

/// The number that a signed setting stands for once it is read as an
/// unsigned one: itself, or, below zero, as far below two to the 64th.
pub open spec fn as_unsigned(i: i64) -> u64 {
    if i >= 0 {
        i as u64
    } else {
        (i + 0x1_0000_0000_0000_0000) as u64
    }
}

/// A signed setting read as an unsigned one.
pub fn to_unsigned(i: i64) -> (r: u64)
    ensures
        r == as_unsigned(i),
{
    if i >= 0 {
        i as u64
    } else {
        u64::MAX - ((-(i + 1)) as u64)
    }
}

/// The texts of `s` without those that occurred before, in order.
pub open spec fn distinct(s: Seq<Seq<char>>) -> Seq<Seq<char>>
    decreases s.len(),
{
    if s.len() == 0 {
        s
    } else if distinct(s.drop_last()).contains(s.last()) {
        distinct(s.drop_last())
    } else {
        distinct(s.drop_last()).push(s.last())
    }
}

/// `distinct` repeats nothing and holds exactly the texts of its argument.
pub proof fn lemma_distinct(s: Seq<Seq<char>>)
    ensures
        distinct(s).no_duplicates(),
        forall|t: Seq<char>| #[trigger] distinct(s).contains(t) <==> s.contains(t),
    decreases s.len(),
{
    if s.len() > 0 {
        let init = s.drop_last();
        let last = s.last();
        lemma_distinct(init);
        let d = distinct(init);
        let ds = distinct(s);
        assert forall|t: Seq<char>| #[trigger] ds.contains(t) <==> s.contains(t) by {
            if s.contains(t) {
                let i = choose|i: int| 0 <= i < s.len() && s[i] == t;
                if i < s.len() - 1 {
                    assert(init[i] == t);
                    assert(init.contains(t));
                    assert(d.contains(t));
                    let j = choose|j: int| 0 <= j < d.len() && d[j] == t;
                    assert(ds[j] == t);
                } else {
                    assert(t == last);
                    if d.contains(t) {
                        assert(ds == d);
                    } else {
                        assert(ds == d.push(last));
                        assert(ds[d.len() as int] == t);
                    }
                }
                assert(ds.contains(t));
            }
            if ds.contains(t) {
                let j = choose|j: int| 0 <= j < ds.len() && ds[j] == t;
                if j < d.len() {
                    assert(d[j] == t);
                    assert(d.contains(t));
                    assert(init.contains(t));
                    let i = choose|i: int| 0 <= i < init.len() && init[i] == t;
                    assert(s[i] == t);
                } else {
                    assert(ds == d.push(last));
                    assert(t == last);
                    assert(s[s.len() - 1] == t);
                }
                assert(s.contains(t));
            }
        }
    }
}

/// The texts of `s` that differ from `url`, in order.
pub open spec fn without(s: Seq<Seq<char>>, url: Seq<char>) -> Seq<Seq<char>> {
    s.filter(|u: Seq<char>| u != url)
}

/// The index of the first string of `urls` that reads `url`.
pub fn find_text(urls: &Vec<String>, url: &str) -> (r: Option<usize>)
    ensures
        match r {
            Some(i) => {
                &&& i < urls.len()
                &&& urls[i as int]@ == url@
                &&& forall|k: int| 0 <= k < i ==> urls[k]@ != url@
            },
            None => forall|k: int| 0 <= k < urls.len() ==> urls[k]@ != url@,
        },
        r.is_some() == urls.deep_view().contains(url@),
        r matches Some(i) ==> urls.deep_view().index_of_first(url@) == Some(i as int),
{
    let ghost texts = urls.deep_view();
    proof {
        texts.index_of_first_ensures(url@);
    }
    let mut i: usize = 0;
    while i < urls.len()
        invariant
            i <= urls.len(),
            texts == urls.deep_view(),
            texts.len() == urls.len(),
            forall|k: int| 0 <= k < i ==> urls[k]@ != url@,
        decreases urls.len() - i,
    {
        if same_text(urls[i].as_str(), url) {
            proof {
                texts.index_of_first_ensures(url@);
                assert(texts[i as int] == url@);
                assert(texts.contains(url@));
                let first = texts.index_of_first(url@).unwrap();
                if first < i {
                    assert(urls[first]@ == url@);
                } else if first > i {
                    assert(texts[i as int] == url@);
                }
            }
            return Some(i);
        }
        i += 1;
    }
    proof {
        if texts.contains(url@) {
            let k = choose|k: int| 0 <= k < texts.len() && texts[k] == url@;
            assert(urls[k]@ == url@);
        }
    }
    None
}

/// The strings of `v` without those that occurred before, in order.
pub fn distinct_texts(v: Vec<String>) -> (r: Vec<String>)
    ensures
        r.deep_view() == distinct(v.deep_view()),
        r.deep_view().no_duplicates(),
{
    let ghost all = v.deep_view();
    let mut out: Vec<String> = Vec::new();
    let mut i: usize = 0;
    assert(all.take(0) =~= Seq::<Seq<char>>::empty());
    assert(out.deep_view() =~= Seq::<Seq<char>>::empty());
    while i < v.len()
        invariant
            i <= v.len(),
            all == v.deep_view(),
            out.deep_view() == distinct(all.take(i as int)),
        decreases v.len() - i,
    {
        let ghost before = out.deep_view();
        proof {
            let next = all.take(i + 1);
            assert(next.drop_last() =~= all.take(i as int));
            assert(next.last() == v[i as int]@);
        }
        let found = find_text(&out, v[i].as_str());
        proof {
            if found is Some {
                assert(before[found.unwrap() as int] == v[i as int]@);
                assert(before.contains(v[i as int]@));
            } else {
                if before.contains(v[i as int]@) {
                    let k = choose|k: int| 0 <= k < before.len() && before[k] == v[i as int]@;
                    assert(out[k]@ == v[i as int]@);
                }
            }
        }
        if found.is_none() {
            out.push(v[i].clone());
            assert(out.deep_view() =~= before.push(v[i as int]@));
        }
        i += 1;
    }
    proof {
        assert(all.take(v.len() as int) =~= all);
        lemma_distinct(all);
    }
    out
}

/// The configuration in force. The feeds form a list in which none occurs
/// twice: the order `Custom` sorts a feed by its place in that list, and
/// the list is written back to the file in that order.
#[derive(Debug)]
pub struct Config {
    file_path: std::path::PathBuf,
    dir_path: std::path::PathBuf,
    feed_urls: Vec<String>,
    sort_order: SortOrder,
    cache_control: CacheControl,
    refresh_interval: u64,
    refresh_timeout: u64,
    theme: theme::Theme,
}

impl Default for Config {
    /// The configuration that names nothing: no feed, empty paths, no
    /// refresh and no time for a request, and the defaults for the rest.
    fn default() -> (config: Config)
        ensures
            config.dir() == spelled_path(Seq::empty()),
            config.file() == spelled_path(Seq::empty()),
            config.urls() == Seq::<Seq<char>>::empty(),
            config.colors() == theme::Theme::plain(),
            config.order() == SortOrder::Az,
            config.cache() == CacheControl::Always,
            config.interval() == 0,
            config.timeout() == 0,
    {
        let feed_urls: Vec<String> = Vec::new();
        assert(feed_urls.deep_view() =~= Seq::<Seq<char>>::empty());
        proof {
            reveal_strlit("");
        }
        assert(""@ =~= Seq::<char>::empty());
        Config {
            dir_path: path_of(""),
            file_path: path_of(""),
            feed_urls,
            refresh_interval: 0,
            sort_order: SortOrder::default(),
            cache_control: CacheControl::default(),
            refresh_timeout: 0,
            theme: theme::Theme::default(),
        }
    }
}

impl Config {
    /// No feed is configured twice.
    #[verifier::type_invariant]
    spec fn inv(&self) -> bool {
        self.feed_urls.deep_view().no_duplicates()
    }

    /// The configured feeds, in the order in which they were configured.
    pub closed spec fn urls(&self) -> Seq<Seq<char>> {
        self.feed_urls.deep_view()
    }

    /// The configured sort order.
    pub closed spec fn order(&self) -> SortOrder {
        self.sort_order
    }

    /// Whether feeds are kept on disk.
    pub closed spec fn cache(&self) -> CacheControl {
        self.cache_control
    }

    /// Seconds between two refreshes; 0 for none.
    pub closed spec fn interval(&self) -> u64 {
        self.refresh_interval
    }

    /// Seconds a request may take.
    pub closed spec fn timeout(&self) -> u64 {
        self.refresh_timeout
    }

    /// The theme in force.
    pub closed spec fn colors(&self) -> theme::Theme {
        self.theme
    }

    /// The directory that holds the configuration.
    pub closed spec fn dir(&self) -> std::path::PathBuf {
        self.dir_path
    }

    /// The configuration file.
    pub closed spec fn file(&self) -> std::path::PathBuf {
        self.file_path
    }

    /// The configuration that the command line and the preferences file
    /// give together. The command line wins over the file, the file over
    /// the defaults; `scheme` is the theme that the command line names and
    /// `file_scheme` the theme that the file names, where either names one
    /// that could be read. Feeds listed twice count once.
    pub fn read_from_toml(
        args: Args,
        dir_path: std::path::PathBuf,
        file_path: std::path::PathBuf,
        preferences: Preferences,
        scheme: Option<theme::Theme>,
        file_scheme: Option<theme::Theme>,
    ) -> (config: Config)
        ensures
            config.dir() == dir_path,
            config.file() == file_path,
            config.urls() == distinct(preferences.feeds.deep_view()),
            config.colors() == (match scheme {
                Some(t) => t,
                None => match file_scheme {
                    Some(t) => t,
                    None => theme::Theme::plain(),
                },
            }),
            config.order() == (match preferences.sort_feeds {
                Some(name) => sort_order_of(name@),
                None => SortOrder::Az,
            }),
            config.interval() == (match args.interval {
                Some(i) => i,
                None => match preferences.refresh_interval {
                    Some(i) => as_unsigned(i),
                    None => DEFAULT_REFRESH_INTERVAL,
                },
            }),
            config.timeout() == (match args.timeout {
                Some(i) => i,
                None => match preferences.refresh_timeout {
                    Some(i) => as_unsigned(i),
                    None => DEFAULT_REFRESH_TIMEOUT,
                },
            }),
            config.cache() == (if args.no_cache {
                CacheControl::Never
            } else {
                match preferences.cache_feeds {
                    Some(b) => CacheControl::of(b),
                    None => CacheControl::Always,
                }
            }),
    {
        let theme = match scheme {
            Some(t) => t,
            None => match file_scheme {
                Some(t) => t,
                None => theme::Theme::default(),
            },
        };
        let sort_order = match &preferences.sort_feeds {
            Some(name) => match SortOrder::from_str(name.as_str()) {
                Ok(order) => order,
                Err(_) => SortOrder::Az,
            },
            None => SortOrder::Az,
        };
        let refresh_interval = match args.interval {
            Some(i) => i,
            None => match preferences.refresh_interval {
                Some(i) => to_unsigned(i),
                None => DEFAULT_REFRESH_INTERVAL,
            },
        };
        let refresh_timeout = match args.timeout {
            Some(i) => i,
            None => match preferences.refresh_timeout {
                Some(i) => to_unsigned(i),
                None => DEFAULT_REFRESH_TIMEOUT,
            },
        };
        let cache_control = if args.no_cache {
            CacheControl::Never
        } else {
            match preferences.cache_feeds {
                Some(b) => CacheControl::from(b),
                None => CacheControl::Always,
            }
        };
        Config {
            file_path,
            dir_path,
            feed_urls: distinct_texts(preferences.feeds),
            sort_order,
            cache_control,
            refresh_interval,
            refresh_timeout,
            theme,
        }
    }

    /// The configuration of a first start: the feeds of the stub, the
    /// interval of the command line where it gives one, and the defaults.
    pub fn create_initialized(
        args: Args,
        dir_path: std::path::PathBuf,
        file_path: std::path::PathBuf,
        stub_feeds: Vec<String>,
    ) -> (config: Config)
        ensures
            config.dir() == dir_path,
            config.file() == file_path,
            config.urls() == distinct(stub_feeds.deep_view()),
            config.colors() == theme::Theme::plain(),
            config.order() == SortOrder::Az,
            config.cache() == CacheControl::Always,
            config.interval() == (match args.interval {
                Some(i) => i,
                None => DEFAULT_REFRESH_INTERVAL,
            }),
            config.timeout() == 0,
    {
        Config {
            dir_path,
            file_path,
            feed_urls: distinct_texts(stub_feeds),
            refresh_interval: match args.interval {
                Some(i) => i,
                None => DEFAULT_REFRESH_INTERVAL,
            },
            sort_order: SortOrder::default(),
            cache_control: CacheControl::default(),
            refresh_timeout: 0,
            theme: theme::Theme::default(),
        }
    }

    pub fn config_dir_path(&self) -> (r: std::path::PathBuf)
        ensures
            r == self.dir(),
    {
        copy_path(&self.dir_path)
    }

    pub fn config_file_path(&self) -> (r: std::path::PathBuf)
        ensures
            r == self.file(),
    {
        copy_path(&self.file_path)
    }

    /// Where the database lives: the entry `moccasin.db` of the
    /// configuration directory.
    pub fn db_path(&self) -> (r: std::path::PathBuf)
        ensures
            r == entry_path(self.dir(), DEFAULT_DB_FILE@),
    {
        child_path(&self.dir_path, DEFAULT_DB_FILE)
    }

    /// Where theme files live: the entry `themes` of the configuration
    /// directory.
    pub fn themes_path(&self) -> (r: std::path::PathBuf)
        ensures
            r == entry_path(self.dir(), THEMES_DIR@),
    {
        child_path(&self.dir_path, THEMES_DIR)
    }

    pub fn theme(&self) -> (r: &theme::Theme)
        ensures
            *r == self.colors(),
    {
        &self.theme
    }

    /// The configured feeds, in the order in which they were configured.
    pub fn feed_urls(&self) -> (r: &Vec<String>)
        ensures
            r.deep_view() == self.urls(),
            r.deep_view().no_duplicates(),
    {
        proof {
            use_type_invariant(self);
        }
        &self.feed_urls
    }

    pub fn sort_order(&self) -> (r: &SortOrder)
        ensures
            *r == self.order(),
    {
        &self.sort_order
    }

    /// Whether feeds are kept on disk.
    pub fn should_cache(&self) -> (r: bool)
        ensures
            r == (self.cache() == CacheControl::Always),
    {
        match self.cache_control {
            CacheControl::Always => true,
            CacheControl::Never => false,
        }
    }

    pub fn refresh_interval(&self) -> (r: u64)
        ensures
            r == self.interval(),
    {
        self.refresh_interval
    }

    pub fn refresh_timeout(&self) -> (r: u64)
        ensures
            r == self.timeout(),
    {
        self.refresh_timeout
    }

    /// Adds `url` to the configured feeds, after the others, unless it is
    /// one of them already. Says whether the configuration changed, so that
    /// the caller knows whether the file needs writing.
    pub fn add_feed_url(&mut self, url: &str) -> (changed: bool)
        ensures
            changed == !old(self).urls().contains(url@),
            final(self).urls() == (if changed {
                old(self).urls().push(url@)
            } else {
                old(self).urls()
            }),
            final(self).order() == old(self).order(),
            final(self).cache() == old(self).cache(),
            final(self).interval() == old(self).interval(),
            final(self).timeout() == old(self).timeout(),
            final(self).colors() == old(self).colors(),
            final(self).dir() == old(self).dir(),
            final(self).file() == old(self).file(),
    {
        proof {
            use_type_invariant(&*self);
        }
        let ghost before = self.feed_urls.deep_view();
        let found = find_text(&self.feed_urls, url);
        proof {
            if found is Some {
                assert(before[found.unwrap() as int] == url@);
            } else if before.contains(url@) {
                let k = choose|k: int| 0 <= k < before.len() && before[k] == url@;
                assert(self.feed_urls[k]@ == url@);
            }
        }
        if found.is_none() {
            let mut urls = crate::feed::copy_texts(&self.feed_urls);
            urls.push(url.to_owned());
            assert(urls.deep_view() =~= before.push(url@));
            assert(urls.deep_view().no_duplicates()) by {
                assert forall|i: int, j: int|
                    0 <= i < urls.deep_view().len() && 0 <= j < urls.deep_view().len() && i
                        != j implies urls.deep_view()[i] != urls.deep_view()[j] by {
                    if i < before.len() && j < before.len() {
                        assert(before[i] != before[j]);
                    } else if i < before.len() {
                        assert(before[i] != url@) by {
                            if before[i] == url@ {
                                assert(before.contains(url@));
                            }
                        }
                    } else if j < before.len() {
                        assert(before[j] != url@) by {
                            if before[j] == url@ {
                                assert(before.contains(url@));
                            }
                        }
                    }
                }
            }
            self.feed_urls = urls;
            true
        } else {
            false
        }
    }

    /// Takes `url` out of the configured feeds, if it is one of them; the
    /// others keep their order. Says whether the configuration changed.
    pub fn remove_feed_url(&mut self, url: &str) -> (changed: bool)
        ensures
            changed == old(self).urls().contains(url@),
            final(self).urls() == without(old(self).urls(), url@),
            !final(self).urls().contains(url@),
            final(self).order() == old(self).order(),
            final(self).cache() == old(self).cache(),
            final(self).interval() == old(self).interval(),
            final(self).timeout() == old(self).timeout(),
            final(self).colors() == old(self).colors(),
            final(self).dir() == old(self).dir(),
            final(self).file() == old(self).file(),
    {
        proof {
            use_type_invariant(&*self);
        }
        let ghost before = self.feed_urls.deep_view();
        let found = find_text(&self.feed_urls, url);
        match found {
            Some(at) => {
                let mut urls = crate::feed::copy_texts(&self.feed_urls);
                assert(urls.deep_view().len() == urls.len());
                assert(before.len() == self.feed_urls.len());
                urls.remove(at);
                proof {
                    assert(before[at as int] == url@);
                    assert(before.contains(url@));
                    assert(urls.deep_view() =~= before.remove(at as int));
                    lemma_remove_is_filter(before, at as int, url@);
                    assert(before.remove(at as int).no_duplicates()) by {
                        let r = before.remove(at as int);
                        assert forall|i: int, j: int|
                            0 <= i < r.len() && 0 <= j < r.len() && i != j implies r[i]
                            != r[j] by {
                            let ii = if i < at { i } else { i + 1 };
                            let jj = if j < at { j } else { j + 1 };
                            assert(r[i] == before[ii]);
                            assert(r[j] == before[jj]);
                        }
                    }
                    lemma_without(before, url@);
                }
                self.feed_urls = urls;
                true
            },
            None => {
                proof {
                    if before.contains(url@) {
                        let k = choose|k: int| 0 <= k < before.len() && before[k] == url@;
                        assert(self.feed_urls[k]@ == url@);
                    }
                    lemma_filter_keeps_all(before, url@);
                    lemma_without(before, url@);
                }
                false
            },
        }
    }
}

/// Taking the one occurrence of `url` out of a list that repeats nothing
/// leaves the texts that differ from `url`.
pub proof fn lemma_remove_is_filter(s: Seq<Seq<char>>, at: int, url: Seq<char>)
    requires
        s.no_duplicates(),
        0 <= at < s.len(),
        s[at] == url,
    ensures
        s.remove(at) == without(s, url),
    decreases s.len(),
{
    reveal(Seq::filter);
    let init = s.drop_last();
    if at == s.len() - 1 {
        assert(s.remove(at) =~= init);
        assert(init.no_duplicates());
        assert forall|k: int| 0 <= k < init.len() implies init[k] != url by {
            assert(init[k] == s[k]);
        }
        lemma_filter_keeps_all(init, url);
    } else {
        assert(init.no_duplicates());
        assert(init[at] == url);
        lemma_remove_is_filter(init, at, url);
        assert(s.last() != url);
        assert(s.remove(at) =~= init.remove(at).push(s.last()));
    }
}

/// A list without `url` is what is left of it when `url` is taken out.
pub proof fn lemma_filter_keeps_all(s: Seq<Seq<char>>, url: Seq<char>)
    requires
        forall|k: int| 0 <= k < s.len() ==> s[k] != url,
    ensures
        without(s, url) == s,
    decreases s.len(),
{
    reveal(Seq::filter);
    if s.len() > 0 {
        lemma_filter_keeps_all(s.drop_last(), url);
        assert(s.drop_last().push(s.last()) =~= s);
    }
}

/// What is left when `url` is taken out does not hold `url`, and holds
/// every other text that was there.
pub proof fn lemma_without(s: Seq<Seq<char>>, url: Seq<char>)
    ensures
        !without(s, url).contains(url),
        forall|t: Seq<char>| t != url && s.contains(t) ==> #[trigger] without(s, url).contains(t),
        forall|t: Seq<char>| #[trigger] without(s, url).contains(t) ==> s.contains(t),
    decreases s.len(),
{
    reveal(Seq::filter);
    if s.len() > 0 {
        let init = s.drop_last();
        lemma_without(init, url);
        let w = without(s, url);
        let wi = without(init, url);
        assert forall|t: Seq<char>| t != url && s.contains(t) implies #[trigger] w.contains(
            t,
        ) by {
            let i = choose|i: int| 0 <= i < s.len() && s[i] == t;
            if i < s.len() - 1 {
                assert(init[i] == t);
                assert(init.contains(t));
                assert(wi.contains(t));
                let j = choose|j: int| 0 <= j < wi.len() && wi[j] == t;
                assert(w[j] == t);
            } else {
                assert(w == wi.push(s.last()));
                assert(w[wi.len() as int] == t);
            }
        }
        assert forall|t: Seq<char>| #[trigger] w.contains(t) implies s.contains(t) && t
            != url by {
            let j = choose|j: int| 0 <= j < w.len() && w[j] == t;
            if j < wi.len() {
                assert(wi[j] == t);
                assert(wi.contains(t));
                assert(init.contains(t));
                let i = choose|i: int| 0 <= i < init.len() && init[i] == t;
                assert(s[i] == t);
            } else {
                assert(s[s.len() - 1] == t);
            }
        }
    }
}

} // verus!
