//! The values of a configuration file, as a tree of the library's own.

use vstd::prelude::*;
use crate::text::same_text;

verus! {

/// One value of a configuration file. Times and floating-point numbers are
/// told apart from the rest and not looked into.
#[derive(Debug, PartialEq, Eq)]
pub enum TomlValue {
    String(String),
    Integer(i64),
    Float,
    Boolean(bool),
    Datetime,
    Array(Vec<TomlValue>),
    Table(Vec<TomlEntry>),
}

/// One entry of a table: a key and what stands under it.
#[derive(Debug, PartialEq, Eq)]
pub struct TomlEntry {
    pub key: String,
    pub value: TomlValue,
}

/// What a [`TomlValue`] holds.
pub enum TomlView {
    String(Seq<char>),
    Integer(i64),
    Float,
    Boolean(bool),
    Datetime,
    Array(Seq<TomlView>),
    Table(Seq<EntryView>),
}

/// What a [`TomlEntry`] holds.
pub struct EntryView {
    pub key: Seq<char>,
    pub value: TomlView,
}

/// The value of a value.
pub open spec fn value_view(v: TomlValue) -> TomlView
    decreases v, 0nat,
{
    match v {
        TomlValue::String(s) => TomlView::String(s@),
        TomlValue::Integer(i) => TomlView::Integer(i),
        TomlValue::Float => TomlView::Float,
        TomlValue::Boolean(b) => TomlView::Boolean(b),
        TomlValue::Datetime => TomlView::Datetime,
        TomlValue::Array(a) => TomlView::Array(values_view(a@, a@.len())),
        TomlValue::Table(t) => TomlView::Table(entries_view(t@, t@.len())),
    }
}

/// The values of the first `k` values of `vs`.
pub open spec fn values_view(vs: Seq<TomlValue>, k: nat) -> Seq<TomlView>
    decreases vs, k,
{
    if k == 0 || k > vs.len() {
        Seq::empty()
    } else {
        values_view(vs, (k - 1) as nat).push(value_view(vs[k - 1]))
    }
}

/// The values of the first `k` entries of `es`.
pub open spec fn entries_view(es: Seq<TomlEntry>, k: nat) -> Seq<EntryView>
    decreases es, k,
{
    if k == 0 || k > es.len() {
        Seq::empty()
    } else {
        entries_view(es, (k - 1) as nat).push(
            EntryView { key: es[k - 1].key@, value: value_view(es[k - 1].value) },
        )
    }
}

impl View for TomlValue {
    type V = TomlView;

    open spec fn view(&self) -> TomlView {
        value_view(*self)
    }
}

/// `values_view` keeps the length and works value by value.
pub proof fn lemma_values_view(vs: Seq<TomlValue>, k: nat)
    requires
        k <= vs.len(),
    ensures
        values_view(vs, k).len() == k,
        forall|i: int| 0 <= i < k ==> #[trigger] values_view(vs, k)[i] == value_view(vs[i]),
    decreases k,
{
    if k > 0 {
        lemma_values_view(vs, (k - 1) as nat);
    }
}

/// `entries_view` keeps the length and works entry by entry.
pub proof fn lemma_entries_view(es: Seq<TomlEntry>, k: nat)
    requires
        k <= es.len(),
    ensures
        entries_view(es, k).len() == k,
        forall|i: int|
            0 <= i < k ==> #[trigger] entries_view(es, k)[i] == (EntryView {
                key: es[i].key@,
                value: value_view(es[i].value),
            }),
    decreases k,
{
    if k > 0 {
        lemma_entries_view(es, (k - 1) as nat);
    }
}

/// A value as `toml` hands it out; the library only carries it over into a
/// tree of its own.
#[verifier::external_type_specification]
#[verifier::external_body]
pub struct ExternValue(toml::Value);

/// Carries one parsed value over into the library's own tree.
///
/// Trusted: the match tells the seven variants of `toml::Value` apart and
/// moves their fields; the entries of a table come in the order in which
/// the table hands them out.
#[verifier::external_body]
fn carry_value(value: &toml::Value) -> TomlValue {
    match value {
        toml::Value::String(s) => TomlValue::String(s.clone()),
        toml::Value::Integer(i) => TomlValue::Integer(*i),
        toml::Value::Float(_) => TomlValue::Float,
        toml::Value::Boolean(b) => TomlValue::Boolean(*b),
        toml::Value::Datetime(_) => TomlValue::Datetime,
        toml::Value::Array(a) => TomlValue::Array(a.iter().map(carry_value).collect()),
        toml::Value::Table(t) => TomlValue::Table(
            t.iter().map(|(k, v)| TomlEntry { key: k.clone(), value: carry_value(v) }).collect(),
        ),
    }
}

/// What reading `text` as a configuration file gives; `None` where `text`
/// is no such file.
pub uninterp spec fn parsed_toml(text: Seq<char>) -> Option<TomlView>;

/// Reads `text` as a configuration file.
///
/// Trusted: parsing a `toml::Value` from text is a function of the text
/// alone and returns an error for text that is no TOML; the contract gives
/// the tree it builds a name and says nothing of its shape.
#[verifier::external_body]
pub(crate) fn parse_toml(text: &str) -> (r: Option<TomlValue>)
    ensures
        match r {
            Some(value) => parsed_toml(text@) == Some(value@),
            None => parsed_toml(text@) is None,
        },
{
    text.parse::<toml::Value>().ok().map(|v| carry_value(&v))
}

/// What stands under `key` among the first `k` of `entries`: the value of
/// the first entry with that key.
pub open spec fn lookup(entries: Seq<EntryView>, key: Seq<char>, k: nat) -> Option<TomlView>
    decreases k,
{
    if k == 0 || k > entries.len() {
        None
    } else {
        match lookup(entries, key, (k - 1) as nat) {
            Some(v) => Some(v),
            None => if entries[k - 1].key == key {
                Some(entries[k - 1].value)
            } else {
                None
            },
        }
    }
}

/// What stands under `key` in a table.
pub open spec fn entry(entries: Seq<EntryView>, key: Seq<char>) -> Option<TomlView> {
    lookup(entries, key, entries.len())
}

/// The value that stands under `key` among `entries`.
pub fn get<'a>(entries: &'a Vec<TomlEntry>, key: &str) -> (r: Option<&'a TomlValue>)
    ensures
        match r {
            Some(v) => {
                &&& entry(entries_view(entries@, entries@.len()), key@) == Some(v@)
                &&& exists|i: int| 0 <= i < entries@.len() && entries@[i].value == *v
            },
            None => entry(entries_view(entries@, entries@.len()), key@) is None,
        },
{
    let ghost views = entries_view(entries@, entries@.len());
    proof {
        lemma_entries_view(entries@, entries@.len());
    }
    let mut i: usize = 0;
    while i < entries.len()
        invariant
            i <= entries.len(),
            views == entries_view(entries@, entries@.len()),
            views.len() == entries.len(),
            forall|k: int|
                0 <= k < entries.len() ==> #[trigger] views[k] == (EntryView {
                    key: entries@[k].key@,
                    value: value_view(entries@[k].value),
                }),
            lookup(views, key@, i as nat) is None,
        decreases entries.len() - i,
    {
        if same_text(entries[i].key.as_str(), key) {
            proof {
                lemma_lookup_found(views, key@, (i + 1) as nat, views.len());
            }
            return Some(&entries[i].value);
        }
        i += 1;
    }
    None
}

/// What has been found among the first entries stays found among more.
pub proof fn lemma_lookup_found(entries: Seq<EntryView>, key: Seq<char>, k: nat, n: nat)
    requires
        k <= n <= entries.len(),
        lookup(entries, key, k) is Some,
    ensures
        lookup(entries, key, n) == lookup(entries, key, k),
    decreases n - k,
{
    if k < n {
        lemma_lookup_found(entries, key, k, (n - 1) as nat);
    }
}

/// A copy of a value.
#[verifier::loop_isolation(false)]
pub fn copy_value(value: &TomlValue) -> (r: TomlValue)
    ensures
        r@ == value@,
    decreases value,
{
    match value {
        TomlValue::String(s) => TomlValue::String(s.clone()),
        TomlValue::Integer(i) => TomlValue::Integer(*i),
        TomlValue::Float => TomlValue::Float,
        TomlValue::Boolean(b) => TomlValue::Boolean(*b),
        TomlValue::Datetime => TomlValue::Datetime,
        TomlValue::Array(a) => {
            let mut out: Vec<TomlValue> = Vec::new();
            let mut i: usize = 0;
            while i < a.len()
                invariant
                    i <= a.len(),
                    out@.len() == i,
                    forall|k: int| 0 <= k < i ==> value_view(#[trigger] out@[k]) == value_view(a@[k]),
                decreases a.len() - i,
            {
                out.push(copy_value(&a[i]));
                i += 1;
            }
            proof {
                lemma_values_view(a@, a@.len());
                lemma_values_view(out@, out@.len());
                assert(values_view(out@, out@.len()) =~= values_view(a@, a@.len()));
            }
            TomlValue::Array(out)
        },
        TomlValue::Table(t) => {
            let mut out: Vec<TomlEntry> = Vec::new();
            let mut i: usize = 0;
            while i < t.len()
                invariant
                    i <= t.len(),
                    out@.len() == i,
                    forall|k: int|
                        0 <= k < i ==> (#[trigger] out@[k]).key@ == t@[k].key@ && value_view(
                            out@[k].value,
                        ) == value_view(t@[k].value),
                decreases t.len() - i,
            {
                out.push(TomlEntry { key: t[i].key.clone(), value: copy_value(&t[i].value) });
                i += 1;
            }
            proof {
                lemma_entries_view(t@, t@.len());
                lemma_entries_view(out@, out@.len());
                assert(entries_view(out@, out@.len()) =~= entries_view(t@, t@.len()));
            }
            TomlValue::Table(out)
        },
    }
}

} // verus!
