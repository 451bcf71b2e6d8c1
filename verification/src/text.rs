//! Small operations on strings and characters that the rest of the library
//! builds on, each stated over the sequence of characters a string holds.

use vstd::prelude::*;
use vstd::string::StringExecFns;

verus! {

/// Appends one character to `s`.
///
/// Trusted: `String::push` adds exactly `c` at the end and changes nothing
/// else.
#[verifier::external_body]
pub(crate) fn push_char(s: &mut String, c: char)
    ensures
        final(s)@ == old(s)@.push(c),
{
    s.push(c);
}

/// Appends the text of `tail` to `s`.
pub(crate) fn push_text(s: &mut String, tail: &str)
    ensures
        final(s)@ == old(s)@ + tail@,
{
    s.append(tail);
}

/// Whether two string slices hold the same characters.
pub(crate) fn same_text(a: &str, b: &str) -> (r: bool)
    ensures
        r == (a@ == b@),
{
    let x = a.to_owned();
    let y = b.to_owned();
    x == y
}

/// The characters of `s`, in order.
pub(crate) fn chars_of(s: &str) -> (r: Vec<char>)
    ensures
        r@ == s@,
{
    let mut out: Vec<char> = Vec::new();
    for c in it: s.chars()
        invariant
            it.seq() == s@,
            out@ == it.seq().take(it.index() as int),
    {
        out.push(c);
        assert(out@ =~= it.seq().take(it.index() + 1));
    }
    assert(out@ =~= s@);
    out
}

/// The string that holds the characters of `v`, in order.
pub(crate) fn text_of(v: &Vec<char>) -> (r: String)
    ensures
        r@ == v@,
{
    let mut out = String::new();
    let mut i: usize = 0;
    while i < v.len()
        invariant
            i <= v.len(),
            out@ == v@.take(i as int),
        decreases v.len() - i,
    {
        push_char(&mut out, v[i]);
        assert(out@ =~= v@.take(i + 1));
        i += 1;
    }
    assert(out@ =~= v@);
    out
}

/// Whether `c` is white space: one of the code points that carry the Unicode
/// property `White_Space`.
pub open spec fn is_space(c: char) -> bool {
    let n = c as u32;
    ||| 0x09 <= n <= 0x0d
    ||| n == 0x20
    ||| n == 0x85
    ||| n == 0xa0
    ||| n == 0x1680
    ||| 0x2000 <= n <= 0x200a
    ||| n == 0x2028
    ||| n == 0x2029
    ||| n == 0x202f
    ||| n == 0x205f
    ||| n == 0x3000
}

/// `s` without the white space it starts with.
pub open spec fn trimmed_start(s: Seq<char>) -> Seq<char>
    decreases s.len(),
{
    if s.len() > 0 && is_space(s[0]) {
        trimmed_start(s.drop_first())
    } else {
        s
    }
}

/// Taking leading white space off is skipping it.
pub proof fn lemma_trimmed_start(s: Seq<char>, k: nat)
    requires
        k <= s.len(),
        forall|i: int| 0 <= i < k ==> is_space(s[i]),
        k < s.len() ==> !is_space(s[k as int]),
    ensures
        trimmed_start(s) == s.skip(k as int),
    decreases k,
{
    if k == 0 {
        assert(s.skip(0) =~= s);
    } else {
        let rest = s.drop_first();
        assert forall|i: int| 0 <= i < k - 1 implies is_space(rest[i]) by {
            assert(rest[i] == s[i + 1]);
        }
        if k < s.len() {
            assert(rest[k - 1] == s[k as int]);
        }
        lemma_trimmed_start(rest, (k - 1) as nat);
        assert(rest.skip(k - 1) =~= s.skip(k as int));
    }
}

/// `s` without its leading white space.
pub(crate) fn trim_start(s: &str) -> (r: String)
    ensures
        r@ == trimmed_start(s@),
{
    let chars = chars_of(s);
    let mut k: usize = 0;
    while k < chars.len() && is_space_char(chars[k])
        invariant
            k <= chars.len(),
            forall|i: int| 0 <= i < k ==> is_space(chars@[i]),
        decreases chars.len() - k,
    {
        k += 1;
    }
    proof {
        lemma_trimmed_start(chars@, k as nat);
    }
    let mut out = String::new();
    let mut i: usize = k;
    while i < chars.len()
        invariant
            k <= i <= chars.len(),
            out@ == chars@.subrange(k as int, i as int),
        decreases chars.len() - i,
    {
        push_char(&mut out, chars[i]);
        assert(out@ =~= chars@.subrange(k as int, i + 1));
        i += 1;
    }
    assert(out@ =~= chars@.skip(k as int));
    out
}

/// The texts of `parts` in order, with `sep` between each two neighbours.
pub open spec fn joined(parts: Seq<Seq<char>>, sep: Seq<char>) -> Seq<char>
    decreases parts.len(),
{
    if parts.len() == 0 {
        Seq::empty()
    } else if parts.len() == 1 {
        parts[0]
    } else {
        joined(parts.drop_last(), sep) + sep + parts.last()
    }
}

/// Joins the strings of `parts` with `sep` between them.
pub fn join(parts: &Vec<String>, sep: &str) -> (r: String)
    ensures
        r@ == joined(parts.deep_view(), sep@),
{
    let ghost texts = parts.deep_view();
    let mut out = String::new();
    let mut i: usize = 0;
    while i < parts.len()
        invariant
            i <= parts.len(),
            texts == parts.deep_view(),
            out@ == joined(texts.take(i as int), sep@),
        decreases parts.len() - i,
    {
        proof {
            let next = texts.take(i + 1);
            assert(next.drop_last() =~= texts.take(i as int));
            assert(next.last() == parts[i as int]@);
        }
        if i > 0 {
            push_text(&mut out, sep);
        }
        push_text(&mut out, parts[i].as_str());
        i += 1;
    }
    assert(texts.take(parts.len() as int) =~= texts);
    out
}

/// Whether `a` comes before `b` in the order of strings: at the first place
/// where the two differ, `a` ends or has the character with the smaller
/// code point.
pub open spec fn text_lt(a: Seq<char>, b: Seq<char>) -> bool
    decreases a.len(),
{
    if b.len() == 0 {
        false
    } else if a.len() == 0 {
        true
    } else if (a[0] as u32) < (b[0] as u32) {
        true
    } else if (b[0] as u32) < (a[0] as u32) {
        false
    } else {
        text_lt(a.drop_first(), b.drop_first())
    }
}

/// Whether `a` comes before `b` depends on what follows their common
/// beginning alone.
pub proof fn lemma_text_lt_skip(a: Seq<char>, b: Seq<char>, k: nat)
    requires
        k <= a.len(),
        k <= b.len(),
        forall|i: int| 0 <= i < k ==> (a[i] as u32) == (b[i] as u32),
    ensures
        text_lt(a, b) == text_lt(a.skip(k as int), b.skip(k as int)),
    decreases k,
{
    if k == 0 {
        assert(a.skip(0) =~= a);
        assert(b.skip(0) =~= b);
    } else {
        assert((a[0] as u32) == (b[0] as u32));
        let ra = a.drop_first();
        let rb = b.drop_first();
        assert forall|i: int| 0 <= i < k - 1 implies (ra[i] as u32) == (rb[i] as u32) by {
            assert(ra[i] == a[i + 1] && rb[i] == b[i + 1]);
        }
        lemma_text_lt_skip(ra, rb, (k - 1) as nat);
        assert(ra.skip(k - 1) =~= a.skip(k as int));
        assert(rb.skip(k - 1) =~= b.skip(k as int));
    }
}

/// Whether `a` comes before `b` in the order of strings.
pub(crate) fn text_before(a: &str, b: &str) -> (r: bool)
    ensures
        r == text_lt(a@, b@),
{
    let x = chars_of(a);
    let y = chars_of(b);
    let mut i: usize = 0;
    while i < x.len() && i < y.len()
        invariant
            i <= x.len(),
            i <= y.len(),
            x@ == a@,
            y@ == b@,
            forall|k: int| 0 <= k < i ==> (x@[k] as u32) == (y@[k] as u32),
        decreases x.len() - i,
    {
        let p: u32 = x[i] as u32;
        let q: u32 = y[i] as u32;
        if p != q {
            proof {
                lemma_text_lt_skip(x@, y@, i as nat);
                assert(x@.skip(i as int)[0] == x@[i as int]);
                assert(y@.skip(i as int)[0] == y@[i as int]);
            }
            return p < q;
        }
        i += 1;
    }
    proof {
        lemma_text_lt_skip(x@, y@, i as nat);
    }
    i < y.len()
}

/// No text comes before itself, and of two texts at most one comes before
/// the other.
pub proof fn lemma_text_lt_asymmetric(a: Seq<char>, b: Seq<char>)
    ensures
        text_lt(a, b) ==> !text_lt(b, a),
    decreases a.len(),
{
    if a.len() > 0 && b.len() > 0 && (a[0] as u32) == (b[0] as u32) {
        lemma_text_lt_asymmetric(a.drop_first(), b.drop_first());
    }
}

/// Where `a` does not come before `b`, nor `b` before `c`, `a` does not
/// come before `c`.
pub proof fn lemma_text_lt_chain(a: Seq<char>, b: Seq<char>, c: Seq<char>)
    requires
        !text_lt(a, b),
        !text_lt(b, c),
    ensures
        !text_lt(a, c),
    decreases a.len(),
{
    if c.len() > 0 && b.len() > 0 && a.len() > 0 {
        if (a[0] as u32) == (b[0] as u32) && (b[0] as u32) == (c[0] as u32) {
            lemma_text_lt_chain(a.drop_first(), b.drop_first(), c.drop_first());
        }
    }
}

/// Whether `c` is white space.
pub fn is_space_char(c: char) -> (r: bool)
    ensures
        r == is_space(c),
{
    let n: u32 = c as u32;
    (0x09 <= n && n <= 0x0d) || n == 0x20 || n == 0x85 || n == 0xa0 || n == 0x1680 || (0x2000 <= n
        && n <= 0x200a) || n == 0x2028 || n == 0x2029 || n == 0x202f || n == 0x205f || n
        == 0x3000
}

/// The words that the first `k` characters of `s` have completed: a word is
/// a longest run of characters that are not white space, and it is
/// completed by the white space that follows it.
pub open spec fn words_done(s: Seq<char>, k: nat) -> Seq<Seq<char>>
    decreases k,
{
    if k == 0 || k > s.len() {
        Seq::empty()
    } else if is_space(s[k - 1]) && word_open(s, (k - 1) as nat).len() > 0 {
        words_done(s, (k - 1) as nat).push(word_open(s, (k - 1) as nat))
    } else {
        words_done(s, (k - 1) as nat)
    }
}

/// The word that the first `k` characters of `s` have begun and not
/// completed; empty where they end in white space.
pub open spec fn word_open(s: Seq<char>, k: nat) -> Seq<char>
    decreases k,
{
    if k == 0 || k > s.len() {
        Seq::empty()
    } else if is_space(s[k - 1]) {
        Seq::empty()
    } else {
        word_open(s, (k - 1) as nat).push(s[k - 1])
    }
}

/// The words of `s`, in order: its longest runs of characters that are not
/// white space.
pub open spec fn words(s: Seq<char>) -> Seq<Seq<char>> {
    if word_open(s, s.len()).len() > 0 {
        words_done(s, s.len()).push(word_open(s, s.len()))
    } else {
        words_done(s, s.len())
    }
}

/// The words of `s`, in order.
pub fn split_words(s: &str) -> (r: Vec<String>)
    ensures
        r.deep_view() == words(s@),
{
    let chars = chars_of(s);
    let mut done: Vec<String> = Vec::new();
    let mut open: Vec<char> = Vec::new();
    let mut i: usize = 0;
    assert(done.deep_view() =~= Seq::<Seq<char>>::empty());
    while i < chars.len()
        invariant
            i <= chars.len(),
            chars@ == s@,
            done.deep_view() == words_done(s@, i as nat),
            open@ == word_open(s@, i as nat),
        decreases chars.len() - i,
    {
        let c = chars[i];
        let ghost before = done.deep_view();
        if is_space_char(c) {
            if open.len() > 0 {
                done.push(text_of(&open));
                assert(done.deep_view() =~= before.push(open@));
                open = Vec::new();
            }
        } else {
            open.push(c);
        }
        i += 1;
    }
    if open.len() > 0 {
        let ghost before = done.deep_view();
        done.push(text_of(&open));
        assert(done.deep_view() =~= before.push(open@));
    }
    done
}

/// The characters of `s` with `c` put in before the one at `at`, or at the
/// end where `at` is beyond it.
pub open spec fn with_char(s: Seq<char>, at: int, c: char) -> Seq<char> {
    if 0 <= at <= s.len() {
        s.insert(at, c)
    } else {
        s.push(c)
    }
}

/// `s` with `c` put in before the character at `at`, or at the end.
pub fn insert_char(s: &str, at: usize, c: char) -> (r: String)
    ensures
        r@ == with_char(s@, at as int, c),
{
    let mut chars = chars_of(s);
    if at <= chars.len() {
        chars.insert(at, c);
    } else {
        chars.push(c);
    }
    text_of(&chars)
}

/// The characters of `s` without the one at `at`; all of them where `at`
/// is beyond the last.
pub open spec fn without_char(s: Seq<char>, at: int) -> Seq<char> {
    if 0 <= at < s.len() {
        s.remove(at)
    } else {
        s
    }
}

/// `s` without the character at `at`.
pub fn remove_char(s: &str, at: usize) -> (r: String)
    ensures
        r@ == without_char(s@, at as int),
{
    let mut chars = chars_of(s);
    if at < chars.len() {
        chars.remove(at);
    }
    text_of(&chars)
}

} // verus!
