//! The plain-text projection of a fragment of markup: headings become
//! `#`-prefixed lines, paragraphs become blocks that end in a blank line, list
//! entries become `- `-prefixed lines, anchors keep their target in
//! parentheses, and unknown tags are dropped.

use vstd::prelude::*;
use crate::text::{push_char, push_text, same_text, trim_start, trimmed_start};

verus! {

/// Why a piece of markup has no plain-text projection.
#[derive(Debug, Clone, Copy, PartialEq, Eq, Structural)]
pub enum HTMLParseError {
    /// The markup could not be parsed at all.
    NotParseable,
    /// The markup parsed, but not as a fragment.
    NotStringifiable,
}

/// What kind of document a parsed piece of markup is.
#[derive(Debug, Clone, Copy, PartialEq, Eq, Structural)]
pub enum DomKind {
    Document,
    DocumentFragment,
    Empty,
}

/// One node of parsed markup.
#[derive(Debug, PartialEq, Eq)]
pub enum HtmlNode {
    Text(String),
    Comment,
    Element(HtmlElement),
}

/// An element of parsed markup: its tag, one of its attributes, and its
/// children in document order.
#[derive(Debug, PartialEq, Eq)]
pub struct HtmlElement {
    pub name: String,
    /// `None` where the element lacks the attribute, `Some(None)` where it
    /// has it without a value.
    pub target: Option<Option<String>>,
    pub children: Vec<HtmlNode>,
}

/// Parsed markup: its kind and its top-level nodes.
#[derive(Debug, PartialEq, Eq)]
pub struct HtmlDom {
    pub kind: DomKind,
    pub children: Vec<HtmlNode>,
}

/// What an [`HtmlNode`] holds.
pub enum NodeView {
    Text(Seq<char>),
    Comment,
    Element { name: Seq<char>, target: Option<Option<Seq<char>>>, children: Seq<NodeView> },
}

/// What an [`HtmlDom`] holds.
pub struct DomView {
    pub kind: DomKind,
    pub children: Seq<NodeView>,
}

/// The value of a node.
pub open spec fn node_view(n: HtmlNode) -> NodeView
    decreases n, 0nat,
{
    match n {
        HtmlNode::Text(s) => NodeView::Text(s@),
        HtmlNode::Comment => NodeView::Comment,
        HtmlNode::Element(e) => NodeView::Element {
            name: e.name@,
            target: e.target.deep_view(),
            children: nodes_view(e.children@, e.children@.len()),
        },
    }
}

/// The values of the first `k` nodes of `ns`.
pub open spec fn nodes_view(ns: Seq<HtmlNode>, k: nat) -> Seq<NodeView>
    decreases ns, k,
{
    if k == 0 || k > ns.len() {
        Seq::empty()
    } else {
        nodes_view(ns, (k - 1) as nat).push(node_view(ns[k - 1]))
    }
}

impl View for HtmlNode {
    type V = NodeView;

    open spec fn view(&self) -> NodeView {
        node_view(*self)
    }
}

impl View for HtmlDom {
    type V = DomView;

    open spec fn view(&self) -> DomView {
        DomView { kind: self.kind, children: nodes_view(self.children@, self.children@.len()) }
    }
}

/// `nodes_view` keeps the length and works node by node.
pub proof fn lemma_nodes_view(ns: Seq<HtmlNode>, k: nat)
    requires
        k <= ns.len(),
    ensures
        nodes_view(ns, k).len() == k,
        forall|i: int| 0 <= i < k ==> #[trigger] nodes_view(ns, k)[i] == node_view(ns[i]),
    decreases k,
{
    if k > 0 {
        lemma_nodes_view(ns, (k - 1) as nat);
    }
}

/// The text that entity decoding makes of `text`.
pub uninterp spec fn decoded_entities(text: Seq<char>) -> Seq<char>;

/// Decodes the character references in `text`.
///
/// Trusted: `html_escape::decode_html_entities` is a function of its input
/// text alone. It replaces the exact named and numeric character references
/// that end in a semicolon, and leaves those standing that name no
/// character, the null character or a control character other than white
/// space. The contract only gives its result a name.
#[verifier::external_body]
pub(crate) fn decode_entities(text: &str) -> (r: String)
    ensures
        r@ == decoded_entities(text@),
{
    html_escape::decode_html_entities(text).into_owned()
}

/// The level of a heading tag, `h1` to `h6`.
pub open spec fn heading_level(name: Seq<char>) -> Option<nat> {
    if name.len() == 2 && name[0] == 'h' && '1' <= name[1] <= '6' {
        Some((name[1] as u32 - '0' as u32) as nat)
    } else {
        None
    }
}

/// Tags that end their text with a blank line.
pub open spec fn is_block(name: Seq<char>) -> bool {
    name == seq!['p'] || name == seq!['d', 'i', 'v']
}

/// Tags that only pass the text of their children on.
pub open spec fn is_inline(name: Seq<char>) -> bool {
    ||| name == seq!['b']
    ||| name == seq!['i']
    ||| name == seq!['s', 't', 'r', 'o', 'n', 'g']
    ||| name == seq!['e', 'm']
    ||| name == seq!['s', 'm', 'a', 'l', 'l']
    ||| name == seq!['s', 'p', 'a', 'n']
    ||| name == seq!['p', 'r', 'e']
    ||| name == seq!['c', 'o', 'd', 'e']
    ||| name == seq!['u', 'l']
    ||| name == seq!['o', 'l']
}

/// The tag of a list entry.
pub open spec fn is_entry(name: Seq<char>) -> bool {
    name == seq!['l', 'i']
}

/// The tag of an anchor.
pub open spec fn is_anchor(name: Seq<char>) -> bool {
    name == seq!['a']
}

/// `n` number signs.
pub open spec fn hashes(n: nat) -> Seq<char> {
    Seq::new(n, |i: int| '#')
}

/// The text of an anchor whose children read `parts`.
pub open spec fn anchor_text(parts: Seq<char>, target: Option<Option<Seq<char>>>) -> Seq<char> {
    match target {
        Some(Some(t)) => parts + seq![' ', '('] + t + seq![')'],
        Some(None) => parts + seq![' ', '(', ')'],
        None => parts,
    }
}

/// The text of an element called `name` whose children read `parts`; `None`
/// for a tag that is not known.
pub open spec fn element_text(
    name: Seq<char>,
    target: Option<Option<Seq<char>>>,
    parts: Seq<char>,
) -> Option<Seq<char>> {
    if heading_level(name) is Some {
        Some(hashes(heading_level(name).unwrap()) + seq![' '] + parts + seq!['\n', '\n'])
    } else if is_block(name) {
        Some(parts + seq!['\n', '\n'])
    } else if is_inline(name) {
        Some(parts)
    } else if is_entry(name) {
        Some(seq!['-', ' '] + parts + seq!['\n'])
    } else if is_anchor(name) {
        Some(anchor_text(parts, target))
    } else {
        None
    }
}

/// The plain text of one node; `None` for a comment and for an unknown tag.
pub open spec fn flat_node(n: NodeView) -> Option<Seq<char>>
    decreases n, 0nat,
{
    match n {
        NodeView::Text(s) => Some(decoded_entities(s)),
        NodeView::Comment => None,
        NodeView::Element { name, target, children } => element_text(
            name,
            target,
            trimmed_start(flat_nodes(children, children.len())),
        ),
    }
}

/// The plain text of the first `k` nodes of `ns`, one after the other.
pub open spec fn flat_nodes(ns: Seq<NodeView>, k: nat) -> Seq<char>
    decreases ns, k,
{
    if k == 0 || k > ns.len() {
        Seq::empty()
    } else {
        match flat_node(ns[k - 1]) {
            Some(s) => flat_nodes(ns, (k - 1) as nat) + s,
            None => flat_nodes(ns, (k - 1) as nat),
        }
    }
}

/// The plain text of a list of nodes, with the leading white space taken off
/// where `trim` is set.
pub open spec fn flat_list(ns: Seq<NodeView>, trim: bool) -> Seq<char> {
    if trim {
        trimmed_start(flat_nodes(ns, ns.len()))
    } else {
        flat_nodes(ns, ns.len())
    }
}

/// The plain-text projection of parsed markup: that of its nodes where it is
/// a fragment, an error otherwise.
pub open spec fn flat_dom(dom: DomView) -> Result<Seq<char>, HTMLParseError> {
    if dom.kind == DomKind::DocumentFragment {
        Ok(flat_nodes(dom.children, dom.children.len()))
    } else {
        Err(HTMLParseError::NotStringifiable)
    }
}

/// The tree that parsing `text` as markup gives, keeping of each element
/// its attribute called `attribute`, wherever the parser accepts the text.
pub uninterp spec fn parsed_dom(text: Seq<char>, attribute: Seq<char>) -> Option<DomView>;

/// The plain-text projection of `content`, with the targets of its anchors
/// taken from their `href` attributes, wherever the parser accepts
/// `content` and its tree is a fragment.
pub open spec fn plain_text(content: Seq<char>) -> Option<Seq<char>> {
    match parsed_dom(content, "href"@) {
        Some(dom) => match flat_dom(dom) {
            Ok(text) => Some(text),
            Err(_) => None,
        },
        None => None,
    }
}

/// A node as `html_parser` hands it out; the library only carries it over
/// into a tree of its own.
#[verifier::external_type_specification]
#[verifier::external_body]
pub struct ExternNode(html_parser::Node);

/// Carries one parsed node over into the library's own tree, keeping of each
/// element its tag, its attribute called `attribute` and its children.
///
/// Trusted: the match tells the three variants of `html_parser::Node` apart
/// and moves their fields; `HashMap::get` finds the attribute under the key.
#[verifier::external_body]
fn carry_node(node: &html_parser::Node, attribute: &str) -> HtmlNode {
    match node {
        html_parser::Node::Text(s) => HtmlNode::Text(s.clone()),
        html_parser::Node::Comment(_) => HtmlNode::Comment,
        html_parser::Node::Element(e) => HtmlNode::Element(
            HtmlElement {
                name: e.name.clone(),
                target: e.attributes.get(attribute).cloned(),
                children: e.children.iter().map(|c| carry_node(c, attribute)).collect(),
            },
        ),
    }
}

/// Parses `content` as markup, keeping of each element its attribute called
/// `attribute`; `None` where the parser gives up.
///
/// Trusted: a tree that `html_parser::Dom::parse` returns is a function of
/// the text alone, and the contract gives it a name. Nothing is promised
/// of a refusal: the parser also gives up where the calling thread has
/// little stack left, so that one text may be refused at one time and
/// accepted at another; what it accepts, it always reads as the same tree.
#[verifier::external_body]
pub(crate) fn parse_dom(content: &str, attribute: &str) -> (r: Option<HtmlDom>)
    ensures
        r matches Some(dom) ==> parsed_dom(content@, attribute@) == Some(dom@),
{
    match html_parser::Dom::parse(content) {
        Ok(dom) => Some(
            HtmlDom {
                kind: match dom.tree_type {
                    html_parser::DomVariant::Document => DomKind::Document,
                    html_parser::DomVariant::DocumentFragment => DomKind::DocumentFragment,
                    html_parser::DomVariant::Empty => DomKind::Empty,
                },
                children: dom.children.iter().map(|c| carry_node(c, attribute)).collect(),
            },
        ),
        Err(_) => None,
    }
}

/// The level of the heading tag `name`, 0 where it is none.
fn heading_of(name: &str) -> (level: usize)
    ensures
        level <= 6,
        match heading_level(name@) {
            Some(n) => level == n,
            None => level == 0,
        },
{
    proof {
        reveal_strlit("h1");
        reveal_strlit("h2");
        reveal_strlit("h3");
        reveal_strlit("h4");
        reveal_strlit("h5");
        reveal_strlit("h6");
    }
    if same_text(name, "h1") {
        1
    } else if same_text(name, "h2") {
        2
    } else if same_text(name, "h3") {
        3
    } else if same_text(name, "h4") {
        4
    } else if same_text(name, "h5") {
        5
    } else if same_text(name, "h6") {
        6
    } else {
        proof {
            if heading_level(name@) is Some {
                let s = name@;
                let c = s[1];
                assert(c == '1' || c == '2' || c == '3' || c == '4' || c == '5' || c == '6');
                assert(s =~= seq!['h', c]);
                assert("h1"@ =~= seq!['h', '1']);
                assert("h2"@ =~= seq!['h', '2']);
                assert("h3"@ =~= seq!['h', '3']);
                assert("h4"@ =~= seq!['h', '4']);
                assert("h5"@ =~= seq!['h', '5']);
                assert("h6"@ =~= seq!['h', '6']);
            }
        }
        0
    }
}

/// Whether `name` is a tag that ends its text with a blank line.
fn block_tag(name: &str) -> (r: bool)
    ensures
        r == is_block(name@),
{
    proof {
        reveal_strlit("p");
        reveal_strlit("div");
        assert("p"@ =~= seq!['p']);
        assert("div"@ =~= seq!['d', 'i', 'v']);
    }
    same_text(name, "p") || same_text(name, "div")
}

/// Whether `name` is a tag that only passes its children's text on.
fn inline_tag(name: &str) -> (r: bool)
    ensures
        r == is_inline(name@),
{
    proof {
        reveal_strlit("b");
        reveal_strlit("i");
        reveal_strlit("strong");
        reveal_strlit("em");
        reveal_strlit("small");
        reveal_strlit("span");
        reveal_strlit("pre");
        reveal_strlit("code");
        reveal_strlit("ul");
        reveal_strlit("ol");
        assert("b"@ =~= seq!['b']);
        assert("i"@ =~= seq!['i']);
        assert("strong"@ =~= seq!['s', 't', 'r', 'o', 'n', 'g']);
        assert("em"@ =~= seq!['e', 'm']);
        assert("small"@ =~= seq!['s', 'm', 'a', 'l', 'l']);
        assert("span"@ =~= seq!['s', 'p', 'a', 'n']);
        assert("pre"@ =~= seq!['p', 'r', 'e']);
        assert("code"@ =~= seq!['c', 'o', 'd', 'e']);
        assert("ul"@ =~= seq!['u', 'l']);
        assert("ol"@ =~= seq!['o', 'l']);
    }
    same_text(name, "b") || same_text(name, "i") || same_text(name, "strong") || same_text(
        name,
        "em",
    ) || same_text(name, "small") || same_text(name, "span") || same_text(name, "pre")
        || same_text(name, "code") || same_text(name, "ul") || same_text(name, "ol")
}

/// Whether `name` is the tag of a list entry.
fn entry_tag(name: &str) -> (r: bool)
    ensures
        r == is_entry(name@),
{
    proof {
        reveal_strlit("li");
        assert("li"@ =~= seq!['l', 'i']);
    }
    same_text(name, "li")
}

/// Whether `name` is the tag of an anchor.
fn anchor_tag(name: &str) -> (r: bool)
    ensures
        r == is_anchor(name@),
{
    proof {
        reveal_strlit("a");
        assert("a"@ =~= seq!['a']);
    }
    same_text(name, "a")
}

/// The plain text of a list of nodes, one after the other, without the nodes
/// that have none; with `trim` the leading white space is taken off.
pub fn flatten_nodes(nodes: &Vec<HtmlNode>, trim: bool) -> (flat: String)
    ensures
        flat@ == flat_list(nodes_view(nodes@, nodes@.len()), trim),
    decreases nodes, 1nat,
{
    let ghost views = nodes_view(nodes@, nodes@.len());
    proof {
        lemma_nodes_view(nodes@, nodes@.len());
    }
    let mut flat = String::new();
    let mut i: usize = 0;
    while i < nodes.len()
        invariant
            i <= nodes.len(),
            views == nodes_view(nodes@, nodes@.len()),
            views.len() == nodes.len(),
            forall|k: int| 0 <= k < nodes.len() ==> #[trigger] views[k] == node_view(nodes@[k]),
            flat@ == flat_nodes(views, i as nat),
        decreases nodes.len() - i,
    {
        match flatten_html(&nodes[i]) {
            Ok(Some(s)) => {
                push_text(&mut flat, s.as_str());
            },
            Ok(None) => {},
            Err(_) => {},
        }
        i += 1;
    }
    if trim {
        trim_start(flat.as_str())
    } else {
        flat
    }
}

/// The plain text of one node: `None` for a comment and for a tag that is
/// not known. No node is an error.
pub fn flatten_html(node: &HtmlNode) -> (r: Result<Option<String>, HTMLParseError>)
    ensures
        r is Ok,
        r.unwrap().deep_view() == flat_node(node@),
    decreases node, 0nat,
{
    match node {
        HtmlNode::Text(s) => Ok(Some(decode_entities(s.as_str()))),
        HtmlNode::Comment => Ok(None),
        HtmlNode::Element(el) => {
            let name = el.name.as_str();
            let level = heading_of(name);
            if level > 0 {
                let parts = flatten_nodes(&el.children, true);
                let mut heading = String::new();
                let mut k: usize = 0;
                while k < level
                    invariant
                        k <= level,
                        heading@ == hashes(k as nat),
                    decreases level - k,
                {
                    push_char(&mut heading, '#');
                    assert(heading@ =~= hashes((k + 1) as nat));
                    k += 1;
                }
                push_char(&mut heading, ' ');
                push_text(&mut heading, parts.as_str());
                push_char(&mut heading, '\n');
                push_char(&mut heading, '\n');
                assert(heading@ =~= hashes(level as nat) + seq![' '] + parts@ + seq!['\n', '\n']);
                Ok(Some(heading))
            } else if block_tag(name) {
                let mut parts = flatten_nodes(&el.children, true);
                let ghost before = parts@;
                push_char(&mut parts, '\n');
                push_char(&mut parts, '\n');
                assert(parts@ =~= before + seq!['\n', '\n']);
                Ok(Some(parts))
            } else if inline_tag(name) {
                let parts = flatten_nodes(&el.children, true);
                Ok(Some(parts))
            } else if entry_tag(name) {
                let mut text = String::new();
                let parts = flatten_nodes(&el.children, true);
                push_char(&mut text, '-');
                push_char(&mut text, ' ');
                push_text(&mut text, parts.as_str());
                push_char(&mut text, '\n');
                assert(text@ =~= seq!['-', ' '] + parts@ + seq!['\n']);
                Ok(Some(text))
            } else if anchor_tag(name) {
                let mut parts = flatten_nodes(&el.children, true);
                let ghost before = parts@;
                match &el.target {
                    Some(value) => {
                        push_char(&mut parts, ' ');
                        push_char(&mut parts, '(');
                        match value {
                            Some(t) => {
                                push_text(&mut parts, t.as_str());
                            },
                            None => {},
                        }
                        push_char(&mut parts, ')');
                        assert(parts@ =~= anchor_text(before, el.target.deep_view()));
                    },
                    None => {},
                }
                Ok(Some(parts))
            } else {
                Ok(None)
            }
        },
    }
}

/// The plain-text projection of parsed markup: the text of its top-level
/// nodes, one after the other, where it is a fragment;
/// `NotStringifiable` where it is a whole document or empty.
pub fn flatten_dom(dom: &HtmlDom) -> (r: Result<String, HTMLParseError>)
    ensures
        match r {
            Ok(text) => flat_dom(dom@) == Ok::<Seq<char>, HTMLParseError>(text@),
            Err(e) => flat_dom(dom@) == Err::<Seq<char>, HTMLParseError>(e),
        },
{
    match dom.kind {
        DomKind::DocumentFragment => Ok(flatten_nodes(&dom.children, false)),
        _ => Err(HTMLParseError::NotStringifiable),
    }
}

/// The plain-text projection of `content`: the projection of the tree that
/// parsing `content` gives, with the targets of anchors taken from their
/// `href` attributes. `NotStringifiable` where that tree is a whole document
/// or empty; `NotParseable` where the parser gives up.
pub fn parse_html(content: &str) -> (r: Result<String, HTMLParseError>)
    ensures
        match r {
            Ok(text) => {
                &&& parsed_dom(content@, "href"@) is Some
                &&& flat_dom(parsed_dom(content@, "href"@).unwrap()) == Ok::<
                    Seq<char>,
                    HTMLParseError,
                >(text@)
                &&& plain_text(content@) == Some(text@)
            },
            Err(e) => {
                ||| e == HTMLParseError::NotParseable
                ||| {
                    &&& e == HTMLParseError::NotStringifiable
                    &&& parsed_dom(content@, "href"@) is Some
                    &&& flat_dom(parsed_dom(content@, "href"@).unwrap()) == Err::<
                        Seq<char>,
                        HTMLParseError,
                    >(e)
                    &&& plain_text(content@) is None
                }
            },
        },
{
    match parse_dom(content, "href") {
        Some(dom) => flatten_dom(&dom),
        None => Err(HTMLParseError::NotParseable),
    }
}

} // verus!
