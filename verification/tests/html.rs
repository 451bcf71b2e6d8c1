use moccasin::feed::html::{
    flatten_dom, flatten_html, flatten_nodes, parse_html, DomKind, HTMLParseError, HtmlDom,
    HtmlElement, HtmlNode,
};

fn text(s: &str) -> HtmlNode {
    HtmlNode::Text(s.to_string())
}

fn element(name: &str, children: Vec<HtmlNode>) -> HtmlNode {
    HtmlNode::Element(HtmlElement { name: name.to_string(), target: None, children })
}

fn anchor(target: Option<Option<&str>>, children: Vec<HtmlNode>) -> HtmlNode {
    HtmlNode::Element(HtmlElement {
        name: "a".to_string(),
        target: target.map(|t| t.map(|s| s.to_string())),
        children,
    })
}

#[test]
fn text_node_is_its_decoded_text() {
    assert_eq!(flatten_html(&text("fish &amp; chips")), Ok(Some("fish & chips".to_string())));
    assert_eq!(flatten_html(&text("plain")), Ok(Some("plain".to_string())));
    assert_eq!(flatten_html(&text("&lt;b&gt; &#x2019;")), Ok(Some("<b> \u{2019}".to_string())));
}

#[test]
fn comment_has_no_text() {
    assert_eq!(flatten_html(&HtmlNode::Comment), Ok(None));
}

#[test]
fn headings_are_prefixed_with_their_level() {
    assert_eq!(
        flatten_html(&element("h1", vec![text("Top")])),
        Ok(Some("# Top\n\n".to_string()))
    );
    assert_eq!(
        flatten_html(&element("h3", vec![text("Third")])),
        Ok(Some("### Third\n\n".to_string()))
    );
    assert_eq!(
        flatten_html(&element("h6", vec![text("Six")])),
        Ok(Some("###### Six\n\n".to_string()))
    );
}

#[test]
fn h7_and_h0_are_unknown_tags() {
    assert_eq!(flatten_html(&element("h7", vec![text("x")])), Ok(None));
    assert_eq!(flatten_html(&element("h0", vec![text("x")])), Ok(None));
    assert_eq!(flatten_html(&element("h", vec![text("x")])), Ok(None));
}

#[test]
fn paragraphs_and_divs_end_with_a_blank_line() {
    assert_eq!(
        flatten_html(&element("p", vec![text("one")])),
        Ok(Some("one\n\n".to_string()))
    );
    assert_eq!(
        flatten_html(&element("div", vec![text("  two")])),
        Ok(Some("two\n\n".to_string()))
    );
}

#[test]
fn inline_tags_pass_their_text_on() {
    for name in ["b", "i", "strong", "em", "small", "span", "pre", "code"] {
        assert_eq!(
            flatten_html(&element(name, vec![text(" x "), text("y")])),
            Ok(Some("x y".to_string()))
        );
    }
}

#[test]
fn list_entries_become_dashed_lines() {
    let list = element(
        "ul",
        vec![element("li", vec![text("one")]), element("li", vec![text("two")])],
    );
    assert_eq!(flatten_html(&list), Ok(Some("- one\n- two\n".to_string())));
    let numbered = element("ol", vec![element("li", vec![text("a")])]);
    assert_eq!(flatten_html(&numbered), Ok(Some("- a\n".to_string())));
}

#[test]
fn anchors_keep_their_target() {
    assert_eq!(
        flatten_html(&anchor(Some(Some("https://example.com")), vec![text("site")])),
        Ok(Some("site (https://example.com)".to_string()))
    );
    assert_eq!(
        flatten_html(&anchor(Some(None), vec![text("bare")])),
        Ok(Some("bare ()".to_string()))
    );
    assert_eq!(flatten_html(&anchor(None, vec![text("none")])), Ok(Some("none".to_string())));
}

#[test]
fn unknown_tags_are_dropped_with_their_children() {
    assert_eq!(flatten_html(&element("video", vec![text("x")])), Ok(None));
    let mixed = element("p", vec![text("a"), element("script", vec![text("evil")]), text("b")]);
    assert_eq!(flatten_html(&mixed), Ok(Some("ab\n\n".to_string())));
}

#[test]
fn leading_white_space_of_children_is_trimmed() {
    let p = element("p", vec![text(" \t\n lead"), text(" trail ")]);
    assert_eq!(flatten_html(&p), Ok(Some("lead trail \n\n".to_string())));
    let nbsp = element("p", vec![text("\u{a0}\u{3000}x")]);
    assert_eq!(flatten_html(&nbsp), Ok(Some("x\n\n".to_string())));
}

#[test]
fn flatten_nodes_trims_only_when_asked() {
    let nodes = vec![text("  a"), HtmlNode::Comment, text("b")];
    assert_eq!(flatten_nodes(&nodes, false), "  ab");
    assert_eq!(flatten_nodes(&nodes, true), "ab");
    assert_eq!(flatten_nodes(&vec![], true), "");
}

#[test]
fn nested_markup_is_flattened_inside_out() {
    let tree = element(
        "div",
        vec![
            element("h2", vec![text("News")]),
            element(
                "p",
                vec![
                    text("See "),
                    anchor(Some(Some("https://a.b")), vec![element("em", vec![text("this")])]),
                ],
            ),
        ],
    );
    assert_eq!(
        flatten_html(&tree),
        Ok(Some("## News\n\nSee this (https://a.b)\n\n\n\n".to_string()))
    );
}

#[test]
fn only_fragments_have_a_projection() {
    let fragment = HtmlDom { kind: DomKind::DocumentFragment, children: vec![text(" a")] };
    assert_eq!(flatten_dom(&fragment), Ok(" a".to_string()));
    let document = HtmlDom { kind: DomKind::Document, children: vec![text("a")] };
    assert_eq!(flatten_dom(&document), Err(HTMLParseError::NotStringifiable));
    let empty = HtmlDom { kind: DomKind::Empty, children: vec![] };
    assert_eq!(flatten_dom(&empty), Err(HTMLParseError::NotStringifiable));
}

#[test]
fn parse_html_reads_paragraphs() {
    assert_eq!(parse_html("<p>Hello <b>world</b></p>"), Ok("Hello world\n\n".to_string()));
}

#[test]
fn parse_html_reads_anchor_targets() {
    assert_eq!(
        parse_html("<a href=\"https://example.com/x\">more</a>"),
        Ok("more (https://example.com/x)".to_string())
    );
    assert_eq!(parse_html("<a name=\"n\">plain</a>"), Ok("plain".to_string()));
}

#[test]
fn parse_html_decodes_entities() {
    assert_eq!(parse_html("<p>fish &amp; chips</p>"), Ok("fish & chips\n\n".to_string()));
}

#[test]
fn parse_html_rejects_documents_and_empty_input() {
    assert_eq!(
        parse_html("<!doctype html><html><head></head><body><p>x</p></body></html>"),
        Err(HTMLParseError::NotStringifiable)
    );
    assert_eq!(parse_html(""), Err(HTMLParseError::NotStringifiable));
}

#[test]
fn parse_html_skips_comments_and_unknown_tags() {
    assert_eq!(parse_html("<!-- note --><p>x</p>"), Ok("x\n\n".to_string()));
    assert_eq!(parse_html("<video>clip</video><p>y</p>"), Ok("y\n\n".to_string()));
}

#[test]
fn parse_html_rejects_what_is_no_markup() {
    assert_eq!(parse_html("<!-- unclosed"), Err(HTMLParseError::NotParseable));
    assert_eq!(parse_html("<!doctype"), Err(HTMLParseError::NotParseable));
}

#[test]
fn parse_html_keeps_stray_text() {
    assert_eq!(parse_html("a < b"), Ok("a < b".to_string()));
    assert_eq!(parse_html("   <p> spaced   <i> out </i> </p>  tail"), Ok("spaced   out \n\n  tail".to_string()));
}

#[test]
fn parse_html_takes_targets_from_href_alone() {
    assert_eq!(
        parse_html("<a src=\"https://example.com/s\" href=\"https://example.com/h\">more</a>"),
        Ok("more (https://example.com/h)".to_string())
    );
    assert_eq!(
        parse_html("<a src=\"https://example.com/s\">more</a>"),
        parse_html("<a>more</a>")
    );
}

#[test]
fn parse_html_depends_on_its_input() {
    assert_eq!(parse_html("<p>one</p>"), Ok("one\n\n".to_string()));
    assert_eq!(parse_html("<p>two</p>"), Ok("two\n\n".to_string()));
    assert_ne!(parse_html("plain"), Ok(String::new()));
}
