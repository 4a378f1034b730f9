//! Tests for the line parsers: comments, headers, pattern definitions,
//! node definitions and edge chains.

use jsptemplate::parser::comment::parse_comment;
use jsptemplate::parser::edge::parse_edges;
use jsptemplate::parser::empty::parse_empty;
use jsptemplate::parser::header::parse_section_header;
use jsptemplate::parser::node::parse_node;
use jsptemplate::parser::regex::parse_regex;
use jsptemplate::{Edge, Header, Node, ParseResult, Regex};

#[test]
fn can_parse_comment() {
    let c = parse_comment(" # this is a comment");
    assert_eq!(c, Some(ParseResult::Comment(" this is a comment".to_string())));
}

#[test]
fn can_parse_comment_2() {
    let c = parse_comment(" # this is a comment    ");
    assert_eq!(c, Some(ParseResult::Comment(" this is a comment    ".to_string())));
}

#[test]
fn can_parse_spaces_in_header() {
    let result = parse_section_header(" [ regex ]    ");
    assert_eq!(result, Some(Header::Regex));
}

#[test]
fn can_parse_spaces_in_header_with_carriage_return_ending() {
    let result = parse_section_header(" [ regex ]    \n        ");
    assert_eq!(result, Some(Header::Regex));
}

#[test]
fn can_parse_spaces_in_header_2() {
    let result = parse_section_header("[ regex ]");
    assert_eq!(result, Some(Header::Regex));
}

#[test]
fn can_parse_no_space_header() {
    let result = parse_section_header("[regex]");
    assert_eq!(result, Some(Header::Regex));
}

#[test]
fn can_parse_no_space_nodes() {
    let result = parse_section_header("[nodes]");
    assert_eq!(result, Some(Header::Nodes));
}

#[test]
fn can_parse_no_space_node() {
    let result = parse_section_header("[node]");
    assert_eq!(result, Some(Header::Nodes));
}

#[test]
fn can_parse_no_space_graph() {
    let result = parse_section_header("[graph]");
    assert_eq!(result, Some(Header::Graph));
}

#[test]
fn can_parse_no_space_unknown() {
    let result = parse_section_header("[grapha]");
    assert_eq!(result, Some(Header::Unknown("grapha".to_string())));
}

#[test]
fn can_parse_empty_line() {
    assert_eq!(parse_empty("   \t  "), Some(ParseResult::Empty));
    assert_eq!(parse_empty(" x "), None);
}

#[test]
fn can_parse_edge() {
    let result = parse_edges(" foo->bar");
    assert_eq!(
        result,
        Some(vec![Edge::new("foo".to_string(), "bar".to_string())])
    );
}

#[test]
fn can_parse_spaces_in_header_with_space_ending() {
    let result = parse_edges(" foo -> bar   ");
    assert_eq!(
        result,
        Some(vec![Edge::new("foo".to_string(), "bar".to_string())])
    );
}

#[test]
fn can_parse_edges_2() {
    let result = parse_edges(" foo->bar -> bla ");
    assert_eq!(
        result,
        Some(vec![
            Edge::new("foo".to_string(), "bar".to_string()),
            Edge::new("bar".to_string(), "bla".to_string()),
        ])
    );
}

#[test]
fn can_parse_edges_3() {
    let result = parse_edges(" foo->bar -> bla -> flarg  ");
    assert_eq!(
        result,
        Some(vec![
            Edge::new("foo".to_string(), "bar".to_string()),
            Edge::new("bar".to_string(), "bla".to_string()),
            Edge::new("bla".to_string(), "flarg".to_string()),
        ])
    );
}

#[test]
fn can_parse_edges_4() {
    let result = parse_edges(" foo->bar -> bla -> flarg  -> picklerick ");
    assert_eq!(
        result,
        Some(vec![
            Edge::new("foo".to_string(), "bar".to_string()),
            Edge::new("bar".to_string(), "bla".to_string()),
            Edge::new("bla".to_string(), "flarg".to_string()),
            Edge::new("flarg".to_string(), "picklerick".to_string()),
        ])
    );
}

#[test]
fn edge_chain_is_consecutive_pairs() {
    // An edge chain yields exactly one edge per consecutive pair, in order.
    let result = parse_edges("a -> b -> c -> d");
    assert_eq!(
        result,
        Some(vec![
            Edge::new("a".to_string(), "b".to_string()),
            Edge::new("b".to_string(), "c".to_string()),
            Edge::new("c".to_string(), "d".to_string()),
        ])
    );
}

#[test]
fn single_identifier_is_no_edge_chain() {
    assert_eq!(parse_edges(" foo "), None);
    assert_eq!(parse_edges(" foo -> "), None);
}

#[test]
fn can_parse_revar_simple() {
    let result = parse_node(" rd ");
    assert_eq!(result, Some(Node::Simple("rd".to_string(), None)));
}

#[test]
fn node_can_parse_revar_simple() {
    let result = parse_node(" rd ");
    assert_eq!(result, Some(Node::Simple("rd".to_string(), None)));
}

#[test]
fn can_parse_node_simple_with_return() {
    let result = parse_node(" rd\n        ");
    assert_eq!(result, Some(Node::Simple("rd".to_string(), None)));
}

#[test]
fn can_parse_node_pair() {
    let result = parse_node("rd = RD ");
    assert_eq!(
        result,
        Some(Node::new_pair("rd".to_string(), "RD".to_string(), None))
    );
}

#[test]
fn node_can_parse_node_pair() {
    let result = parse_node("rd = RD ");
    assert_eq!(
        result,
        Some(Node::new_pair("rd".to_string(), "RD".to_string(), None))
    );
}

#[test]
fn can_parse_node_pair_with_return() {
    let result = parse_node(" rd = RD\n        ");
    assert_eq!(
        result,
        Some(Node::new_pair("rd".to_string(), "RD".to_string(), None))
    );
}

#[test]
fn node_can_parse_node_pair_with_return() {
    let result = parse_node(" rd = $rdexpr\n        ");
    assert_eq!(
        result,
        Some(Node::new_revar("rd".to_string(), "rdexpr".to_string(), None))
    );
}

#[test]
fn can_parse_node_revar() {
    let result = parse_node("rd = $rdexpr ");
    assert_eq!(
        result,
        Some(Node::new_revar("rd".to_string(), "rdexpr".to_string(), None))
    );
}

#[test]
fn node_can_parse_node_revar() {
    let result = parse_node("rd = $rdexpr ");
    assert_eq!(
        result,
        Some(Node::new_revar("rd".to_string(), "rdexpr".to_string(), None))
    );
}

#[test]
fn can_parse_node_regexsimple() {
    let result = parse_node(r#"rd = "(foo|bar)" "#);
    assert_eq!(
        result,
        Some(Node::new_regexsimple("rd".to_string(), "(foo|bar)".to_string(), None))
    );
}

#[test]
fn node_can_parse_node_regexsimple() {
    let result = parse_node(r#"rd = "(foo|bar)" "#);
    assert_eq!(
        result,
        Some(Node::new_regexsimple("rd".to_string(), "(foo|bar)".to_string(), None))
    );
}

#[test]
fn can_parse_node_regexsimplewith_return() {
    let result = parse_node(" rd = \"[a-zA-Z0-1_-]\"\n        ");
    assert_eq!(
        result,
        Some(Node::new_regexsimple("rd".to_string(), "[a-zA-Z0-1_-]".to_string(), None))
    );
}

#[test]
fn node_can_parse_node_regexsimplewith_return() {
    let result = parse_node(" rd = \"[a-zA-Z0-1_-]\" \"(bla|mange)\"\n        ");
    assert_eq!(
        result,
        Some(Node::new_regexcomplex(
            "rd".to_string(),
            "[a-zA-Z0-1_-]".to_string(),
            "(bla|mange)".to_string(),
            None,
        ))
    );
}

#[test]
fn can_parse_node_regexcomplex() {
    let result = parse_node(r#"rd = "(foo|bar)" "(bla|mange)" "#);
    assert_eq!(
        result,
        Some(Node::new_regexcomplex(
            "rd".to_string(),
            "(foo|bar)".to_string(),
            "(bla|mange)".to_string(),
            None,
        ))
    );
}

#[test]
fn node_can_parse_node_regexcomplex() {
    let result = parse_node(r#"rd = "(foo|bar)" "(bla|mange)" "#);
    assert_eq!(
        result,
        Some(Node::new_regexcomplex(
            "rd".to_string(),
            "(foo|bar)".to_string(),
            "(bla|mange)".to_string(),
            None,
        ))
    );
}

#[test]
fn can_parse_regex_simple() {
    let result = parse_regex(r#" foobar = "[a-zA-Z]" "#);
    assert_eq!(
        result,
        Some(Regex::Simple { name: "foobar".to_string(), value: "[a-zA-Z]".to_string() })
    );
}

#[test]
fn regex_can_parse_regex_simple() {
    let result = parse_regex(r#" foobar = "[a-zA-Z]" "#);
    assert_eq!(
        result,
        Some(Regex::Simple { name: "foobar".to_string(), value: "[a-zA-Z]".to_string() })
    );
}

#[test]
fn can_parse_regex_simple_with_return() {
    let result = parse_regex(" foobar = \"[a-zA-Z]\" \n        ");
    assert_eq!(
        result,
        Some(Regex::Simple { name: "foobar".to_string(), value: "[a-zA-Z]".to_string() })
    );
}

#[test]
fn can_parse_regex_simple_with_carriage_return() {
    let result = parse_regex(" foobar = \"[a-zA-Z]\" \n        ");
    assert_eq!(
        result,
        Some(Regex::Simple { name: "foobar".to_string(), value: "[a-zA-Z]".to_string() })
    );
}

#[test]
fn fails_regex_simple_missing_quote() {
    let result = parse_regex(r#" foobar = "[a-zA-Z] "#);
    assert_eq!(result, None);
}

#[test]
fn fails_regex_simple_space() {
    let result = parse_regex(r#" foobar = "[a-zA-Z] " "#);
    assert_eq!(result, None);
}

#[test]
fn can_parse_regex_complex() {
    let result = parse_regex(r#" foobar = "[a-zA-Z]" "(hello|world)" "#);
    assert_eq!(
        result,
        Some(Regex::Complex {
            name: "foobar".to_string(),
            positive: "[a-zA-Z]".to_string(),
            negative: "(hello|world)".to_string(),
        })
    );
}

#[test]
fn regex_can_parse_regex_complex() {
    let result = parse_regex(r#" foobar = "[a-zA-Z]" "(hello|world)" "#);
    assert_eq!(
        result,
        Some(Regex::Complex {
            name: "foobar".to_string(),
            positive: "[a-zA-Z]".to_string(),
            negative: "(hello|world)".to_string(),
        })
    );
}

#[test]
fn can_parse_regex_complex_with_return() {
    let result = parse_regex(" foobar = \"[a-zA-Z]\" \"(hello|world)\"\n        ");
    assert_eq!(
        result,
        Some(Regex::Complex {
            name: "foobar".to_string(),
            positive: "[a-zA-Z]".to_string(),
            negative: "(hello|world)".to_string(),
        })
    );
}

#[test]
fn fails_parse_regex_complex_missing_quote() {
    let result = parse_regex(r#" foobar = "[a-zA-Z]" "(hello|world) "#);
    assert_eq!(result, None);
}

#[test]
fn fails_parse_regex_complex_space() {
    let result = parse_regex(r#" foobar = "[a-zA-Z] " "(hello|world)" "#);
    assert_eq!(result, None);
}

#[test]
fn comment_payload_is_kept_verbatim() {
    // Comment payloads may hold any text, including characters beyond ASCII.
    let c = parse_comment("# h\u{e9}llo \u{2192} world");
    assert_eq!(c, Some(ParseResult::Comment(" h\u{e9}llo \u{2192} world".to_string())));
}

#[test]
fn identifiers_may_hold_dash_and_underscore() {
    let result = parse_node("my-node_1 = VAL-2 ");
    assert_eq!(
        result,
        Some(Node::new_pair("my-node_1".to_string(), "VAL-2".to_string(), None))
    );
    let edges = parse_edges("a_1 -> b-2");
    assert_eq!(
        edges,
        Some(vec![Edge::new("a_1".to_string(), "b-2".to_string())])
    );
}
