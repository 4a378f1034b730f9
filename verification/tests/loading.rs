//! Tests for the state machine and the loader: whole-file scenarios, the
//! section ordering rules, symbol resolution, and every error variant.

use jsptemplate::graph::{EntryType, NodeType};
use jsptemplate::pattern::CompiledPattern;
use jsptemplate::{
    JSPTemplateError, JSPTemplateLineError, Loader, Metadata, Node, State, StateMachine,
};

fn lines(v: &[&str]) -> Vec<String> {
    v.iter().map(|s| s.to_string()).collect()
}

#[test]
fn loader_new_has_root() {
    let loader = Loader::new();
    assert_eq!(loader.graph.node_count(), 1);
    assert_eq!(loader.graph.edge_count(), 0);
    assert_eq!(loader.keymap.get("root"), Some(&0));
    assert_eq!(loader.graph.get_node(0).entry_type, EntryType::Root);
    assert_eq!(loader.state, State::Start);
}

#[test]
fn scenario_pattern_node_selfloop() {
    let input = lines(&["[regex]", "num = \"[0-9]+\"", "[nodes]", "shot = $num", "[graph]",
        "shot -> shot"]);
    let mut loader = Loader::new();
    let r = loader.load(&input);
    assert!(r.is_ok());
    assert_eq!(loader.state, State::Done);
    // One node beyond the implicit root, carrying the compiled pattern.
    assert_eq!(loader.graph.node_count(), 2);
    // The looked-up table entry is stored as it stands, under the pattern's
    // own name.
    assert_eq!(
        loader.graph.get_node(1).node_type,
        NodeType::RegexNode {
            name: "num".to_string(),
            pattern: CompiledPattern {
                positive_src: "^[0-9]+$".to_string(),
                negative_src: None,
            },
        }
    );
    assert_eq!(loader.keymap.get("shot"), Some(&1));
    // One self-loop edge.
    assert_eq!(loader.graph.edge_count(), 1);
    assert_eq!(loader.graph.get_edge(0), (1, 1));
}

#[test]
fn scenario_missing_regex_header() {
    let input = lines(&["[nodes]"]);
    let mut loader = Loader::new();
    let r = loader.load(&input);
    assert_eq!(
        r,
        Err(JSPTemplateLineError::ErrorAtLine(
            1,
            "[nodes]".to_string(),
            State::Start,
            JSPTemplateError::InvalidStateTransition(State::Start, State::NodeParsing),
        ))
    );
    assert_eq!(loader.state, State::Error);
}

#[test]
fn scenario_undefined_node_in_edge() {
    let input = lines(&["[regex]", "[nodes]", "a", "b", "[graph]", "a -> c"]);
    let mut loader = Loader::new();
    let r = loader.load(&input);
    assert_eq!(
        r,
        Err(JSPTemplateLineError::ErrorAtLine(
            6,
            "a -> c".to_string(),
            State::EdgeParsing,
            JSPTemplateError::KeyMapLookupError("c".to_string()),
        ))
    );
    assert_eq!(loader.state, State::Error);
}

#[test]
fn scenario_grammar_error_line_one() {
    let input = lines(&["foo = \"unterminated"]);
    let mut loader = Loader::new();
    let r = loader.load(&input);
    assert_eq!(
        r,
        Err(JSPTemplateLineError::ErrorAtLine(
            1,
            "foo = \"unterminated".to_string(),
            State::Start,
            JSPTemplateError::ParsingError,
        ))
    );
}

#[test]
fn scenario_empty_input() {
    let input: Vec<String> = Vec::new();
    let mut loader = Loader::new();
    let r = loader.load(&input);
    assert!(r.is_ok());
    // No transition occurred, so no `Done` was reached.
    assert_eq!(loader.state, State::Start);
    assert_eq!(loader.graph.node_count(), 1);
}

#[test]
fn pattern_redefinition_last_write_wins() {
    let input = lines(&["[regex]", "num = \"[0-9]+\"", "num = \"[a-z]+\"", "[nodes]",
        "shot = $num", "[graph]", "root -> shot"]);
    let mut loader = Loader::new();
    let r = loader.load(&input);
    assert!(r.is_ok());
    assert_eq!(
        loader.graph.get_node(1).node_type,
        NodeType::RegexNode {
            name: "num".to_string(),
            pattern: CompiledPattern {
                positive_src: "^[a-z]+$".to_string(),
                negative_src: None,
            },
        }
    );
}

#[test]
fn node_redefinition_last_write_wins() {
    let input = lines(&["[regex]", "[nodes]", "a", "a = B", "[graph]", "root -> a"]);
    let mut loader = Loader::new();
    let r = loader.load(&input);
    assert!(r.is_ok());
    // Both nodes were added; the name maps to the one defined last.
    assert_eq!(loader.graph.node_count(), 3);
    assert_eq!(loader.keymap.get("a"), Some(&2));
    assert_eq!(loader.graph.get_node(2).node_type, NodeType::Simple("B".to_string()));
    assert_eq!(loader.graph.get_edge(0), (0, 2));
}

#[test]
fn undefined_pattern_reference_fails() {
    let input = lines(&["[regex]", "[nodes]", "shot = $num"]);
    let mut loader = Loader::new();
    let r = loader.load(&input);
    assert_eq!(
        r,
        Err(JSPTemplateLineError::ErrorAtLine(
            3,
            "shot = $num".to_string(),
            State::NodeParsing,
            JSPTemplateError::RegexMapLookupError("num".to_string()),
        ))
    );
}

#[test]
fn invalid_pattern_fails_with_regex_error() {
    let input = lines(&["[regex]", "bad = \"(\""]);
    let mut loader = Loader::new();
    let r = loader.load(&input);
    assert_eq!(
        r,
        Err(JSPTemplateLineError::ErrorAtLine(
            2,
            "bad = \"(\"".to_string(),
            State::RegexParsing,
            JSPTemplateError::RegexError("^($".to_string()),
        ))
    );
}

#[test]
fn header_in_edge_section_fails() {
    let input = lines(&["[regex]", "[nodes]", "a", "[graph]", "[graph]"]);
    let mut loader = Loader::new();
    let r = loader.load(&input);
    assert_eq!(
        r,
        Err(JSPTemplateLineError::ErrorAtLine(
            5,
            "[graph]".to_string(),
            State::EdgeParsing,
            JSPTemplateError::InvalidStateTransition(State::EdgeParsing, State::EdgeParsing),
        ))
    );
}

#[test]
fn unknown_header_fails() {
    let input = lines(&["[bogus]"]);
    let mut loader = Loader::new();
    let r = loader.load(&input);
    assert_eq!(
        r,
        Err(JSPTemplateLineError::ErrorAtLine(
            1,
            "[bogus]".to_string(),
            State::Start,
            JSPTemplateError::InvalidStateTransition(State::Start, State::Error),
        ))
    );
}

#[test]
fn comments_and_blanks_are_permitted_anywhere() {
    let input = lines(&["# header comes next", "", "[regex]", "  # a pattern", "n = \"[0-9]\"",
        "[nodes]", "", "a = $n", "[graph]", "# wire it up", "root -> a", ""]);
    let mut loader = Loader::new();
    let r = loader.load(&input);
    assert!(r.is_ok());
    assert_eq!(loader.state, State::Done);
}

#[test]
fn edge_chain_order_is_preserved() {
    let input = lines(&["[regex]", "[nodes]", "a", "b", "c", "[graph]", "a -> b -> c",
        "root -> a"]);
    let mut loader = Loader::new();
    let r = loader.load(&input);
    assert!(r.is_ok());
    assert_eq!(loader.graph.edge_count(), 3);
    assert_eq!(loader.graph.get_edge(0), (1, 2));
    assert_eq!(loader.graph.get_edge(1), (2, 3));
    assert_eq!(loader.graph.get_edge(2), (0, 1));
}

#[test]
fn process_node_threads_metadata() {
    let mut loader = Loader::new();
    let md = Metadata::new().set_volume(true).set_owner(Some("fred".to_string()));
    let r = loader.process_node(Node::new_simple("vol".to_string(), Some(md.clone())));
    assert!(r.is_ok());
    assert_eq!(loader.graph.get_node(1).entry_type, EntryType::Volume);
    assert_eq!(loader.graph.get_node(1).metadata, md);
    // Absent metadata means all defaults.
    let r2 = loader.process_node(Node::new_simple("plain".to_string(), None));
    assert!(r2.is_ok());
    assert_eq!(loader.graph.get_node(2).entry_type, EntryType::Directory);
    assert_eq!(loader.graph.get_node(2).metadata, Metadata::new());
}

#[test]
fn compiled_pattern_anchors_sources() {
    let cp = CompiledPattern::new("abc", Some("d")).unwrap();
    assert_eq!(cp.positive_src, "^abc$".to_string());
    assert_eq!(cp.negative_src, Some("^d$".to_string()));
}

#[test]
fn compiled_pattern_rejects_bad_pattern() {
    assert!(CompiledPattern::new("(", None).is_err());
    assert!(CompiledPattern::new("[0-9]+", None).is_ok());
    assert!(CompiledPattern::new("[0-9]+", Some("(")).is_err());
}

#[test]
fn statemachine_walks_the_sections() {
    let mut machine = StateMachine::new();
    assert_eq!(machine.state, State::Start);
    assert!(machine.parse("[regex]").is_ok());
    assert_eq!(machine.state, State::RegexParsing);
    assert!(machine.parse("n = \"[0-9]\"").is_ok());
    assert_eq!(machine.state, State::RegexParsing);
    assert!(machine.parse("[nodes]").is_ok());
    assert_eq!(machine.state, State::NodeParsing);
    assert!(machine.parse("[graph]").is_ok());
    assert_eq!(machine.state, State::EdgeParsing);
    assert_eq!(machine.line(), 4);
}

#[test]
fn statemachine_done_state_rejects_input() {
    let mut machine = StateMachine { state: State::Done, line: 0 };
    let r = machine.parse("anything");
    assert_eq!(
        r,
        Err(JSPTemplateLineError::ErrorAtLine(
            1,
            "anything".to_string(),
            State::Done,
            JSPTemplateError::DoneState,
        ))
    );
}

#[test]
fn statemachine_error_state_rejects_input() {
    let mut machine = StateMachine { state: State::Error, line: 7 };
    let r = machine.parse("anything");
    assert_eq!(
        r,
        Err(JSPTemplateLineError::ErrorAtLine(
            8,
            "anything".to_string(),
            State::Error,
            JSPTemplateError::ErrorState,
        ))
    );
}

#[test]
fn statemachine_invalid_header_forces_error_state() {
    let mut machine = StateMachine::new();
    let r = machine.parse("[graph]");
    assert!(r.is_err());
    assert_eq!(machine.state, State::Error);
    // Terminal: every later line fails too.
    assert!(machine.parse("[regex]").is_err());
}

#[test]
fn load_failure_keeps_graph_mutated_so_far() {
    let input = lines(&["[regex]", "[nodes]", "a", "b", "[graph]", "a -> b -> missing"]);
    let mut loader = Loader::new();
    assert!(loader.load(&input).is_err());
    // The edge resolved before the failure stays; the caller discards the graph.
    assert_eq!(loader.graph.node_count(), 3);
    assert_eq!(loader.graph.edge_count(), 1);
    assert_eq!(loader.graph.get_edge(0), (1, 2));
}
