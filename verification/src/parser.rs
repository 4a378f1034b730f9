//! The per-section line grammars. Each section of a template file accepts
//! its own constructs plus comments, headers and blank lines; a parse is
//! all-or-nothing per line, and the full line must be consumed.

pub mod comment;
pub mod edge;
pub mod empty;
pub mod header;
pub mod metadata;
pub mod node;
pub mod regex;

use crate::components::{ParseResult, ParseResultView};
use crate::parser::comment::{parse_comment, spec_parse_comment};
use crate::parser::edge::{parse_edges, spec_parse_edges};
use crate::parser::empty::{parse_empty, spec_parse_empty};
use crate::parser::header::{parse_section_header, spec_parse_header};
use crate::parser::node::{parse_node, spec_parse_node};
use crate::parser::regex::{parse_regex, spec_parse_regex};
use vstd::prelude::*;

verus! {

/// What a line parses to before any section header has been seen: only
/// comments, headers and blank lines are permitted.
pub open spec fn spec_start_line(s: Seq<char>) -> Option<ParseResultView> {
    if spec_parse_comment(s) is Some {
        Some(ParseResultView::Comment(spec_parse_comment(s)->0))
    } else if spec_parse_header(s) is Some {
        Some(ParseResultView::Header(spec_parse_header(s)->0))
    } else if spec_parse_empty(s) {
        Some(ParseResultView::Empty)
    } else {
        None
    }
}

/// What a line parses to inside the `[regex]` section.
pub open spec fn spec_regex_line(s: Seq<char>) -> Option<ParseResultView> {
    if spec_parse_regex(s) is Some {
        Some(ParseResultView::Regex(spec_parse_regex(s)->0))
    } else if spec_parse_comment(s) is Some {
        Some(ParseResultView::Comment(spec_parse_comment(s)->0))
    } else if spec_parse_header(s) is Some {
        Some(ParseResultView::Header(spec_parse_header(s)->0))
    } else if spec_parse_empty(s) {
        Some(ParseResultView::Empty)
    } else {
        None
    }
}

/// What a line parses to inside the `[nodes]` section.
pub open spec fn spec_node_line(s: Seq<char>) -> Option<ParseResultView> {
    if spec_parse_node(s) is Some {
        Some(ParseResultView::Node(spec_parse_node(s)->0))
    } else if spec_parse_comment(s) is Some {
        Some(ParseResultView::Comment(spec_parse_comment(s)->0))
    } else if spec_parse_header(s) is Some {
        Some(ParseResultView::Header(spec_parse_header(s)->0))
    } else if spec_parse_empty(s) {
        Some(ParseResultView::Empty)
    } else {
        None
    }
}

/// What a line parses to inside the `[graph]` section: edge chains,
/// comments, headers (which the state machine then rejects) and blank lines,
/// but no pattern or node constructs.
pub open spec fn spec_edge_line(s: Seq<char>) -> Option<ParseResultView> {
    if spec_parse_edges(s) is Some {
        Some(ParseResultView::Edges(spec_parse_edges(s)->0))
    } else if spec_parse_comment(s) is Some {
        Some(ParseResultView::Comment(spec_parse_comment(s)->0))
    } else if spec_parse_header(s) is Some {
        Some(ParseResultView::Header(spec_parse_header(s)->0))
    } else if spec_parse_empty(s) {
        Some(ParseResultView::Empty)
    } else {
        None
    }
}

/// Parse one line of the leading section, before any header.
pub fn start_parser(input: &str) -> (r: Option<ParseResult>)
    ensures
        r is Some <==> spec_start_line(input@) is Some,
        r matches Some(pr) ==> spec_start_line(input@) == Some(pr@),
{
    match parse_comment(input) {
        Some(pr) => Some(pr),
        None => match parse_section_header(input) {
            Some(h) => Some(ParseResult::Header(h)),
            None => parse_empty(input),
        },
    }
}

/// Parse one line of the `[regex]` section.
pub fn regex_parser(input: &str) -> (r: Option<ParseResult>)
    ensures
        r is Some <==> spec_regex_line(input@) is Some,
        r matches Some(pr) ==> spec_regex_line(input@) == Some(pr@),
{
    match parse_regex(input) {
        Some(rx) => Some(ParseResult::Regex(rx)),
        None => match parse_comment(input) {
            Some(pr) => Some(pr),
            None => match parse_section_header(input) {
                Some(h) => Some(ParseResult::Header(h)),
                None => parse_empty(input),
            },
        },
    }
}

/// Parse one line of the `[nodes]` section.
pub fn node_parser(input: &str) -> (r: Option<ParseResult>)
    ensures
        r is Some <==> spec_node_line(input@) is Some,
        r matches Some(pr) ==> spec_node_line(input@) == Some(pr@),
{
    match parse_node(input) {
        Some(n) => Some(ParseResult::Node(n)),
        None => match parse_comment(input) {
            Some(pr) => Some(pr),
            None => match parse_section_header(input) {
                Some(h) => Some(ParseResult::Header(h)),
                None => parse_empty(input),
            },
        },
    }
}

/// Parse one line of the `[graph]` section.
pub fn edge_parser(input: &str) -> (r: Option<ParseResult>)
    ensures
        r is Some <==> spec_edge_line(input@) is Some,
        r matches Some(pr) ==> spec_edge_line(input@) == Some(pr@),
{
    match parse_edges(input) {
        Some(es) => Some(ParseResult::Edges(es)),
        None => match parse_comment(input) {
            Some(pr) => Some(pr),
            None => match parse_section_header(input) {
                Some(h) => Some(ParseResult::Header(h)),
                None => parse_empty(input),
            },
        },
    }
}

} // verus!
