//! The structured records that one parsed line of a template file produces,
//! and the data attached to them.

pub mod edge;
pub mod metadata;
pub mod node;
pub mod regex;

use crate::components::edge::{Edge, EdgeView};
use crate::components::node::{Node, NodeView};
use crate::components::regex::{Regex, RegexView};
use crate::parser::header::{Header, HeaderView};
use vstd::prelude::*;

verus! {

/// The record produced by one non-failing parse of one input line. Exactly
/// one such record is produced per line.
#[derive(Debug, PartialEq, Eq)]
pub enum ParseResult {
    Header(Header),
    Regex(Regex),
    Node(Node),
    Edges(Vec<Edge>),
    Comment(String),
    Empty,
}

/// The mathematical value of a [`ParseResult`].
pub enum ParseResultView {
    Header(HeaderView),
    Regex(RegexView),
    Node(NodeView),
    Edges(Seq<EdgeView>),
    Comment(Seq<char>),
    Empty,
}

/// View of a sequence of edges.
pub open spec fn edges_view(s: Seq<Edge>) -> Seq<EdgeView> {
    s.map_values(|e: Edge| e@)
}

impl View for ParseResult {
    type V = ParseResultView;

    open spec fn view(&self) -> ParseResultView {
        match self {
            ParseResult::Header(h) => ParseResultView::Header(h@),
            ParseResult::Regex(r) => ParseResultView::Regex(r@),
            ParseResult::Node(n) => ParseResultView::Node(n@),
            ParseResult::Edges(e) => ParseResultView::Edges(edges_view(e@)),
            ParseResult::Comment(c) => ParseResultView::Comment(c@),
            ParseResult::Empty => ParseResultView::Empty,
        }
    }
}

} // verus!
