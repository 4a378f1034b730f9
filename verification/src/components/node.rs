//! The five shapes of a node definition line, each carrying the name under
//! which the node is registered and its optional metadata.

use crate::components::metadata::{Metadata, MetadataView};
use vstd::prelude::*;

verus! {

#[derive(Debug, PartialEq, Eq)]
pub enum Node {
    /// `rd`
    Simple(String, Option<Metadata>),
    /// `rd = RD`
    Pair { name: String, value: String, metadata: Option<Metadata> },
    /// `rd = $rd_re`
    ReVar { name: String, variable: String, metadata: Option<Metadata> },
    /// `rd = "[a-z]+"`
    RegexSimple { name: String, re: String, metadata: Option<Metadata> },
    /// `rd = "[a-z]+" "(foo|bar)"`
    RegexComplex { name: String, pos: String, neg: String, metadata: Option<Metadata> },
}

/// The mathematical value of a [`Node`].
pub enum NodeView {
    Simple(Seq<char>, Option<MetadataView>),
    Pair { name: Seq<char>, value: Seq<char>, metadata: Option<MetadataView> },
    ReVar { name: Seq<char>, variable: Seq<char>, metadata: Option<MetadataView> },
    RegexSimple { name: Seq<char>, re: Seq<char>, metadata: Option<MetadataView> },
    RegexComplex {
        name: Seq<char>,
        pos: Seq<char>,
        neg: Seq<char>,
        metadata: Option<MetadataView>,
    },
}

/// View of an optional metadata annotation.
pub open spec fn opt_metadata_view(m: Option<Metadata>) -> Option<MetadataView> {
    match m {
        Some(x) => Some(x@),
        None => None,
    }
}

impl View for Node {
    type V = NodeView;

    open spec fn view(&self) -> NodeView {
        match self {
            Node::Simple(name, metadata) => NodeView::Simple(name@, opt_metadata_view(*metadata)),
            Node::Pair { name, value, metadata } => NodeView::Pair {
                name: name@,
                value: value@,
                metadata: opt_metadata_view(*metadata),
            },
            Node::ReVar { name, variable, metadata } => NodeView::ReVar {
                name: name@,
                variable: variable@,
                metadata: opt_metadata_view(*metadata),
            },
            Node::RegexSimple { name, re, metadata } => NodeView::RegexSimple {
                name: name@,
                re: re@,
                metadata: opt_metadata_view(*metadata),
            },
            Node::RegexComplex { name, pos, neg, metadata } => NodeView::RegexComplex {
                name: name@,
                pos: pos@,
                neg: neg@,
                metadata: opt_metadata_view(*metadata),
            },
        }
    }
}

impl Node {
    pub fn new_simple(name: String, metadata: Option<Metadata>) -> (r: Node)
        ensures
            r == Node::Simple(name, metadata),
    {
        Node::Simple(name, metadata)
    }

    pub fn new_pair(name: String, value: String, metadata: Option<Metadata>) -> (r: Node)
        ensures
            r == (Node::Pair { name, value, metadata }),
    {
        Node::Pair { name, value, metadata }
    }

    pub fn new_revar(name: String, variable: String, metadata: Option<Metadata>) -> (r: Node)
        ensures
            r == (Node::ReVar { name, variable, metadata }),
    {
        Node::ReVar { name, variable, metadata }
    }

    pub fn new_regexsimple(name: String, re: String, metadata: Option<Metadata>) -> (r: Node)
        ensures
            r == (Node::RegexSimple { name, re, metadata }),
    {
        Node::RegexSimple { name, re, metadata }
    }

    pub fn new_regexcomplex(
        name: String,
        pos: String,
        neg: String,
        metadata: Option<Metadata>,
    ) -> (r: Node)
        ensures
            r == (Node::RegexComplex { name, pos, neg, metadata }),
    {
        Node::RegexComplex { name, pos, neg, metadata }
    }
}

} // verus!
