//! Parser for a section header line: `[regex]`, `[nodes]`, `[graph]`, with
//! whitespace permitted around the brackets and the name.

use crate::helpers::{
    scan_ident, scan_ident_from, skip_multispace, skip_multispace_from, skip_spaces,
    skip_spaces_from, str_eq,
};
use vstd::prelude::*;

verus! {

/// The kind of a section header. An identifier that names no known section
/// is kept as `Unknown`; the state machine turns it into an error.
#[derive(Debug, PartialEq, Eq)]
pub enum Header {
    Regex,
    Nodes,
    Graph,
    Unknown(String),
}

/// The mathematical value of a [`Header`].
pub enum HeaderView {
    Regex,
    Nodes,
    Graph,
    Unknown(Seq<char>),
}

impl View for Header {
    type V = HeaderView;

    open spec fn view(&self) -> HeaderView {
        match self {
            Header::Regex => HeaderView::Regex,
            Header::Nodes => HeaderView::Nodes,
            Header::Graph => HeaderView::Graph,
            Header::Unknown(name) => HeaderView::Unknown(name@),
        }
    }
}

/// The identifier between the brackets of a header line, when the whole line
/// is a well-formed header; `None` otherwise.
pub open spec fn spec_header_name(s: Seq<char>) -> Option<Seq<char>> {
    let i0 = skip_spaces_from(s, 0);
    if i0 < s.len() && s[i0] == '[' {
        let i1 = skip_spaces_from(s, i0 + 1);
        let j = scan_ident_from(s, i1);
        if j > i1 {
            let i2 = skip_spaces_from(s, j);
            if i2 < s.len() && s[i2] == ']' {
                if skip_multispace_from(s, i2 + 1) == s.len() {
                    Some(s.subrange(i1, j))
                } else {
                    None
                }
            } else {
                None
            }
        } else {
            None
        }
    } else {
        None
    }
}

/// How a header identifier maps to a section kind: `regex`/`regexp`,
/// `nodes`/`node` and `graph` are known; everything else is `Unknown`.
pub open spec fn spec_header_kind(name: Seq<char>) -> HeaderView {
    if name == "regex"@ || name == "regexp"@ {
        HeaderView::Regex
    } else if name == "nodes"@ || name == "node"@ {
        HeaderView::Nodes
    } else if name == "graph"@ {
        HeaderView::Graph
    } else {
        HeaderView::Unknown(name)
    }
}

/// What a header line parses to, if anything.
pub open spec fn spec_parse_header(s: Seq<char>) -> Option<HeaderView> {
    match spec_header_name(s) {
        Some(name) => Some(spec_header_kind(name)),
        None => None,
    }
}

/// Parse one full line as a section header.
pub fn parse_section_header(input: &str) -> (r: Option<Header>)
    ensures
        r is Some <==> spec_parse_header(input@) is Some,
        r matches Some(h) ==> spec_parse_header(input@) == Some(h@),
{
    let len = input.unicode_len();
    let i0 = skip_spaces(input, 0);
    if i0 < len && input.get_char(i0) == '[' {
        let i1 = skip_spaces(input, i0 + 1);
        let j = scan_ident(input, i1);
        if j > i1 {
            let i2 = skip_spaces(input, j);
            if i2 < len && input.get_char(i2) == ']' {
                let i3 = skip_multispace(input, i2 + 1);
                if i3 == len {
                    let name = input.substring_char(i1, j);
                    let h = if str_eq(name, "regex") || str_eq(name, "regexp") {
                        Header::Regex
                    } else if str_eq(name, "nodes") || str_eq(name, "node") {
                        Header::Nodes
                    } else if str_eq(name, "graph") {
                        Header::Graph
                    } else {
                        Header::Unknown(name.to_owned())
                    };
                    return Some(h);
                }
            }
        }
    }
    None
}

} // verus!
