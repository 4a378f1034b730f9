//! Parser for a node definition line from the `[nodes]` section. Five
//! shapes overlap, so the first character after the `=` decides: a bare
//! identifier alone is a simple node, `name = value` a pair, `name = $ref` a
//! pattern reference, and one or two quoted strings an inline pattern.

use crate::components::node::{Node, NodeView};
use crate::helpers::{
    quoted_at, scan_ident, scan_ident_from, skip_multispace, skip_multispace_from, skip_spaces,
    skip_spaces_from, spec_quoted_at,
};
use vstd::prelude::*;

verus! {

/// What a node definition line parses to, if anything. The grammar itself
/// carries no metadata annotation, so the metadata of a parsed node is
/// always absent.
pub open spec fn spec_parse_node(s: Seq<char>) -> Option<NodeView> {
    let i0 = skip_spaces_from(s, 0);
    let j = scan_ident_from(s, i0);
    if j > i0 {
        let name = s.subrange(i0, j);
        if skip_multispace_from(s, j) == s.len() {
            Some(NodeView::Simple(name, None))
        } else {
            let i1 = skip_spaces_from(s, j);
            if i1 < s.len() && s[i1] == '=' {
                let i2 = skip_spaces_from(s, i1 + 1);
                if i2 < s.len() && s[i2] == '$' {
                    let k = scan_ident_from(s, i2 + 1);
                    if k > i2 + 1 && skip_multispace_from(s, k) == s.len() {
                        Some(
                            NodeView::ReVar {
                                name,
                                variable: s.subrange(i2 + 1, k),
                                metadata: None,
                            },
                        )
                    } else {
                        None
                    }
                } else if i2 < s.len() && s[i2] == '"' {
                    match spec_quoted_at(s, i2) {
                        Some((pos, e)) => {
                            let i3 = skip_spaces_from(s, e);
                            if i3 < s.len() && s[i3] == '"' {
                                match spec_quoted_at(s, i3) {
                                    Some((neg, e2)) => if skip_multispace_from(s, e2)
                                        == s.len() {
                                        Some(
                                            NodeView::RegexComplex {
                                                name,
                                                pos,
                                                neg,
                                                metadata: None,
                                            },
                                        )
                                    } else {
                                        None
                                    },
                                    None => None,
                                }
                            } else if skip_multispace_from(s, e) == s.len() {
                                Some(NodeView::RegexSimple { name, re: pos, metadata: None })
                            } else {
                                None
                            }
                        },
                        None => None,
                    }
                } else {
                    let k = scan_ident_from(s, i2);
                    if k > i2 && skip_multispace_from(s, k) == s.len() {
                        Some(
                            NodeView::Pair {
                                name,
                                value: s.subrange(i2, k),
                                metadata: None,
                            },
                        )
                    } else {
                        None
                    }
                }
            } else {
                None
            }
        }
    } else {
        None
    }
}

/// Parse one full line as a node definition.
pub fn parse_node(input: &str) -> (r: Option<Node>)
    ensures
        r is Some <==> spec_parse_node(input@) is Some,
        r matches Some(n) ==> spec_parse_node(input@) == Some(n@),
{
    let len = input.unicode_len();
    let i0 = skip_spaces(input, 0);
    let j = scan_ident(input, i0);
    if j == i0 {
        return None;
    }
    let e0 = skip_multispace(input, j);
    if e0 == len {
        let name = input.substring_char(i0, j).to_owned();
        return Some(Node::Simple(name, None));
    }
    let i1 = skip_spaces(input, j);
    if !(i1 < len && input.get_char(i1) == '=') {
        return None;
    }
    let i2 = skip_spaces(input, i1 + 1);
    if i2 < len && input.get_char(i2) == '$' {
        let k = scan_ident(input, i2 + 1);
        if k > i2 + 1 {
            let e = skip_multispace(input, k);
            if e == len {
                let name = input.substring_char(i0, j).to_owned();
                let variable = input.substring_char(i2 + 1, k).to_owned();
                return Some(Node::ReVar { name, variable, metadata: None });
            }
        }
        None
    } else if i2 < len && input.get_char(i2) == '"' {
        match quoted_at(input, i2) {
            Some((pos, e)) => {
                let i3 = skip_spaces(input, e);
                if i3 < len && input.get_char(i3) == '"' {
                    match quoted_at(input, i3) {
                        Some((neg, e2)) => {
                            let e3 = skip_multispace(input, e2);
                            if e3 == len {
                                let name = input.substring_char(i0, j).to_owned();
                                Some(Node::RegexComplex { name, pos, neg, metadata: None })
                            } else {
                                None
                            }
                        },
                        None => None,
                    }
                } else {
                    let e3 = skip_multispace(input, e);
                    if e3 == len {
                        let name = input.substring_char(i0, j).to_owned();
                        Some(Node::RegexSimple { name, re: pos, metadata: None })
                    } else {
                        None
                    }
                }
            },
            None => None,
        }
    } else {
        let k = scan_ident(input, i2);
        if k > i2 {
            let e = skip_multispace(input, k);
            if e == len {
                let name = input.substring_char(i0, j).to_owned();
                let value = input.substring_char(i2, k).to_owned();
                return Some(Node::Pair { name, value, metadata: None });
            }
        }
        None
    }
}

} // verus!
