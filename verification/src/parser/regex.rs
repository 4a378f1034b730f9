//! Parser for a pattern definition line from the `[regex]` section: either
//! `name = "pattern"`, or `name = "positive" "negative"`.

pub use crate::components::regex::Regex;

use crate::components::regex::RegexView;
use crate::helpers::{
    quoted_at, scan_ident, scan_ident_from, skip_multispace, skip_multispace_from, skip_spaces,
    skip_spaces_from, spec_quoted_at,
};
use vstd::prelude::*;

verus! {

/// What a pattern definition line parses to, if anything. A second quoted
/// string turns the definition into a complex one: the first pattern must
/// match and the second must not.
pub open spec fn spec_parse_regex(s: Seq<char>) -> Option<RegexView> {
    let i0 = skip_spaces_from(s, 0);
    let j = scan_ident_from(s, i0);
    if j > i0 {
        let name = s.subrange(i0, j);
        let i1 = skip_spaces_from(s, j);
        if i1 < s.len() && s[i1] == '=' {
            let i2 = skip_spaces_from(s, i1 + 1);
            match spec_quoted_at(s, i2) {
                Some((value, e)) => {
                    let i3 = skip_spaces_from(s, e);
                    if i3 < s.len() && s[i3] == '"' {
                        match spec_quoted_at(s, i3) {
                            Some((neg, e2)) => if skip_multispace_from(s, e2) == s.len() {
                                Some(
                                    RegexView::Complex {
                                        name,
                                        positive: value,
                                        negative: neg,
                                    },
                                )
                            } else {
                                None
                            },
                            None => None,
                        }
                    } else if skip_multispace_from(s, e) == s.len() {
                        Some(RegexView::Simple { name, value })
                    } else {
                        None
                    }
                },
                None => None,
            }
        } else {
            None
        }
    } else {
        None
    }
}

/// Parse one full line as a pattern definition.
pub fn parse_regex(input: &str) -> (r: Option<Regex>)
    ensures
        r is Some <==> spec_parse_regex(input@) is Some,
        r matches Some(rx) ==> spec_parse_regex(input@) == Some(rx@),
{
    let len = input.unicode_len();
    let i0 = skip_spaces(input, 0);
    let j = scan_ident(input, i0);
    if j == i0 {
        return None;
    }
    let i1 = skip_spaces(input, j);
    if !(i1 < len && input.get_char(i1) == '=') {
        return None;
    }
    let i2 = skip_spaces(input, i1 + 1);
    match quoted_at(input, i2) {
        Some((value, e)) => {
            let i3 = skip_spaces(input, e);
            if i3 < len && input.get_char(i3) == '"' {
                match quoted_at(input, i3) {
                    Some((neg, e2)) => {
                        let i4 = skip_multispace(input, e2);
                        if i4 == len {
                            let name = input.substring_char(i0, j).to_owned();
                            Some(Regex::Complex { name, positive: value, negative: neg })
                        } else {
                            None
                        }
                    },
                    None => None,
                }
            } else {
                let i4 = skip_multispace(input, e);
                if i4 == len {
                    let name = input.substring_char(i0, j).to_owned();
                    Some(Regex::Simple { name, value })
                } else {
                    None
                }
            }
        },
        None => None,
    }
}

} // verus!
