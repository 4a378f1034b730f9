//! Parser for a comment line: optional leading whitespace, `#`, then the
//! rest of the line verbatim as the payload.

use crate::components::{ParseResult, ParseResultView};
use crate::helpers::{skip_spaces, skip_spaces_from};
use vstd::prelude::*;

verus! {

/// The payload of a comment line, when the line is one: everything after the
/// first `#`, kept verbatim.
pub open spec fn spec_parse_comment(s: Seq<char>) -> Option<Seq<char>> {
    let i = skip_spaces_from(s, 0);
    if i < s.len() && s[i] == '#' {
        Some(s.subrange(i + 1, s.len() as int))
    } else {
        None
    }
}

/// Parse one full line as a comment.
pub fn parse_comment(input: &str) -> (r: Option<ParseResult>)
    ensures
        r is Some <==> spec_parse_comment(input@) is Some,
        r matches Some(pr) ==> pr@ == ParseResultView::Comment(spec_parse_comment(input@)->0),
{
    let len = input.unicode_len();
    let i = skip_spaces(input, 0);
    if i < len && input.get_char(i) == '#' {
        let payload = input.substring_char(i + 1, len);
        Some(ParseResult::Comment(payload.to_owned()))
    } else {
        None
    }
}

} // verus!
