//! Parser for a blank line: nothing but whitespace.

use crate::components::{ParseResult, ParseResultView};
use crate::helpers::{skip_multispace, skip_multispace_from};
use vstd::prelude::*;

verus! {

/// Whether the line holds only whitespace.
pub open spec fn spec_parse_empty(s: Seq<char>) -> bool {
    skip_multispace_from(s, 0) == s.len()
}

/// Parse one full line as a blank line.
pub fn parse_empty(input: &str) -> (r: Option<ParseResult>)
    ensures
        r is Some <==> spec_parse_empty(input@),
        r matches Some(pr) ==> pr@ == ParseResultView::Empty,
{
    let len = input.unicode_len();
    let i = skip_multispace(input, 0);
    if i == len {
        Some(ParseResult::Empty)
    } else {
        None
    }
}

} // verus!
