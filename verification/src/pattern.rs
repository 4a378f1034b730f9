//! The boundary to the outside pattern engine, and the anchored patterns
//! the loader stores.
//!
//! A pattern is compiled during the load, so that a bad pattern fails at
//! the line that defines it; what the tables and graph carry is the
//! anchored source string, which downstream tooling compiles again for
//! matching. The model of a compiled pattern is therefore the pair of
//! anchored source strings the engine accepted.

use crate::errors::{ErrorView, JSPTemplateError};
use vstd::prelude::*;

verus! {

/// Whether the pattern engine accepts a pattern string. Compilation is a
/// function of the pattern alone, so its success has a name; nothing more
/// is assumed about it.
pub uninterp spec fn regex_compile_ok(pattern: Seq<char>) -> bool;

/// Relies on `regex::Regex::new`: it returns `Ok` exactly when the pattern
/// is a regular expression the engine accepts (within its default size
/// limit), and its outcome depends on the pattern string alone.
#[verifier::external_body]
fn compile_check(pattern: &str) -> (r: bool)
    ensures
        r == regex_compile_ok(pattern@),
{
    regex::Regex::new(pattern).is_ok()
}

/// A pattern string wrapped in start and end anchors, so that a match must
/// cover the whole candidate string.
pub open spec fn spec_anchored(s: Seq<char>) -> Seq<char> {
    seq!['^'] + s + seq!['$']
}

/// Executable form of [`spec_anchored`].
pub fn anchor(pattern: &str) -> (r: String)
    ensures
        r@ == spec_anchored(pattern@),
{
    let mut s = String::from_str("^");
    s.append(pattern);
    s.append("$");
    proof {
        reveal_strlit("^");
        reveal_strlit("$");
        assert(s@ =~= spec_anchored(pattern@));
    }
    s
}

/// An anchored pattern the engine accepted: a positive source, or a
/// positive and negative pair. Acceptance of a candidate then requires the
/// positive to match and the negative not to.
#[derive(Debug, PartialEq, Eq, Clone)]
pub struct CompiledPattern {
    pub positive_src: String,
    pub negative_src: Option<String>,
}

/// The mathematical value of a [`CompiledPattern`]: its anchored source
/// strings.
pub struct PatternView {
    pub positive: Seq<char>,
    pub negative: Option<Seq<char>>,
}

impl View for CompiledPattern {
    type V = PatternView;

    open spec fn view(&self) -> PatternView {
        PatternView {
            positive: self.positive_src@,
            negative: match self.negative_src {
                Some(n) => Some(n@),
                None => None,
            },
        }
    }
}

impl CompiledPattern {
    /// Anchor each pattern and hand it to the engine. The first pattern the
    /// engine rejects aborts with a `RegexError` carrying the anchored
    /// pattern string.
    pub fn new(positive: &str, negative: Option<&str>) -> (r: Result<
        CompiledPattern,
        JSPTemplateError,
    >)
        ensures
            ({
                let pa = spec_anchored(positive@);
                match negative {
                    Some(n) => {
                        let na = spec_anchored(n@);
                        &&& (r is Ok <==> regex_compile_ok(pa) && regex_compile_ok(na))
                        &&& (r matches Ok(cp) ==> cp@ == (PatternView {
                            positive: pa,
                            negative: Some(na),
                        }))
                        &&& (!regex_compile_ok(pa) ==> (r matches Err(e) && e@
                            == ErrorView::RegexError(pa)))
                        &&& (regex_compile_ok(pa) && !regex_compile_ok(na) ==> (r matches Err(e)
                            && e@ == ErrorView::RegexError(na)))
                    },
                    None => {
                        &&& (r is Ok <==> regex_compile_ok(pa))
                        &&& (r matches Ok(cp) ==> cp@ == (PatternView {
                            positive: pa,
                            negative: None,
                        }))
                        &&& (!regex_compile_ok(pa) ==> (r matches Err(e) && e@
                            == ErrorView::RegexError(pa)))
                    },
                }
            }),
    {
        let pa = anchor(positive);
        if !compile_check(pa.as_str()) {
            return Err(JSPTemplateError::RegexError(pa));
        }
        match negative {
            Some(n) => {
                let na = anchor(n);
                if !compile_check(na.as_str()) {
                    return Err(JSPTemplateError::RegexError(na));
                }
                Ok(CompiledPattern { positive_src: pa, negative_src: Some(na) })
            },
            None => Ok(CompiledPattern { positive_src: pa, negative_src: None }),
        }
    }

    /// A copy with the same mathematical value.
    pub fn duplicate(&self) -> (r: CompiledPattern)
        ensures
            r@ == self@,
    {
        CompiledPattern {
            positive_src: self.positive_src.clone(),
            negative_src: match &self.negative_src {
                Some(s) => Some(s.clone()),
                None => None,
            },
        }
    }
}

} // verus!
