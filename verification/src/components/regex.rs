//! A named pattern definition from the `[regex]` section: either a single
//! pattern, or a positive pattern paired with a negative one.

use vstd::prelude::*;

verus! {

#[derive(Debug, PartialEq, Eq)]
pub enum Regex {
    Simple { name: String, value: String },
    Complex { name: String, positive: String, negative: String },
}

/// The mathematical value of a [`Regex`].
pub enum RegexView {
    Simple { name: Seq<char>, value: Seq<char> },
    Complex { name: Seq<char>, positive: Seq<char>, negative: Seq<char> },
}

impl View for Regex {
    type V = RegexView;

    open spec fn view(&self) -> RegexView {
        match self {
            Regex::Simple { name, value } => RegexView::Simple { name: name@, value: value@ },
            Regex::Complex { name, positive, negative } => RegexView::Complex {
                name: name@,
                positive: positive@,
                negative: negative@,
            },
        }
    }
}

} // verus!
