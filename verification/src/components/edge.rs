//! A directed edge between two named nodes, as one link of an edge chain
//! from the `[graph]` section.

use vstd::prelude::*;

verus! {

#[derive(Debug, PartialEq, Eq, Clone)]
pub struct Edge {
    pub from: String,
    pub to: String,
}

/// The mathematical value of an [`Edge`].
pub struct EdgeView {
    pub from: Seq<char>,
    pub to: Seq<char>,
}

impl View for Edge {
    type V = EdgeView;

    open spec fn view(&self) -> EdgeView {
        EdgeView { from: self.from@, to: self.to@ }
    }
}

impl Edge {
    pub fn new(from: String, to: String) -> (r: Edge)
        ensures
            r == (Edge { from, to }),
    {
        Edge { from, to }
    }
}

} // verus!
