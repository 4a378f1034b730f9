//! The directed graph that a load builds: nodes carrying a label or a
//! compiled matcher plus entry kind and metadata, and directed edges between
//! node handles. A handle is the index the node was added at, and handles
//! are stable because nodes are never removed.

use crate::components::metadata::{Metadata, MetadataView};
use crate::pattern::{CompiledPattern, PatternView};
use vstd::prelude::*;

verus! {

/// A stable handle to a node of a [`JGraph`].
pub type NIndex = usize;

/// What a node stands for on disk: the root of the tree, a plain directory,
/// or a volume.
#[derive(Debug, PartialEq, Eq, Structural, Clone, Copy)]
pub enum EntryType {
    Root,
    Directory,
    Volume,
}

/// How a node matches a path element: the root matches nothing, a simple
/// node matches its literal label, and a regex node matches through a
/// compiled pattern.
#[derive(Debug, PartialEq, Eq, Clone)]
pub enum NodeType {
    Root,
    Simple(String),
    RegexNode { name: String, pattern: CompiledPattern },
}

/// The mathematical value of a [`NodeType`].
pub enum NodeTypeView {
    Root,
    Simple(Seq<char>),
    RegexNode { name: Seq<char>, pattern: PatternView },
}

impl View for NodeType {
    type V = NodeTypeView;

    open spec fn view(&self) -> NodeTypeView {
        match self {
            NodeType::Root => NodeTypeView::Root,
            NodeType::Simple(label) => NodeTypeView::Simple(label@),
            NodeType::RegexNode { name, pattern } => NodeTypeView::RegexNode {
                name: name@,
                pattern: pattern@,
            },
        }
    }
}

impl NodeType {
    /// A copy with the same mathematical value.
    pub fn duplicate(&self) -> (r: NodeType)
        ensures
            r@ == self@,
    {
        match self {
            NodeType::Root => NodeType::Root,
            NodeType::Simple(label) => NodeType::Simple(label.clone()),
            NodeType::RegexNode { name, pattern } => NodeType::RegexNode {
                name: name.clone(),
                pattern: pattern.duplicate(),
            },
        }
    }
}

/// One node of the graph: its matcher, its entry kind, and its metadata.
#[derive(Debug, PartialEq, Eq, Clone)]
pub struct GraphNode {
    pub node_type: NodeType,
    pub entry_type: EntryType,
    pub metadata: Metadata,
}

/// The mathematical value of a [`GraphNode`].
pub struct GraphNodeView {
    pub node_type: NodeTypeView,
    pub entry_type: EntryType,
    pub metadata: MetadataView,
}

impl View for GraphNode {
    type V = GraphNodeView;

    open spec fn view(&self) -> GraphNodeView {
        GraphNodeView {
            node_type: self.node_type@,
            entry_type: self.entry_type,
            metadata: self.metadata@,
        }
    }
}

/// View of a sequence of graph nodes.
pub open spec fn graph_nodes_view(s: Seq<GraphNode>) -> Seq<GraphNodeView> {
    s.map_values(|n: GraphNode| n@)
}

/// The directed graph. Handles are indices into `nodes`; each edge joins
/// two handles, in insertion order.
pub struct JGraph {
    pub nodes: Vec<GraphNode>,
    pub edges: Vec<(NIndex, NIndex)>,
}

/// The mathematical value of a [`JGraph`].
pub struct GraphView {
    pub nodes: Seq<GraphNodeView>,
    pub edges: Seq<(NIndex, NIndex)>,
}

impl View for JGraph {
    type V = GraphView;

    open spec fn view(&self) -> GraphView {
        GraphView { nodes: graph_nodes_view(self.nodes@), edges: self.edges@ }
    }
}

impl JGraph {
    /// An empty graph.
    pub fn new() -> (r: JGraph)
        ensures
            r@.nodes == Seq::<GraphNodeView>::empty(),
            r@.edges == Seq::<(NIndex, NIndex)>::empty(),
    {
        let g = JGraph { nodes: Vec::new(), edges: Vec::new() };
        proof {
            assert(graph_nodes_view(g.nodes@) =~= Seq::<GraphNodeView>::empty());
        }
        g
    }

    /// Add a node and hand back its stable handle: the index it now stands
    /// at.
    pub fn add_node(&mut self, node: GraphNode) -> (idx: NIndex)
        ensures
            idx == old(self)@.nodes.len(),
            final(self)@.nodes == old(self)@.nodes.push(node@),
            final(self)@.edges == old(self)@.edges,
    {
        let idx = self.nodes.len();
        self.nodes.push(node);
        proof {
            assert(graph_nodes_view(self.nodes@) =~= graph_nodes_view(
                self.nodes@.drop_last(),
            ).push(self.nodes@.last()@));
            assert(self.nodes@.drop_last() =~= old(self).nodes@);
        }
        idx
    }

    /// Add a directed edge between two handles.
    pub fn add_edge(&mut self, from: NIndex, to: NIndex)
        requires
            from < old(self)@.nodes.len(),
            to < old(self)@.nodes.len(),
        ensures
            final(self)@.nodes == old(self)@.nodes,
            final(self)@.edges == old(self)@.edges.push((from, to)),
    {
        self.edges.push((from, to));
    }

    /// The number of nodes.
    pub fn node_count(&self) -> (r: usize)
        ensures
            r == self@.nodes.len(),
    {
        self.nodes.len()
    }

    /// The number of edges.
    pub fn edge_count(&self) -> (r: usize)
        ensures
            r == self@.edges.len(),
    {
        self.edges.len()
    }

    /// The node a handle stands for.
    pub fn get_node(&self, idx: NIndex) -> (r: &GraphNode)
        requires
            idx < self@.nodes.len(),
        ensures
            r@ == self@.nodes[idx as int],
    {
        &self.nodes[idx]
    }

    /// The edge added at a position.
    pub fn get_edge(&self, idx: usize) -> (r: (NIndex, NIndex))
        requires
            idx < self@.edges.len(),
        ensures
            r == self@.edges[idx as int],
    {
        self.edges[idx]
    }
}

} // verus!
