//! The loading pass: drives the state machine line by line, compiles
//! pattern definitions, resolves symbolic references through two symbol
//! tables, and mutates the target graph.
//!
//! The whole pass is specified by [`spec_load_from`], a fold of one
//! spec-level step per line; `load` is proved to leave the loader in
//! exactly the state that fold describes. Loading is fail-fast: the first
//! failure aborts with a line-context error, and what was already added to
//! the graph stays (the caller discards the graph on error).
//!
//! The implicit root node is registered under the name `root` before any
//! line is processed; edges are added exactly as written, so a chain that
//! should hang off the root names `root` explicitly.

use crate::components::edge::{Edge, EdgeView};
use crate::components::edges_view;
use crate::components::metadata::{spec_default_metadata, Metadata, MetadataView};
use crate::components::node::{opt_metadata_view, Node, NodeView};
use crate::components::regex::{Regex, RegexView};
use crate::components::{ParseResult, ParseResultView};
use crate::errors::{ErrorView, JSPTemplateError, JSPTemplateLineError, LineErrorView};
use crate::graph::{
    EntryType, GraphNode, GraphNodeView, JGraph, NIndex, NodeType, NodeTypeView,
};
use crate::helpers::strs_view;
use crate::pattern::{regex_compile_ok, spec_anchored, CompiledPattern, PatternView};
use crate::statemachine::{
    spec_machine_next, spec_machine_result, State, StateMachine,
};
use crate::symbols::SymbolTable;
use vstd::prelude::*;

verus! {

/// The node symbol table: node name to graph node handle.
pub type JGraphKeyMap = SymbolTable<NIndex>;

/// The pattern symbol table: pattern name to the node type that carries the
/// compiled pattern.
pub type RegexMap = SymbolTable<NodeType>;

/// The loader: the target graph, the two symbol tables, and the state the
/// last load ended in.
pub struct Loader {
    pub graph: JGraph,
    pub keymap: JGraphKeyMap,
    pub regexmap: RegexMap,
    pub state: State,
}

/// The mathematical value of a [`Loader`].
pub struct LoaderView {
    pub keymap: Map<Seq<char>, NIndex>,
    pub regexmap: Map<Seq<char>, NodeTypeView>,
    pub nodes: Seq<GraphNodeView>,
    pub edges: Seq<(NIndex, NIndex)>,
    pub state: State,
}

/// View of a pattern symbol table.
pub open spec fn regexmap_view(m: Map<Seq<char>, NodeType>) -> Map<Seq<char>, NodeTypeView> {
    Map::new(|k: Seq<char>| m.contains_key(k), |k: Seq<char>| m[k]@)
}

impl View for Loader {
    type V = LoaderView;

    open spec fn view(&self) -> LoaderView {
        LoaderView {
            keymap: self.keymap@,
            regexmap: regexmap_view(self.regexmap@),
            nodes: self.graph@.nodes,
            edges: self.graph@.edges,
            state: self.state,
        }
    }
}

/// Every handle the node table holds points at a node of the graph.
pub open spec fn spec_loader_wf(lv: LoaderView) -> bool {
    forall|k: Seq<char>| #[trigger]
        lv.keymap.contains_key(k) ==> lv.keymap[k] < lv.nodes.len()
}

/// The metadata a node definition carries, with absence meaning all
/// defaults.
pub open spec fn spec_effective_metadata(md: Option<MetadataView>) -> MetadataView {
    match md {
        Some(m) => m,
        None => spec_default_metadata(),
    }
}

/// Whether a node definition asks for a volume.
pub open spec fn spec_is_volume(md: Option<MetadataView>) -> bool {
    match md {
        Some(m) => m.volume,
        None => false,
    }
}

/// The entry kind a node definition asks for.
pub open spec fn spec_entry_type(md: Option<MetadataView>) -> EntryType {
    if spec_is_volume(md) {
        EntryType::Volume
    } else {
        EntryType::Directory
    }
}

/// The implicit root node every load starts from.
pub open spec fn spec_root_node() -> GraphNodeView {
    GraphNodeView {
        node_type: NodeTypeView::Root,
        entry_type: EntryType::Root,
        metadata: spec_default_metadata(),
    }
}

/// What a pattern definition does to the pattern table: both patterns are
/// anchored and handed to the engine, and on success the entry is stored
/// under the definition's name, overwriting any prior entry.
pub open spec fn spec_process_regex(
    m: Map<Seq<char>, NodeTypeView>,
    r: RegexView,
) -> Result<Map<Seq<char>, NodeTypeView>, ErrorView> {
    match r {
        RegexView::Simple { name, value } => {
            let pa = spec_anchored(value);
            if regex_compile_ok(pa) {
                Ok(
                    m.insert(
                        name,
                        NodeTypeView::RegexNode {
                            name,
                            pattern: PatternView { positive: pa, negative: None },
                        },
                    ),
                )
            } else {
                Err(ErrorView::RegexError(pa))
            }
        },
        RegexView::Complex { name, positive, negative } => {
            let pa = spec_anchored(positive);
            let na = spec_anchored(negative);
            if !regex_compile_ok(pa) {
                Err(ErrorView::RegexError(pa))
            } else if !regex_compile_ok(na) {
                Err(ErrorView::RegexError(na))
            } else {
                Ok(
                    m.insert(
                        name,
                        NodeTypeView::RegexNode {
                            name,
                            pattern: PatternView { positive: pa, negative: Some(na) },
                        },
                    ),
                )
            }
        },
    }
}

/// The symbol-table key and graph node a node definition produces, or the
/// failure: an unknown `$name` reference, or a pattern the engine rejects.
pub open spec fn spec_node_record(
    nv: NodeView,
    regexmap: Map<Seq<char>, NodeTypeView>,
) -> Result<(Seq<char>, GraphNodeView), ErrorView> {
    match nv {
        NodeView::Simple(name, md) => Ok(
            (
                name,
                GraphNodeView {
                    node_type: NodeTypeView::Simple(name),
                    entry_type: spec_entry_type(md),
                    metadata: spec_effective_metadata(md),
                },
            ),
        ),
        NodeView::Pair { name, value, metadata } => Ok(
            (
                name,
                GraphNodeView {
                    node_type: NodeTypeView::Simple(value),
                    entry_type: spec_entry_type(metadata),
                    metadata: spec_effective_metadata(metadata),
                },
            ),
        ),
        NodeView::ReVar { name, variable, metadata } => {
            if regexmap.contains_key(variable) {
                Ok(
                    (
                        name,
                        GraphNodeView {
                            node_type: regexmap[variable],
                            entry_type: spec_entry_type(metadata),
                            metadata: spec_effective_metadata(metadata),
                        },
                    ),
                )
            } else {
                Err(ErrorView::RegexMapLookupError(variable))
            }
        },
        NodeView::RegexSimple { name, re, metadata } => {
            let pa = spec_anchored(re);
            if regex_compile_ok(pa) {
                Ok(
                    (
                        name,
                        GraphNodeView {
                            node_type: NodeTypeView::RegexNode {
                                name,
                                pattern: PatternView { positive: pa, negative: None },
                            },
                            entry_type: spec_entry_type(metadata),
                            metadata: spec_effective_metadata(metadata),
                        },
                    ),
                )
            } else {
                Err(ErrorView::RegexError(pa))
            }
        },
        NodeView::RegexComplex { name, pos, neg, metadata } => {
            let pa = spec_anchored(pos);
            let na = spec_anchored(neg);
            if !regex_compile_ok(pa) {
                Err(ErrorView::RegexError(pa))
            } else if !regex_compile_ok(na) {
                Err(ErrorView::RegexError(na))
            } else {
                Ok(
                    (
                        name,
                        GraphNodeView {
                            node_type: NodeTypeView::RegexNode {
                                name,
                                pattern: PatternView { positive: pa, negative: Some(na) },
                            },
                            entry_type: spec_entry_type(metadata),
                            metadata: spec_effective_metadata(metadata),
                        },
                    ),
                )
            }
        },
    }
}

/// What an edge chain does to the edge list: each edge's names are resolved
/// in order and the resolved pair appended; the first unknown name aborts,
/// keeping the edges already added.
pub open spec fn spec_process_edges(
    keymap: Map<Seq<char>, NIndex>,
    edges: Seq<(NIndex, NIndex)>,
    es: Seq<EdgeView>,
) -> (Result<(), ErrorView>, Seq<(NIndex, NIndex)>)
    decreases es.len(),
{
    if es.len() == 0 {
        (Ok(()), edges)
    } else {
        let e = es[0];
        if !keymap.contains_key(e.from) {
            (Err(ErrorView::KeyMapLookupError(e.from)), edges)
        } else if !keymap.contains_key(e.to) {
            (Err(ErrorView::KeyMapLookupError(e.to)), edges)
        } else {
            spec_process_edges(
                keymap,
                edges.push((keymap[e.from], keymap[e.to])),
                es.drop_first(),
            )
        }
    }
}

/// The state a finished load leaves behind: input exhausted in the edge
/// section completes the automaton; anywhere earlier the state is left as
/// it stands, so the caller can see that no `Done` was reached.
pub open spec fn spec_finalize(st: State) -> State {
    if st == State::EdgeParsing {
        State::Done
    } else {
        st
    }
}

/// The load as a fold over the remaining lines: the machine result of each
/// line, then the table and graph updates of its record. The second
/// component is the loader as it stands afterwards; a failed load leaves it
/// in the error state with everything already added kept.
pub open spec fn spec_load_steps(
    lv: LoaderView,
    lineno: int,
    lines: Seq<Seq<char>>,
) -> (Result<(), LineErrorView>, LoaderView)
    decreases lines.len(),
{
    if lines.len() == 0 {
        (Ok(()), lv)
    } else {
        let line = lines[0];
        let n = (lineno + 1) as usize;
        match spec_machine_result(lv.state, line) {
            Err(ev) => (
                Err(LineErrorView { line: n, text: line, state: lv.state, cause: ev }),
                LoaderView { state: State::Error, ..lv },
            ),
            Ok(pv) => {
                let st2 = spec_machine_next(lv.state, line);
                match pv {
                    ParseResultView::Regex(rv) => match spec_process_regex(lv.regexmap, rv) {
                        Ok(m) => spec_load_steps(
                            LoaderView { regexmap: m, state: st2, ..lv },
                            lineno + 1,
                            lines.drop_first(),
                        ),
                        Err(ev) => (
                            Err(
                                LineErrorView {
                                    line: n,
                                    text: line,
                                    state: lv.state,
                                    cause: ev,
                                },
                            ),
                            LoaderView { state: State::Error, ..lv },
                        ),
                    },
                    ParseResultView::Node(nv) => match spec_node_record(nv, lv.regexmap) {
                        Ok((key, gn)) => spec_load_steps(
                            LoaderView {
                                keymap: lv.keymap.insert(key, lv.nodes.len() as usize),
                                nodes: lv.nodes.push(gn),
                                state: st2,
                                ..lv
                            },
                            lineno + 1,
                            lines.drop_first(),
                        ),
                        Err(ev) => (
                            Err(
                                LineErrorView {
                                    line: n,
                                    text: line,
                                    state: lv.state,
                                    cause: ev,
                                },
                            ),
                            LoaderView { state: State::Error, ..lv },
                        ),
                    },
                    ParseResultView::Edges(es) => {
                        let (res, es2) = spec_process_edges(lv.keymap, lv.edges, es);
                        match res {
                            Ok(()) => spec_load_steps(
                                LoaderView { edges: es2, state: st2, ..lv },
                                lineno + 1,
                                lines.drop_first(),
                            ),
                            Err(ev) => (
                                Err(
                                    LineErrorView {
                                        line: n,
                                        text: line,
                                        state: lv.state,
                                        cause: ev,
                                    },
                                ),
                                LoaderView { edges: es2, state: State::Error, ..lv },
                            ),
                        }
                    },
                    _ => spec_load_steps(
                        LoaderView { state: st2, ..lv },
                        lineno + 1,
                        lines.drop_first(),
                    ),
                }
            },
        }
    }
}

/// The whole load: the per-line fold, with input exhausted without error
/// counting as completion of the automaton where the edge section was
/// reached.
pub open spec fn spec_load_from(
    lv: LoaderView,
    lineno: int,
    lines: Seq<Seq<char>>,
) -> (Result<(), LineErrorView>, LoaderView) {
    let (res, lv2) = spec_load_steps(lv, lineno, lines);
    match res {
        Ok(()) => (res, LoaderView { state: spec_finalize(lv2.state), ..lv2 }),
        Err(_) => (res, lv2),
    }
}

/// Whether a node definition asks for a volume; absent metadata means no.
pub fn is_volume(meta: &Option<Metadata>) -> (r: bool)
    ensures
        r == spec_is_volume(opt_metadata_view(*meta)),
{
    match meta {
        Some(m) => m.volume,
        None => false,
    }
}

/// The metadata to store on a node: what the definition carries, or all
/// defaults where it carries none.
pub fn effective_metadata(meta: Option<Metadata>) -> (r: Metadata)
    ensures
        r@ == spec_effective_metadata(opt_metadata_view(meta)),
{
    match meta {
        Some(m) => m,
        None => Metadata::new(),
    }
}

impl Loader {
    /// A fresh loader: an empty graph holding only the implicit root node,
    /// the node table mapping `root` to it, an empty pattern table, and the
    /// automaton at its start.
    pub fn new() -> (r: Loader)
        ensures
            r@.keymap == Map::<Seq<char>, NIndex>::empty().insert("root"@, 0),
            r@.regexmap == Map::<Seq<char>, NodeTypeView>::empty(),
            r@.nodes == seq![spec_root_node()],
            r@.edges == Seq::<(NIndex, NIndex)>::empty(),
            r@.state == State::Start,
            spec_loader_wf(r@),
    {
        let mut graph = JGraph::new();
        let root_idx = graph.add_node(
            GraphNode {
                node_type: NodeType::Root,
                entry_type: EntryType::Root,
                metadata: Metadata::new(),
            },
        );
        let mut keymap: JGraphKeyMap = SymbolTable::new();
        keymap.insert(String::from_str("root"), root_idx);
        let regexmap: RegexMap = SymbolTable::new();
        let r = Loader { graph, keymap, regexmap, state: State::Start };
        proof {
            assert(r@.nodes =~= seq![spec_root_node()]);
            assert(r@.regexmap =~= Map::<Seq<char>, NodeTypeView>::empty());
        }
        r
    }

    /// Register a pattern definition: compile it anchored and store it
    /// under its name, overwriting any prior entry. Only the pattern table
    /// changes, and only on success.
    pub fn process_regex(&mut self, regex: Regex) -> (r: Result<(), JSPTemplateError>)
        ensures
            final(self).graph == old(self).graph,
            final(self).keymap == old(self).keymap,
            final(self).state == old(self).state,
            match spec_process_regex(old(self)@.regexmap, regex@) {
                Ok(m) => r is Ok && final(self)@.regexmap == m,
                Err(ev) => (r matches Err(e) && e@ == ev) && final(self).regexmap == old(
                    self,
                ).regexmap,
            },
    {
        match regex {
            Regex::Simple { name, value } => {
                let cp = match CompiledPattern::new(value.as_str(), None) {
                    Ok(cp) => cp,
                    Err(e) => {
                        return Err(e);
                    },
                };
                let label_name = name.clone();
                self.regexmap.insert(
                    name,
                    NodeType::RegexNode { name: label_name, pattern: cp },
                );
                proof {
                    assert(final(self)@.regexmap =~= spec_process_regex(
                        old(self)@.regexmap,
                        regex@,
                    )->Ok_0);
                }
                Ok(())
            },
            Regex::Complex { name, positive, negative } => {
                let cp = match CompiledPattern::new(positive.as_str(), Some(negative.as_str())) {
                    Ok(cp) => cp,
                    Err(e) => {
                        return Err(e);
                    },
                };
                let label_name = name.clone();
                self.regexmap.insert(
                    name,
                    NodeType::RegexNode { name: label_name, pattern: cp },
                );
                proof {
                    assert(final(self)@.regexmap =~= spec_process_regex(
                        old(self)@.regexmap,
                        regex@,
                    )->Ok_0);
                }
                Ok(())
            },
        }
    }

    /// Register a node definition: build its graph node, add it, and map
    /// its name to the new handle, overwriting any prior entry. A `$name`
    /// reference is resolved in the pattern table and its absence is fatal;
    /// an inline pattern is compiled anchored.
    pub fn process_node(&mut self, node: Node) -> (r: Result<(), JSPTemplateError>)
        ensures
            final(self).regexmap == old(self).regexmap,
            final(self).state == old(self).state,
            spec_loader_wf(old(self)@) ==> spec_loader_wf(final(self)@),
            match spec_node_record(node@, old(self)@.regexmap) {
                Ok((key, gn)) => r is Ok && final(self)@.keymap == old(self)@.keymap.insert(
                    key,
                    old(self)@.nodes.len() as usize,
                ) && final(self)@.nodes == old(self)@.nodes.push(gn) && final(self)@.edges == old(
                    self,
                )@.edges,
                Err(ev) => (r matches Err(e) && e@ == ev) && final(self).graph == old(self).graph
                    && final(self).keymap == old(self).keymap,
            },
    {
        let (key, graph_node): (String, GraphNode) = match node {
            Node::Simple(name, metadata) => {
                let et = if is_volume(&metadata) {
                    EntryType::Volume
                } else {
                    EntryType::Directory
                };
                let label = name.clone();
                (
                    name,
                    GraphNode {
                        node_type: NodeType::Simple(label),
                        entry_type: et,
                        metadata: effective_metadata(metadata),
                    },
                )
            },
            Node::Pair { name, value, metadata } => {
                let et = if is_volume(&metadata) {
                    EntryType::Volume
                } else {
                    EntryType::Directory
                };
                (
                    name,
                    GraphNode {
                        node_type: NodeType::Simple(value),
                        entry_type: et,
                        metadata: effective_metadata(metadata),
                    },
                )
            },
            Node::ReVar { name, variable, metadata } => {
                let node_type = match self.regexmap.get(variable.as_str()) {
                    Some(nt) => nt.duplicate(),
                    None => {
                        return Err(JSPTemplateError::RegexMapLookupError(variable));
                    },
                };
                let et = if is_volume(&metadata) {
                    EntryType::Volume
                } else {
                    EntryType::Directory
                };
                (
                    name,
                    GraphNode {
                        node_type,
                        entry_type: et,
                        metadata: effective_metadata(metadata),
                    },
                )
            },
            Node::RegexSimple { name, re, metadata } => {
                let cp = match CompiledPattern::new(re.as_str(), None) {
                    Ok(cp) => cp,
                    Err(e) => {
                        return Err(e);
                    },
                };
                let et = if is_volume(&metadata) {
                    EntryType::Volume
                } else {
                    EntryType::Directory
                };
                let label_name = name.clone();
                (
                    name,
                    GraphNode {
                        node_type: NodeType::RegexNode { name: label_name, pattern: cp },
                        entry_type: et,
                        metadata: effective_metadata(metadata),
                    },
                )
            },
            Node::RegexComplex { name, pos, neg, metadata } => {
                let cp = match CompiledPattern::new(pos.as_str(), Some(neg.as_str())) {
                    Ok(cp) => cp,
                    Err(e) => {
                        return Err(e);
                    },
                };
                let et = if is_volume(&metadata) {
                    EntryType::Volume
                } else {
                    EntryType::Directory
                };
                let label_name = name.clone();
                (
                    name,
                    GraphNode {
                        node_type: NodeType::RegexNode { name: label_name, pattern: cp },
                        entry_type: et,
                        metadata: effective_metadata(metadata),
                    },
                )
            },
        };
        let ghost key_view: Seq<char> = key@;
        let idx = self.graph.add_node(graph_node);
        self.keymap.insert(key, idx);
        proof {
            if spec_loader_wf(old(self)@) {
                assert forall|k: Seq<char>| #[trigger]
                    self@.keymap.contains_key(k) implies self@.keymap[k]
                    < self@.nodes.len() by {
                    if k != key_view {
                        assert(old(self)@.keymap.contains_key(k));
                    }
                }
            }
        }
        Ok(())
    }

    /// Resolve and add each edge of a chain, in order. The first name
    /// absent from the node table is fatal; the edges resolved before it
    /// stay in the graph.
    pub fn process_edges(&mut self, edges: Vec<Edge>) -> (r: Result<(), JSPTemplateError>)
        requires
            spec_loader_wf(old(self)@),
        ensures
            final(self).regexmap == old(self).regexmap,
            final(self).keymap == old(self).keymap,
            final(self).state == old(self).state,
            final(self)@.nodes == old(self)@.nodes,
            spec_loader_wf(final(self)@),
            ({
                let (res, es2) = spec_process_edges(
                    old(self)@.keymap,
                    old(self)@.edges,
                    edges_view(edges@),
                );
                &&& final(self)@.edges == es2
                &&& match res {
                    Ok(()) => r is Ok,
                    Err(ev) => r matches Err(e) && e@ == ev,
                }
            }),
    {
        let ghost full: Seq<EdgeView> = edges_view(edges@);
        let mut k: usize = 0;
        proof {
            assert(full.skip(0) =~= full);
        }
        while k < edges.len()
            invariant
                k <= edges@.len(),
                full == edges_view(edges@),
                spec_loader_wf(old(self)@),
                spec_loader_wf(self@),
                self.regexmap == old(self).regexmap,
                self.keymap == old(self).keymap,
                self.state == old(self).state,
                self@.nodes == old(self)@.nodes,
                spec_process_edges(old(self)@.keymap, old(self)@.edges, full)
                    == spec_process_edges(old(self)@.keymap, self@.edges, full.skip(k as int)),
            decreases edges@.len() - k,
        {
            proof {
                assert(full.skip(k as int)[0] == full[k as int]);
                assert(full[k as int] == edges@[k as int]@);
            }
            let from_idx: NIndex = match self.keymap.get(edges[k].from.as_str()) {
                Some(i) => *i,
                None => {
                    return Err(JSPTemplateError::KeyMapLookupError(edges[k].from.clone()));
                },
            };
            let to_idx: NIndex = match self.keymap.get(edges[k].to.as_str()) {
                Some(i) => *i,
                None => {
                    return Err(JSPTemplateError::KeyMapLookupError(edges[k].to.clone()));
                },
            };
            self.graph.add_edge(from_idx, to_idx);
            proof {
                assert(full.skip(k as int).drop_first() =~= full.skip(k + 1 as int));
                assert forall|kk: Seq<char>| #[trigger]
                    self@.keymap.contains_key(kk) implies self@.keymap[kk]
                    < self@.nodes.len() by {
                    assert(old(self)@.keymap.contains_key(kk));
                }
            }
            k = k + 1;
        }
        proof {
            assert(full.skip(k as int) =~= Seq::<EdgeView>::empty());
        }
        Ok(())
    }

    /// Drive the state machine over the lines of a template, processing
    /// each record as it is produced. The first failure aborts with its
    /// line context and leaves the loader in the error state; success
    /// leaves behind exactly the tables and graph that [`spec_load_from`]
    /// describes, with input exhausted in the edge section counting as
    /// completion.
    pub fn load(&mut self, lines: &Vec<String>) -> (r: Result<(), JSPTemplateLineError>)
        requires
            spec_loader_wf(old(self)@),
        ensures
            spec_loader_wf(final(self)@),
            ({
                let (res, lv) = spec_load_from(
                    LoaderView { state: State::Start, ..old(self)@ },
                    0,
                    strs_view(lines@),
                );
                &&& final(self)@ == lv
                &&& match res {
                    Ok(()) => r is Ok,
                    Err(lev) => r matches Err(e) && e@ == lev,
                }
            }),
    {
        let ghost init: LoaderView = LoaderView { state: State::Start, ..old(self)@ };
        let ghost all: Seq<Seq<char>> = strs_view(lines@);
        let mut machine = StateMachine::new();
        let mut i: usize = 0;
        proof {
            assert(all.skip(0) =~= all);
        }
        while i < lines.len()
            invariant
                i <= lines@.len(),
                all == strs_view(lines@),
                init == (LoaderView { state: State::Start, ..old(self)@ }),
                machine.line == i,
                spec_loader_wf(self@),
                spec_load_steps(init, 0, all) == spec_load_steps(
                    LoaderView { state: machine.state, ..self@ },
                    i as int,
                    all.skip(i as int),
                ),
            decreases lines@.len() - i,
        {
            let ghost lv_entry: LoaderView = LoaderView { state: machine.state, ..self@ };
            let ghost rest: Seq<Seq<char>> = all.skip(i as int);
            proof {
                assert(rest[0] == all[i as int]);
                assert(all[i as int] == lines@[i as int]@);
                assert(rest.drop_first() =~= all.skip(i + 1 as int));
            }
            let line: &String = &lines[i];
            let ghost st_before: State = machine.state;
            match machine.parse(line.as_str()) {
                Err(le) => {
                    self.state = State::Error;
                    proof {
                        assert(self@ == (LoaderView { state: State::Error, ..lv_entry }));
                        assert(spec_load_steps(lv_entry, i as int, rest) == (
                            Err::<(), LineErrorView>(le@),
                            self@,
                        ));
                        assert(spec_load_from(init, 0, all) == (
                            Err::<(), LineErrorView>(le@),
                            self@,
                        ));
                    }
                    return Err(le);
                },
                Ok(pr) => {
                    match pr {
                        ParseResult::Empty => {
                            proof {
                                assert(spec_load_steps(lv_entry, i as int, rest)
                                    == spec_load_steps(
                                    LoaderView { state: machine.state, ..self@ },
                                    i as int + 1,
                                    rest.drop_first(),
                                ));
                            }
                        },
                        ParseResult::Header(_) => {
                            proof {
                                assert(spec_load_steps(lv_entry, i as int, rest)
                                    == spec_load_steps(
                                    LoaderView { state: machine.state, ..self@ },
                                    i as int + 1,
                                    rest.drop_first(),
                                ));
                            }
                        },
                        ParseResult::Comment(_) => {
                            proof {
                                assert(spec_load_steps(lv_entry, i as int, rest)
                                    == spec_load_steps(
                                    LoaderView { state: machine.state, ..self@ },
                                    i as int + 1,
                                    rest.drop_first(),
                                ));
                            }
                        },
                        ParseResult::Regex(rx) => {
                            match self.process_regex(rx) {
                                Ok(()) => {
                                    proof {
                                        assert(spec_load_steps(lv_entry, i as int, rest)
                                            == spec_load_steps(
                                            LoaderView { state: machine.state, ..self@ },
                                            i as int + 1,
                                            rest.drop_first(),
                                        ));
                                    }
                                },
                                Err(e) => {
                                    let le = JSPTemplateLineError::ErrorAtLine(
                                        machine.line(),
                                        line.clone(),
                                        machine.state(),
                                        e,
                                    );
                                    self.state = State::Error;
                                    proof {
                                        assert(machine.state == st_before);
                                        assert(self@ == (LoaderView {
                                            state: State::Error,
                                            ..lv_entry
                                        }));
                                        assert(spec_load_steps(lv_entry, i as int, rest) == (
                                            Err::<(), LineErrorView>(le@),
                                            self@,
                                        ));
                                        assert(spec_load_from(init, 0, all) == (
                                            Err::<(), LineErrorView>(le@),
                                            self@,
                                        ));
                                    }
                                    return Err(le);
                                },
                            }
                        },
                        ParseResult::Node(node) => {
                            match self.process_node(node) {
                                Ok(()) => {
                                    proof {
                                        assert(spec_load_steps(lv_entry, i as int, rest)
                                            == spec_load_steps(
                                            LoaderView { state: machine.state, ..self@ },
                                            i as int + 1,
                                            rest.drop_first(),
                                        ));
                                    }
                                },
                                Err(e) => {
                                    let le = JSPTemplateLineError::ErrorAtLine(
                                        machine.line(),
                                        line.clone(),
                                        machine.state(),
                                        e,
                                    );
                                    self.state = State::Error;
                                    proof {
                                        assert(machine.state == st_before);
                                        assert(self@ == (LoaderView {
                                            state: State::Error,
                                            ..lv_entry
                                        }));
                                        assert(spec_load_steps(lv_entry, i as int, rest) == (
                                            Err::<(), LineErrorView>(le@),
                                            self@,
                                        ));
                                        assert(spec_load_from(init, 0, all) == (
                                            Err::<(), LineErrorView>(le@),
                                            self@,
                                        ));
                                    }
                                    return Err(le);
                                },
                            }
                        },
                        ParseResult::Edges(edges) => {
                            let ghost es_v: Seq<EdgeView> = edges_view(edges@);
                            match self.process_edges(edges) {
                                Ok(()) => {
                                    proof {
                                        assert(spec_load_steps(lv_entry, i as int, rest)
                                            == spec_load_steps(
                                            LoaderView { state: machine.state, ..self@ },
                                            i as int + 1,
                                            rest.drop_first(),
                                        ));
                                    }
                                },
                                Err(e) => {
                                    let le = JSPTemplateLineError::ErrorAtLine(
                                        machine.line(),
                                        line.clone(),
                                        machine.state(),
                                        e,
                                    );
                                    self.state = State::Error;
                                    proof {
                                        let (res, es2) = spec_process_edges(
                                            lv_entry.keymap,
                                            lv_entry.edges,
                                            es_v,
                                        );
                                        assert(machine.state == st_before);
                                        assert(self@ == (LoaderView {
                                            edges: es2,
                                            state: State::Error,
                                            ..lv_entry
                                        }));
                                        assert(spec_load_steps(lv_entry, i as int, rest) == (
                                            Err::<(), LineErrorView>(le@),
                                            self@,
                                        ));
                                        assert(spec_load_from(init, 0, all) == (
                                            Err::<(), LineErrorView>(le@),
                                            self@,
                                        ));
                                    }
                                    return Err(le);
                                },
                            }
                        },
                    }
                },
            }
            proof {
                assert(spec_load_steps(init, 0, all) == spec_load_steps(
                    LoaderView { state: machine.state, ..self@ },
                    i as int + 1,
                    all.skip(i + 1 as int),
                ));
            }
            i = i + 1;
        }
        proof {
            assert(all.skip(i as int) =~= Seq::<Seq<char>>::empty());
        }
        let ghost lv_end: LoaderView = LoaderView { state: machine.state, ..self@ };
        if machine.state() == State::EdgeParsing {
            self.state = State::Done;
        } else {
            self.state = machine.state();
        }
        proof {
            assert(spec_load_steps(lv_end, i as int, all.skip(i as int)) == (
                Ok::<(), LineErrorView>(()),
                lv_end,
            ));
            assert(self@ == (LoaderView { state: spec_finalize(lv_end.state), ..lv_end }));
            assert(spec_load_from(init, 0, all) == (Ok::<(), LineErrorView>(()), self@));
        }
        Ok(())
    }
}

} // verus!
