//! The laws of the compiler, stated over its specification functions and
//! proved once and for all: a valid section-ordered input loads to
//! completion, and each kind of malformed input fails at its own line with
//! its own error.

use crate::components::edge::EdgeView;
use crate::components::node::NodeView;
use crate::components::regex::RegexView;
use crate::components::ParseResultView;
use crate::errors::ErrorView;
use crate::graph::{NIndex, NodeTypeView};
use crate::loader::{
    spec_load_from, spec_load_steps, spec_node_record, spec_process_edges, spec_process_regex,
    LoaderView,
};
use crate::parser::header::HeaderView;
use crate::pattern::{regex_compile_ok, spec_anchored};
use crate::statemachine::{
    spec_header_state, spec_machine_next, spec_machine_result, spec_next_valid_state,
    spec_state_grammar, State,
};
use vstd::prelude::*;

verus! {

/// The name a pattern definition binds.
pub open spec fn spec_regex_def_name(rv: RegexView) -> Seq<char> {
    match rv {
        RegexView::Simple { name, .. } => name,
        RegexView::Complex { name, .. } => name,
    }
}

/// The name a node definition binds.
pub open spec fn spec_node_def_name(nv: NodeView) -> Seq<char> {
    match nv {
        NodeView::Simple(name, _) => name,
        NodeView::Pair { name, .. } => name,
        NodeView::ReVar { name, .. } => name,
        NodeView::RegexSimple { name, .. } => name,
        NodeView::RegexComplex { name, .. } => name,
    }
}

/// Whether the engine accepts every pattern of a pattern definition.
pub open spec fn spec_regex_def_compiles(rv: RegexView) -> bool {
    match rv {
        RegexView::Simple { value, .. } => regex_compile_ok(spec_anchored(value)),
        RegexView::Complex { positive, negative, .. } => regex_compile_ok(spec_anchored(positive))
            && regex_compile_ok(spec_anchored(negative)),
    }
}

/// Whether a node definition resolves against the pattern names defined so
/// far, with every inline pattern accepted by the engine.
pub open spec fn spec_node_def_resolvable(nv: NodeView, pats: Set<Seq<char>>) -> bool {
    match nv {
        NodeView::Simple(_, _) => true,
        NodeView::Pair { .. } => true,
        NodeView::ReVar { variable, .. } => pats.contains(variable),
        NodeView::RegexSimple { re, .. } => regex_compile_ok(spec_anchored(re)),
        NodeView::RegexComplex { pos, neg, .. } => regex_compile_ok(spec_anchored(pos))
            && regex_compile_ok(spec_anchored(neg)),
    }
}

/// Whether every name of an edge chain is among the node names defined so
/// far.
pub open spec fn spec_edges_resolvable(es: Seq<EdgeView>, nodes: Set<Seq<char>>) -> bool {
    forall|k: int|
        0 <= k < es.len() ==> nodes.contains(#[trigger] es[k].from) && nodes.contains(es[k].to)
}

/// Whether one line goes through without error: it parses in the grammar of
/// the current state, a header stands in the legal order, every pattern
/// compiles, and every reference resolves.
pub open spec fn spec_line_acceptable(
    st: State,
    pats: Set<Seq<char>>,
    nodes: Set<Seq<char>>,
    s: Seq<char>,
) -> bool {
    match spec_machine_result(st, s) {
        Err(_) => false,
        Ok(pv) => match pv {
            ParseResultView::Regex(rv) => spec_regex_def_compiles(rv),
            ParseResultView::Node(nv) => spec_node_def_resolvable(nv, pats),
            ParseResultView::Edges(es) => spec_edges_resolvable(es, nodes),
            _ => true,
        },
    }
}

/// The machine state and the defined names after one acceptable line.
pub open spec fn spec_names_after(
    st: State,
    pats: Set<Seq<char>>,
    nodes: Set<Seq<char>>,
    s: Seq<char>,
) -> (State, Set<Seq<char>>, Set<Seq<char>>) {
    let st2 = spec_machine_next(st, s);
    match spec_machine_result(st, s) {
        Ok(pv) => match pv {
            ParseResultView::Regex(rv) => (st2, pats.insert(spec_regex_def_name(rv)), nodes),
            ParseResultView::Node(nv) => (st2, pats, nodes.insert(spec_node_def_name(nv))),
            _ => (st2, pats, nodes),
        },
        Err(_) => (st2, pats, nodes),
    }
}

/// A scan over the lines that tracks only the machine state and the defined
/// names, accepting each line in turn.
pub open spec fn spec_scan(
    st: State,
    pats: Set<Seq<char>>,
    nodes: Set<Seq<char>>,
    lines: Seq<Seq<char>>,
) -> Option<(State, Set<Seq<char>>, Set<Seq<char>>)>
    decreases lines.len(),
{
    if lines.len() == 0 {
        Some((st, pats, nodes))
    } else if spec_line_acceptable(st, pats, nodes, lines[0]) {
        let (st2, p2, n2) = spec_names_after(st, pats, nodes, lines[0]);
        spec_scan(st2, p2, n2, lines.drop_first())
    } else {
        None
    }
}

/// The names a fresh load starts from: no pattern names, and the one
/// implicit node name `root`.
pub open spec fn spec_initial_node_names() -> Set<Seq<char>> {
    Set::empty().insert("root"@)
}

/// A valid section-ordered input: every line is accepted in turn, and the
/// scan ends inside the edge section.
pub open spec fn spec_valid_input(lines: Seq<Seq<char>>) -> bool {
    match spec_scan(State::Start, Set::empty(), spec_initial_node_names(), lines) {
        Some((st, p, n)) => st == State::EdgeParsing,
        None => false,
    }
}

/// An edge chain whose names are all defined resolves without error.
proof fn lemma_edges_resolve(
    km: Map<Seq<char>, NIndex>,
    acc: Seq<(NIndex, NIndex)>,
    es: Seq<EdgeView>,
)
    requires
        spec_edges_resolvable(es, km.dom()),
    ensures
        spec_process_edges(km, acc, es).0 is Ok,
    decreases es.len(),
{
    if es.len() > 0 {
        assert(km.dom().contains(es[0].from) && km.dom().contains(es[0].to));
        assert forall|k: int|
            0 <= k < es.drop_first().len() implies km.dom().contains(
            #[trigger] es.drop_first()[k].from,
        ) && km.dom().contains(es.drop_first()[k].to) by {
            assert(es.drop_first()[k] == es[k + 1]);
            assert(km.dom().contains(es[k + 1].from) && km.dom().contains(es[k + 1].to));
        }
        lemma_edges_resolve(
            km,
            acc.push((km[es[0].from], km[es[0].to])),
            es.drop_first(),
        );
    }
}

/// An edge chain whose first unresolved name stands at position `j` fails
/// with exactly that name.
proof fn lemma_edges_fail(
    km: Map<Seq<char>, NIndex>,
    acc: Seq<(NIndex, NIndex)>,
    es: Seq<EdgeView>,
    j: int,
)
    requires
        0 <= j < es.len(),
        spec_edges_resolvable(es.take(j), km.dom()),
        !(km.dom().contains(es[j].from) && km.dom().contains(es[j].to)),
    ensures
        spec_process_edges(km, acc, es).0 == Err::<(), ErrorView>(
            ErrorView::KeyMapLookupError(
                if !km.dom().contains(es[j].from) {
                    es[j].from
                } else {
                    es[j].to
                },
            ),
        ),
    decreases j,
{
    if j > 0 {
        assert(es.take(j)[0] == es[0]);
        assert(km.dom().contains(es[0].from) && km.dom().contains(es[0].to));
        assert(spec_edges_resolvable(es.drop_first().take(j - 1), km.dom())) by {
            assert forall|k: int| 0 <= k < j - 1 implies km.dom().contains(
                #[trigger] es.drop_first().take(j - 1)[k].from,
            ) && km.dom().contains(es.drop_first().take(j - 1)[k].to) by {
                assert(es.drop_first().take(j - 1)[k] == es[k + 1]);
                assert(es.take(j)[k + 1] == es[k + 1]);
                assert(km.dom().contains(es.take(j)[k + 1].from) && km.dom().contains(
                    es.take(j)[k + 1].to,
                ));
            }
        }
        assert(es.drop_first()[j - 1] == es[j]);
        lemma_edges_fail(
            km,
            acc.push((km[es[0].from], km[es[0].to])),
            es.drop_first(),
            j - 1,
        );
    }
}

/// A scan-accepted run of lines loads without error: the loader afterwards
/// stands in the state the scan reached, its tables hold exactly the
/// scanned names, and the load continues on the remaining lines from
/// there.
pub proof fn lemma_load_of_accepted_lines(
    lv: LoaderView,
    lineno: int,
    accepted: Seq<Seq<char>>,
    rest: Seq<Seq<char>>,
) -> (lv2: LoaderView)
    requires
        lv.state != State::Done,
        lv.state != State::Error,
        spec_scan(lv.state, lv.regexmap.dom(), lv.keymap.dom(), accepted) is Some,
    ensures
        ({
            let (st2, p2, n2) = spec_scan(
                lv.state,
                lv.regexmap.dom(),
                lv.keymap.dom(),
                accepted,
            )->0;
            &&& lv2.state == st2
            &&& lv2.state != State::Done
            &&& lv2.state != State::Error
            &&& lv2.regexmap.dom() == p2
            &&& lv2.keymap.dom() == n2
            &&& spec_load_steps(lv, lineno, accepted + rest) == spec_load_steps(
                lv2,
                lineno + accepted.len(),
                rest,
            )
        }),
    decreases accepted.len(),
{
    if accepted.len() == 0 {
        assert(accepted + rest =~= rest);
        lv
    } else {
        let line = accepted[0];
        assert((accepted + rest).len() > 0);
        assert((accepted + rest)[0] == line);
        assert((accepted + rest).drop_first() =~= accepted.drop_first() + rest);
        let pv = spec_machine_result(lv.state, line)->Ok_0;
        let st2 = spec_machine_next(lv.state, line);
        assert(st2 != State::Done && st2 != State::Error) by {
            match pv {
                ParseResultView::Header(h) => {
                    assert(spec_next_valid_state(lv.state) == Some(spec_header_state(h)));
                },
                _ => {},
            }
        }
        let lv1 = match pv {
            ParseResultView::Regex(rv) => {
                let m = spec_process_regex(lv.regexmap, rv)->Ok_0;
                assert(spec_process_regex(lv.regexmap, rv) is Ok);
                assert(m.dom() =~= lv.regexmap.dom().insert(spec_regex_def_name(rv)));
                LoaderView { regexmap: m, state: st2, ..lv }
            },
            ParseResultView::Node(nv) => {
                assert(spec_node_record(nv, lv.regexmap) is Ok) by {
                    match nv {
                        NodeView::ReVar { variable, .. } => {
                            assert(lv.regexmap.dom().contains(variable));
                            assert(lv.regexmap.contains_key(variable));
                        },
                        _ => {},
                    }
                }
                let (key, gn) = spec_node_record(nv, lv.regexmap)->Ok_0;
                assert(key == spec_node_def_name(nv)) by {
                    match nv {
                        NodeView::Simple(_, _) => {},
                        NodeView::Pair { .. } => {},
                        NodeView::ReVar { .. } => {},
                        NodeView::RegexSimple { .. } => {},
                        NodeView::RegexComplex { .. } => {},
                    }
                }
                let km2 = lv.keymap.insert(key, lv.nodes.len() as usize);
                assert(km2.dom() =~= lv.keymap.dom().insert(spec_node_def_name(nv)));
                LoaderView { keymap: km2, nodes: lv.nodes.push(gn), state: st2, ..lv }
            },
            ParseResultView::Edges(es) => {
                lemma_edges_resolve(lv.keymap, lv.edges, es);
                let (res, es2) = spec_process_edges(lv.keymap, lv.edges, es);
                LoaderView { edges: es2, state: st2, ..lv }
            },
            _ => LoaderView { state: st2, ..lv },
        };
        let (sst, sp, sn) = spec_names_after(
            lv.state,
            lv.regexmap.dom(),
            lv.keymap.dom(),
            line,
        );
        assert(lv1.state == sst);
        assert(lv1.regexmap.dom() == sp);
        assert(lv1.keymap.dom() == sn);
        assert(spec_scan(lv1.state, lv1.regexmap.dom(), lv1.keymap.dom(), accepted.drop_first())
            is Some);
        let lv2 = lemma_load_of_accepted_lines(lv1, lineno + 1, accepted.drop_first(), rest);
        assert(spec_load_steps(lv, lineno, accepted + rest) == spec_load_steps(
            lv1,
            lineno + 1,
            accepted.drop_first() + rest,
        ));
        lv2
    }
}

/// Law: for all valid section-ordered input, the load of a fresh loader
/// produces no error and the automaton ends in `Done`.
pub proof fn theorem_valid_input_ends_done(lv: LoaderView, lines: Seq<Seq<char>>)
    requires
        spec_valid_input(lines),
        lv.state == State::Start,
        lv.regexmap.dom() == Set::<Seq<char>>::empty(),
        lv.keymap.dom() == spec_initial_node_names(),
    ensures
        spec_load_from(lv, 0, lines).0 is Ok,
        spec_load_from(lv, 0, lines).1.state == State::Done,
{
    let lv2 = lemma_load_of_accepted_lines(lv, 0, lines, Seq::empty());
    assert(lines + Seq::<Seq<char>>::empty() =~= lines);
    assert(spec_load_steps(lv, 0, lines) == (Ok::<(), crate::errors::LineErrorView>(()), lv2));
}

/// Law: an input whose lines are accepted up to a header out of the legal
/// order fails at exactly that header's line with `InvalidStateTransition`
/// from the state reached to the state the header asks for, and the load
/// ends in the error state.
pub proof fn theorem_header_out_of_order(
    lv: LoaderView,
    lines: Seq<Seq<char>>,
    k: int,
    st: State,
    h: HeaderView,
)
    requires
        lv.state == State::Start,
        lv.regexmap.dom() == Set::<Seq<char>>::empty(),
        lv.keymap.dom() == spec_initial_node_names(),
        0 <= k < lines.len(),
        lines.len() <= usize::MAX,
        spec_scan(State::Start, Set::empty(), spec_initial_node_names(), lines.take(k))
            matches Some((st0, p0, n0)) && st0 == st,
        spec_state_grammar(st, lines[k]) == Some(ParseResultView::Header(h)),
        spec_next_valid_state(st) != Some(spec_header_state(h)),
    ensures
        spec_load_from(lv, 0, lines).0 matches Err(lev) && lev.line == k + 1 && lev.text
            == lines[k] && lev.state == st && lev.cause == ErrorView::InvalidStateTransition(
            st,
            spec_header_state(h),
        ),
        spec_load_from(lv, 0, lines).1.state == State::Error,
{
    let lv2 = lemma_load_of_accepted_lines(lv, 0, lines.take(k), lines.skip(k));
    assert(lines.take(k) + lines.skip(k) =~= lines);
    assert(lines.skip(k)[0] == lines[k]);
    assert(spec_machine_result(st, lines[k]) == Err::<ParseResultView, ErrorView>(
        ErrorView::InvalidStateTransition(st, spec_header_state(h)),
    ));
}

/// Law: an input whose lines are accepted up to a node definition that
/// references a pattern name not yet defined fails at exactly that line
/// with `RegexMapLookupError` carrying the name, and the load ends in the
/// error state.
pub proof fn theorem_undefined_pattern_reference(
    lv: LoaderView,
    lines: Seq<Seq<char>>,
    k: int,
    st: State,
    pats: Set<Seq<char>>,
    name: Seq<char>,
    variable: Seq<char>,
    md: Option<crate::components::metadata::MetadataView>,
)
    requires
        lv.state == State::Start,
        lv.regexmap.dom() == Set::<Seq<char>>::empty(),
        lv.keymap.dom() == spec_initial_node_names(),
        0 <= k < lines.len(),
        lines.len() <= usize::MAX,
        spec_scan(State::Start, Set::empty(), spec_initial_node_names(), lines.take(k))
            matches Some((st0, p0, n0)) && st0 == st && p0 == pats,
        spec_state_grammar(st, lines[k]) == Some(
            ParseResultView::Node(NodeView::ReVar { name, variable, metadata: md }),
        ),
        !pats.contains(variable),
    ensures
        spec_load_from(lv, 0, lines).0 matches Err(lev) && lev.line == k + 1 && lev.text
            == lines[k] && lev.state == st && lev.cause == ErrorView::RegexMapLookupError(
            variable,
        ),
        spec_load_from(lv, 0, lines).1.state == State::Error,
{
    let lv2 = lemma_load_of_accepted_lines(lv, 0, lines.take(k), lines.skip(k));
    assert(lines.take(k) + lines.skip(k) =~= lines);
    assert(lines.skip(k)[0] == lines[k]);
    assert(!lv2.regexmap.dom().contains(variable));
    assert(!lv2.regexmap.contains_key(variable));
    assert(spec_machine_result(st, lines[k]) == Ok::<ParseResultView, ErrorView>(
        ParseResultView::Node(NodeView::ReVar { name, variable, metadata: md }),
    ));
    assert(spec_node_record(NodeView::ReVar { name, variable, metadata: md }, lv2.regexmap)
        == Err::<(Seq<char>, crate::graph::GraphNodeView), ErrorView>(
        ErrorView::RegexMapLookupError(variable),
    ));
}

/// Law: an input whose lines are accepted up to an edge chain whose first
/// unresolved name stands at link `j` fails at exactly that line with
/// `KeyMapLookupError` carrying that name, and the load ends in the error
/// state.
pub proof fn theorem_undefined_node_reference(
    lv: LoaderView,
    lines: Seq<Seq<char>>,
    k: int,
    st: State,
    node_names: Set<Seq<char>>,
    es: Seq<EdgeView>,
    j: int,
)
    requires
        lv.state == State::Start,
        lv.regexmap.dom() == Set::<Seq<char>>::empty(),
        lv.keymap.dom() == spec_initial_node_names(),
        0 <= k < lines.len(),
        lines.len() <= usize::MAX,
        spec_scan(State::Start, Set::empty(), spec_initial_node_names(), lines.take(k))
            matches Some((st0, p0, n0)) && st0 == st && n0 == node_names,
        spec_state_grammar(st, lines[k]) == Some(ParseResultView::Edges(es)),
        0 <= j < es.len(),
        spec_edges_resolvable(es.take(j), node_names),
        !(node_names.contains(es[j].from) && node_names.contains(es[j].to)),
    ensures
        spec_load_from(lv, 0, lines).0 matches Err(lev) && lev.line == k + 1 && lev.text
            == lines[k] && lev.state == st && lev.cause == ErrorView::KeyMapLookupError(
            if !node_names.contains(es[j].from) {
                es[j].from
            } else {
                es[j].to
            },
        ),
        spec_load_from(lv, 0, lines).1.state == State::Error,
{
    let lv2 = lemma_load_of_accepted_lines(lv, 0, lines.take(k), lines.skip(k));
    assert(lines.take(k) + lines.skip(k) =~= lines);
    assert(lines.skip(k)[0] == lines[k]);
    assert(spec_machine_result(st, lines[k]) == Ok::<ParseResultView, ErrorView>(
        ParseResultView::Edges(es),
    ));
    assert(lv2.keymap.dom() == node_names);
    assert(spec_edges_resolvable(es.take(j), lv2.keymap.dom()));
    lemma_edges_fail(lv2.keymap, lv2.edges, es, j);
}

/// Law: redefining a pattern name raises no error and overwrites the prior
/// entry: registering under the same name twice leaves exactly what
/// registering the second definition alone would have left.
pub proof fn theorem_pattern_redefinition_overwrites(
    m: Map<Seq<char>, NodeTypeView>,
    r1: RegexView,
    r2: RegexView,
)
    requires
        spec_regex_def_name(r1) == spec_regex_def_name(r2),
        spec_regex_def_compiles(r1),
        spec_regex_def_compiles(r2),
    ensures
        spec_process_regex(m, r1) is Ok,
        spec_process_regex(spec_process_regex(m, r1)->Ok_0, r2) is Ok,
        spec_process_regex(spec_process_regex(m, r1)->Ok_0, r2)->Ok_0 == spec_process_regex(
            m,
            r2,
        )->Ok_0,
{
    let m1 = spec_process_regex(m, r1)->Ok_0;
    let m12 = spec_process_regex(m1, r2)->Ok_0;
    let m2 = spec_process_regex(m, r2)->Ok_0;
    assert(m12 =~= m2);
}

/// Law: registering a value in a symbol table under an existing name
/// overwrites the prior entry: the table maps each name to the value
/// written last, and no duplicate-name error exists.
pub proof fn theorem_symbol_insert_overwrites<V>(
    t: Map<Seq<char>, V>,
    key: Seq<char>,
    v1: V,
    v2: V,
)
    ensures
        t.insert(key, v1).insert(key, v2) == t.insert(key, v2),
        t.insert(key, v2)[key] == v2,
{
    assert(t.insert(key, v1).insert(key, v2) =~= t.insert(key, v2));
}

} // verus!
