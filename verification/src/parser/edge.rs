//! Parser for an edge chain line: an identifier followed by one or more
//! `-> identifier` links. A chain of n identifiers produces n-1 edges, one
//! per consecutive pair, in order.

use crate::components::edge::{Edge, EdgeView};
use crate::components::edges_view;
use crate::helpers::{scan_edge_ident, scan_edge_ident_from, skip_spaces, skip_spaces_from, strs_view};
use vstd::prelude::*;

verus! {

broadcast use crate::helpers::group_scan_bounds;

/// The identifiers that the arrow links after position `i` contribute, when
/// the rest of the line from `i` is a well-formed run of `-> identifier`
/// links (possibly none) and nothing else.
pub open spec fn spec_edge_tail(s: Seq<char>, i: int) -> Option<Seq<Seq<char>>>
    decreases s.len() - i,
{
    if i == s.len() {
        Some(Seq::empty())
    } else if 0 <= i && i + 1 < s.len() && s[i] == '-' && s[i + 1] == '>' {
        let i1 = skip_spaces_from(s, i + 2);
        let j = scan_edge_ident_from(s, i1);
        if j > i1 {
            let i2 = skip_spaces_from(s, j);
            match spec_edge_tail(s, i2) {
                Some(rest) => Some(seq![s.subrange(i1, j)] + rest),
                None => None,
            }
        } else {
            None
        }
    } else {
        None
    }
}

/// The full identifier list of an edge chain line: the leading identifier
/// followed by the identifiers of at least one arrow link.
pub open spec fn spec_parse_edge_idents(s: Seq<char>) -> Option<Seq<Seq<char>>> {
    let i0 = skip_spaces_from(s, 0);
    let j = scan_edge_ident_from(s, i0);
    if j > i0 {
        let i1 = skip_spaces_from(s, j);
        match spec_edge_tail(s, i1) {
            Some(rest) => if rest.len() >= 1 {
                Some(seq![s.subrange(i0, j)] + rest)
            } else {
                None
            },
            None => None,
        }
    } else {
        None
    }
}

/// The edges of an identifier chain: one edge per consecutive pair, kept in
/// chain order, never reordered or deduplicated.
pub open spec fn spec_chain_edges(ids: Seq<Seq<char>>) -> Seq<EdgeView>
    recommends
        ids.len() >= 1,
{
    Seq::new((ids.len() - 1) as nat, |k: int| EdgeView { from: ids[k], to: ids[k + 1] })
}

/// What an edge chain line parses to, if anything.
pub open spec fn spec_parse_edges(s: Seq<char>) -> Option<Seq<EdgeView>> {
    match spec_parse_edge_idents(s) {
        Some(ids) => Some(spec_chain_edges(ids)),
        None => None,
    }
}

/// Law: edge-chain parsing is associative left to right. Whenever a line
/// parses as an edge chain over identifiers `ids`, the result holds exactly
/// `ids.len() - 1` edges and the k-th edge joins `ids[k]` to `ids[k + 1]`.
pub proof fn lemma_edge_chain_consecutive_pairs(s: Seq<char>)
    ensures
        spec_parse_edges(s) matches Some(es) ==> {
            let ids = spec_parse_edge_idents(s)->0;
            &&& ids.len() >= 2
            &&& es.len() == ids.len() - 1
            &&& forall|k: int|
                0 <= k < ids.len() - 1 ==> #[trigger] es[k] == (EdgeView {
                    from: ids[k],
                    to: ids[k + 1],
                })
        },
{
}

/// Parse one full line as an edge chain.
pub fn parse_edges(input: &str) -> (r: Option<Vec<Edge>>)
    ensures
        r is Some <==> spec_parse_edges(input@) is Some,
        r matches Some(v) ==> spec_parse_edges(input@) == Some(edges_view(v@)),
{
    let len = input.unicode_len();
    let i0 = skip_spaces(input, 0);
    let j = scan_edge_ident(input, i0);
    if j == i0 {
        return None;
    }
    let mut ids: Vec<String> = Vec::new();
    ids.push(input.substring_char(i0, j).to_owned());
    let mut i = skip_spaces(input, j);
    let ghost tail_start: int = i as int;
    while i < len
        invariant
            i <= len,
            len == input@.len(),
            ids@.len() >= 1,
            strs_view(ids@)[0] == input@.subrange(i0 as int, j as int),
            tail_start == skip_spaces_from(input@, j as int),
            i0 == skip_spaces_from(input@, 0),
            j == scan_edge_ident_from(input@, i0 as int),
            i0 < j <= len,
            match spec_edge_tail(input@, i as int) {
                Some(rest) => spec_edge_tail(input@, tail_start) == Some(
                    strs_view(ids@).drop_first() + rest,
                ),
                None => spec_edge_tail(input@, tail_start) is None,
            },
        decreases len - i,
    {
        if input.get_char(i) != '-' {
            return None;
        }
        if i + 1 >= len || input.get_char(i + 1) != '>' {
            return None;
        }
        let i1 = skip_spaces(input, i + 2);
        let j2 = scan_edge_ident(input, i1);
        if j2 == i1 {
            return None;
        }
        let ident = input.substring_char(i1, j2).to_owned();
        let i_next = skip_spaces(input, j2);
        proof {
            let s = input@;
            assert(spec_edge_tail(s, i as int) == (match spec_edge_tail(s, i_next as int) {
                Some(rest) => Some(seq![s.subrange(i1 as int, j2 as int)] + rest),
                None => None::<Seq<Seq<char>>>,
            }));
        }
        ids.push(ident);
        proof {
            let s = input@;
            assert(strs_view(ids@) =~= strs_view(ids@.drop_last()).push(
                s.subrange(i1 as int, j2 as int),
            ));
            match spec_edge_tail(s, i_next as int) {
                Some(rest) => {
                    assert(strs_view(ids@).drop_first() + rest =~= strs_view(
                        ids@.drop_last(),
                    ).drop_first() + (seq![s.subrange(i1 as int, j2 as int)] + rest));
                },
                None => {},
            }
        }
        i = i_next;
    }
    // The whole line is consumed; the chain must hold at least one link.
    proof {
        let s = input@;
        assert(spec_edge_tail(s, i as int) == Some(Seq::<Seq<char>>::empty()));
        assert(strs_view(ids@).drop_first() + Seq::<Seq<char>>::empty() =~= strs_view(
            ids@,
        ).drop_first());
    }
    if ids.len() < 2 {
        return None;
    }
    proof {
        let s = input@;
        assert(seq![s.subrange(i0 as int, j as int)] + strs_view(ids@).drop_first() =~= strs_view(
            ids@,
        ));
        assert(spec_parse_edge_idents(s) == Some(strs_view(ids@)));
    }
    let mut edges: Vec<Edge> = Vec::new();
    let mut k: usize = 0;
    while k + 1 < ids.len()
        invariant
            k + 1 <= ids.len(),
            ids@.len() >= 2,
            edges@.len() == k,
            spec_parse_edge_idents(input@) == Some(strs_view(ids@)),
            edges_view(edges@) =~= spec_chain_edges(strs_view(ids@)).take(k as int),
        decreases ids.len() - k,
    {
        let from = ids[k].clone();
        let to = ids[k + 1].clone();
        let ghost e_v = EdgeView { from: from@, to: to@ };
        let ghost prev = edges@;
        edges.push(Edge { from, to });
        proof {
            let chain = spec_chain_edges(strs_view(ids@));
            assert(edges@.len() == k + 1);
            assert(edges_view(edges@).len() == k + 1);
            assert(forall|n: int|
                0 <= n < k ==> #[trigger] edges_view(edges@)[n] == edges_view(prev)[n]);
            assert(edges_view(edges@)[k as int] == e_v);
            assert(strs_view(ids@)[k as int] == ids@[k as int]@);
            assert(strs_view(ids@)[k + 1 as int] == ids@[k + 1 as int]@);
            assert(chain[k as int] == e_v);
            assert(edges_view(edges@) =~~= chain.take(k + 1 as int));
        }
        k = k + 1;
    }
    proof {
        assert(spec_chain_edges(strs_view(ids@)).take((ids@.len() - 1) as int) =~= spec_chain_edges(
            strs_view(ids@),
        ));
    }
    Some(edges)
}

} // verus!
