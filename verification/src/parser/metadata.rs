//! Parser for metadata annotations: a nonempty comma-separated list of
//! components (`volume`, `owner : name`, `perms : digits`,
//! `varname : name`), folded into one [`Metadata`] value. A later component
//! overwrites what an earlier one set.

use crate::components::metadata::{
    components_view, spec_default_metadata, Metadata, MetadataComponent, MetadataComponentView,
    MetadataView,
};
use crate::helpers::{
    scan_digits, scan_digits_from, scan_ident, scan_ident_from, skip_multispace,
    skip_multispace_from, skip_spaces, skip_spaces_from, str_eq,
};
use vstd::prelude::*;

verus! {

/// Whether the characters of `lit` stand at position `i` of `s`.
pub open spec fn spec_match_lit(s: Seq<char>, i: int, lit: Seq<char>) -> bool {
    0 <= i && i + lit.len() <= s.len() && s.subrange(i, i + lit.len() as int) == lit
}

/// Executable form of [`spec_match_lit`].
fn match_lit(input: &str, i: usize, lit: &str) -> (r: bool)
    requires
        i <= input@.len(),
    ensures
        r == spec_match_lit(input@, i as int, lit@),
        input@.len() <= usize::MAX,
{
    let ilen = input.unicode_len();
    let llen = lit.unicode_len();
    if llen > ilen - i {
        return false;
    }
    let sub = input.substring_char(i, i + llen);
    str_eq(sub, lit)
}

/// A `volume` component at position `i`: the keyword with whitespace around
/// it. The result carries the position after the component.
pub open spec fn spec_volume_at(s: Seq<char>, i: int) -> Option<(MetadataComponentView, int)> {
    let a = skip_spaces_from(s, i);
    if spec_match_lit(s, a, "volume"@) {
        Some((MetadataComponentView::Volume, skip_spaces_from(s, a + "volume"@.len())))
    } else {
        None
    }
}

/// An `owner : name` component at position `i`.
pub open spec fn spec_owner_at(s: Seq<char>, i: int) -> Option<(MetadataComponentView, int)> {
    let a = skip_spaces_from(s, i);
    if spec_match_lit(s, a, "owner"@) {
        let b = a + "owner"@.len();
        let c = skip_spaces_from(s, b);
        if c < s.len() && s[c] == ':' {
            let d = skip_spaces_from(s, c + 1);
            let k = scan_ident_from(s, d);
            if k > d {
                Some((MetadataComponentView::Owner(s.subrange(d, k)), skip_spaces_from(s, k)))
            } else {
                None
            }
        } else {
            None
        }
    } else {
        None
    }
}

/// A `perms : digits` component at position `i`.
pub open spec fn spec_permissions_at(s: Seq<char>, i: int) -> Option<
    (MetadataComponentView, int),
> {
    let a = skip_spaces_from(s, i);
    if spec_match_lit(s, a, "perms"@) {
        let b = a + "perms"@.len();
        let c = skip_spaces_from(s, b);
        if c < s.len() && s[c] == ':' {
            let d = skip_spaces_from(s, c + 1);
            let k = scan_digits_from(s, d);
            if k > d {
                Some(
                    (MetadataComponentView::Permissions(s.subrange(d, k)), skip_spaces_from(s, k)),
                )
            } else {
                None
            }
        } else {
            None
        }
    } else {
        None
    }
}

/// A `varname : name` component at position `i`.
pub open spec fn spec_varname_at(s: Seq<char>, i: int) -> Option<(MetadataComponentView, int)> {
    let a = skip_spaces_from(s, i);
    if spec_match_lit(s, a, "varname"@) {
        let b = a + "varname"@.len();
        let c = skip_spaces_from(s, b);
        if c < s.len() && s[c] == ':' {
            let d = skip_spaces_from(s, c + 1);
            let k = scan_ident_from(s, d);
            if k > d {
                Some(
                    (MetadataComponentView::EnvVarName(s.subrange(d, k)), skip_spaces_from(s, k)),
                )
            } else {
                None
            }
        } else {
            None
        }
    } else {
        None
    }
}

/// The first component alternative that matches at position `i`, tried as
/// `volume`, then `perms`, then `owner`, then `varname`.
pub open spec fn spec_component_at(s: Seq<char>, i: int) -> Option<(MetadataComponentView, int)> {
    if spec_volume_at(s, i) is Some {
        spec_volume_at(s, i)
    } else if spec_permissions_at(s, i) is Some {
        spec_permissions_at(s, i)
    } else if spec_owner_at(s, i) is Some {
        spec_owner_at(s, i)
    } else {
        spec_varname_at(s, i)
    }
}

/// The components that comma-separated continuations contribute from
/// position `i`: pairs of a comma and a component, taken while both match.
/// The result carries the position where the run stops.
pub open spec fn spec_components_tail(s: Seq<char>, i: int) -> (Seq<MetadataComponentView>, int)
    decreases s.len() - i,
{
    if 0 <= i && i < s.len() && s[i] == ',' {
        match spec_component_at(s, i + 1) {
            Some((c, e)) => if i < e && e <= s.len() {
                let (rest, f) = spec_components_tail(s, e);
                (seq![c] + rest, f)
            } else {
                (Seq::empty(), i)
            },
            None => (Seq::empty(), i),
        }
    } else {
        (Seq::empty(), i)
    }
}

/// A nonempty comma-separated component list starting at position `i`, with
/// the position where it stops.
pub open spec fn spec_parse_components(s: Seq<char>, i: int) -> Option<
    (Seq<MetadataComponentView>, int),
> {
    match spec_component_at(s, i) {
        Some((c, e)) => {
            let (rest, f) = spec_components_tail(s, e);
            Some((seq![c] + rest, f))
        },
        None => None,
    }
}

/// One component applied to a metadata value under construction.
pub open spec fn spec_apply_component(
    m: MetadataView,
    c: MetadataComponentView,
) -> MetadataView {
    match c {
        MetadataComponentView::Volume => MetadataView { volume: true, ..m },
        MetadataComponentView::Permissions(p) => MetadataView { permissions: Some(p), ..m },
        MetadataComponentView::EnvVarName(v) => MetadataView { varname: Some(v), ..m },
        MetadataComponentView::Owner(o) => MetadataView { owner: Some(o), ..m },
        MetadataComponentView::Separator => m,
    }
}

/// A component list folded left to right over the default metadata; a later
/// component overwrites what an earlier one set.
pub open spec fn spec_fold_components(cs: Seq<MetadataComponentView>) -> MetadataView
    decreases cs.len(),
{
    if cs.len() == 0 {
        spec_default_metadata()
    } else {
        spec_apply_component(spec_fold_components(cs.drop_last()), cs.last())
    }
}

/// What a full metadata line parses to, if anything.
pub open spec fn spec_parse_metadata(s: Seq<char>) -> Option<MetadataView> {
    match spec_parse_components(s, 0) {
        Some((cs, f)) => if skip_multispace_from(s, f) == s.len() {
            Some(spec_fold_components(cs))
        } else {
            None
        },
        None => None,
    }
}

/// Executable form of [`spec_volume_at`].
fn volume_at(input: &str, i: usize) -> (r: Option<(MetadataComponent, usize)>)
    requires
        i <= input@.len(),
    ensures
        r is Some <==> spec_volume_at(input@, i as int) is Some,
        r matches Some((c, e)) ==> ({
            &&& spec_volume_at(input@, i as int) == Some((c@, e as int))
            &&& i <= e <= input@.len()
        }),
{
    let a = skip_spaces(input, i);
    if match_lit(input, a, "volume") {
        let e = skip_spaces(input, a + "volume".unicode_len());
        Some((MetadataComponent::Volume, e))
    } else {
        None
    }
}

/// Executable form of [`spec_owner_at`].
fn owner_at(input: &str, i: usize) -> (r: Option<(MetadataComponent, usize)>)
    requires
        i <= input@.len(),
    ensures
        r is Some <==> spec_owner_at(input@, i as int) is Some,
        r matches Some((c, e)) ==> ({
            &&& spec_owner_at(input@, i as int) == Some((c@, e as int))
            &&& i <= e <= input@.len()
        }),
{
    let len = input.unicode_len();
    let a = skip_spaces(input, i);
    if match_lit(input, a, "owner") {
        let b = a + "owner".unicode_len();
        let c = skip_spaces(input, b);
        if c < len && input.get_char(c) == ':' {
            let d = skip_spaces(input, c + 1);
            let k = scan_ident(input, d);
            if k > d {
                let name = input.substring_char(d, k).to_owned();
                let e = skip_spaces(input, k);
                return Some((MetadataComponent::Owner(name), e));
            }
        }
    }
    None
}

/// Executable form of [`spec_permissions_at`].
fn permissions_at(input: &str, i: usize) -> (r: Option<(MetadataComponent, usize)>)
    requires
        i <= input@.len(),
    ensures
        r is Some <==> spec_permissions_at(input@, i as int) is Some,
        r matches Some((c, e)) ==> ({
            &&& spec_permissions_at(input@, i as int) == Some((c@, e as int))
            &&& i <= e <= input@.len()
        }),
{
    let len = input.unicode_len();
    let a = skip_spaces(input, i);
    if match_lit(input, a, "perms") {
        let b = a + "perms".unicode_len();
        let c = skip_spaces(input, b);
        if c < len && input.get_char(c) == ':' {
            let d = skip_spaces(input, c + 1);
            let k = scan_digits(input, d);
            if k > d {
                let perms = input.substring_char(d, k).to_owned();
                let e = skip_spaces(input, k);
                return Some((MetadataComponent::Permissions(perms), e));
            }
        }
    }
    None
}

/// Executable form of [`spec_varname_at`].
fn varname_at(input: &str, i: usize) -> (r: Option<(MetadataComponent, usize)>)
    requires
        i <= input@.len(),
    ensures
        r is Some <==> spec_varname_at(input@, i as int) is Some,
        r matches Some((c, e)) ==> ({
            &&& spec_varname_at(input@, i as int) == Some((c@, e as int))
            &&& i <= e <= input@.len()
        }),
{
    let len = input.unicode_len();
    let a = skip_spaces(input, i);
    if match_lit(input, a, "varname") {
        let b = a + "varname".unicode_len();
        let c = skip_spaces(input, b);
        if c < len && input.get_char(c) == ':' {
            let d = skip_spaces(input, c + 1);
            let k = scan_ident(input, d);
            if k > d {
                let name = input.substring_char(d, k).to_owned();
                let e = skip_spaces(input, k);
                return Some((MetadataComponent::EnvVarName(name), e));
            }
        }
    }
    None
}

/// Executable form of [`spec_component_at`].
fn component_at(input: &str, i: usize) -> (r: Option<(MetadataComponent, usize)>)
    requires
        i <= input@.len(),
    ensures
        r is Some <==> spec_component_at(input@, i as int) is Some,
        r matches Some((c, e)) ==> ({
            &&& spec_component_at(input@, i as int) == Some((c@, e as int))
            &&& i <= e <= input@.len()
        }),
{
    match volume_at(input, i) {
        Some(r) => Some(r),
        None => match permissions_at(input, i) {
            Some(r) => Some(r),
            None => match owner_at(input, i) {
                Some(r) => Some(r),
                None => varname_at(input, i),
            },
        },
    }
}

/// Executable form of [`spec_parse_components`]: the component list starting
/// at `start` and the position where it stops.
fn components_at(input: &str, start: usize) -> (r: Option<(Vec<MetadataComponent>, usize)>)
    requires
        start <= input@.len(),
    ensures
        r is Some <==> spec_parse_components(input@, start as int) is Some,
        r matches Some((v, f)) ==> ({
            let (cs, sf) = spec_parse_components(input@, start as int)->0;
            &&& components_view(v@) == cs
            &&& f == sf
            &&& start <= f <= input@.len()
        }),
{
    let len = input.unicode_len();
    match component_at(input, start) {
        None => None,
        Some((c0, e0)) => {
            let mut comps: Vec<MetadataComponent> = Vec::new();
            comps.push(c0);
            let mut i = e0;
            let ghost tail_start: int = e0 as int;
            loop
                invariant
                    start <= i <= len,
                    len == input@.len(),
                    comps@.len() >= 1,
                    spec_component_at(input@, start as int) matches Some((fc, fe))
                        && fc == components_view(comps@)[0] && fe == tail_start,
                    ({
                        let (t0, t1) = spec_components_tail(input@, tail_start);
                        let (u0, u1) = spec_components_tail(input@, i as int);
                        &&& t0 == components_view(comps@).drop_first() + u0
                        &&& t1 == u1
                    }),
                ensures
                    start <= i <= len,
                    len == input@.len(),
                    comps@.len() >= 1,
                    spec_component_at(input@, start as int) matches Some((fc, fe))
                        && fc == components_view(comps@)[0] && fe == tail_start,
                    spec_components_tail(input@, tail_start) == (
                        components_view(comps@).drop_first(),
                        i as int,
                    ),
                decreases len - i,
            {
                if !(i < len && input.get_char(i) == ',') {
                    proof {
                        let (u0, u1) = spec_components_tail(input@, i as int);
                        assert(u0 =~= Seq::<MetadataComponentView>::empty());
                        assert(components_view(comps@).drop_first() + u0 =~= components_view(
                            comps@,
                        ).drop_first());
                    }
                    break;
                }
                match component_at(input, i + 1) {
                    None => {
                        proof {
                            let (u0, u1) = spec_components_tail(input@, i as int);
                            assert(u0 =~= Seq::<MetadataComponentView>::empty());
                            assert(components_view(comps@).drop_first() + u0 =~= components_view(
                                comps@,
                            ).drop_first());
                        }
                        break;
                    },
                    Some((c2, e2)) => {
                        let ghost prev = comps@;
                        comps.push(c2);
                        proof {
                            let s = input@;
                            let (r0, r1) = spec_components_tail(s, e2 as int);
                            assert(spec_components_tail(s, i as int) == (
                                seq![c2@] + r0,
                                r1,
                            ));
                            assert(components_view(comps@) =~= components_view(prev).push(c2@));
                            assert(components_view(comps@).drop_first() + r0 =~= components_view(
                                prev,
                            ).drop_first() + (seq![c2@] + r0));
                        }
                        i = e2;
                    },
                }
            }
            proof {
                let s = input@;
                let (c0v, e0v) = spec_component_at(s, start as int)->0;
                assert(seq![c0v] + components_view(comps@).drop_first() =~= components_view(
                    comps@,
                ));
                assert(spec_parse_components(s, start as int) == Some((
                    components_view(comps@),
                    i as int,
                )));
            }
            Some((comps, i))
        },
    }
}

/// Takes the component list at the head of the input; the result is the pair
/// of the remaining input and the components, in order.
pub fn parse_components(input: &str) -> (r: Option<(String, Vec<MetadataComponent>)>)
    ensures
        r is Some <==> spec_parse_components(input@, 0) is Some,
        r matches Some((rest, v)) ==> ({
            let (cs, f) = spec_parse_components(input@, 0)->0;
            &&& components_view(v@) == cs
            &&& rest@ == input@.subrange(f, input@.len() as int)
        }),
{
    let len = input.unicode_len();
    match components_at(input, 0) {
        Some((v, f)) => {
            let rest = input.substring_char(f, len);
            Some((rest.to_owned(), v))
        },
        None => None,
    }
}

/// Takes one `volume` component at the head of the input.
pub fn parse_volume(input: &str) -> (r: Option<(String, MetadataComponent)>)
    ensures
        r is Some <==> spec_volume_at(input@, 0) is Some,
        r matches Some((rest, c)) ==> ({
            &&& spec_volume_at(input@, 0) matches Some((cv, e))
            &&& c@ == cv
            &&& rest@ == input@.subrange(e, input@.len() as int)
        }),
{
    let len = input.unicode_len();
    match volume_at(input, 0) {
        Some((c, e)) => {
            let rest = input.substring_char(e, len);
            Some((rest.to_owned(), c))
        },
        None => None,
    }
}

/// Takes one `owner : name` component at the head of the input.
pub fn parse_owner(input: &str) -> (r: Option<(String, MetadataComponent)>)
    ensures
        r is Some <==> spec_owner_at(input@, 0) is Some,
        r matches Some((rest, c)) ==> ({
            &&& spec_owner_at(input@, 0) matches Some((cv, e))
            &&& c@ == cv
            &&& rest@ == input@.subrange(e, input@.len() as int)
        }),
{
    let len = input.unicode_len();
    match owner_at(input, 0) {
        Some((c, e)) => {
            let rest = input.substring_char(e, len);
            Some((rest.to_owned(), c))
        },
        None => None,
    }
}

/// Takes one `perms : digits` component at the head of the input.
pub fn parse_permissions(input: &str) -> (r: Option<(String, MetadataComponent)>)
    ensures
        r is Some <==> spec_permissions_at(input@, 0) is Some,
        r matches Some((rest, c)) ==> ({
            &&& spec_permissions_at(input@, 0) matches Some((cv, e))
            &&& c@ == cv
            &&& rest@ == input@.subrange(e, input@.len() as int)
        }),
{
    let len = input.unicode_len();
    match permissions_at(input, 0) {
        Some((c, e)) => {
            let rest = input.substring_char(e, len);
            Some((rest.to_owned(), c))
        },
        None => None,
    }
}

/// Takes one `varname : name` component at the head of the input.
pub fn parse_varname(input: &str) -> (r: Option<(String, MetadataComponent)>)
    ensures
        r is Some <==> spec_varname_at(input@, 0) is Some,
        r matches Some((rest, c)) ==> ({
            &&& spec_varname_at(input@, 0) matches Some((cv, e))
            &&& c@ == cv
            &&& rest@ == input@.subrange(e, input@.len() as int)
        }),
{
    let len = input.unicode_len();
    match varname_at(input, 0) {
        Some((c, e)) => {
            let rest = input.substring_char(e, len);
            Some((rest.to_owned(), c))
        },
        None => None,
    }
}

/// Parse one full line as a metadata annotation, folding its components.
pub fn parse_metadata(input: &str) -> (r: Option<Metadata>)
    ensures
        r is Some <==> spec_parse_metadata(input@) is Some,
        r matches Some(m) ==> spec_parse_metadata(input@) == Some(m@),
{
    let len = input.unicode_len();
    match components_at(input, 0) {
        None => None,
        Some((comps, f)) => {
            let e = skip_multispace(input, f);
            if e != len {
                return None;
            }
            let mut md = Metadata::new();
            let mut idx: usize = 0;
            while idx < comps.len()
                invariant
                    idx <= comps@.len(),
                    md@ == spec_fold_components(components_view(comps@).take(idx as int)),
                decreases comps@.len() - idx,
            {
                match &comps[idx] {
                    MetadataComponent::Volume => {
                        md.volume = true;
                    },
                    MetadataComponent::Permissions(p) => {
                        md.permissions = Some(p.clone());
                    },
                    MetadataComponent::EnvVarName(v) => {
                        md.varname = Some(v.clone());
                    },
                    MetadataComponent::Owner(o) => {
                        md.owner = Some(o.clone());
                    },
                    MetadataComponent::Separator => {},
                }
                proof {
                    let cs = components_view(comps@);
                    assert(cs.take(idx + 1 as int).drop_last() =~= cs.take(idx as int));
                    assert(cs.take(idx + 1 as int).last() == cs[idx as int]);
                }
                idx = idx + 1;
            }
            proof {
                assert(components_view(comps@).take(comps@.len() as int) =~= components_view(
                    comps@,
                ));
            }
            Some(md)
        },
    }
}

} // verus!
