use vstd::prelude::*;
use crate::delimited::Delimited;
use crate::generics::{
    Attribute, BoundLifetimes, Generics, LifetimeDef, PolyTraitRef, TraitBoundModifier, Type,
    TypeParam, TypeParamBound, WhereBoundPredicate, WhereClause, WherePredicate,
    WhereRegionPredicate,
};
use crate::printing::{
    attr_parts, attr_toks, attrs_toks, bound_lifetimes_toks, bound_parts, bound_toks,
    bracketed_toks, colon_bounds_toks, default_toks,
    lifetime_bounds_toks, lifetime_def_parts, lifetime_def_toks, lifetime_parts,
    opt_bound_lifetimes_toks, poly_trait_ref_toks, segment_parts, segments_toks, type_param_parts,
    type_param_toks, type_toks, bounds_toks, params_comma_toks,
};
use crate::token::{Tok, join_toks, list_toks};
use crate::grammar::{
    attr_end, attrs_end, bound_end, bound_lifetimes_end, bounds_end, bounds_rest, generics_end,
    lifetime_bounds_end, lifetime_bounds_rest, lifetime_def_end, lifetime_defs_end, lifetime_defs_rest,
    lifetime_end, opt_bound_lifetimes_end, path_end, path_rest_end, poly_trait_ref_end, type_param_end,
    type_params_end, type_params_rest, where_clause_end, where_predicate_end, where_predicates_end,
    where_predicates_rest,
};

verus! {

/// The kind of node that failed to parse.
#[derive(Debug, Clone, Copy, PartialEq, Eq)]
pub enum NodeKind {
    Type,
    Attribute,
    Lifetime,
    LifetimeDef,
    BoundLifetimes,
    TraitRef,
    TypeParamBound,
    TypeParam,
    WherePredicate,
}

impl NodeKind {
    /// A label for messages.
    pub fn description(&self) -> (r: &'static str)
        ensures
            *self == NodeKind::Type ==> r@ == "type"@,
            *self == NodeKind::Attribute ==> r@ == "attribute"@,
            *self == NodeKind::Lifetime ==> r@ == "lifetime"@,
            *self == NodeKind::LifetimeDef ==> r@ == "lifetime definition"@,
            *self == NodeKind::BoundLifetimes ==> r@ == "bound lifetimes"@,
            *self == NodeKind::TraitRef ==> r@ == "trait reference"@,
            *self == NodeKind::TypeParamBound ==> r@ == "type parameter bound"@,
            *self == NodeKind::TypeParam ==> r@ == "type parameter"@,
            *self == NodeKind::WherePredicate ==> r@ == "where predicate"@,
    {
        match self {
            NodeKind::Type => "type",
            NodeKind::Attribute => "attribute",
            NodeKind::Lifetime => "lifetime",
            NodeKind::LifetimeDef => "lifetime definition",
            NodeKind::BoundLifetimes => "bound lifetimes",
            NodeKind::TraitRef => "trait reference",
            NodeKind::TypeParamBound => "type parameter bound",
            NodeKind::TypeParam => "type parameter",
            NodeKind::WherePredicate => "where predicate",
        }
    }
}

/// A parse failure: the position at which it was found and the node that
/// was being parsed.
#[derive(Debug, Clone, Copy, PartialEq, Eq)]
pub struct ParseError {
    pub at: usize,
    pub node: NodeKind,
}

/// Where a parse that returned `r` ended.
pub open spec fn end_of<T>(r: Result<(T, usize), ParseError>) -> Option<int> {
    match r {
        Ok((_, n)) => Some(n as int),
        Err(_) => None,
    }
}

/// Punctuation and keywords: the tokens that carry no text.
pub open spec fn is_punct(t: Tok) -> bool {
    !(t is Lifetime) && !(t is Ident)
}

/// Whether a type parameter bound can start with this token.
pub open spec fn starts_bound(t: Tok) -> bool {
    t is Question || t is Lifetime || t is For || t is Ident
}

// The shapes the parser produces.

pub open spec fn attr_wf(a: Attribute) -> bool {
    a.segments@.len() > 0
}

pub open spec fn attrs_wf(attrs: Seq<Attribute>) -> bool {
    forall|k: int| 0 <= k < attrs.len() ==> #[trigger] attr_wf(attrs[k])
}

pub open spec fn type_wf(t: Type) -> bool {
    t.segments@.len() > 0
}

/// A colon exactly where there are bounds.
pub open spec fn lifetime_def_wf(ld: LifetimeDef) -> bool {
    &&& attrs_wf(ld.attrs@)
    &&& ld.colon_token == (ld.bounds.items.len() > 0)
    &&& !ld.bounds.trailing
}

pub open spec fn lifetime_defs_wf(d: Delimited<LifetimeDef>) -> bool {
    &&& d.wf()
    &&& forall|k: int| 0 <= k < d.items@.len() ==> #[trigger] lifetime_def_wf(d.items@[k])
}

pub open spec fn bound_lifetimes_wf(b: BoundLifetimes) -> bool {
    lifetime_defs_wf(b.lifetimes)
}

pub open spec fn opt_bound_lifetimes_wf(b: Option<BoundLifetimes>) -> bool {
    b matches Some(x) ==> bound_lifetimes_wf(x)
}

pub open spec fn poly_trait_ref_wf(p: PolyTraitRef) -> bool {
    opt_bound_lifetimes_wf(p.bound_lifetimes) && p.segments@.len() > 0
}

pub open spec fn bound_wf(b: TypeParamBound) -> bool {
    b matches TypeParamBound::Trait(p, _) ==> poly_trait_ref_wf(p)
}

/// A non-empty list of bounds joined by `+`, with nothing after the last.
pub open spec fn bounds_wf(d: Delimited<TypeParamBound>) -> bool {
    &&& d.items@.len() > 0
    &&& !d.trailing
    &&& forall|k: int| 0 <= k < d.items@.len() ==> #[trigger] bound_wf(d.items@[k])
}

/// A colon exactly where there are bounds, `=` exactly where there is a
/// default.
pub open spec fn type_param_wf(tp: TypeParam) -> bool {
    &&& attrs_wf(tp.attrs@)
    &&& tp.colon_token == (tp.bounds.items.len() > 0)
    &&& (tp.colon_token ==> bounds_wf(tp.bounds))
    &&& !tp.bounds.trailing
    &&& tp.eq_token == (tp.default is Some)
    &&& (tp.default matches Some(t) ==> type_wf(t))
}

pub open spec fn type_params_wf(d: Delimited<TypeParam>) -> bool {
    &&& d.wf()
    &&& forall|k: int| 0 <= k < d.items@.len() ==> #[trigger] type_param_wf(d.items@[k])
}

/// Brackets both present or both absent; no parameters without them; type
/// parameters only after a lifetime list that is empty or ends in `,`.
pub open spec fn generics_wf(g: Generics) -> bool {
    &&& g.lt_token == g.gt_token
    &&& (!g.lt_token ==> g.spec_is_empty_normal())
    &&& (!g.lifetimes.spec_empty_or_trailing() ==> g.ty_params.items.len() == 0)
    &&& lifetime_defs_wf(g.lifetimes)
    &&& type_params_wf(g.ty_params)
}

/// A region predicate has bounds only after a colon; a bound predicate has
/// at least one bound; an equality predicate is never parsed.
pub open spec fn where_predicate_wf(p: WherePredicate) -> bool {
    match p {
        WherePredicate::BoundPredicate(b) => {
            &&& opt_bound_lifetimes_wf(b.bound_lifetimes)
            &&& type_wf(b.bounded_ty)
            &&& bounds_wf(b.bounds)
        },
        WherePredicate::RegionPredicate(r) => {
            &&& !r.bounds.trailing
            &&& (!r.colon_token ==> r.bounds.items.len() == 0)
        },
        WherePredicate::EqPredicate(_) => false,
    }
}

/// The tokens a predicate was parsed from. They differ from what is printed
/// in one case: a region predicate whose colon has no bounds after it.
pub open spec fn where_predicate_source_toks(p: WherePredicate) -> Seq<Tok> {
    match p {
        WherePredicate::BoundPredicate(b) => opt_bound_lifetimes_toks(b.bound_lifetimes) + type_toks(
            b.bounded_ty,
        ) + seq![Tok::Colon] + bounds_toks(b.bounds),
        WherePredicate::RegionPredicate(r) => seq![Tok::Lifetime(r.lifetime)] + if r.colon_token {
            seq![Tok::Colon] + lifetime_bounds_toks(r.bounds)
        } else {
            seq![]
        },
        WherePredicate::EqPredicate(e) => type_toks(e.lhs_ty) + seq![Tok::Eq] + type_toks(e.rhs_ty),
    }
}

pub open spec fn where_predicate_source_parts(s: Seq<WherePredicate>) -> Seq<Seq<Tok>> {
    s.map_values(|p: WherePredicate| where_predicate_source_toks(p))
}

/// Whether token `i` is the punctuation or keyword `t`.
fn peek(toks: &[Tok], i: usize, t: Tok) -> (r: bool)
    requires
        is_punct(t),
    ensures
        r == (i < toks@.len() && toks@[i as int] == t),
        toks@.len() <= usize::MAX,
{
    if i >= toks.len() {
        return false;
    }
    match (&toks[i], t) {
        (Tok::Lt, Tok::Lt) => true,
        (Tok::Gt, Tok::Gt) => true,
        (Tok::Comma, Tok::Comma) => true,
        (Tok::Colon, Tok::Colon) => true,
        (Tok::PathSep, Tok::PathSep) => true,
        (Tok::Plus, Tok::Plus) => true,
        (Tok::Eq, Tok::Eq) => true,
        (Tok::Question, Tok::Question) => true,
        (Tok::Pound, Tok::Pound) => true,
        (Tok::LBracket, Tok::LBracket) => true,
        (Tok::RBracket, Tok::RBracket) => true,
        (Tok::For, Tok::For) => true,
        (Tok::Where, Tok::Where) => true,
        _ => false,
    }
}

/// The name of token `i`, where it is an identifier.
fn ident_at(toks: &[Tok], i: usize) -> (r: Option<String>)
    ensures
        r is Some <==> (i < toks@.len() && toks@[i as int] is Ident),
        r matches Some(s) ==> toks@[i as int] == Tok::Ident(s),
        toks@.len() <= usize::MAX,
{
    if i < toks.len() {
        match &toks[i] {
            Tok::Ident(s) => Some(s.clone()),
            _ => None,
        }
    } else {
        None
    }
}

/// Parses one lifetime token.
pub fn parse_lifetime(toks: &[Tok], pos: usize) -> (r: Result<(String, usize), ParseError>)
    requires
        pos <= toks@.len(),
    ensures
        end_of(r) == lifetime_end(toks@, pos as int),
        r is Ok <==> (pos < toks@.len() && toks@[pos as int] is Lifetime),
        r matches Ok((l, n)) ==> n == pos + 1 && toks@[pos as int] == Tok::Lifetime(l)
            && toks@.subrange(pos as int, n as int) == seq![Tok::Lifetime(l)],
        toks@.len() <= usize::MAX,
{
    if pos < toks.len() {
        match &toks[pos] {
            Tok::Lifetime(l) => {
                let r = l.clone();
                proof {
                    assert(toks@.subrange(pos as int, pos + 1) =~= seq![Tok::Lifetime(r)]);
                }
                Ok((r, pos + 1))
            },
            _ => Err(ParseError { at: pos, node: NodeKind::Lifetime }),
        }
    } else {
        Err(ParseError { at: pos, node: NodeKind::Lifetime })
    }
}

/// Parses a path: identifiers joined by `::`, as many as follow.
fn parse_segments(toks: &[Tok], pos: usize) -> (r: Option<(Vec<String>, usize)>)
    requires
        pos <= toks@.len(),
    ensures
        r is Some <==> (pos < toks@.len() && toks@[pos as int] is Ident),
        r matches Some((_, n)) ==> path_end(toks@, pos as int) == Some(n as int),
        r matches Some((segs, n)) ==> {
            &&& pos < n <= toks@.len()
            &&& segs@.len() > 0
            &&& toks@.subrange(pos as int, n as int) == segments_toks(segs@)
        },
{
    match ident_at(toks, pos) {
        None => None,
        Some(s) => {
            let mut segs: Vec<String> = Vec::new();
            segs.push(s);
            let mut cur: usize = pos + 1;
            proof {
                assert(toks@.subrange(pos as int, cur as int) =~= segments_toks(segs@));
            }
            loop
                invariant
                    pos < cur <= toks@.len(),
                    pos < toks@.len() && toks@[pos as int] is Ident,
                    segs@.len() > 0,
                    toks@.subrange(pos as int, cur as int) == segments_toks(segs@),
                    path_rest_end(toks@, pos + 1) == path_rest_end(toks@, cur as int),
                ensures
                    path_rest_end(toks@, pos + 1) == cur,
                decreases toks@.len() - cur,
            {
                if !peek(toks, cur, Tok::PathSep) {
                    break;
                }
                match ident_at(toks, cur + 1) {
                    None => break,
                    Some(s2) => {
                        let ghost before = segs@;
                        segs.push(s2);
                        proof {
                            assert(segment_parts(segs@).drop_last() =~= segment_parts(before));
                            assert(toks@.subrange(pos as int, cur + 2) =~= toks@.subrange(pos as int, cur as int)
                                + seq![Tok::PathSep] + seq![Tok::Ident(segs@.last())]);
                            assert(toks@.subrange(pos as int, cur + 2) =~= segments_toks(segs@));
                        }
                        cur = cur + 2;
                    },
                }
            }
            Some((segs, cur))
        },
    }
}

impl Type {
    /// Parses a path type.
    pub fn parse(toks: &[Tok], pos: usize) -> (r: Result<(Type, usize), ParseError>)
        requires
            pos <= toks@.len(),
        ensures
            end_of(r) == path_end(toks@, pos as int),
            r matches Ok((t, n)) ==> pos < n <= toks@.len() && type_wf(t)
                && toks@.subrange(pos as int, n as int) == type_toks(t),
    {
        match parse_segments(toks, pos) {
            Some((segments, n)) => Ok((Type { segments }, n)),
            None => Err(ParseError { at: pos, node: NodeKind::Type }),
        }
    }
}

impl Attribute {
    /// Parses an outer attribute `#[path]`.
    pub fn parse(toks: &[Tok], pos: usize) -> (r: Result<(Attribute, usize), ParseError>)
        requires
            pos <= toks@.len(),
        ensures
            end_of(r) == attr_end(toks@, pos as int),
            r matches Ok((a, n)) ==> pos < n <= toks@.len() && attr_wf(a)
                && toks@.subrange(pos as int, n as int) == attr_toks(a),
    {
        let err = ParseError { at: pos, node: NodeKind::Attribute };
        if !(peek(toks, pos, Tok::Pound) && peek(toks, pos + 1, Tok::LBracket)) {
            return Err(err);
        }
        match parse_segments(toks, pos + 2) {
            None => Err(err),
            Some((segments, n)) => {
                if !peek(toks, n, Tok::RBracket) {
                    return Err(err);
                }
                let a = Attribute { segments };
                proof {
                    assert(toks@.subrange(pos as int, n + 1) =~= seq![Tok::Pound, Tok::LBracket]
                        + toks@.subrange(pos + 2, n as int) + seq![Tok::RBracket]);
                }
                Ok((a, n + 1))
            },
        }
    }
}

/// Parses as many outer attributes as follow.
pub fn parse_attrs(toks: &[Tok], pos: usize) -> (r: (Vec<Attribute>, usize))
    requires
        pos <= toks@.len(),
    ensures
        pos <= r.1 <= toks@.len(),
        attrs_wf(r.0@),
        toks@.subrange(pos as int, r.1 as int) == attrs_toks(r.0@),
        r.1 == attrs_end(toks@, pos as int),
        !(pos < toks@.len() && toks@[pos as int] is Pound) ==> r.1 == pos,
{
    let mut attrs: Vec<Attribute> = Vec::new();
    let mut cur: usize = pos;
    proof {
        assert(toks@.subrange(pos as int, cur as int) =~= attrs_toks(attrs@));
    }
    loop
        invariant
            pos <= cur <= toks@.len(),
            attrs_wf(attrs@),
            toks@.subrange(pos as int, cur as int) == attrs_toks(attrs@),
            !(pos < toks@.len() && toks@[pos as int] is Pound) ==> cur == pos,
            attrs_end(toks@, pos as int) == attrs_end(toks@, cur as int),
        ensures
            attrs_end(toks@, pos as int) == cur,
        decreases toks@.len() - cur,
    {
        match Attribute::parse(toks, cur) {
            Err(_) => break,
            Ok((a, n)) => {
                let ghost before = attrs@;
                attrs.push(a);
                proof {
                    assert(attr_parts(attrs@).drop_last() =~= attr_parts(before));
                    assert(toks@.subrange(pos as int, n as int) =~= toks@.subrange(pos as int, cur as int)
                        + toks@.subrange(cur as int, n as int));
                    assert(toks@.subrange(pos as int, n as int) =~= attrs_toks(attrs@));
                }
                cur = n;
            },
        }
    }
    (attrs, cur)
}

/// Parses lifetimes joined by `+`.
///
/// Items are taken while they parse, each after a `+`; a `+` that no item
/// follows is left in place. Fails where not even one item parses.
pub fn parse_lifetime_bounds(toks: &[Tok], pos: usize) -> (r: Option<(Delimited<String>, usize)>)
    requires
        pos <= toks@.len(),
    ensures
        lifetime_bounds_end(toks@, pos as int) == match r {
            Some((_, n)) => Some(n as int),
            None => None::<int>,
        },
        r is Some ==> pos < toks@.len() && toks@[pos as int] is Lifetime,
        r matches Some((d, n)) ==> {
            &&& pos < n <= toks@.len()
            &&& d.items@.len() > 0
            &&& !d.trailing
            &&& toks@[n - 1] is Lifetime
            &&& toks@.subrange(pos as int, n as int) == list_toks(lifetime_parts(d.items@), Tok::Plus, false)
        },
{
    let mut d: Delimited<String> = Delimited::new();
    match parse_lifetime(toks, pos) {
        Err(_) => None,
        Ok((first, next)) => {
            d.items.push(first);
            let mut cur: usize = next;
            proof {
                assert(toks@.subrange(pos as int, cur as int) =~= join_toks(lifetime_parts(d.items@), Tok::Plus));
            }
            loop
                invariant
                    pos < cur <= toks@.len(),
                    pos < toks@.len() && toks@[pos as int] is Lifetime,
                    lifetime_bounds_end(toks@, pos as int) == Some(lifetime_bounds_rest(toks@, cur as int)),
                    d.items@.len() > 0,
                    !d.trailing,
                    toks@[cur - 1] is Lifetime,
                    toks@.subrange(pos as int, cur as int) == join_toks(lifetime_parts(d.items@), Tok::Plus),
                ensures
                    lifetime_bounds_end(toks@, pos as int) == Some(cur as int),
                decreases toks@.len() - cur,
            {
                if !peek(toks, cur, Tok::Plus) {
                    break;
                }
                match parse_lifetime(toks, cur + 1) {
                    Ok((item, after)) => {
                        let ghost before = d.items@;
                        d.items.push(item);
                        proof {
                            assert(lifetime_parts(d.items@).drop_last() =~= lifetime_parts(before));
                            assert(toks@.subrange(pos as int, after as int) =~= toks@.subrange(pos as int, cur as int)
                                + seq![Tok::Plus] + toks@.subrange(cur + 1, after as int));
                            assert(toks@.subrange(pos as int, after as int) =~= join_toks(lifetime_parts(d.items@), Tok::Plus));
                        }
                        cur = after;
                    },
                    Err(_) => {
                        break;
                    },
                }
            }
            proof {
                assert(list_toks(lifetime_parts(d.items@), Tok::Plus, false) =~= join_toks(lifetime_parts(d.items@), Tok::Plus));
            }
            Some((d, cur))
        },
    }
}

/// Parses lifetime definitions joined by `,`.
///
/// Items are taken while they parse, each after a `,`; a `,` that no item
/// follows ends the list as its trailing delimiter. Never fails: an empty
/// list is the result where no item parses.
pub fn parse_lifetime_defs(toks: &[Tok], pos: usize) -> (r: (Delimited<LifetimeDef>, usize))
    requires
        pos <= toks@.len(),
    ensures
        pos <= r.1 <= toks@.len(),
        r.1 == lifetime_defs_end(toks@, pos as int),
        r.0.wf(),
        forall|k: int| 0 <= k < r.0.items@.len() ==> #[trigger] lifetime_def_wf(r.0.items@[k]),
        r.0.spec_empty_or_trailing() <==> (r.1 == pos || toks@[r.1 - 1] is Comma),
        toks@.subrange(pos as int, r.1 as int) == list_toks(lifetime_def_parts(r.0.items@), Tok::Comma, r.0.trailing),
{
    let mut d: Delimited<LifetimeDef> = Delimited::new();
    match LifetimeDef::parse(toks, pos) {
        Err(_) => {
            proof {
                assert(toks@.subrange(pos as int, pos as int) =~= list_toks(lifetime_def_parts(d.items@), Tok::Comma, d.trailing));
            }
            (d, pos)
        },
        Ok((first, next)) => {
            d.items.push(first);
            let mut cur: usize = next;
            proof {
                assert(toks@.subrange(pos as int, cur as int) =~= join_toks(lifetime_def_parts(d.items@), Tok::Comma));
            }
            loop
                invariant_except_break
                    !d.trailing,
                    lifetime_defs_end(toks@, pos as int) == lifetime_defs_rest(toks@, cur as int),
                invariant
                    pos < cur <= toks@.len(),
                    d.items@.len() > 0,
                    forall|k: int| 0 <= k < d.items@.len() ==> #[trigger] lifetime_def_wf(d.items@[k]),
                    toks@[cur - 1] is Comma <==> d.trailing,
                    toks@.subrange(pos as int, cur as int) == join_toks(lifetime_def_parts(d.items@), Tok::Comma) + if d.trailing {
                        seq![Tok::Comma]
                    } else {
                        seq![]
                    },
                ensures
                    lifetime_defs_end(toks@, pos as int) == cur,
                decreases toks@.len() - cur,
            {
                if !peek(toks, cur, Tok::Comma) {
                    break;
                }
                match LifetimeDef::parse(toks, cur + 1) {
                    Ok((item, after)) => {
                        let ghost before = d.items@;
                        d.items.push(item);
                        proof {
                            assert(lifetime_def_parts(d.items@).drop_last() =~= lifetime_def_parts(before));
                            assert(toks@.subrange(pos as int, after as int) =~= toks@.subrange(pos as int, cur as int)
                                + seq![Tok::Comma] + toks@.subrange(cur + 1, after as int));
                            assert(toks@.subrange(pos as int, after as int) =~= join_toks(lifetime_def_parts(d.items@), Tok::Comma));
                        }
                        cur = after;
                    },
                    Err(_) => {
                        d.trailing = true;
                        proof {
                            assert(toks@.subrange(pos as int, cur + 1) =~= toks@.subrange(pos as int, cur as int)
                                + seq![Tok::Comma]);
                        }
                        cur = cur + 1;
                        break;
                    },
                }
            }
            (d, cur)
        },
    }
}

/// Parses type parameter bounds joined by `+`.
///
/// Items are taken while they parse, each after a `+`; a `+` that no item
/// follows is left in place. Fails where not even one item parses.
pub fn parse_bounds(toks: &[Tok], pos: usize) -> (r: Option<(Delimited<TypeParamBound>, usize)>)
    requires
        pos <= toks@.len(),
    ensures
        bounds_end(toks@, pos as int) == match r {
            Some((_, n)) => Some(n as int),
            None => None::<int>,
        },
        r is Some ==> pos < toks@.len() && starts_bound(toks@[pos as int]),
        r matches Some((d, n)) ==> {
            &&& pos < n <= toks@.len()
            &&& d.items@.len() > 0
            &&& !d.trailing
            &&& forall|k: int| 0 <= k < d.items@.len() ==> #[trigger] bound_wf(d.items@[k])
            &&& toks@.subrange(pos as int, n as int) == list_toks(bound_parts(d.items@), Tok::Plus, false)
        },
{
    let mut d: Delimited<TypeParamBound> = Delimited::new();
    match TypeParamBound::parse(toks, pos) {
        Err(_) => None,
        Ok((first, next)) => {
            d.items.push(first);
            let mut cur: usize = next;
            proof {
                assert(toks@.subrange(pos as int, cur as int) =~= join_toks(bound_parts(d.items@), Tok::Plus));
            }
            loop
                invariant
                    pos < cur <= toks@.len(),
                    pos < toks@.len() && starts_bound(toks@[pos as int]),
                    bounds_end(toks@, pos as int) == Some(bounds_rest(toks@, cur as int)),
                    d.items@.len() > 0,
                    !d.trailing,
                    forall|k: int| 0 <= k < d.items@.len() ==> #[trigger] bound_wf(d.items@[k]),
                    toks@.subrange(pos as int, cur as int) == join_toks(bound_parts(d.items@), Tok::Plus),
                ensures
                    bounds_end(toks@, pos as int) == Some(cur as int),
                decreases toks@.len() - cur,
            {
                if !peek(toks, cur, Tok::Plus) {
                    break;
                }
                match TypeParamBound::parse(toks, cur + 1) {
                    Ok((item, after)) => {
                        let ghost before = d.items@;
                        d.items.push(item);
                        proof {
                            assert(bound_parts(d.items@).drop_last() =~= bound_parts(before));
                            assert(toks@.subrange(pos as int, after as int) =~= toks@.subrange(pos as int, cur as int)
                                + seq![Tok::Plus] + toks@.subrange(cur + 1, after as int));
                            assert(toks@.subrange(pos as int, after as int) =~= join_toks(bound_parts(d.items@), Tok::Plus));
                        }
                        cur = after;
                    },
                    Err(_) => {
                        break;
                    },
                }
            }
            proof {
                assert(list_toks(bound_parts(d.items@), Tok::Plus, false) =~= join_toks(bound_parts(d.items@), Tok::Plus));
            }
            Some((d, cur))
        },
    }
}

/// Parses type parameters joined by `,`.
///
/// Items are taken while they parse, each after a `,`; a `,` that no item
/// follows ends the list as its trailing delimiter. Never fails: an empty
/// list is the result where no item parses.
pub fn parse_type_params(toks: &[Tok], pos: usize) -> (r: (Delimited<TypeParam>, usize))
    requires
        pos <= toks@.len(),
    ensures
        pos <= r.1 <= toks@.len(),
        r.1 == type_params_end(toks@, pos as int),
        r.0.wf(),
        forall|k: int| 0 <= k < r.0.items@.len() ==> #[trigger] type_param_wf(r.0.items@[k]),
        toks@.subrange(pos as int, r.1 as int) == list_toks(type_param_parts(r.0.items@), Tok::Comma, r.0.trailing),
{
    let mut d: Delimited<TypeParam> = Delimited::new();
    match TypeParam::parse(toks, pos) {
        Err(_) => {
            proof {
                assert(toks@.subrange(pos as int, pos as int) =~= list_toks(type_param_parts(d.items@), Tok::Comma, d.trailing));
            }
            (d, pos)
        },
        Ok((first, next)) => {
            d.items.push(first);
            let mut cur: usize = next;
            proof {
                assert(toks@.subrange(pos as int, cur as int) =~= join_toks(type_param_parts(d.items@), Tok::Comma));
            }
            loop
                invariant_except_break
                    !d.trailing,
                    type_params_end(toks@, pos as int) == type_params_rest(toks@, cur as int),
                invariant
                    pos < cur <= toks@.len(),
                    d.items@.len() > 0,
                    forall|k: int| 0 <= k < d.items@.len() ==> #[trigger] type_param_wf(d.items@[k]),
                    toks@.subrange(pos as int, cur as int) == join_toks(type_param_parts(d.items@), Tok::Comma) + if d.trailing {
                        seq![Tok::Comma]
                    } else {
                        seq![]
                    },
                ensures
                    type_params_end(toks@, pos as int) == cur,
                decreases toks@.len() - cur,
            {
                if !peek(toks, cur, Tok::Comma) {
                    break;
                }
                match TypeParam::parse(toks, cur + 1) {
                    Ok((item, after)) => {
                        let ghost before = d.items@;
                        d.items.push(item);
                        proof {
                            assert(type_param_parts(d.items@).drop_last() =~= type_param_parts(before));
                            assert(toks@.subrange(pos as int, after as int) =~= toks@.subrange(pos as int, cur as int)
                                + seq![Tok::Comma] + toks@.subrange(cur + 1, after as int));
                            assert(toks@.subrange(pos as int, after as int) =~= join_toks(type_param_parts(d.items@), Tok::Comma));
                        }
                        cur = after;
                    },
                    Err(_) => {
                        d.trailing = true;
                        proof {
                            assert(toks@.subrange(pos as int, cur + 1) =~= toks@.subrange(pos as int, cur as int)
                                + seq![Tok::Comma]);
                        }
                        cur = cur + 1;
                        break;
                    },
                }
            }
            (d, cur)
        },
    }
}

/// Parses where-predicates joined by `,`.
///
/// Items are taken while they parse, each after a `,`; a `,` that no item
/// follows ends the list as its trailing delimiter. Never fails: an empty
/// list is the result where no item parses.
pub fn parse_where_predicates(toks: &[Tok], pos: usize) -> (r: (Delimited<WherePredicate>, usize))
    requires
        pos <= toks@.len(),
    ensures
        pos <= r.1 <= toks@.len(),
        r.1 == where_predicates_end(toks@, pos as int),
        r.0.wf(),
        forall|k: int| 0 <= k < r.0.items@.len() ==> #[trigger] where_predicate_wf(r.0.items@[k]),
        toks@.subrange(pos as int, r.1 as int) == list_toks(where_predicate_source_parts(r.0.items@), Tok::Comma, r.0.trailing),
{
    let mut d: Delimited<WherePredicate> = Delimited::new();
    match WherePredicate::parse(toks, pos) {
        Err(_) => {
            proof {
                assert(toks@.subrange(pos as int, pos as int) =~= list_toks(where_predicate_source_parts(d.items@), Tok::Comma, d.trailing));
            }
            (d, pos)
        },
        Ok((first, next)) => {
            d.items.push(first);
            let mut cur: usize = next;
            proof {
                assert(toks@.subrange(pos as int, cur as int) =~= join_toks(where_predicate_source_parts(d.items@), Tok::Comma));
            }
            loop
                invariant_except_break
                    !d.trailing,
                    where_predicates_end(toks@, pos as int) == where_predicates_rest(toks@, cur as int),
                invariant
                    pos < cur <= toks@.len(),
                    d.items@.len() > 0,
                    forall|k: int| 0 <= k < d.items@.len() ==> #[trigger] where_predicate_wf(d.items@[k]),
                    toks@.subrange(pos as int, cur as int) == join_toks(where_predicate_source_parts(d.items@), Tok::Comma) + if d.trailing {
                        seq![Tok::Comma]
                    } else {
                        seq![]
                    },
                ensures
                    where_predicates_end(toks@, pos as int) == cur,
                decreases toks@.len() - cur,
            {
                if !peek(toks, cur, Tok::Comma) {
                    break;
                }
                match WherePredicate::parse(toks, cur + 1) {
                    Ok((item, after)) => {
                        let ghost before = d.items@;
                        d.items.push(item);
                        proof {
                            assert(where_predicate_source_parts(d.items@).drop_last() =~= where_predicate_source_parts(before));
                            assert(toks@.subrange(pos as int, after as int) =~= toks@.subrange(pos as int, cur as int)
                                + seq![Tok::Comma] + toks@.subrange(cur + 1, after as int));
                            assert(toks@.subrange(pos as int, after as int) =~= join_toks(where_predicate_source_parts(d.items@), Tok::Comma));
                        }
                        cur = after;
                    },
                    Err(_) => {
                        d.trailing = true;
                        proof {
                            assert(toks@.subrange(pos as int, cur + 1) =~= toks@.subrange(pos as int, cur as int)
                                + seq![Tok::Comma]);
                        }
                        cur = cur + 1;
                        break;
                    },
                }
            }
            (d, cur)
        },
    }
}

impl LifetimeDef {
    /// Parses attributes, a lifetime, and, after a colon, one or more
    /// lifetimes joined by `+`. A colon with no lifetime after it fails.
    pub fn parse(toks: &[Tok], pos: usize) -> (r: Result<(LifetimeDef, usize), ParseError>)
        requires
            pos <= toks@.len(),
        ensures
            end_of(r) == lifetime_def_end(toks@, pos as int),
            r matches Ok((ld, n)) ==> {
                &&& pos < n <= toks@.len()
                &&& toks@[n - 1] is Lifetime
                &&& lifetime_def_wf(ld)
                &&& toks@.subrange(pos as int, n as int) == lifetime_def_toks(ld)
            },
    {
        proof {
            reveal(lifetime_def_end);
        }
        let (attrs, c0) = parse_attrs(toks, pos);
        let (lifetime, c1) = match parse_lifetime(toks, c0) {
            Ok(x) => x,
            Err(_) => return Err(ParseError { at: c0, node: NodeKind::LifetimeDef }),
        };
        if peek(toks, c1, Tok::Colon) {
            match parse_lifetime_bounds(toks, c1 + 1) {
                None => Err(ParseError { at: c1 + 1, node: NodeKind::LifetimeDef }),
                Some((bounds, n)) => {
                    let ld = LifetimeDef { attrs, lifetime, colon_token: true, bounds };
                    proof {
                        assert(toks@.subrange(pos as int, n as int) =~= toks@.subrange(pos as int, c0 as int)
                            + toks@.subrange(c0 as int, c1 as int) + seq![Tok::Colon] + toks@.subrange(c1 + 1, n as int));
                        assert(toks@.subrange(pos as int, n as int) =~= lifetime_def_toks(ld));
                    }
                    Ok((ld, n))
                },
            }
        } else {
            let ld = LifetimeDef { attrs, lifetime, colon_token: false, bounds: Delimited::new() };
            proof {
                assert(toks@.subrange(pos as int, c1 as int) =~= toks@.subrange(pos as int, c0 as int)
                    + toks@.subrange(c0 as int, c1 as int));
                assert(toks@.subrange(pos as int, c1 as int) =~= lifetime_def_toks(ld));
            }
            Ok((ld, c1))
        }
    }
}

impl BoundLifetimes {
    /// Parses `for<` lifetime definitions `>`.
    pub fn parse(toks: &[Tok], pos: usize) -> (r: Result<(BoundLifetimes, usize), ParseError>)
        requires
            pos <= toks@.len(),
        ensures
            end_of(r) == bound_lifetimes_end(toks@, pos as int),
            r matches Ok((b, n)) ==> {
                &&& pos < n <= toks@.len()
                &&& bound_lifetimes_wf(b)
                &&& toks@.subrange(pos as int, n as int) == bound_lifetimes_toks(b)
            },
    {
        let err = ParseError { at: pos, node: NodeKind::BoundLifetimes };
        if !(peek(toks, pos, Tok::For) && peek(toks, pos + 1, Tok::Lt)) {
            return Err(err);
        }
        let (lifetimes, c) = parse_lifetime_defs(toks, pos + 2);
        if !peek(toks, c, Tok::Gt) {
            return Err(err);
        }
        let b = BoundLifetimes { lifetimes };
        proof {
            assert(toks@.subrange(pos as int, c + 1) =~= seq![Tok::For, Tok::Lt] + toks@.subrange(pos + 2, c as int)
                + seq![Tok::Gt]);
        }
        Ok((b, c + 1))
    }
}

/// Parses `for<...>` where it comes; nothing otherwise.
fn parse_opt_bound_lifetimes(toks: &[Tok], pos: usize) -> (r: Result<(Option<BoundLifetimes>, usize), ParseError>)
    requires
        pos <= toks@.len(),
    ensures
        end_of(r) == opt_bound_lifetimes_end(toks@, pos as int),
        !(pos < toks@.len() && toks@[pos as int] is For) ==> r == Ok::<(Option<BoundLifetimes>, usize), ParseError>((None, pos)),
        r matches Ok((b, n)) ==> {
            &&& pos <= n <= toks@.len()
            &&& opt_bound_lifetimes_wf(b)
            &&& toks@.subrange(pos as int, n as int) == opt_bound_lifetimes_toks(b)
        },
{
    if peek(toks, pos, Tok::For) {
        match BoundLifetimes::parse(toks, pos) {
            Ok((b, n)) => Ok((Some(b), n)),
            Err(e) => Err(e),
        }
    } else {
        proof {
            assert(toks@.subrange(pos as int, pos as int) =~= opt_bound_lifetimes_toks(None));
        }
        Ok((None, pos))
    }
}

impl PolyTraitRef {
    /// Parses an optional `for<...>` binder and a trait path.
    pub fn parse(toks: &[Tok], pos: usize) -> (r: Result<(PolyTraitRef, usize), ParseError>)
        requires
            pos <= toks@.len(),
        ensures
            end_of(r) == poly_trait_ref_end(toks@, pos as int),
            r is Ok ==> pos < toks@.len() && (toks@[pos as int] is For || toks@[pos as int] is Ident),
            r matches Ok((p, n)) ==> {
                &&& pos < n <= toks@.len()
                &&& poly_trait_ref_wf(p)
                &&& toks@.subrange(pos as int, n as int) == poly_trait_ref_toks(p)
            },
    {
        let (bound_lifetimes, c) = match parse_opt_bound_lifetimes(toks, pos) {
            Ok(x) => x,
            Err(e) => return Err(e),
        };
        match parse_segments(toks, c) {
            None => Err(ParseError { at: c, node: NodeKind::TraitRef }),
            Some((segments, n)) => {
                let p = PolyTraitRef { bound_lifetimes, segments };
                proof {
                    assert(toks@.subrange(pos as int, n as int) =~= toks@.subrange(pos as int, c as int)
                        + toks@.subrange(c as int, n as int));
                }
                Ok((p, n))
            },
        }
    }
}

impl TypeParamBound {
    /// Parses a bound: `?` and a trait, a lifetime, or a trait, tried in that
    /// order.
    pub fn parse(toks: &[Tok], pos: usize) -> (r: Result<(TypeParamBound, usize), ParseError>)
        requires
            pos <= toks@.len(),
        ensures
            end_of(r) == bound_end(toks@, pos as int),
            r is Ok ==> pos < toks@.len() && starts_bound(toks@[pos as int]),
            r matches Ok((b, n)) ==> {
                &&& pos < n <= toks@.len()
                &&& bound_wf(b)
                &&& toks@.subrange(pos as int, n as int) == bound_toks(b)
            },
    {
        proof {
            reveal(bound_end);
        }
        if peek(toks, pos, Tok::Question) {
            match PolyTraitRef::parse(toks, pos + 1) {
                Ok((p, n)) => {
                    let b = TypeParamBound::Trait(p, TraitBoundModifier::Maybe);
                    proof {
                        assert(toks@.subrange(pos as int, n as int) =~= seq![Tok::Question]
                            + toks@.subrange(pos + 1, n as int));
                        assert(toks@.subrange(pos as int, n as int) =~= bound_toks(b));
                    }
                    Ok((b, n))
                },
                Err(_) => Err(ParseError { at: pos, node: NodeKind::TypeParamBound }),
            }
        } else {
            match parse_lifetime(toks, pos) {
                Ok((l, n)) => Ok((TypeParamBound::Region(l), n)),
                Err(_) => match PolyTraitRef::parse(toks, pos) {
                    Ok((p, n)) => {
                        let b = TypeParamBound::Trait(p, TraitBoundModifier::Plain);
                        proof {
                            assert(toks@.subrange(pos as int, n as int) =~= bound_toks(b));
                        }
                        Ok((b, n))
                    },
                    Err(_) => Err(ParseError { at: pos, node: NodeKind::TypeParamBound }),
                },
            }
        }
    }
}

impl TypeParam {
    /// Parses attributes, a name, after a colon one or more bounds joined by
    /// `+`, and after `=` a default type. A colon with no bound after it
    /// fails; an `=` with no type after it is left in place.
    pub fn parse(toks: &[Tok], pos: usize) -> (r: Result<(TypeParam, usize), ParseError>)
        requires
            pos <= toks@.len(),
        ensures
            end_of(r) == type_param_end(toks@, pos as int),
            r matches Ok((tp, n)) ==> {
                &&& pos < n <= toks@.len()
                &&& type_param_wf(tp)
                &&& toks@.subrange(pos as int, n as int) == type_param_toks(tp)
            },
            ({
                &&& pos + 1 < toks@.len()
                &&& toks@[pos as int] is Ident
                &&& toks@[pos + 1] is Colon
                &&& (pos + 2 == toks@.len() || !starts_bound(toks@[pos + 2]))
            }) ==> r is Err,
    {
        proof {
            reveal(type_param_end);
        }
        let (attrs, c0) = parse_attrs(toks, pos);
        let ident = match ident_at(toks, c0) {
            Some(s) => s,
            None => return Err(ParseError { at: c0, node: NodeKind::TypeParam }),
        };
        let c1: usize = c0 + 1;
        let ghost head = toks@.subrange(pos as int, c1 as int);
        proof {
            assert(head =~= attrs_toks(attrs@) + seq![Tok::Ident(ident)]);
        }
        let (colon_token, bounds, c2) = if peek(toks, c1, Tok::Colon) {
            match parse_bounds(toks, c1 + 1) {
                None => return Err(ParseError { at: c1 + 1, node: NodeKind::TypeParam }),
                Some((b, n)) => {
                    proof {
                        assert(toks@.subrange(c1 as int, n as int) =~= colon_bounds_toks(b));
                    }
                    (true, b, n)
                },
            }
        } else {
            let b = Delimited::new();
            proof {
                assert(toks@.subrange(c1 as int, c1 as int) =~= colon_bounds_toks(b));
            }
            (false, b, c1)
        };
        let (eq_token, default, c3) = if peek(toks, c2, Tok::Eq) {
            match Type::parse(toks, c2 + 1) {
                Ok((t, n)) => {
                    proof {
                        assert(toks@.subrange(c2 as int, n as int) =~= default_toks(Some(t)));
                    }
                    (true, Some(t), n)
                },
                Err(_) => {
                    proof {
                        assert(toks@.subrange(c2 as int, c2 as int) =~= default_toks(None));
                    }
                    (false, None, c2)
                },
            }
        } else {
            proof {
                assert(toks@.subrange(c2 as int, c2 as int) =~= default_toks(None));
            }
            (false, None, c2)
        };
        let tp = TypeParam { attrs, ident, colon_token, bounds, eq_token, default };
        proof {
            assert(toks@.subrange(pos as int, c3 as int) =~= toks@.subrange(pos as int, c1 as int)
                + toks@.subrange(c1 as int, c2 as int) + toks@.subrange(c2 as int, c3 as int));
            assert(toks@.subrange(pos as int, c3 as int) =~= type_param_toks(tp));
        }
        Ok((tp, c3))
    }
}

impl Generics {
    /// Parses `<`, lifetime definitions, type parameters, `>`. Type
    /// parameters are looked for only after a lifetime list that is empty or
    /// ends in `,`.
    ///
    /// Never fails: where no bracketed list parses, the result is the empty
    /// value and nothing is consumed. The where-clause is left empty for the
    /// owner of the declaration to attach.
    pub fn parse(toks: &[Tok], pos: usize) -> (r: (Generics, usize))
        requires
            pos <= toks@.len(),
        ensures
            pos <= r.1 <= toks@.len(),
            r.1 == generics_end(toks@, pos as int),
            generics_wf(r.0),
            r.0.where_clause.is_none_clause(),
            toks@.subrange(pos as int, r.1 as int) == if r.0.lt_token {
                bracketed_toks(r.0)
            } else {
                seq![]
            },
    {
        if peek(toks, pos, Tok::Lt) {
            let (lifetimes, c1) = parse_lifetime_defs(toks, pos + 1);
            let (ty_params, c2) = if lifetimes.empty_or_trailing() {
                parse_type_params(toks, c1)
            } else {
                let d = Delimited::new();
                proof {
                    assert(toks@.subrange(c1 as int, c1 as int) =~= list_toks(
                        type_param_parts(d.items@),
                        Tok::Comma,
                        d.trailing,
                    ));
                }
                (d, c1)
            };
            if peek(toks, c2, Tok::Gt) {
                let g = Generics {
                    lt_token: true,
                    gt_token: true,
                    lifetimes,
                    ty_params,
                    where_clause: WhereClause::none(),
                };
                proof {
                    assert(params_comma_toks(g) =~= seq![]);
                    assert(toks@.subrange(pos as int, c2 + 1) =~= seq![Tok::Lt] + toks@.subrange(pos + 1, c1 as int)
                        + toks@.subrange(c1 as int, c2 as int) + seq![Tok::Gt]);
                    assert(toks@.subrange(pos as int, c2 + 1) =~= bracketed_toks(g));
                }
                return (g, c2 + 1);
            }
        }
        let g = Generics::new();
        proof {
            assert(toks@.subrange(pos as int, pos as int) =~= seq![]);
        }
        (g, pos)
    }
}

impl WherePredicate {
    /// Parses a region predicate (a lifetime, and after a colon lifetimes
    /// joined by `+`, maybe none) or else a bound predicate (an optional
    /// `for<...>`, a type, a colon, one or more bounds). Equality predicates
    /// are not parsed.
    pub fn parse(toks: &[Tok], pos: usize) -> (r: Result<(WherePredicate, usize), ParseError>)
        requires
            pos <= toks@.len(),
        ensures
            end_of(r) == where_predicate_end(toks@, pos as int),
            r matches Ok((p, n)) ==> {
                &&& pos < n <= toks@.len()
                &&& where_predicate_wf(p)
                &&& !(p is EqPredicate)
                &&& toks@.subrange(pos as int, n as int) == where_predicate_source_toks(p)
            },
            (pos < toks@.len() && toks@[pos as int] is Lifetime) ==> (r matches Ok((p, _)) && p is RegionPredicate),
    {
        proof {
            reveal(where_predicate_end);
        }
        if let Ok((lifetime, c)) = parse_lifetime(toks, pos) {
            if peek(toks, c, Tok::Colon) {
                let (bounds, n) = match parse_lifetime_bounds(toks, c + 1) {
                    Some(x) => x,
                    None => (Delimited::new(), c + 1),
                };
                let p = WherePredicate::RegionPredicate(WhereRegionPredicate { lifetime, colon_token: true, bounds });
                proof {
                    assert(toks@.subrange(pos as int, n as int) =~= toks@.subrange(pos as int, c as int) + seq![Tok::Colon]
                        + toks@.subrange(c + 1, n as int));
                    assert(toks@.subrange(pos as int, n as int) =~= where_predicate_source_toks(p));
                }
                return Ok((p, n));
            } else {
                let p = WherePredicate::RegionPredicate(
                    WhereRegionPredicate { lifetime, colon_token: false, bounds: Delimited::new() },
                );
                proof {
                    assert(toks@.subrange(pos as int, c as int) =~= where_predicate_source_toks(p));
                }
                return Ok((p, c));
            }
        }
        let err = ParseError { at: pos, node: NodeKind::WherePredicate };
        let (bound_lifetimes, c0) = match parse_opt_bound_lifetimes(toks, pos) {
            Ok(x) => x,
            Err(_) => return Err(err),
        };
        let (bounded_ty, c1) = match Type::parse(toks, c0) {
            Ok(x) => x,
            Err(_) => return Err(err),
        };
        if !peek(toks, c1, Tok::Colon) {
            return Err(err);
        }
        match parse_bounds(toks, c1 + 1) {
            None => Err(err),
            Some((bounds, n)) => {
                let p = WherePredicate::BoundPredicate(WhereBoundPredicate { bound_lifetimes, bounded_ty, bounds });
                proof {
                    assert(toks@.subrange(pos as int, n as int) =~= toks@.subrange(pos as int, c0 as int)
                        + toks@.subrange(c0 as int, c1 as int) + seq![Tok::Colon] + toks@.subrange(c1 + 1, n as int));
                    assert(toks@.subrange(pos as int, n as int) =~= where_predicate_source_toks(p));
                }
                Ok((p, n))
            },
        }
    }
}

impl WhereClause {
    /// Parses `where` and the predicates joined by `,` that follow it.
    ///
    /// Never fails: without the keyword the result is the empty clause and
    /// nothing is consumed.
    pub fn parse(toks: &[Tok], pos: usize) -> (r: (WhereClause, usize))
        requires
            pos <= toks@.len(),
        ensures
            pos <= r.1 <= toks@.len(),
            r.1 == where_clause_end(toks@, pos as int),
            r.0.where_token == (pos < toks@.len() && toks@[pos as int] is Where),
            r.0.predicates.wf(),
            forall|k: int|
                0 <= k < r.0.predicates.items@.len() ==> {
                    &&& #[trigger] where_predicate_wf(r.0.predicates.items@[k])
                    &&& !(r.0.predicates.items@[k] is EqPredicate)
                },
            toks@.subrange(pos as int, r.1 as int) == if r.0.where_token {
                seq![Tok::Where] + list_toks(
                    where_predicate_source_parts(r.0.predicates.items@),
                    Tok::Comma,
                    r.0.predicates.trailing,
                )
            } else {
                seq![]
            },
            !r.0.where_token ==> r.0.is_none_clause(),
    {
        if peek(toks, pos, Tok::Where) {
            let (predicates, n) = parse_where_predicates(toks, pos + 1);
            proof {
                assert(toks@.subrange(pos as int, n as int) =~= seq![Tok::Where] + toks@.subrange(pos + 1, n as int));
            }
            (WhereClause { where_token: true, predicates }, n)
        } else {
            proof {
                assert(toks@.subrange(pos as int, pos as int) =~= seq![]);
            }
            (WhereClause::none(), pos)
        }
    }
}

} // verus!
