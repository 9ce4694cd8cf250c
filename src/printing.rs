use vstd::prelude::*;
use crate::delimited::Delimited;
use crate::generics::{
    Attribute, BoundLifetimes, Generics, ImplGenerics, LifetimeDef, PolyTraitRef, TraitBoundModifier,
    Turbofish, Type, TypeGenerics, TypeParam, TypeParamBound, WhereBoundPredicate, WhereClause,
    WhereEqPredicate, WherePredicate, WhereRegionPredicate,
};
use crate::token::{Tok, join_toks, list_toks, concat_toks, lemma_join_step, lemma_concat_step};

verus! {

// The tokens of each node, as the views render it.

pub open spec fn segment_parts(segs: Seq<String>) -> Seq<Seq<Tok>> {
    segs.map_values(|s: String| seq![Tok::Ident(s)])
}

/// A path: its segments joined by `::`.
pub open spec fn segments_toks(segs: Seq<String>) -> Seq<Tok> {
    join_toks(segment_parts(segs), Tok::PathSep)
}

pub open spec fn type_toks(t: Type) -> Seq<Tok> {
    segments_toks(t.segments@)
}

pub open spec fn attr_toks(a: Attribute) -> Seq<Tok> {
    seq![Tok::Pound, Tok::LBracket] + segments_toks(a.segments@) + seq![Tok::RBracket]
}

pub open spec fn attr_parts(attrs: Seq<Attribute>) -> Seq<Seq<Tok>> {
    attrs.map_values(|a: Attribute| attr_toks(a))
}

pub open spec fn attrs_toks(attrs: Seq<Attribute>) -> Seq<Tok> {
    concat_toks(attr_parts(attrs))
}

pub open spec fn lifetime_parts(ls: Seq<String>) -> Seq<Seq<Tok>> {
    ls.map_values(|l: String| seq![Tok::Lifetime(l)])
}

/// Lifetime bounds joined by `+`.
pub open spec fn lifetime_bounds_toks(d: Delimited<String>) -> Seq<Tok> {
    list_toks(lifetime_parts(d.items@), Tok::Plus, d.trailing)
}

/// The colon and the bounds, where there are bounds; nothing otherwise.
pub open spec fn colon_lifetime_bounds_toks(d: Delimited<String>) -> Seq<Tok> {
    if d.items.len() > 0 {
        seq![Tok::Colon] + lifetime_bounds_toks(d)
    } else {
        seq![]
    }
}

pub open spec fn lifetime_def_toks(ld: LifetimeDef) -> Seq<Tok> {
    attrs_toks(ld.attrs@) + seq![Tok::Lifetime(ld.lifetime)] + colon_lifetime_bounds_toks(ld.bounds)
}

pub open spec fn lifetime_def_parts(s: Seq<LifetimeDef>) -> Seq<Seq<Tok>> {
    s.map_values(|x: LifetimeDef| lifetime_def_toks(x))
}

pub open spec fn lifetime_defs_toks(d: Delimited<LifetimeDef>) -> Seq<Tok> {
    list_toks(lifetime_def_parts(d.items@), Tok::Comma, d.trailing)
}

pub open spec fn bound_lifetimes_toks(b: BoundLifetimes) -> Seq<Tok> {
    seq![Tok::For, Tok::Lt] + lifetime_defs_toks(b.lifetimes) + seq![Tok::Gt]
}

pub open spec fn opt_bound_lifetimes_toks(b: Option<BoundLifetimes>) -> Seq<Tok> {
    match b {
        Some(x) => bound_lifetimes_toks(x),
        None => seq![],
    }
}

pub open spec fn poly_trait_ref_toks(p: PolyTraitRef) -> Seq<Tok> {
    opt_bound_lifetimes_toks(p.bound_lifetimes) + segments_toks(p.segments@)
}

pub open spec fn modifier_toks(m: TraitBoundModifier) -> Seq<Tok> {
    match m {
        TraitBoundModifier::Plain => seq![],
        TraitBoundModifier::Maybe => seq![Tok::Question],
    }
}

pub open spec fn bound_toks(b: TypeParamBound) -> Seq<Tok> {
    match b {
        TypeParamBound::Trait(p, m) => modifier_toks(m) + poly_trait_ref_toks(p),
        TypeParamBound::Region(l) => seq![Tok::Lifetime(l)],
    }
}

pub open spec fn bound_parts(s: Seq<TypeParamBound>) -> Seq<Seq<Tok>> {
    s.map_values(|b: TypeParamBound| bound_toks(b))
}

/// Type parameter bounds joined by `+`.
pub open spec fn bounds_toks(d: Delimited<TypeParamBound>) -> Seq<Tok> {
    list_toks(bound_parts(d.items@), Tok::Plus, d.trailing)
}

pub open spec fn colon_bounds_toks(d: Delimited<TypeParamBound>) -> Seq<Tok> {
    if d.items.len() > 0 {
        seq![Tok::Colon] + bounds_toks(d)
    } else {
        seq![]
    }
}

/// A type parameter without its default: what an impl header shows.
pub open spec fn type_param_head_toks(tp: TypeParam) -> Seq<Tok> {
    attrs_toks(tp.attrs@) + seq![Tok::Ident(tp.ident)] + colon_bounds_toks(tp.bounds)
}

pub open spec fn default_toks(d: Option<Type>) -> Seq<Tok> {
    match d {
        Some(t) => seq![Tok::Eq] + type_toks(t),
        None => seq![],
    }
}

pub open spec fn type_param_toks(tp: TypeParam) -> Seq<Tok> {
    type_param_head_toks(tp) + default_toks(tp.default)
}

pub open spec fn type_param_parts(s: Seq<TypeParam>) -> Seq<Seq<Tok>> {
    s.map_values(|x: TypeParam| type_param_toks(x))
}

pub open spec fn type_param_head_parts(s: Seq<TypeParam>) -> Seq<Seq<Tok>> {
    s.map_values(|x: TypeParam| type_param_head_toks(x))
}

pub open spec fn type_param_name_parts(s: Seq<TypeParam>) -> Seq<Seq<Tok>> {
    s.map_values(|x: TypeParam| seq![Tok::Ident(x.ident)])
}

pub open spec fn lifetime_name_parts(s: Seq<LifetimeDef>) -> Seq<Seq<Tok>> {
    s.map_values(|x: LifetimeDef| seq![Tok::Lifetime(x.lifetime)])
}

/// The comma that joins the two lists into one, where the lifetimes do not
/// end in one and type parameters follow.
pub open spec fn params_comma_toks(g: Generics) -> Seq<Tok> {
    if !g.lifetimes.spec_empty_or_trailing() && g.ty_params.items.len() > 0 {
        seq![Tok::Comma]
    } else {
        seq![]
    }
}

/// Both lists in brackets, joined into one.
pub open spec fn bracketed_toks(g: Generics) -> Seq<Tok> {
    seq![Tok::Lt] + lifetime_defs_toks(g.lifetimes) + params_comma_toks(g) + list_toks(
        type_param_parts(g.ty_params.items@),
        Tok::Comma,
        g.ty_params.trailing,
    ) + seq![Tok::Gt]
}

/// The declaration view: nothing at all when both lists are empty.
pub open spec fn generics_toks(g: Generics) -> Seq<Tok> {
    if g.spec_is_empty_normal() {
        seq![]
    } else {
        bracketed_toks(g)
    }
}

/// The impl-site view: the declaration view without type parameter defaults.
pub open spec fn impl_generics_toks(g: Generics) -> Seq<Tok> {
    if g.spec_is_empty_normal() {
        seq![]
    } else {
        seq![Tok::Lt] + lifetime_defs_toks(g.lifetimes) + params_comma_toks(g) + list_toks(
            type_param_head_parts(g.ty_params.items@),
            Tok::Comma,
            g.ty_params.trailing,
        ) + seq![Tok::Gt]
    }
}

/// The type-use view: bare names, each list with its own trailing delimiter.
pub open spec fn type_generics_toks(g: Generics) -> Seq<Tok> {
    if g.spec_is_empty_normal() {
        seq![]
    } else {
        seq![Tok::Lt] + list_toks(lifetime_name_parts(g.lifetimes.items@), Tok::Comma, g.lifetimes.trailing)
            + params_comma_toks(g) + list_toks(
            type_param_name_parts(g.ty_params.items@),
            Tok::Comma,
            g.ty_params.trailing,
        ) + seq![Tok::Gt]
    }
}

/// The turbofish view: `::` and the type-use view, or nothing at all.
pub open spec fn turbofish_toks(g: Generics) -> Seq<Tok> {
    if g.spec_is_empty_normal() {
        seq![]
    } else {
        seq![Tok::PathSep] + type_generics_toks(g)
    }
}

pub open spec fn where_predicate_toks(p: WherePredicate) -> Seq<Tok> {
    match p {
        WherePredicate::BoundPredicate(b) => opt_bound_lifetimes_toks(b.bound_lifetimes) + type_toks(
            b.bounded_ty,
        ) + seq![Tok::Colon] + bounds_toks(b.bounds),
        WherePredicate::RegionPredicate(r) => seq![Tok::Lifetime(r.lifetime)]
            + colon_lifetime_bounds_toks(r.bounds),
        WherePredicate::EqPredicate(e) => type_toks(e.lhs_ty) + seq![Tok::Eq] + type_toks(e.rhs_ty),
    }
}

pub open spec fn where_predicate_parts(s: Seq<WherePredicate>) -> Seq<Seq<Tok>> {
    s.map_values(|p: WherePredicate| where_predicate_toks(p))
}

/// The where-clause: nothing when there are no predicates, whether or not
/// the keyword is recorded.
pub open spec fn where_clause_toks(w: WhereClause) -> Seq<Tok> {
    if w.predicates.items.len() == 0 {
        seq![]
    } else {
        seq![Tok::Where] + list_toks(where_predicate_parts(w.predicates.items@), Tok::Comma, w.predicates.trailing)
    }
}

/// A where-clause without predicates prints as nothing, whether or not its
/// keyword is recorded: the predicates alone decide whether it is emitted.
pub proof fn lemma_where_clause_without_predicates_prints_nothing(w: WhereClause)
    requires
        w.predicates.items@.len() == 0,
    ensures
        where_clause_toks(w) == Seq::<Tok>::empty(),
        w.where_token ==> !w.is_none_clause(),
{
}

/// The turbofish view is `::` before the type-use view, and is empty exactly
/// when the type-use view is.
pub proof fn lemma_turbofish_is_prefixed_type_use(g: Generics)
    ensures
        turbofish_toks(g) == if type_generics_toks(g).len() == 0 {
            Seq::<Tok>::empty()
        } else {
            seq![Tok::PathSep] + type_generics_toks(g)
        },
{
}

/// Appends a path: the segments joined by `::`.
fn print_segments(segs: &Vec<String>, out: &mut Vec<Tok>)
    ensures
        final(out)@ == old(out)@ + segments_toks(segs@),
{
    let ghost base = out@;
    let ghost parts = segment_parts(segs@);
    let n: usize = segs.len();
    let mut i: usize = 0;
    while i < n
        invariant
            i <= n,
            n == segs@.len(),
            parts == segment_parts(segs@),
            out@ == base + join_toks(parts.take(i as int), Tok::PathSep),
        decreases n - i,
    {
        if i > 0 {
            out.push(Tok::PathSep);
        }
        out.push(Tok::Ident(segs[i].clone()));
        proof {
            lemma_join_step(parts, Tok::PathSep, i + 1);
            assert(out@ =~= base + join_toks(parts.take(i + 1), Tok::PathSep));
        }
        i = i + 1;
    }
    proof {
        assert(parts.take(n as int) =~= parts);
    }
}

/// Appends the attributes one after another.
fn print_attrs(attrs: &Vec<Attribute>, out: &mut Vec<Tok>)
    ensures
        final(out)@ == old(out)@ + attrs_toks(attrs@),
{
    let ghost base = out@;
    let ghost parts = attr_parts(attrs@);
    let n: usize = attrs.len();
    let mut i: usize = 0;
    while i < n
        invariant
            i <= n,
            n == attrs@.len(),
            parts == attr_parts(attrs@),
            out@ == base + concat_toks(parts.take(i as int)),
        decreases n - i,
    {
        attrs[i].to_tokens(out);
        proof {
            lemma_concat_step(parts, i + 1);
            assert(out@ =~= base + concat_toks(parts.take(i + 1)));
        }
        i = i + 1;
    }
    proof {
        assert(parts.take(n as int) =~= parts);
    }
}

impl Type {
    pub fn to_tokens(&self, out: &mut Vec<Tok>)
        ensures
            final(out)@ == old(out)@ + type_toks(*self),
    {
        print_segments(&self.segments, out);
    }
}

impl Attribute {
    pub fn to_tokens(&self, out: &mut Vec<Tok>)
        ensures
            final(out)@ == old(out)@ + attr_toks(*self),
    {
        let ghost base = out@;
        out.push(Tok::Pound);
        out.push(Tok::LBracket);
        print_segments(&self.segments, out);
        out.push(Tok::RBracket);
        proof {
            assert(out@ =~= base + attr_toks(*self));
        }
    }
}

/// Appends lifetime bounds joined by `+`.
fn print_lifetime_bounds(d: &Delimited<String>, out: &mut Vec<Tok>)
    ensures
        final(out)@ == old(out)@ + list_toks(lifetime_parts(d.items@), Tok::Plus, d.trailing),
{
    let ghost base = out@;
    let ghost parts = lifetime_parts(d.items@);
    let n: usize = d.items.len();
    let mut i: usize = 0;
    while i < n
        invariant
            i <= n,
            n == d.items@.len(),
            parts == lifetime_parts(d.items@),
            out@ == base + join_toks(parts.take(i as int), Tok::Plus),
        decreases n - i,
    {
        if i > 0 {
            out.push(Tok::Plus);
        }
        out.push(Tok::Lifetime(d.items[i].clone()));
        proof {
            lemma_join_step(parts, Tok::Plus, i + 1);
            assert(out@ =~= base + join_toks(parts.take(i + 1), Tok::Plus));
        }
        i = i + 1;
    }
    proof {
        assert(parts.take(n as int) =~= parts);
    }
    if d.trailing && n > 0 {
        out.push(Tok::Plus);
    }
    proof {
        assert(out@ =~= base + list_toks(parts, Tok::Plus, d.trailing));
    }
}

/// Appends lifetime definitions joined by `,`.
fn print_lifetime_defs(d: &Delimited<LifetimeDef>, out: &mut Vec<Tok>)
    ensures
        final(out)@ == old(out)@ + list_toks(lifetime_def_parts(d.items@), Tok::Comma, d.trailing),
{
    let ghost base = out@;
    let ghost parts = lifetime_def_parts(d.items@);
    let n: usize = d.items.len();
    let mut i: usize = 0;
    while i < n
        invariant
            i <= n,
            n == d.items@.len(),
            parts == lifetime_def_parts(d.items@),
            out@ == base + join_toks(parts.take(i as int), Tok::Comma),
        decreases n - i,
    {
        if i > 0 {
            out.push(Tok::Comma);
        }
        d.items[i].to_tokens(out);
        proof {
            lemma_join_step(parts, Tok::Comma, i + 1);
            assert(out@ =~= base + join_toks(parts.take(i + 1), Tok::Comma));
        }
        i = i + 1;
    }
    proof {
        assert(parts.take(n as int) =~= parts);
    }
    if d.trailing && n > 0 {
        out.push(Tok::Comma);
    }
    proof {
        assert(out@ =~= base + list_toks(parts, Tok::Comma, d.trailing));
    }
}

/// Appends the bare lifetimes of the definitions, joined by `,`.
fn print_lifetime_names(d: &Delimited<LifetimeDef>, out: &mut Vec<Tok>)
    ensures
        final(out)@ == old(out)@ + list_toks(lifetime_name_parts(d.items@), Tok::Comma, d.trailing),
{
    let ghost base = out@;
    let ghost parts = lifetime_name_parts(d.items@);
    let n: usize = d.items.len();
    let mut i: usize = 0;
    while i < n
        invariant
            i <= n,
            n == d.items@.len(),
            parts == lifetime_name_parts(d.items@),
            out@ == base + join_toks(parts.take(i as int), Tok::Comma),
        decreases n - i,
    {
        if i > 0 {
            out.push(Tok::Comma);
        }
        out.push(Tok::Lifetime(d.items[i].lifetime.clone()));
        proof {
            lemma_join_step(parts, Tok::Comma, i + 1);
            assert(out@ =~= base + join_toks(parts.take(i + 1), Tok::Comma));
        }
        i = i + 1;
    }
    proof {
        assert(parts.take(n as int) =~= parts);
    }
    if d.trailing && n > 0 {
        out.push(Tok::Comma);
    }
    proof {
        assert(out@ =~= base + list_toks(parts, Tok::Comma, d.trailing));
    }
}

/// Appends type parameter bounds joined by `+`.
fn print_bounds(d: &Delimited<TypeParamBound>, out: &mut Vec<Tok>)
    ensures
        final(out)@ == old(out)@ + list_toks(bound_parts(d.items@), Tok::Plus, d.trailing),
{
    let ghost base = out@;
    let ghost parts = bound_parts(d.items@);
    let n: usize = d.items.len();
    let mut i: usize = 0;
    while i < n
        invariant
            i <= n,
            n == d.items@.len(),
            parts == bound_parts(d.items@),
            out@ == base + join_toks(parts.take(i as int), Tok::Plus),
        decreases n - i,
    {
        if i > 0 {
            out.push(Tok::Plus);
        }
        d.items[i].to_tokens(out);
        proof {
            lemma_join_step(parts, Tok::Plus, i + 1);
            assert(out@ =~= base + join_toks(parts.take(i + 1), Tok::Plus));
        }
        i = i + 1;
    }
    proof {
        assert(parts.take(n as int) =~= parts);
    }
    if d.trailing && n > 0 {
        out.push(Tok::Plus);
    }
    proof {
        assert(out@ =~= base + list_toks(parts, Tok::Plus, d.trailing));
    }
}

/// Appends type parameters joined by `,`.
fn print_type_params(d: &Delimited<TypeParam>, out: &mut Vec<Tok>)
    ensures
        final(out)@ == old(out)@ + list_toks(type_param_parts(d.items@), Tok::Comma, d.trailing),
{
    let ghost base = out@;
    let ghost parts = type_param_parts(d.items@);
    let n: usize = d.items.len();
    let mut i: usize = 0;
    while i < n
        invariant
            i <= n,
            n == d.items@.len(),
            parts == type_param_parts(d.items@),
            out@ == base + join_toks(parts.take(i as int), Tok::Comma),
        decreases n - i,
    {
        if i > 0 {
            out.push(Tok::Comma);
        }
        d.items[i].to_tokens(out);
        proof {
            lemma_join_step(parts, Tok::Comma, i + 1);
            assert(out@ =~= base + join_toks(parts.take(i + 1), Tok::Comma));
        }
        i = i + 1;
    }
    proof {
        assert(parts.take(n as int) =~= parts);
    }
    if d.trailing && n > 0 {
        out.push(Tok::Comma);
    }
    proof {
        assert(out@ =~= base + list_toks(parts, Tok::Comma, d.trailing));
    }
}

/// Appends type parameters without their defaults, joined by `,`.
fn print_type_param_heads(d: &Delimited<TypeParam>, out: &mut Vec<Tok>)
    ensures
        final(out)@ == old(out)@ + list_toks(type_param_head_parts(d.items@), Tok::Comma, d.trailing),
{
    let ghost base = out@;
    let ghost parts = type_param_head_parts(d.items@);
    let n: usize = d.items.len();
    let mut i: usize = 0;
    while i < n
        invariant
            i <= n,
            n == d.items@.len(),
            parts == type_param_head_parts(d.items@),
            out@ == base + join_toks(parts.take(i as int), Tok::Comma),
        decreases n - i,
    {
        if i > 0 {
            out.push(Tok::Comma);
        }
        print_type_param_head(&d.items[i], out);
        proof {
            lemma_join_step(parts, Tok::Comma, i + 1);
            assert(out@ =~= base + join_toks(parts.take(i + 1), Tok::Comma));
        }
        i = i + 1;
    }
    proof {
        assert(parts.take(n as int) =~= parts);
    }
    if d.trailing && n > 0 {
        out.push(Tok::Comma);
    }
    proof {
        assert(out@ =~= base + list_toks(parts, Tok::Comma, d.trailing));
    }
}

/// Appends the bare names of the type parameters, joined by `,`.
fn print_type_param_names(d: &Delimited<TypeParam>, out: &mut Vec<Tok>)
    ensures
        final(out)@ == old(out)@ + list_toks(type_param_name_parts(d.items@), Tok::Comma, d.trailing),
{
    let ghost base = out@;
    let ghost parts = type_param_name_parts(d.items@);
    let n: usize = d.items.len();
    let mut i: usize = 0;
    while i < n
        invariant
            i <= n,
            n == d.items@.len(),
            parts == type_param_name_parts(d.items@),
            out@ == base + join_toks(parts.take(i as int), Tok::Comma),
        decreases n - i,
    {
        if i > 0 {
            out.push(Tok::Comma);
        }
        out.push(Tok::Ident(d.items[i].ident.clone()));
        proof {
            lemma_join_step(parts, Tok::Comma, i + 1);
            assert(out@ =~= base + join_toks(parts.take(i + 1), Tok::Comma));
        }
        i = i + 1;
    }
    proof {
        assert(parts.take(n as int) =~= parts);
    }
    if d.trailing && n > 0 {
        out.push(Tok::Comma);
    }
    proof {
        assert(out@ =~= base + list_toks(parts, Tok::Comma, d.trailing));
    }
}

/// Appends where-predicates joined by `,`.
fn print_where_predicates(d: &Delimited<WherePredicate>, out: &mut Vec<Tok>)
    ensures
        final(out)@ == old(out)@ + list_toks(where_predicate_parts(d.items@), Tok::Comma, d.trailing),
{
    let ghost base = out@;
    let ghost parts = where_predicate_parts(d.items@);
    let n: usize = d.items.len();
    let mut i: usize = 0;
    while i < n
        invariant
            i <= n,
            n == d.items@.len(),
            parts == where_predicate_parts(d.items@),
            out@ == base + join_toks(parts.take(i as int), Tok::Comma),
        decreases n - i,
    {
        if i > 0 {
            out.push(Tok::Comma);
        }
        d.items[i].to_tokens(out);
        proof {
            lemma_join_step(parts, Tok::Comma, i + 1);
            assert(out@ =~= base + join_toks(parts.take(i + 1), Tok::Comma));
        }
        i = i + 1;
    }
    proof {
        assert(parts.take(n as int) =~= parts);
    }
    if d.trailing && n > 0 {
        out.push(Tok::Comma);
    }
    proof {
        assert(out@ =~= base + list_toks(parts, Tok::Comma, d.trailing));
    }
}

fn print_colon_lifetime_bounds(d: &Delimited<String>, out: &mut Vec<Tok>)
    ensures
        final(out)@ == old(out)@ + colon_lifetime_bounds_toks(*d),
{
    let ghost base = out@;
    if !d.is_empty() {
        out.push(Tok::Colon);
        print_lifetime_bounds(d, out);
    }
    proof {
        assert(out@ =~= base + colon_lifetime_bounds_toks(*d));
    }
}

fn print_colon_bounds(d: &Delimited<TypeParamBound>, out: &mut Vec<Tok>)
    ensures
        final(out)@ == old(out)@ + colon_bounds_toks(*d),
{
    let ghost base = out@;
    if !d.is_empty() {
        out.push(Tok::Colon);
        print_bounds(d, out);
    }
    proof {
        assert(out@ =~= base + colon_bounds_toks(*d));
    }
}

impl LifetimeDef {
    /// Appends the attributes, the lifetime, and its bounds if it has any.
    pub fn to_tokens(&self, out: &mut Vec<Tok>)
        ensures
            final(out)@ == old(out)@ + lifetime_def_toks(*self),
    {
        let ghost base = out@;
        print_attrs(&self.attrs, out);
        out.push(Tok::Lifetime(self.lifetime.clone()));
        print_colon_lifetime_bounds(&self.bounds, out);
        proof {
            assert(out@ =~= base + lifetime_def_toks(*self));
        }
    }
}

impl BoundLifetimes {
    pub fn to_tokens(&self, out: &mut Vec<Tok>)
        ensures
            final(out)@ == old(out)@ + bound_lifetimes_toks(*self),
    {
        let ghost base = out@;
        out.push(Tok::For);
        out.push(Tok::Lt);
        print_lifetime_defs(&self.lifetimes, out);
        out.push(Tok::Gt);
        proof {
            assert(out@ =~= base + bound_lifetimes_toks(*self));
        }
    }
}

fn print_opt_bound_lifetimes(b: &Option<BoundLifetimes>, out: &mut Vec<Tok>)
    ensures
        final(out)@ == old(out)@ + opt_bound_lifetimes_toks(*b),
{
    match b {
        Some(x) => x.to_tokens(out),
        None => {
            assert(out@ =~= out@ + opt_bound_lifetimes_toks(*b));
        },
    }
}

impl PolyTraitRef {
    pub fn to_tokens(&self, out: &mut Vec<Tok>)
        ensures
            final(out)@ == old(out)@ + poly_trait_ref_toks(*self),
    {
        let ghost base = out@;
        print_opt_bound_lifetimes(&self.bound_lifetimes, out);
        print_segments(&self.segments, out);
        proof {
            assert(out@ =~= base + poly_trait_ref_toks(*self));
        }
    }
}

impl TraitBoundModifier {
    pub fn to_tokens(&self, out: &mut Vec<Tok>)
        ensures
            final(out)@ == old(out)@ + modifier_toks(*self),
    {
        let ghost base = out@;
        match self {
            TraitBoundModifier::Plain => {},
            TraitBoundModifier::Maybe => out.push(Tok::Question),
        }
        proof {
            assert(out@ =~= base + modifier_toks(*self));
        }
    }
}

impl TypeParamBound {
    pub fn to_tokens(&self, out: &mut Vec<Tok>)
        ensures
            final(out)@ == old(out)@ + bound_toks(*self),
    {
        let ghost base = out@;
        match self {
            TypeParamBound::Region(l) => out.push(Tok::Lifetime(l.clone())),
            TypeParamBound::Trait(p, m) => {
                m.to_tokens(out);
                p.to_tokens(out);
            },
        }
        proof {
            assert(out@ =~= base + bound_toks(*self));
        }
    }
}

fn print_type_param_head(tp: &TypeParam, out: &mut Vec<Tok>)
    ensures
        final(out)@ == old(out)@ + type_param_head_toks(*tp),
{
    let ghost base = out@;
    print_attrs(&tp.attrs, out);
    out.push(Tok::Ident(tp.ident.clone()));
    print_colon_bounds(&tp.bounds, out);
    proof {
        assert(out@ =~= base + type_param_head_toks(*tp));
    }
}

impl TypeParam {
    /// Appends the attributes, the name, the bounds if there are any, and the
    /// default if there is one.
    pub fn to_tokens(&self, out: &mut Vec<Tok>)
        ensures
            final(out)@ == old(out)@ + type_param_toks(*self),
    {
        let ghost base = out@;
        print_type_param_head(self, out);
        match &self.default {
            Some(t) => {
                out.push(Tok::Eq);
                t.to_tokens(out);
            },
            None => {},
        }
        proof {
            assert(out@ =~= base + type_param_toks(*self));
        }
    }
}

/// Whether the generics have neither lifetimes nor type parameters.
pub fn empty_normal_generics(g: &Generics) -> (r: bool)
    ensures
        r == g.spec_is_empty_normal(),
{
    g.lifetimes.is_empty() && g.ty_params.is_empty()
}

/// Appends the comma that joins the lifetimes to the type parameters, where
/// one is needed.
fn maybe_add_lifetime_params_comma(out: &mut Vec<Tok>, g: &Generics)
    ensures
        final(out)@ == old(out)@ + params_comma_toks(*g),
{
    let ghost base = out@;
    if !g.lifetimes.empty_or_trailing() && !g.ty_params.is_empty() {
        out.push(Tok::Comma);
    }
    proof {
        assert(out@ =~= base + params_comma_toks(*g));
    }
}

impl Generics {
    /// Appends the declaration view.
    pub fn to_tokens(&self, out: &mut Vec<Tok>)
        ensures
            final(out)@ == old(out)@ + generics_toks(*self),
    {
        let ghost base = out@;
        if empty_normal_generics(self) {
            assert(out@ =~= base + generics_toks(*self));
            return;
        }
        out.push(Tok::Lt);
        print_lifetime_defs(&self.lifetimes, out);
        maybe_add_lifetime_params_comma(out, self);
        print_type_params(&self.ty_params, out);
        out.push(Tok::Gt);
        proof {
            assert(out@ =~= base + generics_toks(*self));
        }
    }
}

impl<'a> ImplGenerics<'a> {
    /// Appends the impl-site view.
    pub fn to_tokens(&self, out: &mut Vec<Tok>)
        ensures
            final(out)@ == old(out)@ + impl_generics_toks(*self.0),
    {
        let ghost base = out@;
        let g = self.0;
        if empty_normal_generics(g) {
            assert(out@ =~= base + impl_generics_toks(*g));
            return;
        }
        out.push(Tok::Lt);
        print_lifetime_defs(&g.lifetimes, out);
        maybe_add_lifetime_params_comma(out, g);
        print_type_param_heads(&g.ty_params, out);
        out.push(Tok::Gt);
        proof {
            assert(out@ =~= base + impl_generics_toks(*g));
        }
    }
}

impl<'a> TypeGenerics<'a> {
    /// Appends the type-use view.
    pub fn to_tokens(&self, out: &mut Vec<Tok>)
        ensures
            final(out)@ == old(out)@ + type_generics_toks(*self.0),
    {
        let ghost base = out@;
        let g = self.0;
        if empty_normal_generics(g) {
            assert(out@ =~= base + type_generics_toks(*g));
            return;
        }
        out.push(Tok::Lt);
        print_lifetime_names(&g.lifetimes, out);
        maybe_add_lifetime_params_comma(out, g);
        print_type_param_names(&g.ty_params, out);
        out.push(Tok::Gt);
        proof {
            assert(out@ =~= base + type_generics_toks(*g));
        }
    }
}

impl<'a> Turbofish<'a> {
    /// Appends the turbofish view.
    pub fn to_tokens(&self, out: &mut Vec<Tok>)
        ensures
            final(out)@ == old(out)@ + turbofish_toks(*self.0),
    {
        let ghost base = out@;
        if !empty_normal_generics(self.0) {
            out.push(Tok::PathSep);
            TypeGenerics(self.0).to_tokens(out);
        }
        proof {
            assert(out@ =~= base + turbofish_toks(*self.0));
        }
    }
}

impl WhereBoundPredicate {
    pub fn to_tokens(&self, out: &mut Vec<Tok>)
        ensures
            final(out)@ == old(out)@ + where_predicate_toks(WherePredicate::BoundPredicate(*self)),
    {
        let ghost base = out@;
        print_opt_bound_lifetimes(&self.bound_lifetimes, out);
        self.bounded_ty.to_tokens(out);
        out.push(Tok::Colon);
        print_bounds(&self.bounds, out);
        proof {
            assert(out@ =~= base + where_predicate_toks(WherePredicate::BoundPredicate(*self)));
        }
    }
}

impl WhereRegionPredicate {
    pub fn to_tokens(&self, out: &mut Vec<Tok>)
        ensures
            final(out)@ == old(out)@ + where_predicate_toks(WherePredicate::RegionPredicate(*self)),
    {
        let ghost base = out@;
        out.push(Tok::Lifetime(self.lifetime.clone()));
        print_colon_lifetime_bounds(&self.bounds, out);
        proof {
            assert(out@ =~= base + where_predicate_toks(WherePredicate::RegionPredicate(*self)));
        }
    }
}

impl WhereEqPredicate {
    pub fn to_tokens(&self, out: &mut Vec<Tok>)
        ensures
            final(out)@ == old(out)@ + where_predicate_toks(WherePredicate::EqPredicate(*self)),
    {
        let ghost base = out@;
        self.lhs_ty.to_tokens(out);
        out.push(Tok::Eq);
        self.rhs_ty.to_tokens(out);
        proof {
            assert(out@ =~= base + where_predicate_toks(WherePredicate::EqPredicate(*self)));
        }
    }
}

impl WherePredicate {
    pub fn to_tokens(&self, out: &mut Vec<Tok>)
        ensures
            final(out)@ == old(out)@ + where_predicate_toks(*self),
    {
        match self {
            WherePredicate::BoundPredicate(b) => b.to_tokens(out),
            WherePredicate::RegionPredicate(r) => r.to_tokens(out),
            WherePredicate::EqPredicate(e) => e.to_tokens(out),
        }
    }
}

impl WhereClause {
    /// Appends the clause; a clause without predicates appends nothing, even
    /// where the keyword is recorded.
    pub fn to_tokens(&self, out: &mut Vec<Tok>)
        ensures
            final(out)@ == old(out)@ + where_clause_toks(*self),
    {
        let ghost base = out@;
        if !self.predicates.is_empty() {
            out.push(Tok::Where);
            print_where_predicates(&self.predicates, out);
        }
        proof {
            assert(out@ =~= base + where_clause_toks(*self));
        }
    }
}

} // verus!
