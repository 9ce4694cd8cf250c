use vstd::prelude::*;
use crate::delimited::Delimited;

verus! {

/// A type, as far as this clause needs one: a path such as `std::fmt::Debug`.
#[derive(Debug, Clone, PartialEq, Eq)]
pub struct Type {
    pub segments: Vec<String>,
}

/// An outer attribute `#[path]`.
#[derive(Debug, Clone, PartialEq, Eq)]
pub struct Attribute {
    pub segments: Vec<String>,
}

/// A reference to a trait, with an optional higher-ranked binder:
/// `for<'a> Fn`.
#[derive(Debug, Clone, PartialEq, Eq)]
pub struct PolyTraitRef {
    pub bound_lifetimes: Option<BoundLifetimes>,
    pub segments: Vec<String>,
}

/// Lifetimes and type parameters attached to a declaration, with its
/// where-clause.
///
/// The bracket tokens are recorded as present or absent; the where-clause is
/// attached by the owner of the declaration.
#[derive(Debug, Clone, PartialEq, Eq)]
pub struct Generics {
    pub lt_token: bool,
    pub gt_token: bool,
    pub lifetimes: Delimited<LifetimeDef>,
    pub ty_params: Delimited<TypeParam>,
    pub where_clause: WhereClause,
}

/// The impl-site view of a `Generics`: type parameter defaults left off.
#[derive(Debug, Clone, PartialEq, Eq)]
pub struct ImplGenerics<'a>(pub &'a Generics);

/// The type-use view of a `Generics`: bare names only.
#[derive(Debug, Clone, PartialEq, Eq)]
pub struct TypeGenerics<'a>(pub &'a Generics);

/// The expression view of a `Generics`: the type-use view after `::`.
#[derive(Debug, Clone, PartialEq, Eq)]
pub struct Turbofish<'a>(pub &'a Generics);

impl Generics {
    /// No brackets, no parameters, no where-clause.
    pub fn new() -> (r: Generics)
        ensures
            !r.lt_token,
            !r.gt_token,
            r.lifetimes.items@.len() == 0,
            !r.lifetimes.trailing,
            r.ty_params.items@.len() == 0,
            !r.ty_params.trailing,
            r.where_clause.is_none_clause(),
    {
        Generics {
            lt_token: false,
            gt_token: false,
            lifetimes: Delimited::new(),
            ty_params: Delimited::new(),
            where_clause: WhereClause::none(),
        }
    }

    /// Whether there are neither lifetimes nor type parameters.
    pub open spec fn spec_is_empty_normal(&self) -> bool {
        self.lifetimes.items.len() == 0 && self.ty_params.items.len() == 0
    }

    /// The views an impl header needs: the impl-site view, the type-use view,
    /// and the where-clause, all over this one value.
    pub fn split_for_impl(&self) -> (r: (ImplGenerics<'_>, TypeGenerics<'_>, &WhereClause))
        ensures
            *r.0.0 == *self,
            *r.1.0 == *self,
            *r.2 == self.where_clause,
    {
        (ImplGenerics(self), TypeGenerics(self), &self.where_clause)
    }
}

impl Default for Generics {
    fn default() -> (r: Generics)
        ensures
            !r.lt_token,
            !r.gt_token,
            r.lifetimes.items@.len() == 0,
            !r.lifetimes.trailing,
            r.ty_params.items@.len() == 0,
            !r.ty_params.trailing,
            r.where_clause.is_none_clause(),
    {
        Generics::new()
    }
}

impl<'a> TypeGenerics<'a> {
    /// Turns `<X, Y>` into `::<X, Y>`.
    pub fn as_turbofish(&self) -> (r: Turbofish<'a>)
        ensures
            *r.0 == *self.0,
    {
        Turbofish(self.0)
    }
}

/// A set of bound lifetimes, `for<'a, 'b>`.
#[derive(Debug, Clone, PartialEq, Eq)]
pub struct BoundLifetimes {
    pub lifetimes: Delimited<LifetimeDef>,
}

/// A lifetime definition, `'a: 'b + 'c`.
#[derive(Debug, Clone, PartialEq, Eq)]
pub struct LifetimeDef {
    pub attrs: Vec<Attribute>,
    pub lifetime: String,
    pub colon_token: bool,
    pub bounds: Delimited<String>,
}

impl LifetimeDef {
    /// A lifetime with no attributes and no bounds.
    pub fn new(lifetime: String) -> (r: LifetimeDef)
        ensures
            r.attrs@.len() == 0,
            r.lifetime == lifetime,
            !r.colon_token,
            r.bounds.items@.len() == 0,
            !r.bounds.trailing,
    {
        LifetimeDef { attrs: Vec::new(), lifetime, colon_token: false, bounds: Delimited::new() }
    }
}

/// A type parameter, `T: Into<String> = String`.
#[derive(Debug, Clone, PartialEq, Eq)]
pub struct TypeParam {
    pub attrs: Vec<Attribute>,
    pub ident: String,
    pub colon_token: bool,
    pub bounds: Delimited<TypeParamBound>,
    pub eq_token: bool,
    pub default: Option<Type>,
}

impl TypeParam {
    /// A type parameter from a bare identifier: no attributes, bounds or
    /// default.
    pub fn new(ident: String) -> (r: TypeParam)
        ensures
            r.attrs@.len() == 0,
            r.ident == ident,
            !r.colon_token,
            r.bounds.items@.len() == 0,
            !r.bounds.trailing,
            !r.eq_token,
            r.default is None,
    {
        TypeParam {
            attrs: Vec::new(),
            ident,
            colon_token: false,
            bounds: Delimited::new(),
            eq_token: false,
            default: None,
        }
    }
}

/// A bound on a type parameter.
#[derive(Debug, Clone, PartialEq, Eq)]
pub enum TypeParamBound {
    Trait(PolyTraitRef, TraitBoundModifier),
    Region(String),
}

/// A modifier on a trait bound: `?` in `?Sized`.
#[derive(Debug, Clone, Copy, PartialEq, Eq)]
pub enum TraitBoundModifier {
    /// no modifier
    Plain,
    Maybe,
}

/// A `where` clause.
#[derive(Debug, Clone, PartialEq, Eq)]
pub struct WhereClause {
    pub where_token: bool,
    pub predicates: Delimited<WherePredicate>,
}

impl WhereClause {
    /// The canonical value for "no clause": no keyword, no predicates.
    pub open spec fn is_none_clause(&self) -> bool {
        !self.where_token && self.predicates.items.len() == 0 && !self.predicates.trailing
    }

    pub fn none() -> (r: WhereClause)
        ensures
            r.is_none_clause(),
    {
        WhereClause { where_token: false, predicates: Delimited::new() }
    }
}

impl Default for WhereClause {
    fn default() -> (r: WhereClause)
        ensures
            r.is_none_clause(),
    {
        WhereClause::none()
    }
}

/// A type bound in a where-clause, `for<'c> Foo: Send + 'c`.
#[derive(Debug, Clone, PartialEq, Eq)]
pub struct WhereBoundPredicate {
    pub bound_lifetimes: Option<BoundLifetimes>,
    pub bounded_ty: Type,
    pub bounds: Delimited<TypeParamBound>,
}

/// A lifetime bound in a where-clause, `'a: 'b + 'c`.
#[derive(Debug, Clone, PartialEq, Eq)]
pub struct WhereRegionPredicate {
    pub lifetime: String,
    pub colon_token: bool,
    pub bounds: Delimited<String>,
}

/// An equality in a where-clause, `A = B`. It can be built and printed; the
/// parser never produces it.
#[derive(Debug, Clone, PartialEq, Eq)]
pub struct WhereEqPredicate {
    pub lhs_ty: Type,
    pub rhs_ty: Type,
}

/// A single predicate of a where-clause.
#[derive(Debug, Clone, PartialEq, Eq)]
pub enum WherePredicate {
    BoundPredicate(WhereBoundPredicate),
    RegionPredicate(WhereRegionPredicate),
    EqPredicate(WhereEqPredicate),
}

} // verus!
