use vstd::prelude::*;
use crate::token::Tok;

verus! {

// Where each production that starts at `pos` ends, as the parsers read it:
// `None` where it does not parse there. Lists end where their last item or
// delimiter does.

/// Past the `:: ident` pairs that follow `p`.
pub open spec fn path_rest_end(toks: Seq<Tok>, p: int) -> int
    decreases toks.len() - p,
{
    if 0 <= p && p + 1 < toks.len() && toks[p] is PathSep && toks[p + 1] is Ident {
        path_rest_end(toks, p + 2)
    } else {
        p
    }
}

/// A path: an identifier and as many `:: ident` as follow.
pub open spec fn path_end(toks: Seq<Tok>, pos: int) -> Option<int> {
    if 0 <= pos < toks.len() && toks[pos] is Ident {
        Some(path_rest_end(toks, pos + 1))
    } else {
        None
    }
}

/// `# [ path ]`
pub open spec fn attr_end(toks: Seq<Tok>, pos: int) -> Option<int> {
    if 0 <= pos && pos + 1 < toks.len() && toks[pos] is Pound && toks[pos + 1] is LBracket {
        match path_end(toks, pos + 2) {
            Some(q) => if q < toks.len() && toks[q] is RBracket {
                Some(q + 1)
            } else {
                None
            },
            None => None,
        }
    } else {
        None
    }
}

/// As many attributes as follow.
pub open spec fn attrs_end(toks: Seq<Tok>, pos: int) -> int
    decreases toks.len() - pos,
{
    match attr_end(toks, pos) {
        Some(q) => if pos < q <= toks.len() {
            attrs_end(toks, q)
        } else {
            pos
        },
        None => pos,
    }
}

pub open spec fn lifetime_end(toks: Seq<Tok>, pos: int) -> Option<int> {
    if 0 <= pos < toks.len() && toks[pos] is Lifetime {
        Some(pos + 1)
    } else {
        None
    }
}

/// Past the `+ lifetime` pairs that follow `p`.
pub open spec fn lifetime_bounds_rest(toks: Seq<Tok>, p: int) -> int
    decreases toks.len() - p,
{
    if 0 <= p && p + 1 < toks.len() && toks[p] is Plus && toks[p + 1] is Lifetime {
        lifetime_bounds_rest(toks, p + 2)
    } else {
        p
    }
}

/// One or more lifetimes joined by `+`.
pub open spec fn lifetime_bounds_end(toks: Seq<Tok>, pos: int) -> Option<int> {
    match lifetime_end(toks, pos) {
        Some(q) => Some(lifetime_bounds_rest(toks, q)),
        None => None,
    }
}

/// Attributes, a lifetime, and after a colon its bounds.
#[verifier::opaque]
pub open spec fn lifetime_def_end(toks: Seq<Tok>, pos: int) -> Option<int> {
    let c0 = attrs_end(toks, pos);
    match lifetime_end(toks, c0) {
        Some(c1) => if c1 < toks.len() && toks[c1] is Colon {
            lifetime_bounds_end(toks, c1 + 1)
        } else {
            Some(c1)
        },
        None => None,
    }
}

/// Past the `, item` pairs that follow `p`, and a last `,` with no item.
pub open spec fn lifetime_defs_rest(toks: Seq<Tok>, p: int) -> int
    decreases toks.len() - p,
{
    if 0 <= p < toks.len() && toks[p] is Comma {
        match lifetime_def_end(toks, p + 1) {
            Some(q) => if p < q <= toks.len() {
                lifetime_defs_rest(toks, q)
            } else {
                p
            },
            None => p + 1,
        }
    } else {
        p
    }
}

/// Lifetime definitions joined by `,`, maybe none.
pub open spec fn lifetime_defs_end(toks: Seq<Tok>, pos: int) -> int {
    match lifetime_def_end(toks, pos) {
        Some(q) => if pos < q <= toks.len() {
            lifetime_defs_rest(toks, q)
        } else {
            pos
        },
        None => pos,
    }
}

/// `for < lifetime definitions >`
pub open spec fn bound_lifetimes_end(toks: Seq<Tok>, pos: int) -> Option<int> {
    if 0 <= pos && pos + 1 < toks.len() && toks[pos] is For && toks[pos + 1] is Lt {
        let c = lifetime_defs_end(toks, pos + 2);
        if 0 <= c < toks.len() && toks[c] is Gt {
            Some(c + 1)
        } else {
            None
        }
    } else {
        None
    }
}

/// A `for<...>` binder where `for` comes; nothing otherwise.
pub open spec fn opt_bound_lifetimes_end(toks: Seq<Tok>, pos: int) -> Option<int> {
    if 0 <= pos < toks.len() && toks[pos] is For {
        bound_lifetimes_end(toks, pos)
    } else {
        Some(pos)
    }
}

/// An optional binder and a trait path.
pub open spec fn poly_trait_ref_end(toks: Seq<Tok>, pos: int) -> Option<int> {
    match opt_bound_lifetimes_end(toks, pos) {
        Some(c) => path_end(toks, c),
        None => None,
    }
}

/// `?` and a trait, a lifetime, or a trait.
#[verifier::opaque]
pub open spec fn bound_end(toks: Seq<Tok>, pos: int) -> Option<int> {
    if 0 <= pos < toks.len() && toks[pos] is Question {
        poly_trait_ref_end(toks, pos + 1)
    } else if 0 <= pos < toks.len() && toks[pos] is Lifetime {
        Some(pos + 1)
    } else {
        poly_trait_ref_end(toks, pos)
    }
}

/// Past the `+ bound` pairs that follow `p`.
pub open spec fn bounds_rest(toks: Seq<Tok>, p: int) -> int
    decreases toks.len() - p,
{
    if 0 <= p < toks.len() && toks[p] is Plus {
        match bound_end(toks, p + 1) {
            Some(q) => if p < q <= toks.len() {
                bounds_rest(toks, q)
            } else {
                p
            },
            None => p,
        }
    } else {
        p
    }
}

/// One or more bounds joined by `+`.
pub open spec fn bounds_end(toks: Seq<Tok>, pos: int) -> Option<int> {
    match bound_end(toks, pos) {
        Some(q) => if pos < q <= toks.len() {
            Some(bounds_rest(toks, q))
        } else {
            None
        },
        None => None,
    }
}

/// Attributes, a name, after a colon its bounds, after `=` a type where
/// one follows.
#[verifier::opaque]
pub open spec fn type_param_end(toks: Seq<Tok>, pos: int) -> Option<int> {
    let c0 = attrs_end(toks, pos);
    if 0 <= c0 < toks.len() && toks[c0] is Ident {
        let c1 = c0 + 1;
        let c2 = if c1 < toks.len() && toks[c1] is Colon {
            bounds_end(toks, c1 + 1)
        } else {
            Some(c1)
        };
        match c2 {
            Some(c) => if c < toks.len() && toks[c] is Eq && path_end(toks, c + 1) is Some {
                path_end(toks, c + 1)
            } else {
                Some(c)
            },
            None => None,
        }
    } else {
        None
    }
}

pub open spec fn type_params_rest(toks: Seq<Tok>, p: int) -> int
    decreases toks.len() - p,
{
    if 0 <= p < toks.len() && toks[p] is Comma {
        match type_param_end(toks, p + 1) {
            Some(q) => if p < q <= toks.len() {
                type_params_rest(toks, q)
            } else {
                p
            },
            None => p + 1,
        }
    } else {
        p
    }
}

/// Type parameters joined by `,`, maybe none.
pub open spec fn type_params_end(toks: Seq<Tok>, pos: int) -> int {
    match type_param_end(toks, pos) {
        Some(q) => if pos < q <= toks.len() {
            type_params_rest(toks, q)
        } else {
            pos
        },
        None => pos,
    }
}

/// `<`, lifetimes, type parameters where the lifetimes are none or end in
/// `,`, `>`; nothing where that does not parse.
pub open spec fn generics_end(toks: Seq<Tok>, pos: int) -> int {
    if 0 <= pos < toks.len() && toks[pos] is Lt {
        let c1 = lifetime_defs_end(toks, pos + 1);
        let c2 = if c1 == pos + 1 || toks[c1 - 1] is Comma {
            type_params_end(toks, c1)
        } else {
            c1
        };
        if 0 <= c2 < toks.len() && toks[c2] is Gt {
            c2 + 1
        } else {
            pos
        }
    } else {
        pos
    }
}

/// A lifetime with, after a colon, lifetimes joined by `+`, maybe none; or
/// an optional binder, a type, a colon and one or more bounds.
#[verifier::opaque]
pub open spec fn where_predicate_end(toks: Seq<Tok>, pos: int) -> Option<int> {
    if 0 <= pos < toks.len() && toks[pos] is Lifetime {
        let c = pos + 1;
        if c < toks.len() && toks[c] is Colon {
            match lifetime_bounds_end(toks, c + 1) {
                Some(q) => Some(q),
                None => Some(c + 1),
            }
        } else {
            Some(c)
        }
    } else {
        match opt_bound_lifetimes_end(toks, pos) {
            Some(c0) => match path_end(toks, c0) {
                Some(c1) => if c1 < toks.len() && toks[c1] is Colon {
                    bounds_end(toks, c1 + 1)
                } else {
                    None
                },
                None => None,
            },
            None => None,
        }
    }
}

pub open spec fn where_predicates_rest(toks: Seq<Tok>, p: int) -> int
    decreases toks.len() - p,
{
    if 0 <= p < toks.len() && toks[p] is Comma {
        match where_predicate_end(toks, p + 1) {
            Some(q) => if p < q <= toks.len() {
                where_predicates_rest(toks, q)
            } else {
                p
            },
            None => p + 1,
        }
    } else {
        p
    }
}

/// Where-predicates joined by `,`, maybe none.
pub open spec fn where_predicates_end(toks: Seq<Tok>, pos: int) -> int {
    match where_predicate_end(toks, pos) {
        Some(q) => if pos < q <= toks.len() {
            where_predicates_rest(toks, q)
        } else {
            pos
        },
        None => pos,
    }
}

/// `where` and its predicates; nothing without the keyword.
pub open spec fn where_clause_end(toks: Seq<Tok>, pos: int) -> int {
    if 0 <= pos < toks.len() && toks[pos] is Where {
        where_predicates_end(toks, pos + 1)
    } else {
        pos
    }
}

} // verus!
