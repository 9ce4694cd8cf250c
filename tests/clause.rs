use generic_params::delimited::Delimited;
use generic_params::generics::{
    Attribute, BoundLifetimes, Generics, LifetimeDef, PolyTraitRef, TraitBoundModifier, Type,
    TypeParam, TypeParamBound, WhereBoundPredicate, WhereClause, WhereEqPredicate, WherePredicate,
    WhereRegionPredicate,
};
use generic_params::parsing::{parse_attrs, parse_lifetime, NodeKind, ParseError};
use generic_params::printing::empty_normal_generics;
use generic_params::token::Tok;

/// Splits on whitespace; each word is one token.
fn toks(src: &str) -> Vec<Tok> {
    src.split_whitespace()
        .map(|w| match w {
            "<" => Tok::Lt,
            ">" => Tok::Gt,
            "," => Tok::Comma,
            ":" => Tok::Colon,
            "::" => Tok::PathSep,
            "+" => Tok::Plus,
            "=" => Tok::Eq,
            "?" => Tok::Question,
            "#" => Tok::Pound,
            "[" => Tok::LBracket,
            "]" => Tok::RBracket,
            "for" => Tok::For,
            "where" => Tok::Where,
            _ if w.starts_with('\'') => Tok::Lifetime(w.to_string()),
            _ => Tok::Ident(w.to_string()),
        })
        .collect()
}

/// The tokens as text, separated by single spaces.
fn text(ts: &[Tok]) -> String {
    let words: Vec<String> = ts
        .iter()
        .map(|t| match t {
            Tok::Lt => "<".to_string(),
            Tok::Gt => ">".to_string(),
            Tok::Comma => ",".to_string(),
            Tok::Colon => ":".to_string(),
            Tok::PathSep => "::".to_string(),
            Tok::Plus => "+".to_string(),
            Tok::Eq => "=".to_string(),
            Tok::Question => "?".to_string(),
            Tok::Pound => "#".to_string(),
            Tok::LBracket => "[".to_string(),
            Tok::RBracket => "]".to_string(),
            Tok::For => "for".to_string(),
            Tok::Where => "where".to_string(),
            Tok::Lifetime(s) => s.clone(),
            Tok::Ident(s) => s.clone(),
        })
        .collect();
    words.join(" ")
}

fn parse_all(src: &str) -> Generics {
    let ts = toks(src);
    let (g, n) = Generics::parse(&ts, 0);
    assert_eq!(n, ts.len(), "not all of {:?} was consumed", src);
    g
}

fn decl(g: &Generics) -> String {
    let mut out = Vec::new();
    g.to_tokens(&mut out);
    text(&out)
}

fn impl_view(g: &Generics) -> String {
    let (i, _, _) = g.split_for_impl();
    let mut out = Vec::new();
    i.to_tokens(&mut out);
    text(&out)
}

fn type_view(g: &Generics) -> String {
    let (_, t, _) = g.split_for_impl();
    let mut out = Vec::new();
    t.to_tokens(&mut out);
    text(&out)
}

fn turbofish(g: &Generics) -> Vec<Tok> {
    let (_, t, _) = g.split_for_impl();
    let mut out = Vec::new();
    t.as_turbofish().to_tokens(&mut out);
    out
}

fn round_trip(src: &str) {
    let x = parse_all(src);
    let printed = decl(&x);
    assert_eq!(printed, src);
    let again = parse_all(&printed);
    assert_eq!(again, x);
}

#[test]
fn round_trip_single_lifetime() {
    round_trip("< 'a >");
}

#[test]
fn round_trip_trailing_comma() {
    round_trip("< 'a , >");
}

#[test]
fn round_trip_lifetime_and_bounded_param() {
    round_trip("< 'a , T : Clone >");
}

#[test]
fn round_trip_default() {
    round_trip("< T = u8 >");
}

#[test]
fn empty_brackets_print_as_nothing() {
    // `<>` parses with both brackets recorded, and prints as nothing at all;
    // nothing parses back as the value without brackets.
    let x = parse_all("< >");
    assert!(x.lt_token && x.gt_token);
    assert_eq!(decl(&x), "");
    let again = parse_all("");
    assert!(!again.lt_token && !again.gt_token);
    assert_eq!(again.lifetimes, x.lifetimes);
    assert_eq!(again.ty_params, x.ty_params);
    assert_eq!(again.where_clause, x.where_clause);
    assert_ne!(again, x);
}

#[test]
fn empty_or_trailing_of_lifetime_lists() {
    assert!(parse_all("< >").lifetimes.empty_or_trailing());
    assert!(parse_all("< 'a , >").lifetimes.empty_or_trailing());
    assert!(!parse_all("< 'a , 'b >").lifetimes.empty_or_trailing());
}

#[test]
fn delimited_queries() {
    let g = parse_all("< 'a , 'b , >");
    assert_eq!(g.lifetimes.len(), 2);
    assert!(!g.lifetimes.is_empty());
    assert!(g.lifetimes.trailing_delim());
    let d: Delimited<String> = Delimited::new();
    assert!(d.is_empty());
    assert!(!d.trailing_delim());
    assert!(d.empty_or_trailing());
}

#[test]
fn impl_view_omits_default() {
    let g = parse_all("< T = u8 >");
    assert_eq!(impl_view(&g), "< T >");
    assert_eq!(decl(&g), "< T = u8 >");
}

#[test]
fn impl_view_keeps_attributes_and_bounds() {
    let g = parse_all("< # [ may_dangle ] 'a : 'b , # [ cfg ] T : Clone + 'a = u8 , >");
    assert_eq!(impl_view(&g), "< # [ may_dangle ] 'a : 'b , # [ cfg ] T : Clone + 'a , >");
}

#[test]
fn type_use_view_prints_bare_names() {
    let g = parse_all("< 'a : 'b , T : Clone = u8 >");
    assert_eq!(type_view(&g), "< 'a , T >");
}

#[test]
fn type_use_view_keeps_trailing_commas() {
    let g = parse_all("< 'a , T , >");
    assert_eq!(type_view(&g), "< 'a , T , >");
}

#[test]
fn turbofish_of_empty_generics_is_empty() {
    let g = Generics::new();
    assert!(turbofish(&g).is_empty());
    let g = parse_all("< >");
    assert!(turbofish(&g).is_empty());
}

#[test]
fn turbofish_of_lifetime_and_type() {
    let g = parse_all("< 'a , T >");
    assert_eq!(
        turbofish(&g),
        vec![
            Tok::PathSep,
            Tok::Lt,
            Tok::Lifetime("'a".to_string()),
            Tok::Comma,
            Tok::Ident("T".to_string()),
            Tok::Gt,
        ]
    );
}

#[test]
fn synthetic_comma_joins_lists() {
    // Built directly: the lifetime list has no trailing comma, yet type
    // parameters follow.
    let mut g = Generics::new();
    g.lifetimes.items.push(LifetimeDef::new("'a".to_string()));
    g.ty_params.items.push(TypeParam::new("T".to_string()));
    assert!(!empty_normal_generics(&g));
    assert_eq!(decl(&g), "< 'a , T >");
    assert_eq!(impl_view(&g), "< 'a , T >");
    assert_eq!(type_view(&g), "< 'a , T >");
    assert_eq!(text(&turbofish(&g)), ":: < 'a , T >");
}

#[test]
fn no_comma_after_trailing_lifetime_comma() {
    let mut g = Generics::new();
    g.lifetimes.items.push(LifetimeDef::new("'a".to_string()));
    g.lifetimes.trailing = true;
    g.ty_params.items.push(TypeParam::new("T".to_string()));
    assert_eq!(decl(&g), "< 'a , T >");
}

#[test]
fn lifetime_without_comma_gates_type_params() {
    // Type parameters are not looked for after `'a` without a comma, so the
    // bracketed list fails and nothing is consumed.
    let ts = toks("< 'a T >");
    let (g, n) = Generics::parse(&ts, 0);
    assert_eq!(n, 0);
    assert!(empty_normal_generics(&g));
    assert!(!g.lt_token);
    let ts = toks("< 'a 'b >");
    let (_, n) = Generics::parse(&ts, 0);
    assert_eq!(n, 0);
}

#[test]
fn generics_parse_stops_before_following_tokens() {
    let ts = toks("< T : ? Sized > where");
    let (g, n) = Generics::parse(&ts, 0);
    assert_eq!(n, 6);
    assert_eq!(decl(&g), "< T : ? Sized >");
    match &g.ty_params.items[0].bounds.items[0] {
        TypeParamBound::Trait(p, m) => {
            assert_eq!(*m, TraitBoundModifier::Maybe);
            assert_eq!(p.segments, vec!["Sized".to_string()]);
        }
        TypeParamBound::Region(_) => panic!("expected a trait bound"),
    }
}

#[test]
fn where_keyword_without_predicates() {
    let keyword_only = WhereClause { where_token: true, predicates: Delimited::new() };
    let none = WhereClause::none();
    assert_ne!(keyword_only, none);
    let mut out = Vec::new();
    keyword_only.to_tokens(&mut out);
    assert!(out.is_empty());
    none.to_tokens(&mut out);
    assert!(out.is_empty());
    let ts = toks("where {");
    let (w, n) = WhereClause::parse(&ts, 0);
    assert_eq!(n, 1);
    assert_eq!(w, keyword_only);
}

#[test]
fn where_clause_round_trip() {
    let src = "where T : Clone + 'a , 'a : 'b + 'c , for < 'x > F : Fn ,";
    let ts = toks(src);
    let (w, n) = WhereClause::parse(&ts, 0);
    assert_eq!(n, ts.len());
    assert!(w.where_token);
    assert_eq!(w.predicates.len(), 3);
    assert!(w.predicates.trailing);
    let mut out = Vec::new();
    w.to_tokens(&mut out);
    assert_eq!(text(&out), src);
}

#[test]
fn where_predicates_parse_as_bound_or_region() {
    for src in ["'a : 'b", "'a", "'a :", "T : Clone", "for < 'x > F : Fn + Send", "std :: fmt :: Debug : Sized"] {
        let ts = toks(src);
        let (p, n) = WherePredicate::parse(&ts, 0).unwrap();
        assert_eq!(n, ts.len(), "{}", src);
        assert!(!matches!(p, WherePredicate::EqPredicate(_)), "{}", src);
    }
    let ts = toks("A = B");
    assert!(WherePredicate::parse(&ts, 0).is_err());
}

#[test]
fn region_predicate_with_empty_bounds() {
    let ts = toks("'a :");
    let (p, n) = WherePredicate::parse(&ts, 0).unwrap();
    assert_eq!(n, 2);
    match &p {
        WherePredicate::RegionPredicate(r) => {
            assert!(r.colon_token);
            assert!(r.bounds.is_empty());
        }
        _ => panic!("expected a region predicate"),
    }
    let mut out = Vec::new();
    p.to_tokens(&mut out);
    assert_eq!(text(&out), "'a");
}

#[test]
fn bound_predicate_needs_a_bound() {
    assert!(WherePredicate::parse(&toks("T :"), 0).is_err());
    assert!(WherePredicate::parse(&toks("T"), 0).is_err());
}

#[test]
fn eq_predicate_prints() {
    let p = WherePredicate::EqPredicate(WhereEqPredicate {
        lhs_ty: Type { segments: vec!["A".to_string()] },
        rhs_ty: Type { segments: vec!["B".to_string(), "C".to_string()] },
    });
    let mut out = Vec::new();
    p.to_tokens(&mut out);
    assert_eq!(text(&out), "A = B :: C");
}

#[test]
fn type_param_colon_without_bound_fails() {
    for src in ["T :", "T : >", "T : ,", "T : = u8"] {
        let ts = toks(src);
        assert!(TypeParam::parse(&ts, 0).is_err(), "{}", src);
    }
    let err = TypeParam::parse(&toks("T : >"), 0).unwrap_err();
    assert_eq!(err, ParseError { at: 2, node: NodeKind::TypeParam });
    assert_eq!(err.node.description(), "type parameter");
    // Inside a list the failing parameter ends the list before it.
    let ts = toks("< T : >");
    let (_, n) = Generics::parse(&ts, 0);
    assert_eq!(n, 0);
}

#[test]
fn type_param_with_colon_and_no_bounds_prints() {
    let mut tp = TypeParam::new("T".to_string());
    tp.colon_token = true;
    let mut out = Vec::new();
    tp.to_tokens(&mut out);
    assert_eq!(text(&out), "T");
}

#[test]
fn type_param_bound_alternatives() {
    let (b, n) = TypeParamBound::parse(&toks("'a"), 0).unwrap();
    assert_eq!(n, 1);
    assert_eq!(b, TypeParamBound::Region("'a".to_string()));
    let (b, _) = TypeParamBound::parse(&toks("Clone"), 0).unwrap();
    assert_eq!(
        b,
        TypeParamBound::Trait(
            PolyTraitRef { bound_lifetimes: None, segments: vec!["Clone".to_string()] },
            TraitBoundModifier::Plain
        )
    );
    assert!(TypeParamBound::parse(&toks("?"), 0).is_err());
    assert_eq!(
        TypeParamBound::parse(&toks(","), 0).unwrap_err().node.description(),
        "type parameter bound"
    );
}

#[test]
fn equals_without_type_is_left_in_place() {
    let ts = toks("T = >");
    let (tp, n) = TypeParam::parse(&ts, 0).unwrap();
    assert_eq!(n, 1);
    assert!(!tp.eq_token);
    assert!(tp.default.is_none());
}

#[test]
fn lifetime_def_parse_and_print() {
    let ts = toks("# [ cfg ] 'a : 'b + 'c");
    let (ld, n) = LifetimeDef::parse(&ts, 0).unwrap();
    assert_eq!(n, ts.len());
    assert_eq!(ld.attrs, vec![Attribute { segments: vec!["cfg".to_string()] }]);
    assert!(ld.colon_token);
    assert_eq!(ld.bounds.items, vec!["'b".to_string(), "'c".to_string()]);
    let mut out = Vec::new();
    ld.to_tokens(&mut out);
    assert_eq!(out, ts);
    assert!(LifetimeDef::parse(&toks("'a :"), 0).is_err());
    // A `+` with no lifetime after it is left in place.
    let (_, n) = LifetimeDef::parse(&toks("'a : 'b +"), 0).unwrap();
    assert_eq!(n, 3);
}

#[test]
fn bound_lifetimes_parse_and_print() {
    let ts = toks("for < 'a , 'b : 'a >");
    let (b, n) = BoundLifetimes::parse(&ts, 0).unwrap();
    assert_eq!(n, ts.len());
    assert_eq!(b.lifetimes.len(), 2);
    let mut out = Vec::new();
    b.to_tokens(&mut out);
    assert_eq!(out, ts);
    assert!(BoundLifetimes::parse(&toks("for < 'a"), 0).is_err());
}

#[test]
fn attributes_are_collected_in_order() {
    let ts = toks("# [ a ] # [ b :: c ] T");
    let (attrs, n) = parse_attrs(&ts, 0);
    assert_eq!(n, 10);
    assert_eq!(attrs.len(), 2);
    assert_eq!(attrs[1].segments, vec!["b".to_string(), "c".to_string()]);
    let (attrs, n) = parse_attrs(&toks("# [ a"), 0);
    assert_eq!(n, 0);
    assert!(attrs.is_empty());
}

#[test]
fn bound_predicate_prints_binder() {
    let p = WherePredicate::BoundPredicate(WhereBoundPredicate {
        bound_lifetimes: Some(BoundLifetimes {
            lifetimes: Delimited { items: vec![LifetimeDef::new("'x".to_string())], trailing: false },
        }),
        bounded_ty: Type { segments: vec!["F".to_string()] },
        bounds: Delimited {
            items: vec![TypeParamBound::Region("'x".to_string())],
            trailing: false,
        },
    });
    let mut out = Vec::new();
    p.to_tokens(&mut out);
    assert_eq!(text(&out), "for < 'x > F : 'x");
    let r = WherePredicate::RegionPredicate(WhereRegionPredicate {
        lifetime: "'a".to_string(),
        colon_token: false,
        bounds: Delimited { items: vec!["'b".to_string()], trailing: false },
    });
    let mut out = Vec::new();
    r.to_tokens(&mut out);
    assert_eq!(text(&out), "'a : 'b");
}

#[test]
fn split_for_impl_shares_the_where_clause() {
    let mut g = parse_all("< T >");
    let (w, _) = WhereClause::parse(&toks("where T : Clone"), 0);
    g.where_clause = w;
    let (_, _, wc) = g.split_for_impl();
    let mut out = Vec::new();
    wc.to_tokens(&mut out);
    assert_eq!(text(&out), "where T : Clone");
    assert_eq!(WhereClause::default(), WhereClause::none());
    assert_eq!(Generics::default(), Generics::new());
}

#[test]
fn each_error_kind_has_an_input() {
    let err = |r: Result<(), ParseError>| r.unwrap_err();
    assert_eq!(
        err(Type::parse(&toks(","), 0).map(|_| ())),
        ParseError { at: 0, node: NodeKind::Type }
    );
    assert_eq!(
        err(Attribute::parse(&toks("# x"), 0).map(|_| ())),
        ParseError { at: 0, node: NodeKind::Attribute }
    );
    assert_eq!(
        err(parse_lifetime(&toks("T"), 0).map(|_| ())),
        ParseError { at: 0, node: NodeKind::Lifetime }
    );
    assert_eq!(
        err(LifetimeDef::parse(&toks("T"), 0).map(|_| ())),
        ParseError { at: 0, node: NodeKind::LifetimeDef }
    );
    assert_eq!(
        err(LifetimeDef::parse(&toks("'a :"), 0).map(|_| ())),
        ParseError { at: 2, node: NodeKind::LifetimeDef }
    );
    assert_eq!(
        err(BoundLifetimes::parse(&toks("for 'a"), 0).map(|_| ())),
        ParseError { at: 0, node: NodeKind::BoundLifetimes }
    );
    assert_eq!(
        err(PolyTraitRef::parse(&toks(","), 0).map(|_| ())),
        ParseError { at: 0, node: NodeKind::TraitRef }
    );
    assert_eq!(
        err(TypeParamBound::parse(&toks("? 'a"), 0).map(|_| ())),
        ParseError { at: 0, node: NodeKind::TypeParamBound }
    );
    assert_eq!(
        err(TypeParam::parse(&toks("'a"), 0).map(|_| ())),
        ParseError { at: 0, node: NodeKind::TypeParam }
    );
    assert_eq!(
        err(WherePredicate::parse(&toks("A = B"), 0).map(|_| ())),
        ParseError { at: 0, node: NodeKind::WherePredicate }
    );
    assert_eq!(NodeKind::LifetimeDef.description(), "lifetime definition");
}

#[test]
fn paths_take_every_following_segment() {
    let (t, n) = Type::parse(&toks("a :: b :: c :: >"), 0).unwrap();
    assert_eq!(n, 5);
    assert_eq!(t.segments.len(), 3);
    let (p, n) = PolyTraitRef::parse(&toks("for < 'a > Fn + Send"), 0).unwrap();
    assert_eq!(n, 5);
    assert!(p.bound_lifetimes.is_some());
}
