#![allow(dead_code)]
use proc_macro2::{TokenStream, TokenTree};
use std::str::FromStr;
use unconst_trait_impl::baseline;
use unconst_trait_impl::baseline::{keeps, lower_bound_list};
use unconst_trait_impl::bounds::{parse_bounds, BoundContext};
use unconst_trait_impl::cursor::Cursor;
use unconst_trait_impl::error::{Expected, Failure, Problem};
use unconst_trait_impl::item::parse;
use unconst_trait_impl::syntax::{
    GenericParam, Generics, ItemConstImpl, PredicateType, TildeConst, TraitBound,
    TraitBoundModifier, TypeParam, TypeParamBound, WhereClause, WherePredicate,
};
use unconst_trait_impl::token::{lex, to_stream, Token};

fn stream(source: &str) -> TokenStream {
    TokenStream::from_str(source).unwrap()
}

fn tokens(source: &str) -> Vec<Token> {
    lex(&stream(source)).unwrap()
}

fn cursor(source: &str) -> Cursor {
    Cursor::new(tokens(source))
}

fn spell(stream: TokenStream) -> String {
    let mut words: Vec<String> = Vec::new();
    for tree in stream {
        match tree {
            TokenTree::Group(group) => {
                let (open, close) = match group.delimiter() {
                    proc_macro2::Delimiter::Parenthesis => ("(", ")"),
                    proc_macro2::Delimiter::Brace => ("{", "}"),
                    proc_macro2::Delimiter::Bracket => ("[", "]"),
                    proc_macro2::Delimiter::None => ("<<", ">>"),
                };
                words.push(open.to_string());
                let inner = spell(group.stream());
                if !inner.is_empty() {
                    words.push(inner);
                }
                words.push(close.to_string());
            }
            TokenTree::Ident(ident) => words.push(ident.to_string()),
            TokenTree::Punct(punct) => words.push(punct.as_char().to_string()),
            TokenTree::Literal(literal) => words.push(literal.to_string()),
        }
    }
    words.join(" ")
}

fn printed(source: &str) -> String {
    spell(stream(source))
}

fn text(tokens: &Vec<Token>) -> String {
    spell(to_stream(tokens))
}

fn left(cur: &Cursor) -> String {
    spell(cur.stream())
}

fn unexpected(expected: Expected, remaining: usize) -> Failure {
    Failure { problem: Problem::Unexpected(expected), remaining }
}

fn bounds(source: &str) -> Vec<TypeParamBound> {
    parse_bounds(cursor(source), BoundContext::Predicate).unwrap().0
}

fn bound(source: &str) -> TypeParamBound {
    bounds(source).remove(0)
}

fn trait_bound(source: &str) -> TraitBound {
    match bound(source) {
        TypeParamBound::Trait(bound) => bound,
        TypeParamBound::Lifetime(_) => panic!("a lifetime"),
    }
}

fn lowered(bound: &baseline::TypeParamBound) -> &baseline::TraitBound {
    match bound {
        baseline::TypeParamBound::Trait(bound) => bound,
        baseline::TypeParamBound::Lifetime(_) => panic!("a lifetime"),
    }
}

fn names(bounds: &Vec<baseline::TypeParamBound>) -> Vec<String> {
    bounds
        .iter()
        .map(|bound| match bound {
            baseline::TypeParamBound::Trait(bound) => text(&bound.path),
            baseline::TypeParamBound::Lifetime(lifetime) => text(lifetime),
        })
        .collect()
}

fn item(source: &str) -> ItemConstImpl {
    parse(tokens(source)).unwrap()
}

#[test]
fn modifier_loses_only_tilde_const() {
    assert_eq!(
        baseline::TraitBoundModifier::from(TraitBoundModifier::Plain),
        baseline::TraitBoundModifier::Plain
    );
    assert_eq!(
        baseline::TraitBoundModifier::from(TraitBoundModifier::Maybe),
        baseline::TraitBoundModifier::Maybe
    );
    assert_eq!(
        baseline::TraitBoundModifier::from(TraitBoundModifier::TildeConst(TildeConst)),
        baseline::TraitBoundModifier::Plain
    );
}

#[test]
fn trait_bound_keeps_all_but_its_mark() {
    let bound = baseline::TraitBound::from(trait_bound("(~const for<'a> a::Tr<'a>)"));
    assert!(bound.parenthesized);
    assert_eq!(bound.modifier, baseline::TraitBoundModifier::Plain);
    assert_eq!(text(&bound.lifetimes.unwrap()), printed("for < 'a >"));
    assert_eq!(text(&bound.path), printed("a::Tr < 'a >"));
    assert_eq!(bound.last_segment, "Tr");
}

#[test]
fn relaxed_bound_is_unchanged() {
    let bound = baseline::TraitBound::from(trait_bound("?Sized"));
    assert!(!bound.parenthesized);
    assert_eq!(bound.modifier, baseline::TraitBoundModifier::Maybe);
    assert!(bound.lifetimes.is_none());
    assert_eq!(text(&bound.path), "Sized");
}

#[test]
fn lifetime_bound_is_unchanged() {
    match baseline::TypeParamBound::from(bound("'static")) {
        baseline::TypeParamBound::Lifetime(lifetime) => assert_eq!(text(&lifetime), "' static"),
        baseline::TypeParamBound::Trait(_) => panic!("a trait"),
    }
}

#[test]
fn only_const_drop_bounds_are_not_kept() {
    assert!(!keeps(&bound("~const Drop")));
    assert!(!keeps(&bound("~const core::ops::Drop")));
    assert!(!keeps(&bound("~const ::core::ops::Drop")));
    assert!(!keeps(&bound("(~const Drop)")));
    assert!(!keeps(&bound("~const Drop<u8>")));
    assert!(!keeps(&bound("~const for<'a> Drop")));
    assert!(keeps(&bound("Drop")));
    assert!(keeps(&bound("?Drop")));
    assert!(keeps(&bound("~const Clone")));
    assert!(keeps(&bound("~const Drop::Inner")));
    assert!(keeps(&bound("~const Dropper")));
    assert!(keeps(&bound("~const drop")));
    assert!(keeps(&bound("~const r#Drop")));
    assert!(keeps(&bound("'a")));
}

#[test]
fn bound_list_keeps_its_order() {
    let list = lower_bound_list(bounds(
        "A + ~const Drop + ~const B + 'c + ?D + ~const x::Drop + (~const E) + F",
    ));
    assert_eq!(names(&list), ["A", "B", "' c", "D", "E", "F"]);
    assert_eq!(lowered(&list[1]).modifier, baseline::TraitBoundModifier::Plain);
    assert_eq!(lowered(&list[3]).modifier, baseline::TraitBoundModifier::Maybe);
    assert!(lowered(&list[4]).parenthesized);
}

#[test]
fn bound_list_may_lose_everything() {
    assert!(lower_bound_list(bounds("~const Drop + ~const a::Drop")).is_empty());
    assert!(lower_bound_list(Vec::new()).is_empty());
}

#[test]
fn bound_list_without_marks_is_unchanged() {
    let list = lower_bound_list(bounds("A + ?B + 'c + Drop + (D)"));
    assert_eq!(names(&list), ["A", "B", "' c", "Drop", "D"]);
}

#[test]
fn type_parameter_keeps_all_but_its_removed_bounds() {
    let (param, _) = TypeParam::parse(cursor("#[a] T: ~const Drop + Clone = u8")).unwrap();
    let param = baseline::TypeParam::from(param);
    assert_eq!(param.attrs.len(), 1);
    assert_eq!(text(&vec![param.ident.clone()]), "T");
    assert!(param.colon_token);
    assert_eq!(names(&param.bounds), ["Clone"]);
    assert_eq!(text(&param.default.unwrap()), "u8");
}

#[test]
fn other_parameters_are_unchanged() {
    let (param, _) = GenericParam::parse(cursor("#[a] 'a: 'b")).unwrap();
    match baseline::GenericParam::from(param) {
        baseline::GenericParam::Lifetime(param) => {
            assert_eq!(param.attrs.len(), 1);
            assert_eq!(text(&param.tokens), printed("'a: 'b"));
        }
        _ => panic!("no lifetime"),
    }
    let (param, _) = GenericParam::parse(cursor("const N: u8")).unwrap();
    match baseline::GenericParam::from(param) {
        baseline::GenericParam::Const(param) => assert_eq!(text(&param.tokens), printed("const N: u8")),
        _ => panic!("no constant"),
    }
    let (param, _) = GenericParam::parse(cursor("T: ~const A")).unwrap();
    match baseline::GenericParam::from(param) {
        baseline::GenericParam::Type(param) => assert_eq!(names(&param.bounds), ["A"]),
        _ => panic!("no type"),
    }
}

#[test]
fn predicate_keeps_all_but_its_removed_bounds() {
    let (predicate, _) = PredicateType::parse(cursor("for<'a> &'a T: ~const Drop + ~const A"))
        .unwrap();
    let predicate = baseline::PredicateType::from(predicate);
    assert_eq!(text(&predicate.lifetimes.unwrap()), printed("for < 'a >"));
    assert_eq!(text(&predicate.bounded_ty), printed("& 'a T"));
    assert_eq!(names(&predicate.bounds), ["A"]);
}

#[test]
fn other_predicates_are_unchanged() {
    let (predicate, _) = WherePredicate::parse(cursor("'a: 'b + 'c")).unwrap();
    match baseline::WherePredicate::from(predicate) {
        baseline::WherePredicate::Lifetime(predicate) => {
            assert_eq!(text(&predicate.lifetime), "' a");
            assert_eq!(predicate.bounds.len(), 2);
        }
        _ => panic!("no lifetime"),
    }
    match baseline::WherePredicate::from(WherePredicate::Eq(tokens("A = B"))) {
        baseline::WherePredicate::Eq(kept) => assert_eq!(text(&kept), "A = B"),
        _ => panic!("no equality"),
    }
}

#[test]
fn where_clause_keeps_every_predicate() {
    let (clause, _) = WhereClause::parse(cursor("where T: ~const Drop, 'a: 'b, U: ~const A + B"))
        .unwrap();
    let clause = baseline::WhereClause::from(clause);
    assert_eq!(clause.predicates.len(), 3);
    match &clause.predicates[0] {
        baseline::WherePredicate::Type(predicate) => assert!(predicate.bounds.is_empty()),
        _ => panic!("no type"),
    }
    assert!(matches!(clause.predicates[1], baseline::WherePredicate::Lifetime(_)));
    match &clause.predicates[2] {
        baseline::WherePredicate::Type(predicate) => assert_eq!(names(&predicate.bounds), ["A", "B"]),
        _ => panic!("no type"),
    }
}

#[test]
fn generics_keep_every_parameter() {
    let (generics, _) = Generics::parse(cursor("<T: ~const Drop, 'a, U: ~const A, const N: u8>"))
        .unwrap();
    let generics = baseline::Generics::from(generics);
    assert_eq!(generics.params.len(), 4);
    assert!(matches!(generics.params[0], baseline::GenericParam::Type(_)));
    assert!(matches!(generics.params[1], baseline::GenericParam::Lifetime(_)));
    assert!(matches!(generics.params[2], baseline::GenericParam::Type(_)));
    assert!(matches!(generics.params[3], baseline::GenericParam::Const(_)));
    assert!(generics.where_clause.is_none());
}

#[test]
fn block_loses_its_const() {
    let lowered = baseline::ItemImpl::from(item(
        "#[a] default unsafe impl<T: ~const A> const !Tr for X<T> where T: ~const Drop { #![b] fn f() {} }",
    ));
    assert_eq!(lowered.attrs.len(), 2);
    assert!(lowered.defaultness);
    assert!(lowered.unsafety);
    assert_eq!(lowered.generics.params.len(), 1);
    assert_eq!(lowered.generics.where_clause.unwrap().predicates.len(), 1);
    assert!(lowered.trait_.negative);
    assert_eq!(text(&lowered.trait_.path), "Tr");
    assert_eq!(text(&lowered.self_ty), printed("X<T>"));
    assert_eq!(lowered.items.len(), 1);
}

#[test]
fn lowering_a_baseline_block_changes_nothing() {
    let source = "#[a] unsafe impl<'a, T: A + ?Sized + 'a, const N: u8> !Tr for X<T> where T: B + Drop, 'a: 'static { #![b] type Y = T; fn f() {} }";
    let before = item(source);
    let shown = format!("{:?}", before.generics.params.len());
    let lowered = baseline::ItemImpl::from(item(source));
    assert_eq!(format!("{:?}", lowered.generics.params.len()), shown);
    assert_eq!(lowered.attrs.len(), before.attrs.len());
    assert_eq!(lowered.defaultness, before.defaultness);
    assert_eq!(lowered.unsafety, before.unsafety);
    assert_eq!(lowered.trait_.negative, before.trait_.negative);
    assert_eq!(text(&lowered.trait_.path), text(&before.trait_.path));
    assert_eq!(text(&lowered.self_ty), text(&before.self_ty));
    assert_eq!(lowered.items.len(), before.items.len());
    assert_eq!(spell(to_stream(&lowered.render())), printed(source));
}
