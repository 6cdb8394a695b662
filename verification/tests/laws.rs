#![allow(dead_code)]
use proc_macro2::{TokenStream, TokenTree};
use std::str::FromStr;
use unconst_trait_impl::baseline;
use unconst_trait_impl::bounds::{parse_bounds, BoundContext};
use unconst_trait_impl::cursor::Cursor;
use unconst_trait_impl::error::{Expected, Failure, ParseError, Problem};
use unconst_trait_impl::item::parse;
use unconst_trait_impl::syntax::{TraitBoundModifier, TypeParamBound};
use unconst_trait_impl::token::{lex, to_stream, Token};
use unconst_trait_impl::unconst_trait_impl;

fn stream(source: &str) -> TokenStream {
    TokenStream::from_str(source).unwrap()
}

fn tokens(source: &str) -> Vec<Token> {
    lex(&stream(source)).unwrap()
}

fn cursor(source: &str) -> Cursor {
    Cursor::new(tokens(source))
}

fn spell(stream: TokenStream) -> String {
    let mut words: Vec<String> = Vec::new();
    for tree in stream {
        match tree {
            TokenTree::Group(group) => {
                let (open, close) = match group.delimiter() {
                    proc_macro2::Delimiter::Parenthesis => ("(", ")"),
                    proc_macro2::Delimiter::Brace => ("{", "}"),
                    proc_macro2::Delimiter::Bracket => ("[", "]"),
                    proc_macro2::Delimiter::None => ("<<", ">>"),
                };
                words.push(open.to_string());
                let inner = spell(group.stream());
                if !inner.is_empty() {
                    words.push(inner);
                }
                words.push(close.to_string());
            }
            TokenTree::Ident(ident) => words.push(ident.to_string()),
            TokenTree::Punct(punct) => words.push(punct.as_char().to_string()),
            TokenTree::Literal(literal) => words.push(literal.to_string()),
        }
    }
    words.join(" ")
}

fn printed(source: &str) -> String {
    spell(stream(source))
}

fn text(tokens: &Vec<Token>) -> String {
    spell(to_stream(tokens))
}

fn left(cur: &Cursor) -> String {
    spell(cur.stream())
}

fn unexpected(expected: Expected, remaining: usize) -> Failure {
    Failure { problem: Problem::Unexpected(expected), remaining }
}

fn refused(source: &str) -> ParseError {
    unconst_trait_impl(stream(source)).unwrap_err()
}

fn rewritten(source: &str) -> String {
    spell(unconst_trait_impl(stream(source)).unwrap())
}

fn is_marked(bound: &TypeParamBound) -> bool {
    matches!(bound, TypeParamBound::Trait(bound) if matches!(bound.modifier, TraitBoundModifier::TildeConst(_)))
}

fn name(bound: &TypeParamBound) -> String {
    match bound {
        TypeParamBound::Trait(bound) => text(&bound.path),
        TypeParamBound::Lifetime(lifetime) => text(lifetime),
    }
}

#[test]
fn baseline_input_comes_back_as_it_was() {
    for source in [
        "impl A for B {}",
        "impl<T> Plain for T {}",
        "impl<'a, T: Clone + Drop + ?Sized, const N: u8> A<T> for B<'a, N> where T: Drop + 'a {}",
        "#[x] unsafe impl !Send for Wrapper { #![y] fn f() {} }",
    ] {
        assert_eq!(rewritten(source), printed(source));
    }
}

#[test]
fn every_bound_is_kept_or_removed_by_the_rule() {
    let source = "A + ~const Drop + ~const B + ?Drop + ~const x::Drop + 'a + (~const Drop) + (~const C) + Drop";
    let all = parse_bounds(cursor(source), BoundContext::Predicate).unwrap().0;
    let expected: Vec<String> = all
        .iter()
        .filter(|bound| !(is_marked(bound) && name(bound).ends_with("Drop")))
        .map(name)
        .collect();
    let lowered = baseline::lower_bound_list(all);
    let kept: Vec<String> = lowered
        .iter()
        .map(|bound| match bound {
            baseline::TypeParamBound::Trait(bound) => text(&bound.path),
            baseline::TypeParamBound::Lifetime(lifetime) => text(lifetime),
        })
        .collect();
    assert_eq!(kept, expected);
    assert_eq!(kept, ["A", "B", "Drop", "' a", "C", "Drop"]);
}

#[test]
fn what_stays_keeps_its_order() {
    assert_eq!(
        rewritten("impl<'d, C: ~const Z + Y + ~const Drop + X, const B: u8, A: W> const T for S where R: ~const Q + P, 'o: 'n, M: L {}"),
        printed("impl<'d, C: Z + Y + X, const B: u8, A: W> T for S where R: Q + P, 'o: 'n, M: L {}")
    );
}

#[test]
fn block_without_for_is_always_an_inherent_block() {
    for (source, position) in [
        ("impl Greet {}", 2),
        ("impl<T> Wrapper<T> {}", 8),
        ("unsafe impl const X where X: Y {}", 4),
        ("impl !X {}", 3),
        ("impl X", 2),
        ("impl &X {}", 3),
    ] {
        assert_eq!(refused(source), ParseError::MissingTraitKeyword { position }, "{}", source);
    }
}

#[test]
fn trait_that_is_no_plain_path_is_always_refused() {
    for (source, position) in [
        ("impl &A for B {}", 1),
        ("impl<T> [T] for B {}", 4),
        ("impl (A, B) for C {}", 1),
        ("impl <A as B>::C for D {}", 1),
        ("impl const dyn A for B {}", 2),
        ("impl !fn() for B {}", 2),
    ] {
        assert_eq!(refused(source), ParseError::MissingTraitPath { position }, "{}", source);
    }
}

#[test]
fn earlier_problem_is_reported_first() {
    assert_eq!(
        refused("impl<T: ?> Greet {}"),
        ParseError::UnexpectedToken { expected: Expected::Path, position: 5 }
    );
    assert_eq!(
        refused("impl + {}"),
        ParseError::UnexpectedToken { expected: Expected::Type, position: 1 }
    );
}
