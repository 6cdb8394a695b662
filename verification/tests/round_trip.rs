#![allow(dead_code)]
use proc_macro2::{TokenStream, TokenTree};
use quote::ToTokens;
use std::str::FromStr;
use unconst_trait_impl::baseline;
use unconst_trait_impl::cursor::Cursor;
use unconst_trait_impl::error::{Expected, Failure, ParseError, Problem};
use unconst_trait_impl::item::parse;
use unconst_trait_impl::token::{lex, to_stream, Token};
use unconst_trait_impl::unconst_trait_impl;

fn stream(source: &str) -> TokenStream {
    TokenStream::from_str(source).unwrap()
}

fn tokens(source: &str) -> Vec<Token> {
    lex(&stream(source)).unwrap()
}

fn cursor(source: &str) -> Cursor {
    Cursor::new(tokens(source))
}

fn spell(stream: TokenStream) -> String {
    let mut words: Vec<String> = Vec::new();
    for tree in stream {
        match tree {
            TokenTree::Group(group) => {
                let (open, close) = match group.delimiter() {
                    proc_macro2::Delimiter::Parenthesis => ("(", ")"),
                    proc_macro2::Delimiter::Brace => ("{", "}"),
                    proc_macro2::Delimiter::Bracket => ("[", "]"),
                    proc_macro2::Delimiter::None => ("<<", ">>"),
                };
                words.push(open.to_string());
                let inner = spell(group.stream());
                if !inner.is_empty() {
                    words.push(inner);
                }
                words.push(close.to_string());
            }
            TokenTree::Ident(ident) => words.push(ident.to_string()),
            TokenTree::Punct(punct) => words.push(punct.as_char().to_string()),
            TokenTree::Literal(literal) => words.push(literal.to_string()),
        }
    }
    words.join(" ")
}

fn printed(source: &str) -> String {
    spell(stream(source))
}

fn text(tokens: &Vec<Token>) -> String {
    spell(to_stream(tokens))
}

fn left(cur: &Cursor) -> String {
    spell(cur.stream())
}

fn unexpected(expected: Expected, remaining: usize) -> Failure {
    Failure { problem: Problem::Unexpected(expected), remaining }
}

fn rewritten(source: &str) -> TokenStream {
    unconst_trait_impl(stream(source)).unwrap()
}

fn baseline_tree(source: TokenStream) -> syn::ItemImpl {
    syn::parse2::<syn::ItemImpl>(source).unwrap()
}

fn round_trip(extended: &str, erased: &str) {
    let output = rewritten(extended);
    let reparsed = baseline_tree(output.clone());
    assert_eq!(reparsed, baseline_tree(stream(erased)));
    assert_eq!(reparsed.to_token_stream().to_string(), output.to_string());
}

#[test]
fn output_parses_as_the_erased_block() {
    round_trip(
        "impl<T: ~const Clone> const Greet for Wrapper<T> { fn hi(&self) {} }",
        "impl<T: Clone> Greet for Wrapper<T> { fn hi(&self) {} }",
    );
}

#[test]
fn output_parses_without_the_removed_bound() {
    round_trip(
        "impl<T: ~const Drop> const Cleanup for Wrapper<T> {}",
        "impl<T> Cleanup for Wrapper<T> {}",
    );
    round_trip(
        "impl<T: Clone + ~const Drop + Send> const Cleanup for Wrapper<T> {}",
        "impl<T: Clone + Send> Cleanup for Wrapper<T> {}",
    );
}

#[test]
fn output_of_a_baseline_block_parses_as_itself() {
    for source in [
        "impl<T> Plain for T {}",
        "impl !Send for Wrapper {}",
        "unsafe impl<'a, T: ?Sized + 'a> Tr<'a> for &'a T where T: Clone, 'a: 'static { type X = T; const C: u8 = 1; fn f(&self) -> u8 { 1 } }",
        "#[cfg(test)] default impl<T, const N: usize> Tr for [T; N] { #![allow(unused)] }",
        "impl<F: Fn(u8) -> u8> Tr for F {}",
        "impl<T: for<'a> Tr<'a>> a::b::Tr for T {}",
    ] {
        round_trip(source, source);
    }
}

#[test]
fn output_with_a_where_clause_parses_as_the_erased_block() {
    round_trip(
        "impl Greet for i32 where i32: ~const Clone {}",
        "impl Greet for i32 where i32: Clone {}",
    );
    round_trip(
        "impl<T> const Tr for T where T: ~const Drop + ~const Clone, for<'a> &'a T: ~const Tr {}",
        "impl<T> Tr for T where T: Clone, for<'a> &'a T: Tr {}",
    );
}

#[test]
fn output_with_every_feature_parses_as_the_erased_block() {
    round_trip(
        "#[a] default unsafe impl<'a, T: (~const A) + ~const core::ops::Drop + ?Sized + 'a, U: ~const Fn(u8) -> u8, const N: usize> const !Tr<'a, N> for [T; N] where U: ~const for<'b> B<'b> { #![b] type X = U; fn f() {} }",
        "#[a] default unsafe impl<'a, T: (A) + ?Sized + 'a, U: Fn(u8) -> u8, const N: usize> !Tr<'a, N> for [T; N] where U: for<'b> B<'b> { #![b] type X = U; fn f() {} }",
    );
}

#[test]
fn output_is_what_the_baseline_printer_prints() {
    for source in [
        "impl<T, 'a, const N: usize, 'b> const Tr for X<'a, 'b, T, N> {}",
        "impl<T: ~const A + ~const Drop, 'a: 'b, 'b> Tr for X<'a, 'b, T> where T:, 'a: {}",
        "impl<> Tr for X where {}",
        "impl<T,> Tr for X<T> where T: Clone, {}",
    ] {
        let output = rewritten(source);
        let reparsed = baseline_tree(output.clone());
        assert_eq!(reparsed.to_token_stream().to_string(), output.to_string());
    }
}

#[test]
fn rewriting_twice_is_rewriting_once() {
    for source in [
        "impl<T: ~const Clone + ~const Drop> const Tr for X<T> where T: ~const Drop {}",
        "impl<T> Plain for T {}",
        "#[a] unsafe impl<'a, T: ~const A + 'a> const !Tr for &'a T { #![b] fn f() {} }",
    ] {
        let once = rewritten(source);
        let twice = unconst_trait_impl(once.clone()).unwrap();
        assert_eq!(spell(twice), spell(once));
    }
}

#[test]
fn lowered_tree_is_reached_again_from_its_print() {
    let source = "impl<'a, T: ~const A + ~const Drop> const Tr for X<T> where T: ~const B {}";
    let lowered = baseline::ItemImpl::from(parse(tokens(source)).unwrap());
    let again = baseline::ItemImpl::from(parse(lowered.render()).unwrap());
    assert_eq!(format!("{:?}", again), format!("{:?}", lowered));
}

#[test]
fn real_blocks_are_rewritten_token_for_token() {
    round_trip(
        r#"
        /// Adds two wrappers.
        #[inline]
        impl<T: ~const core::ops::Add<Output = T> + ~const Drop + Copy> const core::ops::Add for Wrapper<T>
        where
            T: ~const Default,
        {
            type Output = Self;

            /// Adds.
            #[inline(always)]
            fn add(self, rhs: Self) -> Self {
                let sum = |a: T, b: T| a + b;
                Wrapper(sum(self.0, rhs.0), vec![1u8, 2, 3].len() as i32 - -1)
            }
        }
        "#,
        r#"
        /// Adds two wrappers.
        #[inline]
        impl<T: core::ops::Add<Output = T> + Copy> core::ops::Add for Wrapper<T>
        where
            T: Default
        {
            type Output = Self;

            /// Adds.
            #[inline(always)]
            fn add(self, rhs: Self) -> Self {
                let sum = |a: T, b: T| a + b;
                Wrapper(sum(self.0, rhs.0), vec![1u8, 2, 3].len() as i32 - -1)
            }
        }
        "#,
    );
    round_trip(
        "impl<'a, T: ?Sized + ~const PartialEq<U>, U: ?Sized, const N: usize> const PartialEq<[U; N]> for &'a [T; N] where [T; N]: ~const Sized { fn eq(&self, other: &[U; N]) -> bool { matches!((self, other), (a, b) if a.len() == b.len()) } fn ne(&self, other: &[U; N]) -> bool { !self.eq(other) } }",
        "impl<'a, T: ?Sized + PartialEq<U>, U: ?Sized, const N: usize> PartialEq<[U; N]> for &'a [T; N] where [T; N]: Sized { fn eq(&self, other: &[U; N]) -> bool { matches!((self, other), (a, b) if a.len() == b.len()) } fn ne(&self, other: &[U; N]) -> bool { !self.eq(other) } }",
    );
    round_trip(
        "unsafe impl<T, F> const Tr for Lazy<T, F> where F: ~const FnOnce() -> T + ~const Drop, T: ~const Drop {}",
        "unsafe impl<T, F> Tr for Lazy<T, F> where F: FnOnce() -> T, T: {}",
    );
}
