use proc_macro2::{TokenStream, TokenTree};
use std::str::FromStr;
use unconst_trait_impl::cursor::Cursor;
use unconst_trait_impl::delegate::{
    classify_type, parse_bound_lifetimes, parse_const_param, parse_impl_item,
    parse_lifetime_param, parse_mod_style_path, parse_outer_attributes,
    parse_parenthesized_arguments, parse_path, parse_type, receive, take_over, TypeKind,
};
use unconst_trait_impl::error::{Expected, Failure, Problem};
use unconst_trait_impl::token::{lex, to_stream, Token};

fn stream(source: &str) -> TokenStream {
    TokenStream::from_str(source).unwrap()
}

fn tokens(source: &str) -> Vec<Token> {
    lex(&stream(source)).unwrap()
}

fn cursor(source: &str) -> Cursor {
    Cursor::new(tokens(source))
}


fn spell(stream: TokenStream) -> String {
    let mut words: Vec<String> = Vec::new();
    for tree in stream {
        match tree {
            TokenTree::Group(group) => {
                let (open, close) = match group.delimiter() {
                    proc_macro2::Delimiter::Parenthesis => ("(", ")"),
                    proc_macro2::Delimiter::Brace => ("{", "}"),
                    proc_macro2::Delimiter::Bracket => ("[", "]"),
                    proc_macro2::Delimiter::None => ("<<", ">>"),
                };
                words.push(open.to_string());
                let inner = spell(group.stream());
                if !inner.is_empty() {
                    words.push(inner);
                }
                words.push(close.to_string());
            }
            TokenTree::Ident(ident) => words.push(ident.to_string()),
            TokenTree::Punct(punct) => words.push(punct.as_char().to_string()),
            TokenTree::Literal(literal) => words.push(literal.to_string()),
        }
    }
    words.join(" ")
}

fn printed(source: &str) -> String {
    spell(stream(source))
}

fn text(tokens: &Vec<Token>) -> String {
    spell(to_stream(tokens))
}

fn left(cur: &Cursor) -> String {
    spell(cur.stream())
}

fn unexpected(expected: Expected, remaining: usize) -> Failure {
    Failure { problem: Problem::Unexpected(expected), remaining }
}

#[test]
fn type_is_taken_from_the_front() {
    let (ty, rest) = parse_type(cursor("Wrapper<T> for X")).unwrap();
    assert_eq!(text(&ty.tokens), printed("Wrapper<T>"));
    assert_eq!(ty.kind, TypeKind::BarePath);
    assert_eq!(left(&rest), printed("for X"));
    assert_eq!(rest.remaining(), 2);
}

#[test]
fn type_kinds_are_told_apart() {
    assert_eq!(parse_type(cursor("a::b::C")).unwrap().0.kind, TypeKind::BarePath);
    assert_eq!(parse_type(cursor("<T as X>::Y")).unwrap().0.kind, TypeKind::Other);
    assert_eq!(parse_type(cursor("&'a T")).unwrap().0.kind, TypeKind::Other);
    assert_eq!(parse_type(cursor("[u8; 4]")).unwrap().0.kind, TypeKind::Other);
    assert_eq!(parse_type(cursor("(A, B)")).unwrap().0.kind, TypeKind::Other);
    assert_eq!(parse_type(cursor("dyn Any")).unwrap().0.kind, TypeKind::Other);
}

#[test]
fn type_in_an_invisible_group() {
    let group = Token::group(unconst_trait_impl::token::Delimiter::Invisible, &tokens("Clone"));
    let (ty, rest) = parse_type(Cursor::new(vec![group])).unwrap();
    assert_eq!(ty.kind, TypeKind::Group);
    assert_eq!(ty.tokens.len(), 1);
    assert_eq!(rest.remaining(), 0);
}

#[test]
fn missing_type_is_refused() {
    assert_eq!(parse_type(cursor("+ x")).unwrap_err(), unexpected(Expected::Type, 2));
    assert_eq!(parse_type(cursor("")).unwrap_err(), unexpected(Expected::Type, 0));
}

#[test]
fn classify_takes_whole_types_only() {
    assert_eq!(classify_type(&tokens("a::B<C>")), Some(TypeKind::BarePath));
    assert_eq!(classify_type(&tokens("*const u8")), Some(TypeKind::Other));
    assert_eq!(classify_type(&tokens("A for B")), None);
    assert_eq!(classify_type(&tokens("")), None);
}

#[test]
fn path_is_taken_with_its_last_segment() {
    let (path, rest) = parse_path(cursor("core::ops::Drop + Send")).unwrap();
    assert_eq!(text(&path.tokens), printed("core::ops::Drop"));
    assert_eq!(path.last_segment, "Drop");
    assert!(path.plain);
    assert_eq!(left(&rest), printed("+ Send"));
}

#[test]
fn path_with_arguments_is_not_plain() {
    let (path, rest) = parse_path(cursor("Iterator<Item = u8>,")).unwrap();
    assert_eq!(text(&path.tokens), printed("Iterator<Item = u8>"));
    assert_eq!(path.last_segment, "Iterator");
    assert!(!path.plain);
    assert_eq!(rest.remaining(), 1);
}

#[test]
fn path_stops_in_front_of_parentheses() {
    let (path, rest) = parse_path(cursor("Fn(u8) -> u8")).unwrap();
    assert_eq!(text(&path.tokens), "Fn");
    assert!(path.plain);
    assert_eq!(rest.remaining(), 4);
}

#[test]
fn missing_path_is_refused() {
    assert_eq!(parse_path(cursor("? Sized")).unwrap_err(), unexpected(Expected::Path, 2));
}

#[test]
fn binder_is_taken_from_the_front() {
    let (binder, rest) = parse_bound_lifetimes(cursor("for<'a, 'b> Fn(&'a u8)")).unwrap();
    assert_eq!(text(&binder), printed("for<'a, 'b>"));
    assert_eq!(left(&rest), printed("Fn(&'a u8)"));
}

#[test]
fn missing_binder_is_refused() {
    assert_eq!(
        parse_bound_lifetimes(cursor("Fn()")).unwrap_err(),
        unexpected(Expected::BoundLifetimes, 2)
    );
}

#[test]
fn parenthesized_arguments_are_taken_with_their_result() {
    let (arguments, rest) = parse_parenthesized_arguments(cursor("(u8, &str) -> bool + Send"))
        .unwrap();
    assert_eq!(text(&arguments), printed("(u8, &str) -> bool"));
    assert_eq!(left(&rest), printed("+ Send"));
}

#[test]
fn missing_arguments_are_refused() {
    assert_eq!(
        parse_parenthesized_arguments(cursor("<u8>")).unwrap_err(),
        unexpected(Expected::ParenthesizedArguments, 3)
    );
}

#[test]
fn lifetime_parameter_is_taken_with_its_bounds() {
    let (param, rest) = parse_lifetime_param(cursor("'a: 'b + 'c, T")).unwrap();
    assert_eq!(text(&param), printed("'a: 'b + 'c"));
    assert_eq!(left(&rest), printed(", T"));
}

#[test]
fn missing_lifetime_parameter_is_refused() {
    assert_eq!(
        parse_lifetime_param(cursor("T")).unwrap_err(),
        unexpected(Expected::LifetimeParam, 1)
    );
}

#[test]
fn const_parameter_is_taken_with_its_default() {
    let (param, rest) = parse_const_param(cursor("const N: usize = 3 > X")).unwrap();
    assert_eq!(text(&param), printed("const N: usize = 3"));
    assert_eq!(left(&rest), printed("> X"));
}

#[test]
fn missing_const_parameter_is_refused() {
    assert_eq!(parse_const_param(cursor("N: usize")).unwrap_err(), unexpected(Expected::ConstParam, 3));
}

#[test]
fn associated_items_are_taken_one_by_one() {
    let (first, rest) = parse_impl_item(cursor("type T = u8; fn f(&self) {} const C: u8 = 1;"))
        .unwrap();
    assert_eq!(text(&first), printed("type T = u8;"));
    let (second, rest) = parse_impl_item(rest).unwrap();
    assert_eq!(text(&second), printed("fn f(&self) {}"));
    let (third, rest) = parse_impl_item(rest).unwrap();
    assert_eq!(text(&third), printed("const C: u8 = 1;"));
    assert_eq!(rest.remaining(), 0);
}

#[test]
fn missing_item_is_refused() {
    assert_eq!(parse_impl_item(cursor("garbage")).unwrap_err(), unexpected(Expected::ImplItem, 1));
}

#[test]
fn attribute_path_is_taken_from_the_front() {
    let (path, rest) = parse_mod_style_path(cursor("cfg_attr(test, allow(unused))")).unwrap();
    assert_eq!(text(&path), "cfg_attr");
    assert_eq!(left(&rest), printed("(test, allow(unused))"));
    let (path, rest) = parse_mod_style_path(cursor("a::b = 1")).unwrap();
    assert_eq!(text(&path), printed("a::b"));
    assert_eq!(rest.remaining(), 2);
}

#[test]
fn missing_attribute_path_is_refused() {
    assert_eq!(
        parse_mod_style_path(cursor("= 1")).unwrap_err(),
        unexpected(Expected::AttributePath, 2)
    );
}

#[test]
fn outer_attributes_are_taken_one_by_one() {
    let (attrs, rest) = parse_outer_attributes(cursor("#[a] #[b(c)] impl")).unwrap();
    assert_eq!(attrs.len(), 2);
    assert!(!attrs[0].inner);
    assert_eq!(text(&attrs[0].tokens), printed("#[a]"));
    assert_eq!(text(&attrs[1].tokens), printed("#[b(c)]"));
    assert_eq!(left(&rest), "impl");
}

#[test]
fn no_outer_attribute_reads_nothing() {
    let (attrs, rest) = parse_outer_attributes(cursor("impl A for B {}")).unwrap();
    assert!(attrs.is_empty());
    assert_eq!(rest.remaining(), 5);
}

#[test]
fn broken_outer_attribute_is_refused() {
    assert_eq!(
        parse_outer_attributes(cursor("# impl")).unwrap_err(),
        unexpected(Expected::Attribute, 2)
    );
}

#[test]
fn receive_asks_for_progress() {
    let before = cursor("a b c");
    let (node, rest) = receive(&before, &stream("a"), &stream("b c")).unwrap();
    assert_eq!(text(&node), "a");
    assert_eq!(left(&rest), printed("b c"));
    assert!(receive(&before, &stream("a"), &stream("a b c")).is_none());
    assert!(receive(&before, &stream(""), &stream("a b c d")).is_none());
    assert!(receive(&before, &stream("a b c"), &stream("")).is_some());
}

#[test]
fn take_over_fails_where_nothing_was_found() {
    let cur = cursor("a b c");
    assert_eq!(take_over(&cur, None, Expected::Path).unwrap_err(), unexpected(Expected::Path, 3));
    assert_eq!(
        take_over(&cur, Some((stream("a"), stream("x y z"))), Expected::Type).unwrap_err(),
        unexpected(Expected::Type, 3)
    );
    let (node, rest) = take_over(&cur, Some((stream("a b"), stream("c"))), Expected::Type).unwrap();
    assert_eq!(text(&node), printed("a b"));
    assert_eq!(rest.remaining(), 1);
}
