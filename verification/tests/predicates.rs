use proc_macro2::{TokenStream, TokenTree};
use std::str::FromStr;
use unconst_trait_impl::cursor::Cursor;
use unconst_trait_impl::error::{Expected, Failure, Problem};
use unconst_trait_impl::token::{lex, to_stream, Token};
use unconst_trait_impl::syntax::{PredicateType, WhereClause, WherePredicate};

fn stream(source: &str) -> TokenStream {
    TokenStream::from_str(source).unwrap()
}

fn tokens(source: &str) -> Vec<Token> {
    lex(&stream(source)).unwrap()
}

fn cursor(source: &str) -> Cursor {
    Cursor::new(tokens(source))
}

fn spell(stream: TokenStream) -> String {
    let mut words: Vec<String> = Vec::new();
    for tree in stream {
        match tree {
            TokenTree::Group(group) => {
                let (open, close) = match group.delimiter() {
                    proc_macro2::Delimiter::Parenthesis => ("(", ")"),
                    proc_macro2::Delimiter::Brace => ("{", "}"),
                    proc_macro2::Delimiter::Bracket => ("[", "]"),
                    proc_macro2::Delimiter::None => ("<<", ">>"),
                };
                words.push(open.to_string());
                let inner = spell(group.stream());
                if !inner.is_empty() {
                    words.push(inner);
                }
                words.push(close.to_string());
            }
            TokenTree::Ident(ident) => words.push(ident.to_string()),
            TokenTree::Punct(punct) => words.push(punct.as_char().to_string()),
            TokenTree::Literal(literal) => words.push(literal.to_string()),
        }
    }
    words.join(" ")
}

fn printed(source: &str) -> String {
    spell(stream(source))
}

fn text(tokens: &Vec<Token>) -> String {
    spell(to_stream(tokens))
}

fn left(cur: &Cursor) -> String {
    spell(cur.stream())
}

fn unexpected(expected: Expected, remaining: usize) -> Failure {
    Failure { problem: Problem::Unexpected(expected), remaining }
}

#[test]
fn predicate_on_a_type() {
    let (predicate, rest) = PredicateType::parse(cursor("for<'a> &'a T: ~const Clone + 'a, U: X"))
        .unwrap();
    assert_eq!(text(&predicate.lifetimes.unwrap()), printed("for < 'a >"));
    assert_eq!(text(&predicate.bounded_ty), printed("& 'a T"));
    assert_eq!(predicate.bounds.len(), 2);
    assert_eq!(left(&rest), ", U : X");
}

#[test]
fn predicate_on_a_type_needs_a_colon() {
    assert_eq!(PredicateType::parse(cursor("T Clone")).unwrap_err(), unexpected(Expected::Colon, 1));
    assert_eq!(PredicateType::parse(cursor("T")).unwrap_err(), unexpected(Expected::Colon, 0));
    assert_eq!(PredicateType::parse(cursor(": Clone")).unwrap_err(), unexpected(Expected::Type, 2));
}

#[test]
fn predicate_on_a_lifetime() {
    let (predicate, rest) = WherePredicate::parse(cursor("'a: 'b + 'c, T: X")).unwrap();
    match predicate {
        WherePredicate::Lifetime(predicate) => {
            assert_eq!(text(&predicate.lifetime), "' a");
            assert_eq!(predicate.bounds.len(), 2);
            assert_eq!(text(&predicate.bounds[0]), "' b");
            assert_eq!(text(&predicate.bounds[1]), "' c");
        }
        _ => panic!("no lifetime"),
    }
    assert_eq!(left(&rest), ", T : X");
}

#[test]
fn predicate_on_a_lifetime_without_bounds() {
    let (predicate, rest) = WherePredicate::parse(cursor("'a: {}")).unwrap();
    match predicate {
        WherePredicate::Lifetime(predicate) => assert!(predicate.bounds.is_empty()),
        _ => panic!("no lifetime"),
    }
    assert_eq!(rest.remaining(), 1);
}

#[test]
fn lifetime_bounds_must_be_lifetimes() {
    assert_eq!(
        WherePredicate::parse(cursor("'a: Clone")).unwrap_err(),
        unexpected(Expected::Lifetime, 1)
    );
    assert_eq!(
        WherePredicate::parse(cursor("'a: 'b + Clone")).unwrap_err(),
        unexpected(Expected::Lifetime, 1)
    );
}

#[test]
fn lifetime_without_a_colon_is_a_type_to_bound() {
    assert_eq!(WherePredicate::parse(cursor("'a T")).unwrap_err(), unexpected(Expected::Type, 3));
}

#[test]
fn where_clause_in_its_order() {
    let (clause, rest) = WhereClause::parse(cursor("where T: Clone, 'a: 'b, U: ~const Drop {}"))
        .unwrap();
    assert_eq!(clause.predicates.len(), 3);
    assert!(matches!(clause.predicates[0], WherePredicate::Type(_)));
    assert!(matches!(clause.predicates[1], WherePredicate::Lifetime(_)));
    assert!(matches!(clause.predicates[2], WherePredicate::Type(_)));
    assert_eq!(rest.remaining(), 1);
}

#[test]
fn where_clause_may_be_empty_or_end_in_a_comma() {
    let (clause, rest) = WhereClause::parse(cursor("where {}")).unwrap();
    assert!(clause.predicates.is_empty());
    assert_eq!(rest.remaining(), 1);
    let (clause, rest) = WhereClause::parse(cursor("where T: Clone, {}")).unwrap();
    assert_eq!(clause.predicates.len(), 1);
    assert_eq!(rest.remaining(), 1);
    let (clause, rest) = WhereClause::parse(cursor("where")).unwrap();
    assert!(clause.predicates.is_empty());
    assert_eq!(rest.remaining(), 0);
}

#[test]
fn where_clause_stops_where_no_comma_follows() {
    let (clause, rest) = WhereClause::parse(cursor("where T: Clone U: Send")).unwrap();
    assert_eq!(clause.predicates.len(), 1);
    assert_eq!(left(&rest), "U : Send");
}

#[test]
fn where_clause_needs_its_keyword() {
    assert_eq!(WhereClause::parse(cursor("T: Clone")).unwrap_err(), unexpected(Expected::Where, 3));
    assert_eq!(WhereClause::parse(cursor("")).unwrap_err(), unexpected(Expected::Where, 0));
}

#[test]
fn where_clause_is_read_only_behind_its_keyword() {
    let (clause, rest) = WhereClause::local_parse(cursor("{ }")).unwrap();
    assert!(clause.is_none());
    assert_eq!(rest.remaining(), 1);
    let (clause, rest) = WhereClause::local_parse(cursor("where T: Clone {}")).unwrap();
    assert_eq!(clause.unwrap().predicates.len(), 1);
    assert_eq!(rest.remaining(), 1);
    assert_eq!(
        WhereClause::local_parse(cursor("where T {}")).unwrap_err(),
        unexpected(Expected::Colon, 1)
    );
}
