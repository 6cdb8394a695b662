use proc_macro2::{TokenStream, TokenTree};
use std::str::FromStr;
use unconst_trait_impl::cursor::Cursor;
use unconst_trait_impl::error::{Expected, Failure, Problem};
use unconst_trait_impl::token::{lex, to_stream, Token};
use unconst_trait_impl::generics::{parse_optional_punct, parse_optional_word};
use unconst_trait_impl::item::at_generics_start;
use unconst_trait_impl::syntax::{GenericParam, Generics, TypeParam, TypeParamBound};

fn stream(source: &str) -> TokenStream {
    TokenStream::from_str(source).unwrap()
}

fn tokens(source: &str) -> Vec<Token> {
    lex(&stream(source)).unwrap()
}

fn cursor(source: &str) -> Cursor {
    Cursor::new(tokens(source))
}

fn spell(stream: TokenStream) -> String {
    let mut words: Vec<String> = Vec::new();
    for tree in stream {
        match tree {
            TokenTree::Group(group) => {
                let (open, close) = match group.delimiter() {
                    proc_macro2::Delimiter::Parenthesis => ("(", ")"),
                    proc_macro2::Delimiter::Brace => ("{", "}"),
                    proc_macro2::Delimiter::Bracket => ("[", "]"),
                    proc_macro2::Delimiter::None => ("<<", ">>"),
                };
                words.push(open.to_string());
                let inner = spell(group.stream());
                if !inner.is_empty() {
                    words.push(inner);
                }
                words.push(close.to_string());
            }
            TokenTree::Ident(ident) => words.push(ident.to_string()),
            TokenTree::Punct(punct) => words.push(punct.as_char().to_string()),
            TokenTree::Literal(literal) => words.push(literal.to_string()),
        }
    }
    words.join(" ")
}

fn printed(source: &str) -> String {
    spell(stream(source))
}

fn text(tokens: &Vec<Token>) -> String {
    spell(to_stream(tokens))
}

fn left(cur: &Cursor) -> String {
    spell(cur.stream())
}

fn unexpected(expected: Expected, remaining: usize) -> Failure {
    Failure { problem: Problem::Unexpected(expected), remaining }
}

#[test]
fn optional_punct_is_read_if_present() {
    let (found, rest) = parse_optional_punct(cursor(": Clone"), ':');
    assert!(found);
    assert_eq!(left(&rest), "Clone");
    let (found, rest) = parse_optional_punct(cursor("= u8"), ':');
    assert!(!found);
    assert_eq!(rest.remaining(), 2);
    let (found, rest) = parse_optional_punct(cursor("::a"), ':');
    assert!(found);
    assert_eq!(left(&rest), ": a");
}

#[test]
fn optional_word_is_read_if_present() {
    let (found, rest) = parse_optional_word(cursor("unsafe impl"), "unsafe");
    assert!(found);
    assert_eq!(left(&rest), "impl");
    let (found, rest) = parse_optional_word(cursor("impl"), "unsafe");
    assert!(!found);
    assert_eq!(rest.remaining(), 1);
    let (found, _) = parse_optional_word(cursor(""), "unsafe");
    assert!(!found);
}

#[test]
fn type_parameter_alone() {
    let (param, rest) = TypeParam::parse(cursor("T, U")).unwrap();
    assert_eq!(text(&vec![param.ident.clone()]), "T");
    assert!(param.attrs.is_empty());
    assert!(!param.colon_token);
    assert!(param.bounds.is_empty());
    assert!(param.default.is_none());
    assert_eq!(left(&rest), ", U");
}

#[test]
fn type_parameter_with_everything() {
    let (param, rest) = TypeParam::parse(cursor("#[a] T: ~const Clone + 'b = Vec<u8>>")).unwrap();
    assert_eq!(param.attrs.len(), 1);
    assert_eq!(text(&param.attrs[0].tokens), printed("#[a]"));
    assert_eq!(text(&vec![param.ident.clone()]), "T");
    assert!(param.colon_token);
    assert_eq!(param.bounds.len(), 2);
    assert_eq!(text(&param.default.unwrap()), printed("Vec<u8>"));
    assert_eq!(left(&rest), ">");
}

#[test]
fn type_parameter_with_a_colon_and_no_bound() {
    let (param, rest) = TypeParam::parse(cursor("T: > X")).unwrap();
    assert!(param.colon_token);
    assert!(param.bounds.is_empty());
    assert_eq!(left(&rest), "> X");
}

#[test]
fn type_parameter_needs_a_name() {
    assert_eq!(TypeParam::parse(cursor("impl")).unwrap_err(), unexpected(Expected::Identifier, 1));
    assert_eq!(TypeParam::parse(cursor("_")).unwrap_err(), unexpected(Expected::Identifier, 1));
    assert_eq!(TypeParam::parse(cursor("'a")).unwrap_err(), unexpected(Expected::Identifier, 2));
    assert_eq!(TypeParam::parse(cursor("")).unwrap_err(), unexpected(Expected::Identifier, 0));
    assert_eq!(
        TypeParam::parse(cursor("#[a] 3")).unwrap_err(),
        unexpected(Expected::Identifier, 1)
    );
}

#[test]
fn type_parameter_needs_a_type_behind_the_equals_sign() {
    assert_eq!(TypeParam::parse(cursor("T = >")).unwrap_err(), unexpected(Expected::Type, 1));
}

#[test]
fn generic_parameter_kinds() {
    let (param, rest) = GenericParam::parse(cursor("#[x] 'a: 'b, T")).unwrap();
    match param {
        GenericParam::Lifetime(param) => {
            assert_eq!(param.attrs.len(), 1);
            assert_eq!(text(&param.tokens), printed("'a: 'b"));
        }
        _ => panic!("no lifetime"),
    }
    assert_eq!(left(&rest), ", T");
    let (param, _) = GenericParam::parse(cursor("#[y] const N: usize = 3")).unwrap();
    match param {
        GenericParam::Const(param) => {
            assert_eq!(text(&param.attrs[0].tokens), printed("#[y]"));
            assert_eq!(text(&param.tokens), printed("const N: usize = 3"));
        }
        _ => panic!("no constant"),
    }
    let (param, _) = GenericParam::parse(cursor("#[z] T: Clone")).unwrap();
    match param {
        GenericParam::Type(param) => {
            assert_eq!(text(&param.attrs[0].tokens), printed("#[z]"));
            assert_eq!(param.bounds.len(), 1);
        }
        _ => panic!("no type"),
    }
}

#[test]
fn anonymous_parameter() {
    let (param, rest) = GenericParam::parse(cursor("_, T")).unwrap();
    match param {
        GenericParam::Type(param) => {
            assert_eq!(text(&vec![param.ident.clone()]), "_");
            assert!(!param.colon_token);
            assert!(param.bounds.is_empty());
            assert!(param.default.is_none());
        }
        _ => panic!("no type"),
    }
    assert_eq!(left(&rest), ", T");
}

#[test]
fn generic_parameter_is_refused_by_its_first_token() {
    assert_eq!(
        GenericParam::parse(cursor("+")).unwrap_err(),
        unexpected(Expected::GenericParam, 1)
    );
    assert_eq!(
        GenericParam::parse(cursor("impl")).unwrap_err(),
        unexpected(Expected::GenericParam, 1)
    );
    assert_eq!(GenericParam::parse(cursor("")).unwrap_err(), unexpected(Expected::GenericParam, 0));
    assert_eq!(
        GenericParam::parse(cursor("const")).unwrap_err(),
        unexpected(Expected::ConstParam, 1)
    );
}

#[test]
fn generics_without_angle_brackets() {
    let (generics, rest) = Generics::parse(cursor("Tr for X")).unwrap();
    assert!(generics.params.is_empty());
    assert!(generics.where_clause.is_none());
    assert_eq!(rest.remaining(), 3);
}

#[test]
fn generics_in_their_order() {
    let (generics, rest) = Generics::parse(cursor("<T: Clone, 'a, const N: u8, U> Tr")).unwrap();
    assert_eq!(generics.params.len(), 4);
    assert!(matches!(generics.params[0], GenericParam::Type(_)));
    assert!(matches!(generics.params[1], GenericParam::Lifetime(_)));
    assert!(matches!(generics.params[2], GenericParam::Const(_)));
    assert!(matches!(generics.params[3], GenericParam::Type(_)));
    assert!(generics.where_clause.is_none());
    assert_eq!(left(&rest), "Tr");
}

#[test]
fn generics_may_be_empty_or_end_in_a_comma() {
    let (generics, rest) = Generics::parse(cursor("<> Tr")).unwrap();
    assert!(generics.params.is_empty());
    assert_eq!(left(&rest), "Tr");
    let (generics, rest) = Generics::parse(cursor("<T,> Tr")).unwrap();
    assert_eq!(generics.params.len(), 1);
    assert_eq!(left(&rest), "Tr");
}

#[test]
fn generics_need_commas_and_an_end() {
    assert_eq!(Generics::parse(cursor("<T U>")).unwrap_err(), unexpected(Expected::Comma, 2));
    assert_eq!(Generics::parse(cursor("<T")).unwrap_err(), unexpected(Expected::Comma, 0));
    assert_eq!(Generics::parse(cursor("<T,")).unwrap_err(), unexpected(Expected::GenericParam, 0));
    assert_eq!(Generics::parse(cursor("<,>")).unwrap_err(), unexpected(Expected::GenericParam, 2));
}

#[test]
fn generics_keep_the_closing_bracket_of_a_nested_list() {
    let (generics, rest) = Generics::parse(cursor("<T: Into<Vec<u8>>> Tr")).unwrap();
    assert_eq!(generics.params.len(), 1);
    match &generics.params[0] {
        GenericParam::Type(param) => match &param.bounds[0] {
            TypeParamBound::Trait(bound) => {
                assert_eq!(text(&bound.path), printed("Into < Vec < u8 > >"))
            }
            _ => panic!("no trait"),
        },
        _ => panic!("no type"),
    }
    assert_eq!(left(&rest), "Tr");
}

#[test]
fn generic_list_is_told_from_a_qualified_path() {
    for list in ["<>", "<#[a] T>", "<T: Clone>", "<T, U>", "<T>", "<T = u8>", "<'a: 'b>", "<'a, T>",
        "<'a>", "<const N: u8>"] {
        assert!(at_generics_start(&cursor(list)), "{}", list);
    }
    for other in ["<T as Tr>::X", "<Vec<u8> as Tr>::X", "<T U>", "<+>", "<_>", "<impl>", "<", "T",
        "", "<[u8] as Tr>::X", "<'a 'b>", "<T"] {
        assert!(!at_generics_start(&cursor(other)), "{}", other);
    }
}
