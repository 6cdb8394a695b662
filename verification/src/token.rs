//! Tokens: the mathematical model of a token tree, and the executable token
//! that carries a `proc_macro2::TokenTree` together with what the parser
//! reads of it.

use proc_macro2::{Group, Ident, Punct, Spacing, Span, TokenStream, TokenTree};
use vstd::prelude::*;
use vstd::slice::slice_subrange;

verus! {

/// `proc_macro2::TokenTree`, of which nothing is seen but what the functions
/// below say.
#[verifier::external_type_specification]
#[verifier::external_body]
pub struct ExTokenTree(TokenTree);

/// `proc_macro2::TokenStream`, of which nothing is seen but what the
/// functions below say.
#[verifier::external_type_specification]
#[verifier::external_body]
pub struct ExTokenStream(TokenStream);

/// How a group of tokens is bracketed.
#[derive(Clone, Copy, Debug, PartialEq, Eq, Structural)]
pub enum Delimiter {
    /// `( ... )`
    Parenthesis,
    /// `{ ... }`
    Brace,
    /// `[ ... ]`
    Bracket,
    /// No visible bracket: what a macro substitution leaves around a fragment.
    Invisible,
}

/// The model of one token tree: its kind and its text, without its span.
pub enum Tok {
    /// An identifier or keyword, by its text.
    Ident(Seq<char>),
    /// One punctuation character, and whether the next token follows it
    /// immediately.
    Punct(char, bool),
    /// A literal, by its text.
    Literal(Seq<char>),
    /// A delimited group and the tokens inside it.
    Group(Delimiter, Seq<Tok>),
}

/// The tokens inside a group; none for a token that is no group.
pub open spec fn inside(tok: Tok) -> Seq<Tok> {
    match tok {
        Tok::Group(_, inner) => inner,
        _ => Seq::empty(),
    }
}

/// The token that a `proc_macro2::TokenTree` holds.
pub uninterp spec fn tree_tok(tree: TokenTree) -> Tok;

/// The tokens that a `proc_macro2::TokenStream` holds, in order.
pub uninterp spec fn stream_toks(stream: TokenStream) -> Seq<Tok>;

/// The characters that can stand in a punctuation token.
pub open spec fn punct_char(ch: char) -> bool {
    ||| ch == '!' || ch == '#' || ch == '$' || ch == '%' || ch == '&' || ch == '\''
    ||| ch == '*' || ch == '+' || ch == ',' || ch == '-' || ch == '.' || ch == '/'
    ||| ch == ':' || ch == ';' || ch == '<' || ch == '=' || ch == '>' || ch == '?'
    ||| ch == '@' || ch == '^' || ch == '|' || ch == '~'
}

/// The punctuation character `ch` as a token of its own, with nothing joined
/// to it.
pub open spec fn fresh(ch: char) -> Tok {
    Tok::Punct(ch, false)
}

/// The keywords that this library prints.
pub open spec fn keyword(word: Seq<char>) -> bool {
    word == "default"@ || word == "unsafe"@ || word == "impl"@ || word == "const"@ || word
        == "for"@ || word == "where"@
}

/// A literal whose text begins with a minus sign. No lexer produces one, and
/// a stream takes one apart when it is pushed: such a token is not accepted.
pub open spec fn signed_literal(tok: Tok) -> bool {
    tok matches Tok::Literal(text) && text.len() > 0 && text[0] == '-'
}

/// No token of the sequence is a signed literal (tokens inside groups are not
/// looked at).
pub open spec fn lexable(toks: Seq<Tok>) -> bool {
    forall|i: int| 0 <= i < toks.len() ==> !signed_literal(#[trigger] toks[i])
}

/// The index of the first signed literal of the sequence; its length where
/// there is none.
pub open spec fn first_signed(toks: Seq<Tok>) -> nat
    decreases toks.len(),
{
    if toks.len() == 0 || signed_literal(toks[0]) {
        0
    } else {
        1 + first_signed(toks.drop_first())
    }
}

/// A signed literal with none in front of it is the first.
pub proof fn lemma_first_signed(toks: Seq<Tok>, at: int)
    requires
        0 <= at < toks.len(),
        signed_literal(toks[at]),
        lexable(toks.take(at)),
    ensures
        first_signed(toks) == at,
    decreases at,
{
    if at > 0 {
        assert(toks.take(at)[0] == toks[0]);
        assert(toks.drop_first().take(at - 1) == toks.take(at).drop_first());
        assert forall|i: int| 0 <= i < at - 1 implies !signed_literal(
            #[trigger] toks.drop_first().take(at - 1)[i],
        ) by {
            assert(toks.drop_first().take(at - 1)[i] == toks.take(at)[i + 1]);
        }
        lemma_first_signed(toks.drop_first(), at - 1);
    }
}

/// What executable code reads of a token without entering a group.
#[derive(Debug, PartialEq, Eq)]
pub enum Shape {
    /// An identifier or keyword, by its text.
    Ident(String),
    /// One punctuation character, and whether the next token is joined to
    /// it.
    Punct(char, bool),
    /// A literal, by its text.
    Literal(String),
    /// A group, by its delimiter.
    Group(Delimiter),
}

impl Shape {
    /// The shape says of `tok` all that a shape can say.
    pub open spec fn describes(self, tok: Tok) -> bool {
        match self {
            Shape::Ident(text) => tok == Tok::Ident(text@),
            Shape::Punct(ch, joint) => tok == Tok::Punct(ch, joint),
            Shape::Literal(text) => tok == Tok::Literal(text@),
            Shape::Group(delimiter) => tok matches Tok::Group(d, _) && d == delimiter,
        }
    }
}

impl Clone for Shape {
    fn clone(&self) -> (r: Self)
        ensures
            r == *self,
    {
        match self {
            Shape::Ident(text) => Shape::Ident(text.clone()),
            Shape::Punct(ch, joint) => Shape::Punct(*ch, *joint),
            Shape::Literal(text) => Shape::Literal(text.clone()),
            Shape::Group(delimiter) => Shape::Group(*delimiter),
        }
    }
}

/// One token: the token tree as it came, and its shape.
#[derive(Debug)]
pub struct Token {
    shape: Shape,
    tree: TokenTree,
}

impl DeepView for Token {
    type V = Tok;

    closed spec fn deep_view(&self) -> Tok {
        tree_tok(self.tree)
    }
}

/// `proc_macro2::TokenStream::into_iter` on a copy of the stream, collected:
/// the token trees of the stream, in its order.
#[verifier::external_body]
fn stream_trees(stream: &TokenStream) -> (trees: Vec<TokenTree>)
    ensures
        trees@.len() == stream_toks(*stream).len(),
        forall|i: int|
            0 <= i < trees@.len() ==> tree_tok(#[trigger] trees@[i]) == stream_toks(*stream)[i],
{
    stream.clone().into_iter().collect()
}

/// Reads one `proc_macro2::TokenTree`: which of the four kinds it is, and the
/// text (`to_string`), the character and spacing (`as_char`, `spacing`) or the
/// delimiter (`delimiter`) that it has.
#[verifier::external_body]
fn tree_shape(tree: &TokenTree) -> (shape: Shape)
    ensures
        shape.describes(tree_tok(*tree)),
{
    match tree {
        TokenTree::Ident(ident) => Shape::Ident(ident.to_string()),
        TokenTree::Punct(punct) => Shape::Punct(punct.as_char(), punct.spacing() == Spacing::Joint),
        TokenTree::Literal(literal) => Shape::Literal(literal.to_string()),
        TokenTree::Group(group) => Shape::Group(
            match group.delimiter() {
                proc_macro2::Delimiter::Parenthesis => Delimiter::Parenthesis,
                proc_macro2::Delimiter::Brace => Delimiter::Brace,
                proc_macro2::Delimiter::Bracket => Delimiter::Bracket,
                proc_macro2::Delimiter::None => Delimiter::Invisible,
            },
        ),
    }
}

/// `proc_macro2::Group::stream`: the tokens inside a group. For a tree that
/// is no group the stream is empty, and nothing is said of it.
#[verifier::external_body]
fn group_stream(tree: &TokenTree) -> (inner: TokenStream)
    ensures
        tree_tok(*tree) matches Tok::Group(_, toks) ==> stream_toks(inner) == toks,
{
    match tree {
        TokenTree::Group(group) => group.stream(),
        _ => TokenStream::new(),
    }
}

/// `Clone` of a `proc_macro2::TokenTree`: the copy holds the same token.
#[verifier::external_body]
fn clone_tree(tree: &TokenTree) -> (copy: TokenTree)
    ensures
        tree_tok(copy) == tree_tok(*tree),
{
    tree.clone()
}

/// `proc_macro2::Punct::new` with `Spacing::Alone`. It panics on a character
/// that is no punctuation, which `requires` leaves out.
#[verifier::external_body]
fn punct_tree(ch: char) -> (tree: TokenTree)
    requires
        punct_char(ch),
    ensures
        tree_tok(tree) == Tok::Punct(ch, false),
{
    TokenTree::Punct(Punct::new(ch, Spacing::Alone))
}

/// `proc_macro2::Ident::new` at `Span::call_site`. It panics on a string
/// that is no identifier; `requires` admits six keywords, each an identifier.
#[verifier::external_body]
fn ident_tree(word: &str) -> (tree: TokenTree)
    requires
        keyword(word@),
    ensures
        tree_tok(tree) == Tok::Ident(word@),
{
    TokenTree::Ident(Ident::new(word, Span::call_site()))
}

/// `proc_macro2::Group::new`: a group with the given delimiter around the
/// tokens of `inner`.
#[verifier::external_body]
fn group_tree(delimiter: Delimiter, inner: TokenStream) -> (tree: TokenTree)
    ensures
        tree_tok(tree) == Tok::Group(delimiter, stream_toks(inner)),
{
    let delimiter = match delimiter {
        Delimiter::Parenthesis => proc_macro2::Delimiter::Parenthesis,
        Delimiter::Brace => proc_macro2::Delimiter::Brace,
        Delimiter::Bracket => proc_macro2::Delimiter::Bracket,
        Delimiter::Invisible => proc_macro2::Delimiter::None,
    };
    TokenTree::Group(Group::new(delimiter, inner))
}

/// `FromIterator<TokenTree>` of `proc_macro2::TokenStream`, on the trees of
/// `tokens`: a stream that holds these tokens in this order. A stream splits
/// a signed literal that is pushed to it; no `Token` holds one (the type's
/// invariant), so every tree arrives as it is.
#[verifier::external_body]
fn trees_stream(tokens: &[Token]) -> (stream: TokenStream)
    ensures
        stream_toks(stream) == tokens.deep_view(),
{
    tokens.iter().map(|token| token.tree.clone()).collect()
}

/// Whether `text` begins with a minus sign.
fn begins_with_minus(text: &String) -> (r: bool)
    ensures
        r == (text@.len() > 0 && text@[0] == '-'),
{
    let text = text.as_str();
    text.unicode_len() > 0 && text.get_char(0) == '-'
}

impl Token {
    #[verifier::type_invariant]
    spec fn well_formed(self) -> bool {
        self.shape.describes(tree_tok(self.tree)) && !signed_literal(tree_tok(self.tree))
    }

    /// The token's shape.
    pub fn shape(&self) -> (shape: &Shape)
        ensures
            shape.describes(self.deep_view()),
    {
        proof {
            use_type_invariant(self);
        }
        &self.shape
    }

    /// Accepts a token tree as a token, unless it is a signed literal.
    fn accept(tree: TokenTree) -> (r: Option<Token>)
        ensures
            match r {
                Some(token) => token.deep_view() == tree_tok(tree) && !signed_literal(
                    tree_tok(tree),
                ),
                None => signed_literal(tree_tok(tree)),
            },
    {
        let shape = tree_shape(&tree);
        let signed = match &shape {
            Shape::Literal(text) => begins_with_minus(text),
            _ => false,
        };
        if signed {
            None
        } else {
            Some(Token { shape, tree })
        }
    }

    /// A punctuation token of its own, with nothing joined to it.
    pub fn punct(ch: char) -> (token: Token)
        requires
            punct_char(ch),
        ensures
            token.deep_view() == Tok::Punct(ch, false),
    {
        Token { shape: Shape::Punct(ch, false), tree: punct_tree(ch) }
    }

    /// A keyword token.
    pub fn word(word: &str) -> (token: Token)
        requires
            keyword(word@),
        ensures
            token.deep_view() == Tok::Ident(word@),
    {
        Token { shape: Shape::Ident(word.to_owned()), tree: ident_tree(word) }
    }

    /// A group with the given delimiter around `inner`.
    pub fn group(delimiter: Delimiter, inner: &Vec<Token>) -> (token: Token)
        ensures
            token.deep_view() == Tok::Group(delimiter, inner.deep_view()),
    {
        let stream = trees_stream(inner.as_slice());
        Token { shape: Shape::Group(delimiter), tree: group_tree(delimiter, stream) }
    }

    /// The tokens inside a group: `None` for a token that is no group, and for
    /// a group that holds a signed literal.
    pub fn children(&self) -> (r: Option<Vec<Token>>)
        ensures
            match r {
                Some(inner) => self.deep_view() is Group && inner.deep_view() == inside(
                    self.deep_view(),
                ) && lexable(inside(self.deep_view())),
                None => self.deep_view() is Group ==> !lexable(inside(self.deep_view())),
            },
    {
        proof {
            use_type_invariant(self);
        }
        match &self.shape {
            Shape::Group(_) => match lex(&group_stream(&self.tree)) {
                Ok(inner) => Some(inner),
                Err(_) => None,
            },
            _ => None,
        }
    }
}

impl Clone for Token {
    fn clone(&self) -> (copy: Self)
        ensures
            copy.deep_view() == self.deep_view(),
    {
        proof {
            use_type_invariant(self);
        }
        Token { shape: self.shape.clone(), tree: clone_tree(&self.tree) }
    }
}

/// Reads a token stream into tokens. A signed literal at the top of the
/// stream is refused: `Err` holds the index of the first one.
pub fn lex(stream: &TokenStream) -> (r: Result<Vec<Token>, usize>)
    ensures
        match r {
            Ok(tokens) => tokens.deep_view() == stream_toks(*stream) && lexable(
                stream_toks(*stream),
            ),
            Err(at) => !lexable(stream_toks(*stream)) && at == first_signed(stream_toks(*stream)),
        },
{
    let trees = stream_trees(stream);
    let ghost toks = stream_toks(*stream);
    let mut tokens: Vec<Token> = Vec::new();
    assert(toks.take(0) == Seq::<Tok>::empty());
    for tree in iter: trees.into_iter()
        invariant
            iter.seq() == trees@,
            toks == stream_toks(*stream),
            trees@.len() == toks.len(),
            forall|k: int| 0 <= k < trees@.len() ==> tree_tok(#[trigger] trees@[k]) == toks[k],
            tokens.deep_view() == toks.take(iter.index() as int),
            lexable(toks.take(iter.index() as int)),
    {
        let ghost i = iter.index() as int;
        assert(tree_tok(trees@[i]) == toks[i]);
        match Token::accept(tree) {
            Some(token) => {
                assert(tokens.deep_view().push(token.deep_view()) == toks.take(i + 1));
                tokens.push(token);
                assert(tokens.deep_view() == toks.take(i + 1));
            },
            None => {
                proof {
                    lemma_first_signed(toks, i);
                    assert(tokens.deep_view().len() == tokens.len());
                }
                return Err(tokens.len());
            },
        }
    }
    assert(toks.take(toks.len() as int) == toks);
    Ok(tokens)
}

/// The stream that holds `tokens`, in their order.
pub fn to_stream(tokens: &Vec<Token>) -> (stream: TokenStream)
    ensures
        stream_toks(stream) == tokens.deep_view(),
{
    trees_stream(tokens.as_slice())
}

/// The stream that holds the tokens of `tokens` from index `from` on.
pub fn to_stream_from(tokens: &Vec<Token>, from: usize) -> (stream: TokenStream)
    requires
        from <= tokens.len(),
    ensures
        stream_toks(stream) == tokens.deep_view().skip(from as int),
{
    let tail = slice_subrange(tokens.as_slice(), from, tokens.len());
    assert(tail.deep_view() == tokens.deep_view().skip(from as int));
    trees_stream(tail)
}

} // verus!
