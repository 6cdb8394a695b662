//! What the grammar asks of single tokens, on the model and on a cursor.

use crate::error::{unexpected, Expected, Failure, Problem};
use crate::token::{stream_toks, to_stream_from, Delimiter, Shape, Tok, Token};
use proc_macro2::TokenStream;
use vstd::prelude::*;

verus! {

/// The token at `at` is the punctuation character `ch`, joined or not.
pub open spec fn punct_at(input: Seq<Tok>, at: int, ch: char) -> bool {
    0 <= at < input.len() && (input[at] matches Tok::Punct(c, _) && c == ch)
}

/// The token at `at` is the punctuation character `ch`, with the next token
/// joined to it.
pub open spec fn joint_at(input: Seq<Tok>, at: int, ch: char) -> bool {
    0 <= at < input.len() && input[at] == Tok::Punct(ch, true)
}

/// The token at `at` is the identifier or keyword `word`.
pub open spec fn word_at(input: Seq<Tok>, at: int, word: Seq<char>) -> bool {
    0 <= at < input.len() && input[at] == Tok::Ident(word)
}

/// The token at `at` is an identifier or a keyword.
pub open spec fn ident_at(input: Seq<Tok>, at: int) -> bool {
    0 <= at < input.len() && input[at] is Ident
}

/// The token at `at` is a group with the given delimiter.
pub open spec fn group_at(input: Seq<Tok>, at: int, delimiter: Delimiter) -> bool {
    0 <= at < input.len() && (input[at] matches Tok::Group(d, _) && d == delimiter)
}

/// The words that cannot name anything: the keywords and `_`.
pub open spec fn reserved(word: Seq<char>) -> bool {
    ||| word == "_"@ || word == "abstract"@ || word == "as"@ || word == "become"@
    ||| word == "box"@ || word == "break"@ || word == "const"@ || word == "continue"@
    ||| word == "crate"@ || word == "do"@ || word == "else"@ || word == "enum"@
    ||| word == "extern"@ || word == "false"@ || word == "final"@ || word == "fn"@
    ||| word == "for"@ || word == "if"@ || word == "impl"@ || word == "in"@
    ||| word == "let"@ || word == "loop"@ || word == "macro"@ || word == "match"@
    ||| word == "mod"@ || word == "move"@ || word == "mut"@ || word == "override"@
    ||| word == "priv"@ || word == "pub"@ || word == "ref"@ || word == "return"@
    ||| word == "Self"@ || word == "self"@ || word == "static"@ || word == "struct"@
    ||| word == "super"@ || word == "trait"@ || word == "true"@ || word == "type"@
    ||| word == "typeof"@ || word == "unsafe"@ || word == "unsized"@ || word == "use"@
    ||| word == "virtual"@ || word == "where"@ || word == "while"@ || word == "yield"@
}

/// The token at `at` is an identifier that can name something.
pub open spec fn name_at(input: Seq<Tok>, at: int) -> bool {
    0 <= at < input.len() && (input[at] matches Tok::Ident(word) && !reserved(word))
}

/// A lifetime stands at `at`: an apostrophe joined to an identifier. It takes
/// two tokens.
pub open spec fn lifetime_at(input: Seq<Tok>, at: int) -> bool {
    joint_at(input, at, '\'') && ident_at(input, at + 1)
}

/// The path separator `::` stands at `at`. It takes two tokens.
pub open spec fn colon2_at(input: Seq<Tok>, at: int) -> bool {
    joint_at(input, at, ':') && punct_at(input, at + 1, ':')
}

/// A colon that begins no path separator stands at `at`.
pub open spec fn bare_colon_at(input: Seq<Tok>, at: int) -> bool {
    punct_at(input, at, ':') && !colon2_at(input, at)
}

/// The index after the piece of syntax at `at`, for looking ahead: a lifetime
/// counts as one piece, and so does any other single token.
pub open spec fn next_at(input: Seq<Tok>, at: int) -> int {
    if at < 0 || at >= input.len() {
        input.len() as int
    } else if lifetime_at(input, at) {
        at + 2
    } else {
        at + 1
    }
}

/// Whether `text` is `word`.
pub fn same_text(text: &String, word: &str) -> (r: bool)
    ensures
        r == (text@ == word@),
{
    let word = word.to_owned();
    *text == word
}

/// Whether `word` is reserved.
pub fn is_reserved(word: &String) -> (r: bool)
    ensures
        r == reserved(word@),
{
    same_text(word, "_") || same_text(word, "abstract") || same_text(word, "as") || same_text(
        word,
        "become",
    ) || same_text(word, "box") || same_text(word, "break") || same_text(word, "const")
        || same_text(word, "continue") || same_text(word, "crate") || same_text(word, "do")
        || same_text(word, "else") || same_text(word, "enum") || same_text(word, "extern")
        || same_text(word, "false") || same_text(word, "final") || same_text(word, "fn")
        || same_text(word, "for") || same_text(word, "if") || same_text(word, "impl")
        || same_text(word, "in") || same_text(word, "let") || same_text(word, "loop")
        || same_text(word, "macro") || same_text(word, "match") || same_text(word, "mod")
        || same_text(word, "move") || same_text(word, "mut") || same_text(word, "override")
        || same_text(word, "priv") || same_text(word, "pub") || same_text(word, "ref")
        || same_text(word, "return") || same_text(word, "Self") || same_text(word, "self")
        || same_text(word, "static") || same_text(word, "struct") || same_text(word, "super")
        || same_text(word, "trait") || same_text(word, "true") || same_text(word, "type")
        || same_text(word, "typeof") || same_text(word, "unsafe") || same_text(word, "unsized")
        || same_text(word, "use") || same_text(word, "virtual") || same_text(word, "where")
        || same_text(word, "while") || same_text(word, "yield")
}

/// A place in a sequence of tokens: the tokens from there on are `rest()`.
#[derive(Debug)]
pub struct Cursor {
    tokens: Vec<Token>,
    pos: usize,
}

impl Cursor {
    #[verifier::type_invariant]
    spec fn in_range(self) -> bool {
        self.pos <= self.tokens.len()
    }

    /// The tokens that are still unread.
    pub closed spec fn rest(&self) -> Seq<Tok> {
        self.tokens.deep_view().skip(self.pos as int)
    }

    /// A cursor before the first of `tokens`.
    pub fn new(tokens: Vec<Token>) -> (cur: Cursor)
        ensures
            cur.rest() == tokens.deep_view(),
    {
        Cursor { tokens, pos: 0 }
    }

    /// How many tokens are still unread.
    pub fn remaining(&self) -> (n: usize)
        ensures
            n == self.rest().len(),
    {
        proof {
            use_type_invariant(self);
        }
        self.tokens.len() - self.pos
    }

    /// The unread token at `at`, counted from the cursor.
    pub fn token(&self, at: usize) -> (r: Option<&Token>)
        ensures
            match r {
                Some(token) => at < self.rest().len() && token.deep_view()
                    == self.rest()[at as int],
                None => at >= self.rest().len(),
            },
    {
        proof {
            use_type_invariant(self);
        }
        if at < self.tokens.len() - self.pos {
            Some(&self.tokens[self.pos + at])
        } else {
            None
        }
    }

    /// The cursor `n` tokens further on.
    pub fn advance(self, n: usize) -> (next: Cursor)
        requires
            n <= self.rest().len(),
        ensures
            next.rest() == self.rest().skip(n as int),
    {
        proof {
            use_type_invariant(&self);
        }
        Cursor { tokens: self.tokens, pos: self.pos + n }
    }

    /// A copy of the next token, and the cursor behind it.
    pub fn take(self) -> (r: (Token, Cursor))
        requires
            self.rest().len() > 0,
        ensures
            r.0.deep_view() == self.rest()[0],
            r.1.rest() == self.rest().skip(1),
    {
        proof {
            use_type_invariant(&self);
        }
        let token = self.tokens[self.pos].clone();
        (token, Cursor { tokens: self.tokens, pos: self.pos + 1 })
    }

    /// The failure to find `expected` at the cursor.
    pub fn unexpected(&self, expected: Expected) -> (failure: Failure)
        ensures
            failure.deep_view() == unexpected(expected, self.rest().len()),
    {
        Failure { problem: Problem::Unexpected(expected), remaining: self.remaining() }
    }

    /// Copies of the next `n` tokens.
    pub fn copy(&self, n: usize) -> (copies: Vec<Token>)
        requires
            n <= self.rest().len(),
        ensures
            copies.deep_view() == self.rest().take(n as int),
    {
        proof {
            use_type_invariant(self);
        }
        let mut copies: Vec<Token> = Vec::new();
        let mut i: usize = 0;
        while i < n
            invariant
                i <= n,
                n <= self.rest().len(),
                self.pos + n <= self.tokens.len(),
                copies.deep_view() == self.rest().take(i as int),
            decreases n - i,
        {
            let token = self.tokens[self.pos + i].clone();
            assert(copies.deep_view().push(token.deep_view()) == self.rest().take(i + 1));
            copies.push(token);
            assert(copies.deep_view() == self.rest().take(i + 1));
            i += 1;
        }
        copies
    }

    /// The unread tokens as a stream.
    pub fn stream(&self) -> (stream: TokenStream)
        ensures
            stream_toks(stream) == self.rest(),
    {
        proof {
            use_type_invariant(self);
        }
        to_stream_from(&self.tokens, self.pos)
    }

    /// Whether the punctuation character `ch` stands at `at`.
    pub fn punct_at(&self, at: usize, ch: char) -> (r: bool)
        ensures
            r == punct_at(self.rest(), at as int, ch),
    {
        match self.token(at) {
            Some(token) => match token.shape() {
                Shape::Punct(c, _) => *c == ch,
                _ => false,
            },
            None => false,
        }
    }

    /// Whether the punctuation character `ch` stands at `at` with the next
    /// token joined to it.
    pub fn joint_at(&self, at: usize, ch: char) -> (r: bool)
        ensures
            r == joint_at(self.rest(), at as int, ch),
    {
        match self.token(at) {
            Some(token) => match token.shape() {
                Shape::Punct(c, joint) => *c == ch && *joint,
                _ => false,
            },
            None => false,
        }
    }

    /// Whether the identifier or keyword `word` stands at `at`.
    pub fn word_at(&self, at: usize, word: &str) -> (r: bool)
        ensures
            r == word_at(self.rest(), at as int, word@),
    {
        match self.token(at) {
            Some(token) => match token.shape() {
                Shape::Ident(text) => same_text(text, word),
                _ => false,
            },
            None => false,
        }
    }

    /// Whether an identifier or a keyword stands at `at`.
    pub fn ident_at(&self, at: usize) -> (r: bool)
        ensures
            r == ident_at(self.rest(), at as int),
    {
        match self.token(at) {
            Some(token) => match token.shape() {
                Shape::Ident(_) => true,
                _ => false,
            },
            None => false,
        }
    }

    /// Whether an identifier that can name something stands at `at`.
    pub fn name_at(&self, at: usize) -> (r: bool)
        ensures
            r == name_at(self.rest(), at as int),
    {
        match self.token(at) {
            Some(token) => match token.shape() {
                Shape::Ident(text) => !is_reserved(text),
                _ => false,
            },
            None => false,
        }
    }

    /// Whether a group with the given delimiter stands at `at`.
    pub fn group_at(&self, at: usize, delimiter: Delimiter) -> (r: bool)
        ensures
            r == group_at(self.rest(), at as int, delimiter),
    {
        match self.token(at) {
            Some(token) => match token.shape() {
                Shape::Group(d) => *d == delimiter,
                _ => false,
            },
            None => false,
        }
    }

    /// Whether a lifetime stands at `at`.
    pub fn lifetime_at(&self, at: usize) -> (r: bool)
        ensures
            r == lifetime_at(self.rest(), at as int),
    {
        at < self.remaining() && self.joint_at(at, '\'') && self.ident_at(at + 1)
    }

    /// Whether `::` stands at `at`.
    pub fn colon2_at(&self, at: usize) -> (r: bool)
        ensures
            r == colon2_at(self.rest(), at as int),
    {
        at < self.remaining() && self.joint_at(at, ':') && self.punct_at(at + 1, ':')
    }

    /// Whether a colon that begins no `::` stands at `at`.
    pub fn bare_colon_at(&self, at: usize) -> (r: bool)
        ensures
            r == bare_colon_at(self.rest(), at as int),
    {
        self.punct_at(at, ':') && !self.colon2_at(at)
    }

    /// The index after the piece of syntax at `at`.
    pub fn next_at(&self, at: usize) -> (next: usize)
        ensures
            next == next_at(self.rest(), at as int),
            next <= self.rest().len(),
    {
        let n = self.remaining();
        if at >= n {
            n
        } else if self.lifetime_at(at) {
            at + 2
        } else {
            at + 1
        }
    }
}

} // verus!
