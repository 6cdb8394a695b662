//! Why a token stream was refused, and where.

use vstd::prelude::*;

verus! {

/// The construct that the parser looked for at the place where it stopped.
#[derive(Clone, Copy, Debug, PartialEq, Eq, Structural)]
pub enum Expected {
    /// A literal without a sign: a literal that begins with a minus sign
    /// stood there, or inside the group that stood there.
    UnsignedLiteral,
    /// Outer attributes.
    Attribute,
    /// The keyword `impl`.
    Impl,
    /// A generic parameter: a lifetime, an identifier, `const` or `_`.
    GenericParam,
    /// A lifetime parameter.
    LifetimeParam,
    /// A const parameter.
    ConstParam,
    /// An identifier that is no keyword.
    Identifier,
    /// A lifetime.
    Lifetime,
    /// `,` or `>` after a generic parameter.
    Comma,
    /// `:`
    Colon,
    /// `~`
    Tilde,
    /// The keyword `const`.
    Const,
    /// A `for<...>` binder.
    BoundLifetimes,
    /// A path.
    Path,
    /// The parenthesized arguments of a call-style bound.
    ParenthesizedArguments,
    /// A type.
    Type,
    /// The keyword `where`.
    Where,
    /// The block in braces.
    Body,
    /// `#`
    Pound,
    /// `!`
    Bang,
    /// The brackets of an inner attribute.
    Bracket,
    /// The path of an inner attribute.
    AttributePath,
    /// An associated item.
    ImplItem,
    /// The end of the tokens.
    End,
}

impl Expected {
    /// The message for a missing construct.
    pub open spec fn text(self) -> Seq<char> {
        match self {
            Expected::UnsignedLiteral => "expected a literal without a sign"@,
            Expected::Attribute => "expected attributes"@,
            Expected::Impl => "expected `impl`"@,
            Expected::GenericParam => "expected one of: lifetime, identifier, `const`, `_`"@,
            Expected::LifetimeParam => "expected lifetime parameter"@,
            Expected::ConstParam => "expected const parameter"@,
            Expected::Identifier => "expected identifier"@,
            Expected::Lifetime => "expected lifetime"@,
            Expected::Comma => "expected `,` or `>`"@,
            Expected::Colon => "expected `:`"@,
            Expected::Tilde => "expected `~`"@,
            Expected::Const => "expected `const`"@,
            Expected::BoundLifetimes => "expected `for<...>`"@,
            Expected::Path => "expected path"@,
            Expected::ParenthesizedArguments => "expected parenthesized arguments"@,
            Expected::Type => "expected type"@,
            Expected::Where => "expected `where`"@,
            Expected::Body => "expected curly braces"@,
            Expected::Pound => "expected `#`"@,
            Expected::Bang => "expected `!`"@,
            Expected::Bracket => "expected square brackets"@,
            Expected::AttributePath => "expected attribute path"@,
            Expected::ImplItem => "expected associated item"@,
            Expected::End => "unexpected token"@,
        }
    }

    /// The message for a missing construct.
    pub fn describe(&self) -> (message: &'static str)
        ensures
            message@ == self.text(),
    {
        match self {
            Expected::UnsignedLiteral => "expected a literal without a sign",
            Expected::Attribute => "expected attributes",
            Expected::Impl => "expected `impl`",
            Expected::GenericParam => "expected one of: lifetime, identifier, `const`, `_`",
            Expected::LifetimeParam => "expected lifetime parameter",
            Expected::ConstParam => "expected const parameter",
            Expected::Identifier => "expected identifier",
            Expected::Lifetime => "expected lifetime",
            Expected::Comma => "expected `,` or `>`",
            Expected::Colon => "expected `:`",
            Expected::Tilde => "expected `~`",
            Expected::Const => "expected `const`",
            Expected::BoundLifetimes => "expected `for<...>`",
            Expected::Path => "expected path",
            Expected::ParenthesizedArguments => "expected parenthesized arguments",
            Expected::Type => "expected type",
            Expected::Where => "expected `where`",
            Expected::Body => "expected curly braces",
            Expected::Pound => "expected `#`",
            Expected::Bang => "expected `!`",
            Expected::Bracket => "expected square brackets",
            Expected::AttributePath => "expected attribute path",
            Expected::ImplItem => "expected associated item",
            Expected::End => "unexpected token",
        }
    }
}

/// What went wrong, without the place.
#[derive(Clone, Copy, Debug, PartialEq, Eq, Structural)]
pub enum Problem {
    /// Another construct was expected.
    Unexpected(Expected),
    /// `for` follows a type that is no plain path.
    MissingTraitPath,
    /// No `for` follows the first type: the block implements no trait.
    MissingTraitKeyword,
}

/// A refusal inside the parser: the problem, and how many tokens of the
/// sequence at hand were still unread where it was found.
#[derive(Clone, Copy, Debug, PartialEq, Eq, Structural)]
pub struct Failure {
    pub problem: Problem,
    pub remaining: usize,
}

/// The model of a `Failure`.
pub struct Fail {
    pub problem: Problem,
    pub remaining: nat,
}

impl DeepView for Failure {
    type V = Fail;

    open spec fn deep_view(&self) -> Fail {
        Fail { problem: self.problem, remaining: self.remaining as nat }
    }
}

/// The failure to find `expected` with `remaining` tokens unread.
pub open spec fn unexpected(expected: Expected, remaining: nat) -> Fail {
    Fail { problem: Problem::Unexpected(expected), remaining }
}

/// A refused token stream. `position` is the index, among the tokens handed
/// in, of the token at which parsing stopped; a problem inside a group is
/// reported at the group.
#[derive(Clone, Copy, Debug, PartialEq, Eq, Structural)]
pub enum ParseError {
    UnexpectedToken { expected: Expected, position: usize },
    MissingTraitPath { position: usize },
    MissingTraitKeyword { position: usize },
}

impl ParseError {
    /// The error for `problem` at `position`.
    pub open spec fn at(problem: Problem, position: usize) -> ParseError {
        match problem {
            Problem::Unexpected(expected) => ParseError::UnexpectedToken { expected, position },
            Problem::MissingTraitPath => ParseError::MissingTraitPath { position },
            Problem::MissingTraitKeyword => ParseError::MissingTraitKeyword { position },
        }
    }

    /// The error for `problem` at `position`.
    pub fn new(problem: Problem, position: usize) -> (error: ParseError)
        ensures
            error == ParseError::at(problem, position),
    {
        match problem {
            Problem::Unexpected(expected) => ParseError::UnexpectedToken { expected, position },
            Problem::MissingTraitPath => ParseError::MissingTraitPath { position },
            Problem::MissingTraitKeyword => ParseError::MissingTraitKeyword { position },
        }
    }

    /// The message of the error.
    pub open spec fn text(self) -> Seq<char> {
        match self {
            ParseError::UnexpectedToken { expected, .. } => expected.text(),
            ParseError::MissingTraitPath { .. } => "expected trait path"@,
            ParseError::MissingTraitKeyword { .. } => "expected trait impl block"@,
        }
    }

    /// The message of the error.
    pub fn message(&self) -> (message: &'static str)
        ensures
            message@ == self.text(),
    {
        match self {
            ParseError::UnexpectedToken { expected, .. } => expected.describe(),
            ParseError::MissingTraitPath { .. } => "expected trait path",
            ParseError::MissingTraitKeyword { .. } => "expected trait impl block",
        }
    }

    /// Where parsing stopped.
    pub open spec fn spec_position(&self) -> usize {
        match *self {
            ParseError::UnexpectedToken { position, .. } => position,
            ParseError::MissingTraitPath { position } => position,
            ParseError::MissingTraitKeyword { position } => position,
        }
    }

    /// Where parsing stopped.
    #[verifier::when_used_as_spec(spec_position)]
    pub fn position(&self) -> (position: usize)
        ensures
            position == self.spec_position(),
    {
        match self {
            ParseError::UnexpectedToken { position, .. } => *position,
            ParseError::MissingTraitPath { position } => *position,
            ParseError::MissingTraitKeyword { position } => *position,
        }
    }
}

} // verus!
