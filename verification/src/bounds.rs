//! The grammar of bounds: lifetimes, the modifiers `?` and `~const`, trait
//! bounds with their binder, path and call-style arguments, and the lists of
//! bounds behind a type parameter and in a `where` predicate.

use crate::cursor::{bare_colon_at, colon2_at, group_at, lifetime_at, punct_at, word_at, Cursor};
use crate::delegate::{
    advances, agrees, bound_lifetimes, fails_by_expectation, parenthesized_arguments,
    parse_bound_lifetimes, parse_parenthesized_arguments, parse_path, path_node, within, Parsed,
};
use crate::error::{unexpected, Expected, Fail, Failure};
use crate::syntax::{
    BoundView, TildeConst, TraitBound, TraitBoundModifier, TraitBoundView, TypeParamBound,
};
use crate::token::{inside, lexable, Delimiter, Tok, Token};
use vstd::prelude::*;

verus! {

/// A lifetime at the front of `input`: its two tokens.
pub open spec fn lifetime(input: Seq<Tok>) -> Parsed<Seq<Tok>> {
    if lifetime_at(input, 0) {
        Ok((input.take(2), input.skip(2)))
    } else {
        Err(unexpected(Expected::Lifetime, input.len()))
    }
}

/// A lifetime.
pub fn parse_lifetime(cur: Cursor) -> (r: Result<(Vec<Token>, Cursor), Failure>)
    ensures
        agrees(r, lifetime(cur.rest())),
{
    if cur.lifetime_at(0) {
        let tokens = cur.copy(2);
        Ok((tokens, cur.advance(2)))
    } else {
        Err(cur.unexpected(Expected::Lifetime))
    }
}

/// `~const` at the front of `input`.
pub open spec fn tilde_const(input: Seq<Tok>) -> Parsed<TildeConst> {
    if !punct_at(input, 0, '~') {
        Err(unexpected(Expected::Tilde, input.len()))
    } else if !word_at(input, 1, "const"@) {
        Err(unexpected(Expected::Const, (input.len() - 1) as nat))
    } else {
        Ok((TildeConst, input.skip(2)))
    }
}

impl TildeConst {
    /// `~` and then `const`.
    pub fn parse(cur: Cursor) -> (r: Result<(TildeConst, Cursor), Failure>)
        ensures
            agrees(r, tilde_const(cur.rest())),
    {
        if !cur.punct_at(0, '~') {
            return Err(cur.unexpected(Expected::Tilde));
        }
        if !cur.word_at(1, "const") {
            return Err(cur.advance(1).unexpected(Expected::Const));
        }
        Ok((TildeConst, cur.advance(2)))
    }
}

/// The modifier at the front of `input`: `?`, `~const`, or nothing.
pub open spec fn modifier(input: Seq<Tok>) -> Parsed<TraitBoundModifier> {
    if punct_at(input, 0, '?') {
        Ok((TraitBoundModifier::Maybe, input.skip(1)))
    } else if punct_at(input, 0, '~') && word_at(input, 1, "const"@) {
        Ok((TraitBoundModifier::TildeConst(TildeConst), input.skip(2)))
    } else {
        Ok((TraitBoundModifier::Plain, input))
    }
}

impl TraitBoundModifier {
    /// The modifier in front of a trait bound. It never fails: where neither
    /// `?` nor `~const` stands, there is no modifier and nothing is read.
    pub fn parse(cur: Cursor) -> (r: Result<(TraitBoundModifier, Cursor), Failure>)
        ensures
            agrees(r, modifier(cur.rest())),
    {
        if cur.punct_at(0, '?') {
            Ok((TraitBoundModifier::Maybe, cur.advance(1)))
        } else if cur.punct_at(0, '~') && cur.word_at(1, "const") {
            match TildeConst::parse(cur) {
                Ok((tc, cur)) => Ok((TraitBoundModifier::TildeConst(tc), cur)),
                Err(failure) => Err(failure),
            }
        } else {
            Ok((TraitBoundModifier::Plain, cur))
        }
    }
}

/// The `for<...>` binder at the front of `input`, where `for` stands there.
pub open spec fn optional_bound_lifetimes(input: Seq<Tok>) -> Parsed<Option<Seq<Tok>>> {
    if word_at(input, 0, "for"@) {
        match bound_lifetimes(input) {
            Ok((binder, rest)) => Ok((Some(binder), rest)),
            Err(fail) => Err(fail),
        }
    } else {
        Ok((None, input))
    }
}

/// A `for<...>` binder, if `for` comes next.
pub fn parse_optional_bound_lifetimes(cur: Cursor) -> (r: Result<
    (Option<Vec<Token>>, Cursor),
    Failure,
>)
    ensures
        agrees(r, optional_bound_lifetimes(cur.rest())),
{
    if cur.word_at(0, "for") {
        match parse_bound_lifetimes(cur) {
            Ok((binder, cur)) => Ok((Some(binder), cur)),
            Err(failure) => Err(failure),
        }
    } else {
        Ok((None, cur))
    }
}

/// Call-style arguments come next: a group in parentheses, alone or behind
/// `::`.
pub open spec fn call_sugar_at(input: Seq<Tok>) -> bool {
    group_at(input, 0, Delimiter::Parenthesis) || (colon2_at(input, 0) && group_at(
        input,
        2,
        Delimiter::Parenthesis,
    ))
}

/// Whether call-style arguments come next.
pub fn call_sugar_follows(cur: &Cursor) -> (r: bool)
    ensures
        r == call_sugar_at(cur.rest()),
{
    cur.group_at(0, Delimiter::Parenthesis) || (cur.colon2_at(0) && cur.group_at(
        2,
        Delimiter::Parenthesis,
    ))
}

/// A trait bound at the front of `input`: modifier, binder and path, and
/// the call-style arguments where the path's last segment has none yet.
pub open spec fn trait_bound(input: Seq<Tok>) -> Parsed<TraitBoundView> {
    match modifier(input) {
        Err(fail) => Err(fail),
        Ok((modifier, behind_modifier)) => match optional_bound_lifetimes(behind_modifier) {
            Err(fail) => Err(fail),
            Ok((lifetimes, behind_binder)) => match path_node(behind_binder) {
                Err(fail) => Err(fail),
                Ok((path, behind_path)) => if path.plain && call_sugar_at(behind_path) {
                    let before_arguments = if colon2_at(behind_path, 0) {
                        behind_path.skip(2)
                    } else {
                        behind_path
                    };
                    match parenthesized_arguments(before_arguments) {
                        Err(fail) => Err(fail),
                        Ok((arguments, rest)) => Ok(
                            (
                                TraitBoundView {
                                    parenthesized: false,
                                    modifier,
                                    lifetimes,
                                    path: path.tokens + arguments,
                                    last_segment: path.last_segment,
                                },
                                rest,
                            ),
                        ),
                    }
                } else {
                    Ok(
                        (
                            TraitBoundView {
                                parenthesized: false,
                                modifier,
                                lifetimes,
                                path: path.tokens,
                                last_segment: path.last_segment,
                            },
                            behind_path,
                        ),
                    )
                },
            },
        },
    }
}

/// A trait bound takes at least one token.
pub proof fn lemma_trait_bound_advances(input: Seq<Tok>)
    ensures
        advances(trait_bound(input), input),
{
}

impl TraitBound {
    /// A trait bound outside parentheses.
    pub fn parse(cur: Cursor) -> (r: Result<(TraitBound, Cursor), Failure>)
        ensures
            agrees(r, trait_bound(cur.rest())),
    {
        let (modifier, cur) = match TraitBoundModifier::parse(cur) {
            Ok(found) => found,
            Err(failure) => return Err(failure),
        };
        let (lifetimes, cur) = match parse_optional_bound_lifetimes(cur) {
            Ok(found) => found,
            Err(failure) => return Err(failure),
        };
        let (path, cur) = match parse_path(cur) {
            Ok(found) => found,
            Err(failure) => return Err(failure),
        };
        let mut tokens = path.tokens;
        let mut cur = cur;
        if path.plain && call_sugar_follows(&cur) {
            if cur.colon2_at(0) {
                cur = cur.advance(2);
            }
            let (mut arguments, behind) = match parse_parenthesized_arguments(cur) {
                Ok(found) => found,
                Err(failure) => return Err(failure),
            };
            let ghost front = tokens.deep_view();
            let ghost back = arguments.deep_view();
            tokens.append(&mut arguments);
            assert(tokens.deep_view() == front + back);
            cur = behind;
        }
        Ok(
            (
                TraitBound {
                    parenthesized: false,
                    modifier,
                    lifetimes,
                    path: tokens,
                    last_segment: path.last_segment,
                },
                cur,
            ),
        )
    }
}

/// One bound at the front of `input`: a lifetime, a trait bound in
/// parentheses, or a trait bound.
pub open spec fn bound(input: Seq<Tok>) -> Parsed<BoundView> {
    if lifetime_at(input, 0) {
        Ok((BoundView::Lifetime(input.take(2)), input.skip(2)))
    } else if group_at(input, 0, Delimiter::Parenthesis) {
        let content = inside(input[0]);
        if !lexable(content) {
            Err(unexpected(Expected::UnsignedLiteral, input.len()))
        } else {
            match trait_bound(content) {
                Err(fail) => Err(Fail { problem: fail.problem, remaining: input.len() }),
                Ok((found, rest)) => if rest.len() == 0 {
                    Ok(
                        (
                            BoundView::Trait(TraitBoundView { parenthesized: true, ..found }),
                            input.skip(1),
                        ),
                    )
                } else {
                    Err(unexpected(Expected::End, input.len()))
                },
            }
        }
    } else {
        match trait_bound(input) {
            Ok((found, rest)) => Ok((BoundView::Trait(found), rest)),
            Err(fail) => Err(fail),
        }
    }
}

/// A bound takes at least one token.
pub proof fn lemma_bound_advances(input: Seq<Tok>)
    ensures
        advances(bound(input), input),
{
    lemma_trait_bound_advances(input);
}

impl TypeParamBound {
    /// One bound. What stands inside parentheses must be one trait bound
    /// and nothing more; a problem in there is reported at the parentheses.
    pub fn parse(cur: Cursor) -> (r: Result<(TypeParamBound, Cursor), Failure>)
        ensures
            agrees(r, bound(cur.rest())),
    {
        if cur.lifetime_at(0) {
            let tokens = cur.copy(2);
            return Ok((TypeParamBound::Lifetime(tokens), cur.advance(2)));
        }
        if cur.group_at(0, Delimiter::Parenthesis) {
            let content = match cur.token(0) {
                Some(group) => group.children(),
                None => None,
            };
            let content = match content {
                Some(content) => content,
                None => return Err(cur.unexpected(Expected::UnsignedLiteral)),
            };
            return match TraitBound::parse(Cursor::new(content)) {
                Ok((found, behind)) => if behind.remaining() == 0 {
                    let TraitBound { parenthesized: _, modifier, lifetimes, path, last_segment } =
                        found;
                    let found = TraitBound {
                        parenthesized: true,
                        modifier,
                        lifetimes,
                        path,
                        last_segment,
                    };
                    Ok((TypeParamBound::Trait(found), cur.advance(1)))
                } else {
                    Err(cur.unexpected(Expected::End))
                },
                Err(failure) => Err(
                    Failure { problem: failure.problem, remaining: cur.remaining() },
                ),
            };
        }
        match TraitBound::parse(cur) {
            Ok((found, cur)) => Ok((TypeParamBound::Trait(found), cur)),
            Err(failure) => Err(failure),
        }
    }
}

/// Where a list of bounds stands.
#[derive(Clone, Copy, Debug, PartialEq, Eq, Structural)]
pub enum BoundContext {
    /// Behind the colon of a type parameter.
    TypeParam,
    /// Behind the colon of a `where` predicate.
    Predicate,
}

/// The list of bounds ends in front of `input`. Behind a type parameter it
/// ends at `,`, `>` or `=`; in a `where` predicate at the end of the tokens,
/// at a block in braces, or at `,`, `;`, `=` or a colon that begins no `::`.
pub open spec fn bounds_end(input: Seq<Tok>, context: BoundContext) -> bool {
    match context {
        BoundContext::TypeParam => punct_at(input, 0, ',') || punct_at(input, 0, '>') || punct_at(
            input,
            0,
            '=',
        ),
        BoundContext::Predicate => input.len() == 0 || group_at(input, 0, Delimiter::Brace)
            || punct_at(input, 0, ',') || punct_at(input, 0, ';') || bare_colon_at(input, 0)
            || punct_at(input, 0, '='),
    }
}

/// The bounds at the front of `input`, behind the bounds `found` that were
/// read before: bounds with `+` between them, up to the end of the list or
/// to a bound that no `+` follows.
pub open spec fn bounds_behind(
    input: Seq<Tok>,
    context: BoundContext,
    found: Seq<BoundView>,
) -> Parsed<Seq<BoundView>>
    decreases input.len(),
{
    if bounds_end(input, context) {
        Ok((found, input))
    } else {
        match bound(input) {
            Err(fail) => Err(fail),
            Ok((next, rest)) => if punct_at(rest, 0, '+') {
                proof {
                    lemma_bound_advances(input);
                }
                bounds_behind(rest.skip(1), context, found.push(next))
            } else {
                Ok((found.push(next), rest))
            },
        }
    }
}

/// The list of bounds at the front of `input`.
pub open spec fn bounds(input: Seq<Tok>, context: BoundContext) -> Parsed<Seq<BoundView>> {
    bounds_behind(input, context, Seq::empty())
}

/// A list of bounds never yields more tokens than it was given.
pub proof fn lemma_bounds_within(input: Seq<Tok>, context: BoundContext, found: Seq<BoundView>)
    ensures
        within(bounds_behind(input, context, found), input),
    decreases input.len(),
{
    if !bounds_end(input, context) {
        lemma_bound_advances(input);
        match bound(input) {
            Err(fail) => {},
            Ok((next, rest)) => {
                if punct_at(rest, 0, '+') {
                    lemma_bounds_within(rest.skip(1), context, found.push(next));
                }
            },
        }
    }
}

/// A list of bounds fails only because something expected is not there.
pub proof fn lemma_bounds_fail_by_expectation(
    input: Seq<Tok>,
    context: BoundContext,
    found: Seq<BoundView>,
)
    ensures
        fails_by_expectation(bounds_behind(input, context, found)),
    decreases input.len(),
{
    if !bounds_end(input, context) {
        lemma_bound_advances(input);
        match bound(input) {
            Err(fail) => {},
            Ok((next, rest)) => {
                if punct_at(rest, 0, '+') {
                    lemma_bounds_fail_by_expectation(rest.skip(1), context, found.push(next));
                }
            },
        }
    }
}

/// Whether the list of bounds ends at the cursor.
pub fn at_bounds_end(cur: &Cursor, context: BoundContext) -> (r: bool)
    ensures
        r == bounds_end(cur.rest(), context),
{
    match context {
        BoundContext::TypeParam => cur.punct_at(0, ',') || cur.punct_at(0, '>') || cur.punct_at(
            0,
            '=',
        ),
        BoundContext::Predicate => cur.remaining() == 0 || cur.group_at(0, Delimiter::Brace)
            || cur.punct_at(0, ',') || cur.punct_at(0, ';') || cur.bare_colon_at(0)
            || cur.punct_at(0, '='),
    }
}

/// A list of bounds, in the order in which they stand.
pub fn parse_bounds(cur: Cursor, context: BoundContext) -> (r: Result<
    (Vec<TypeParamBound>, Cursor),
    Failure,
>)
    ensures
        agrees(r, bounds(cur.rest(), context)),
{
    let mut at = cur;
    let mut found: Vec<TypeParamBound> = Vec::new();
    assert(found.deep_view() == Seq::<BoundView>::empty());
    loop
        invariant
            bounds_behind(at.rest(), context, found.deep_view()) == bounds(cur.rest(), context),
        decreases at.rest().len(),
    {
        if at_bounds_end(&at, context) {
            return Ok((found, at));
        }
        proof {
            lemma_bound_advances(at.rest());
        }
        let (next, behind) = match TypeParamBound::parse(at) {
            Ok(parsed) => parsed,
            Err(failure) => return Err(failure),
        };
        let ghost before = found.deep_view();
        found.push(next);
        assert(found.deep_view() == before.push(next.deep_view()));
        if !behind.punct_at(0, '+') {
            return Ok((found, behind));
        }
        at = behind.advance(1);
    }
}

} // verus!
