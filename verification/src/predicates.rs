//! The grammar of the `where` clause: predicates on lifetimes and on types,
//! with `,` between them.

use crate::bounds::{
    at_bounds_end, bounds, bounds_end, lemma_bounds_fail_by_expectation, lemma_bounds_within,
    lifetime, optional_bound_lifetimes, parse_bounds, parse_lifetime,
    parse_optional_bound_lifetimes, BoundContext,
};
use crate::cursor::{group_at, lifetime_at, punct_at, word_at, Cursor};
use crate::delegate::{
    advances, agrees, fails_by_expectation, parse_type, type_node, within, Parsed,
};
use crate::error::{unexpected, Expected, Failure};
use crate::syntax::{
    PredicateLifetime, PredicateLifetimeView, PredicateType, PredicateTypeView, WhereClause,
    WhereClauseView, WherePredicate, WherePredicateView,
};
use crate::token::{Delimiter, Tok, Token};
use vstd::prelude::*;

verus! {

/// The bounds of a lifetime predicate end in front of `input`: at the end of
/// the tokens, at a block in braces, or at `,`, `;`, `:` or `=`.
pub open spec fn lifetime_bounds_end(input: Seq<Tok>) -> bool {
    input.len() == 0 || group_at(input, 0, Delimiter::Brace) || punct_at(input, 0, ',')
        || punct_at(input, 0, ';') || punct_at(input, 0, ':') || punct_at(input, 0, '=')
}

/// The lifetimes that bound a lifetime, behind those that were read before:
/// lifetimes with `+` between them.
pub open spec fn lifetime_bounds_behind(input: Seq<Tok>, found: Seq<Seq<Tok>>) -> Parsed<
    Seq<Seq<Tok>>,
>
    decreases input.len(),
{
    if lifetime_bounds_end(input) {
        Ok((found, input))
    } else {
        match lifetime(input) {
            Err(fail) => Err(fail),
            Ok((next, rest)) => if punct_at(rest, 0, '+') {
                lifetime_bounds_behind(rest.skip(1), found.push(next))
            } else {
                Ok((found.push(next), rest))
            },
        }
    }
}

/// The bounds of a lifetime predicate never yield more tokens than they were
/// given.
pub proof fn lemma_lifetime_bounds_within(input: Seq<Tok>, found: Seq<Seq<Tok>>)
    ensures
        within(lifetime_bounds_behind(input, found), input),
    decreases input.len(),
{
    if !lifetime_bounds_end(input) {
        match lifetime(input) {
            Err(fail) => {},
            Ok((next, rest)) => {
                if punct_at(rest, 0, '+') {
                    lemma_lifetime_bounds_within(rest.skip(1), found.push(next));
                }
            },
        }
    }
}

/// The bounds of a lifetime predicate fail only because something expected
/// is not there.
pub proof fn lemma_lifetime_bounds_fail_by_expectation(input: Seq<Tok>, found: Seq<Seq<Tok>>)
    ensures
        fails_by_expectation(lifetime_bounds_behind(input, found)),
    decreases input.len(),
{
    if !lifetime_bounds_end(input) {
        match lifetime(input) {
            Err(fail) => {},
            Ok((next, rest)) => {
                if punct_at(rest, 0, '+') {
                    lemma_lifetime_bounds_fail_by_expectation(rest.skip(1), found.push(next));
                }
            },
        }
    }
}

/// Whether the bounds of a lifetime predicate end at the cursor.
fn at_lifetime_bounds_end(cur: &Cursor) -> (r: bool)
    ensures
        r == lifetime_bounds_end(cur.rest()),
{
    cur.remaining() == 0 || cur.group_at(0, Delimiter::Brace) || cur.punct_at(0, ',')
        || cur.punct_at(0, ';') || cur.punct_at(0, ':') || cur.punct_at(0, '=')
}

/// The lifetimes that bound a lifetime, in the order in which they stand.
fn parse_lifetime_bounds(cur: Cursor) -> (r: Result<(Vec<Vec<Token>>, Cursor), Failure>)
    ensures
        agrees(r, lifetime_bounds_behind(cur.rest(), Seq::empty())),
{
    let mut at = cur;
    let mut found: Vec<Vec<Token>> = Vec::new();
    assert(found.deep_view() == Seq::<Seq<Tok>>::empty());
    loop
        invariant
            lifetime_bounds_behind(at.rest(), found.deep_view()) == lifetime_bounds_behind(
                cur.rest(),
                Seq::empty(),
            ),
        decreases at.rest().len(),
    {
        if at_lifetime_bounds_end(&at) {
            return Ok((found, at));
        }
        let (next, behind) = match parse_lifetime(at) {
            Ok(parsed) => parsed,
            Err(failure) => return Err(failure),
        };
        let ghost before = found.deep_view();
        found.push(next);
        assert(found.deep_view() == before.push(next.deep_view()));
        if !behind.punct_at(0, '+') {
            return Ok((found, behind));
        }
        at = behind.advance(1);
    }
}

/// A predicate on a lifetime stands at the front of `input`: a lifetime and
/// then a colon.
pub open spec fn lifetime_predicate_at(input: Seq<Tok>) -> bool {
    lifetime_at(input, 0) && punct_at(input, 2, ':')
}

/// A predicate on a lifetime at the front of `input`.
pub open spec fn lifetime_predicate(input: Seq<Tok>) -> Parsed<PredicateLifetimeView> {
    match lifetime_bounds_behind(input.skip(3), Seq::empty()) {
        Err(fail) => Err(fail),
        Ok((bounds, rest)) => Ok((PredicateLifetimeView { lifetime: input.take(2), bounds }, rest)),
    }
}

/// A predicate on a type at the front of `input`: an optional binder, the
/// type, a colon, and the bounds.
pub open spec fn type_predicate(input: Seq<Tok>) -> Parsed<PredicateTypeView> {
    match optional_bound_lifetimes(input) {
        Err(fail) => Err(fail),
        Ok((lifetimes, behind_binder)) => match type_node(behind_binder) {
            Err(fail) => Err(fail),
            Ok((ty, behind_type)) => if !punct_at(behind_type, 0, ':') {
                Err(unexpected(Expected::Colon, behind_type.len()))
            } else {
                match bounds(behind_type.skip(1), BoundContext::Predicate) {
                    Err(fail) => Err(fail),
                    Ok((bounds, rest)) => Ok(
                        (PredicateTypeView { lifetimes, bounded_ty: ty.tokens, bounds }, rest),
                    ),
                }
            },
        },
    }
}

/// One predicate at the front of `input`.
pub open spec fn where_predicate(input: Seq<Tok>) -> Parsed<WherePredicateView> {
    if lifetime_predicate_at(input) {
        match lifetime_predicate(input) {
            Err(fail) => Err(fail),
            Ok((predicate, rest)) => Ok((WherePredicateView::Lifetime(predicate), rest)),
        }
    } else {
        match type_predicate(input) {
            Err(fail) => Err(fail),
            Ok((predicate, rest)) => Ok((WherePredicateView::Type(predicate), rest)),
        }
    }
}

/// A predicate takes at least one token.
pub proof fn lemma_where_predicate_advances(input: Seq<Tok>)
    ensures
        advances(where_predicate(input), input),
{
    if lifetime_predicate_at(input) {
        lemma_lifetime_bounds_within(input.skip(3), Seq::empty());
    } else {
        match optional_bound_lifetimes(input) {
            Err(fail) => {},
            Ok((lifetimes, behind_binder)) => match type_node(behind_binder) {
                Err(fail) => {},
                Ok((ty, behind_type)) => {
                    if punct_at(behind_type, 0, ':') {
                        lemma_bounds_within(
                            behind_type.skip(1),
                            BoundContext::Predicate,
                            Seq::empty(),
                        );
                    }
                },
            },
        }
    }
}

impl PredicateLifetime {
    /// A predicate on a lifetime: `'a: 'b + 'c`.
    fn parse(cur: Cursor) -> (r: Result<(PredicateLifetime, Cursor), Failure>)
        requires
            lifetime_predicate_at(cur.rest()),
        ensures
            agrees(r, lifetime_predicate(cur.rest())),
    {
        let lifetime = cur.copy(2);
        match parse_lifetime_bounds(cur.advance(3)) {
            Ok((bounds, behind)) => Ok((PredicateLifetime { lifetime, bounds }, behind)),
            Err(failure) => Err(failure),
        }
    }
}

impl PredicateType {
    /// A predicate on a type: `for<'c> Foo<'c>: Trait<'c>`.
    pub fn parse(cur: Cursor) -> (r: Result<(PredicateType, Cursor), Failure>)
        ensures
            agrees(r, type_predicate(cur.rest())),
    {
        let (lifetimes, cur) = match parse_optional_bound_lifetimes(cur) {
            Ok(found) => found,
            Err(failure) => return Err(failure),
        };
        let (ty, cur) = match parse_type(cur) {
            Ok(found) => found,
            Err(failure) => return Err(failure),
        };
        if !cur.punct_at(0, ':') {
            return Err(cur.unexpected(Expected::Colon));
        }
        match parse_bounds(cur.advance(1), BoundContext::Predicate) {
            Ok((bounds, cur)) => Ok(
                (PredicateType { lifetimes, bounded_ty: ty.tokens, bounds }, cur),
            ),
            Err(failure) => Err(failure),
        }
    }
}

impl WherePredicate {
    /// One predicate of a `where` clause: on a lifetime where a lifetime and
    /// a colon come next, else on a type.
    pub fn parse(cur: Cursor) -> (r: Result<(WherePredicate, Cursor), Failure>)
        ensures
            agrees(r, where_predicate(cur.rest())),
    {
        if cur.lifetime_at(0) && cur.punct_at(2, ':') {
            match PredicateLifetime::parse(cur) {
                Ok((predicate, cur)) => Ok((WherePredicate::Lifetime(predicate), cur)),
                Err(failure) => Err(failure),
            }
        } else {
            match PredicateType::parse(cur) {
                Ok((predicate, cur)) => Ok((WherePredicate::Type(predicate), cur)),
                Err(failure) => Err(failure),
            }
        }
    }
}

/// The predicates at the front of `input`, behind the predicates `found`
/// that were read before: predicates with `,` between them. The list ends
/// where a list of bounds in a predicate would end.
pub open spec fn predicates_behind(
    input: Seq<Tok>,
    found: Seq<WherePredicateView>,
) -> Parsed<Seq<WherePredicateView>>
    decreases input.len(),
{
    if bounds_end(input, BoundContext::Predicate) {
        Ok((found, input))
    } else {
        match where_predicate(input) {
            Err(fail) => Err(fail),
            Ok((next, rest)) => if punct_at(rest, 0, ',') {
                proof {
                    lemma_where_predicate_advances(input);
                }
                predicates_behind(rest.skip(1), found.push(next))
            } else {
                Ok((found.push(next), rest))
            },
        }
    }
}

/// The predicates never yield more tokens than they were given.
pub proof fn lemma_predicates_within(input: Seq<Tok>, found: Seq<WherePredicateView>)
    ensures
        within(predicates_behind(input, found), input),
    decreases input.len(),
{
    if !bounds_end(input, BoundContext::Predicate) {
        lemma_where_predicate_advances(input);
        match where_predicate(input) {
            Err(fail) => {},
            Ok((next, rest)) => {
                if punct_at(rest, 0, ',') {
                    lemma_predicates_within(rest.skip(1), found.push(next));
                }
            },
        }
    }
}

/// The predicates fail only because something expected is not there.
pub proof fn lemma_predicates_fail_by_expectation(
    input: Seq<Tok>,
    found: Seq<WherePredicateView>,
)
    ensures
        fails_by_expectation(predicates_behind(input, found)),
    decreases input.len(),
{
    if !bounds_end(input, BoundContext::Predicate) {
        lemma_where_predicate_advances(input);
        if lifetime_predicate_at(input) {
            lemma_lifetime_bounds_fail_by_expectation(input.skip(3), Seq::empty());
        } else {
            match optional_bound_lifetimes(input) {
                Err(fail) => {},
                Ok((lifetimes, behind_binder)) => match type_node(behind_binder) {
                    Err(fail) => {},
                    Ok((ty, behind_type)) => {
                        if punct_at(behind_type, 0, ':') {
                            lemma_bounds_fail_by_expectation(
                                behind_type.skip(1),
                                BoundContext::Predicate,
                                Seq::empty(),
                            );
                        }
                    },
                },
            }
        }
        match where_predicate(input) {
            Err(fail) => {},
            Ok((next, rest)) => {
                if punct_at(rest, 0, ',') {
                    lemma_predicates_fail_by_expectation(rest.skip(1), found.push(next));
                }
            },
        }
    }
}

/// A `where` clause at the front of `input`.
pub open spec fn where_clause(input: Seq<Tok>) -> Parsed<WhereClauseView> {
    if !word_at(input, 0, "where"@) {
        Err(unexpected(Expected::Where, input.len()))
    } else {
        match predicates_behind(input.skip(1), Seq::empty()) {
            Err(fail) => Err(fail),
            Ok((predicates, rest)) => Ok((WhereClauseView { predicates }, rest)),
        }
    }
}

/// The `where` clause at the front of `input`, where `where` stands there.
pub open spec fn optional_where_clause(input: Seq<Tok>) -> Parsed<Option<WhereClauseView>> {
    if word_at(input, 0, "where"@) {
        match where_clause(input) {
            Err(fail) => Err(fail),
            Ok((clause, rest)) => Ok((Some(clause), rest)),
        }
    } else {
        Ok((None, input))
    }
}

/// The `where` clause never yields more tokens than it was given.
pub proof fn lemma_optional_where_clause_within(input: Seq<Tok>)
    ensures
        within(optional_where_clause(input), input),
{
    if word_at(input, 0, "where"@) {
        lemma_predicates_within(input.skip(1), Seq::empty());
    }
}

impl WhereClause {
    /// A `where` clause, its predicates in the order in which they stand.
    pub fn parse(cur: Cursor) -> (r: Result<(WhereClause, Cursor), Failure>)
        ensures
            agrees(r, where_clause(cur.rest())),
    {
        if !cur.word_at(0, "where") {
            return Err(cur.unexpected(Expected::Where));
        }
        let mut at = cur.advance(1);
        let mut predicates: Vec<WherePredicate> = Vec::new();
        assert(predicates.deep_view() == Seq::<WherePredicateView>::empty());
        loop
            invariant
                word_at(cur.rest(), 0, "where"@),
                predicates_behind(at.rest(), predicates.deep_view()) == predicates_behind(
                    cur.rest().skip(1),
                    Seq::empty(),
                ),
            decreases at.rest().len(),
        {
            if at_bounds_end(&at, BoundContext::Predicate) {
                return Ok((WhereClause { predicates }, at));
            }
            proof {
                lemma_where_predicate_advances(at.rest());
            }
            let (next, behind) = match WherePredicate::parse(at) {
                Ok(parsed) => parsed,
                Err(failure) => return Err(failure),
            };
            let ghost before = predicates.deep_view();
            predicates.push(next);
            assert(predicates.deep_view() == before.push(next.deep_view()));
            if !behind.punct_at(0, ',') {
                return Ok((WhereClause { predicates }, behind));
            }
            at = behind.advance(1);
        }
    }

    /// The `where` clause, if `where` comes next.
    pub fn local_parse(cur: Cursor) -> (r: Result<(Option<WhereClause>, Cursor), Failure>)
        ensures
            agrees(r, optional_where_clause(cur.rest())),
    {
        if cur.word_at(0, "where") {
            match WhereClause::parse(cur) {
                Ok((clause, cur)) => Ok((Some(clause), cur)),
                Err(failure) => Err(failure),
            }
        } else {
            Ok((None, cur))
        }
    }
}

} // verus!
