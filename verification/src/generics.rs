//! The grammar of the generic parameter list: `<` parameters `>`, each a
//! lifetime, a type parameter with its bounds and default, or a constant.

use crate::bounds::{
    bounds, lemma_bounds_fail_by_expectation, lemma_bounds_within, parse_bounds, BoundContext,
};
use crate::cursor::{lifetime_at, name_at, punct_at, word_at, Cursor};
use crate::delegate::{
    advances, agrees, const_param, fails_by_expectation, lifetime_param, outer_attributes,
    parse_const_param, parse_lifetime_param, parse_outer_attributes, parse_type, type_node, within,
    Parsed,
};
use crate::error::{unexpected, Expected, Failure};
use crate::syntax::{
    AttributeView, BoundView, GenericParam, GenericParamView, Generics, GenericsView, OpaqueParam,
    OpaqueParamView, TypeParam, TypeParamBound, TypeParamView,
};
use crate::token::Tok;
use vstd::prelude::*;

verus! {

/// Whether the punctuation character `ch` comes next, and the tokens behind
/// it.
pub open spec fn optional_punct(input: Seq<Tok>, ch: char) -> (bool, Seq<Tok>) {
    if punct_at(input, 0, ch) {
        (true, input.skip(1))
    } else {
        (false, input)
    }
}

/// Reads the punctuation character `ch` if it comes next.
pub fn parse_optional_punct(cur: Cursor, ch: char) -> (r: (bool, Cursor))
    ensures
        (r.0, r.1.rest()) == optional_punct(cur.rest(), ch),
{
    if cur.punct_at(0, ch) {
        (true, cur.advance(1))
    } else {
        (false, cur)
    }
}

/// Whether the keyword `word` comes next, and the tokens behind it.
pub open spec fn optional_word(input: Seq<Tok>, word: Seq<char>) -> (bool, Seq<Tok>) {
    if word_at(input, 0, word) {
        (true, input.skip(1))
    } else {
        (false, input)
    }
}

/// Reads the keyword `word` if it comes next.
pub fn parse_optional_word(cur: Cursor, word: &str) -> (r: (bool, Cursor))
    ensures
        (r.0, r.1.rest()) == optional_word(cur.rest(), word@),
{
    if cur.word_at(0, word) {
        (true, cur.advance(1))
    } else {
        (false, cur)
    }
}

/// The bounds of a type parameter: a list where a colon came before, none
/// where it did not.
pub open spec fn param_bounds(input: Seq<Tok>, colon: bool) -> Parsed<Seq<BoundView>> {
    if colon {
        bounds(input, BoundContext::TypeParam)
    } else {
        Ok((Seq::empty(), input))
    }
}

/// The default of a type parameter: `=` and a type, or nothing.
pub open spec fn param_default(input: Seq<Tok>) -> Parsed<Option<Seq<Tok>>> {
    if punct_at(input, 0, '=') {
        match type_node(input.skip(1)) {
            Err(fail) => Err(fail),
            Ok((ty, rest)) => Ok((Some(ty.tokens), rest)),
        }
    } else {
        Ok((None, input))
    }
}

/// A type parameter at the front of `input`: attributes, a name, then
/// optionally a colon with bounds, then optionally `=` with a default.
pub open spec fn type_param(input: Seq<Tok>) -> Parsed<TypeParamView> {
    match outer_attributes(input) {
        Err(fail) => Err(fail),
        Ok((attrs, behind_attrs)) => if !name_at(behind_attrs, 0) {
            Err(unexpected(Expected::Identifier, behind_attrs.len()))
        } else {
            let (colon_token, behind_colon) = optional_punct(behind_attrs.skip(1), ':');
            match param_bounds(behind_colon, colon_token) {
                Err(fail) => Err(fail),
                Ok((bounds, behind_bounds)) => match param_default(behind_bounds) {
                    Err(fail) => Err(fail),
                    Ok((default, rest)) => Ok(
                        (
                            TypeParamView {
                                attrs,
                                ident: behind_attrs[0],
                                colon_token,
                                bounds,
                                default,
                            },
                            rest,
                        ),
                    ),
                },
            }
        }
    }
}

/// A type parameter takes at least one token.
pub proof fn lemma_type_param_advances(input: Seq<Tok>)
    ensures
        advances(type_param(input), input),
{
    match outer_attributes(input) {
        Err(fail) => {},
        Ok((attrs, behind_attrs)) => {
            if name_at(behind_attrs, 0) {
                let (colon_token, behind_colon) = optional_punct(behind_attrs.skip(1), ':');
                lemma_bounds_within(behind_colon, BoundContext::TypeParam, Seq::empty());
            }
        },
    }
}

impl TypeParam {
    /// A type parameter.
    pub fn parse(cur: Cursor) -> (r: Result<(TypeParam, Cursor), Failure>)
        ensures
            agrees(r, type_param(cur.rest())),
    {
        let (attrs, cur) = match parse_outer_attributes(cur) {
            Ok(found) => found,
            Err(failure) => return Err(failure),
        };
        if !cur.name_at(0) {
            return Err(cur.unexpected(Expected::Identifier));
        }
        let (ident, cur) = cur.take();
        let (colon_token, cur) = parse_optional_punct(cur, ':');
        let (bounds, cur) = if colon_token {
            match parse_bounds(cur, BoundContext::TypeParam) {
                Ok(found) => found,
                Err(failure) => return Err(failure),
            }
        } else {
            let none: Vec<TypeParamBound> = Vec::new();
            assert(none.deep_view() == Seq::<BoundView>::empty());
            (none, cur)
        };
        let (default, cur) = if cur.punct_at(0, '=') {
            match parse_type(cur.advance(1)) {
                Ok((ty, cur)) => (Some(ty.tokens), cur),
                Err(failure) => return Err(failure),
            }
        } else {
            (None, cur)
        };
        Ok((TypeParam { attrs, ident, colon_token, bounds, default }, cur))
    }
}

/// A type parameter that is only `_`, with the attributes in front of it.
pub open spec fn anonymous_param(attrs: Seq<AttributeView>, ident: Tok) -> TypeParamView {
    TypeParamView { attrs, ident, colon_token: false, bounds: Seq::empty(), default: None }
}

/// What follows the attributes of a generic parameter: a lifetime makes it a
/// lifetime parameter, a name a type parameter, `const` a const parameter,
/// `_` an anonymous type parameter. Anything else is refused.
pub open spec fn generic_param_behind(
    input: Seq<Tok>,
    attrs: Seq<AttributeView>,
) -> Parsed<GenericParamView> {
    if lifetime_at(input, 0) {
        match lifetime_param(input) {
            Err(fail) => Err(fail),
            Ok((tokens, rest)) => Ok(
                (GenericParamView::Lifetime(OpaqueParamView { attrs, tokens }), rest),
            ),
        }
    } else if name_at(input, 0) {
        match type_param(input) {
            Err(fail) => Err(fail),
            Ok((param, rest)) => Ok(
                (GenericParamView::Type(TypeParamView { attrs, ..param }), rest),
            ),
        }
    } else if word_at(input, 0, "const"@) {
        match const_param(input) {
            Err(fail) => Err(fail),
            Ok((tokens, rest)) => Ok(
                (GenericParamView::Const(OpaqueParamView { attrs, tokens }), rest),
            ),
        }
    } else if word_at(input, 0, "_"@) {
        Ok((GenericParamView::Type(anonymous_param(attrs, input[0])), input.skip(1)))
    } else {
        Err(unexpected(Expected::GenericParam, input.len()))
    }
}

/// One generic parameter at the front of `input`.
pub open spec fn generic_param(input: Seq<Tok>) -> Parsed<GenericParamView> {
    match outer_attributes(input) {
        Err(fail) => Err(fail),
        Ok((attrs, behind_attrs)) => generic_param_behind(behind_attrs, attrs),
    }
}

/// A generic parameter takes at least one token.
pub proof fn lemma_generic_param_advances(input: Seq<Tok>)
    ensures
        advances(generic_param(input), input),
{
    match outer_attributes(input) {
        Err(fail) => {},
        Ok((attrs, behind_attrs)) => {
            lemma_type_param_advances(behind_attrs);
        },
    }
}

impl GenericParam {
    /// One generic parameter.
    pub fn parse(cur: Cursor) -> (r: Result<(GenericParam, Cursor), Failure>)
        ensures
            agrees(r, generic_param(cur.rest())),
    {
        let (attrs, cur) = match parse_outer_attributes(cur) {
            Ok(found) => found,
            Err(failure) => return Err(failure),
        };
        if cur.lifetime_at(0) {
            match parse_lifetime_param(cur) {
                Ok((tokens, cur)) => Ok(
                    (GenericParam::Lifetime(OpaqueParam { attrs, tokens }), cur),
                ),
                Err(failure) => Err(failure),
            }
        } else if cur.name_at(0) {
            match TypeParam::parse(cur) {
                Ok((param, cur)) => {
                    let TypeParam { attrs: _, ident, colon_token, bounds, default } = param;
                    let param = TypeParam { attrs, ident, colon_token, bounds, default };
                    Ok((GenericParam::Type(param), cur))
                },
                Err(failure) => Err(failure),
            }
        } else if cur.word_at(0, "const") {
            match parse_const_param(cur) {
                Ok((tokens, cur)) => Ok((GenericParam::Const(OpaqueParam { attrs, tokens }), cur)),
                Err(failure) => Err(failure),
            }
        } else if cur.word_at(0, "_") {
            let (ident, cur) = cur.take();
            let bounds: Vec<TypeParamBound> = Vec::new();
            assert(bounds.deep_view() == Seq::<BoundView>::empty());
            let param = TypeParam { attrs, ident, colon_token: false, bounds, default: None };
            Ok((GenericParam::Type(param), cur))
        } else {
            Err(cur.unexpected(Expected::GenericParam))
        }
    }
}

/// The generic parameters at the front of `input`, behind the parameters
/// `found` that were read before: parameters with `,` between them, up to
/// `>`. A comma may stand behind the last one.
pub open spec fn generic_params_behind(
    input: Seq<Tok>,
    found: Seq<GenericParamView>,
) -> Parsed<Seq<GenericParamView>>
    decreases input.len(),
{
    if punct_at(input, 0, '>') {
        Ok((found, input))
    } else {
        match generic_param(input) {
            Err(fail) => Err(fail),
            Ok((next, rest)) => if punct_at(rest, 0, '>') {
                Ok((found.push(next), rest))
            } else if punct_at(rest, 0, ',') {
                proof {
                    lemma_generic_param_advances(input);
                }
                generic_params_behind(rest.skip(1), found.push(next))
            } else {
                Err(unexpected(Expected::Comma, rest.len()))
            },
        }
    }
}

/// The parameter list leaves `>` as its next token, and never more tokens
/// than it was given.
pub proof fn lemma_generic_params_within(input: Seq<Tok>, found: Seq<GenericParamView>)
    ensures
        within(generic_params_behind(input, found), input),
        generic_params_behind(input, found) matches Ok((_, rest)) ==> punct_at(rest, 0, '>'),
    decreases input.len(),
{
    if !punct_at(input, 0, '>') {
        lemma_generic_param_advances(input);
        match generic_param(input) {
            Err(fail) => {},
            Ok((next, rest)) => {
                if !punct_at(rest, 0, '>') && punct_at(rest, 0, ',') {
                    lemma_generic_params_within(rest.skip(1), found.push(next));
                }
            },
        }
    }
}

/// The parameter list fails only because something expected is not there.
pub proof fn lemma_generic_params_fail_by_expectation(
    input: Seq<Tok>,
    found: Seq<GenericParamView>,
)
    ensures
        fails_by_expectation(generic_params_behind(input, found)),
    decreases input.len(),
{
    if !punct_at(input, 0, '>') {
        lemma_generic_param_advances(input);
        match outer_attributes(input) {
            Err(fail) => {},
            Ok((attrs, behind_attrs)) => {
                if name_at(behind_attrs, 0) && !lifetime_at(behind_attrs, 0) {
                    match outer_attributes(behind_attrs) {
                        Err(fail) => {},
                        Ok((_, behind)) => {
                            let (colon, behind_colon) = optional_punct(behind.skip(1), ':');
                            lemma_bounds_fail_by_expectation(
                                behind_colon,
                                BoundContext::TypeParam,
                                Seq::empty(),
                            );
                        },
                    }
                }
            },
        }
        match generic_param(input) {
            Err(fail) => {},
            Ok((next, rest)) => {
                if !punct_at(rest, 0, '>') && punct_at(rest, 0, ',') {
                    lemma_generic_params_fail_by_expectation(rest.skip(1), found.push(next));
                }
            },
        }
    }
}

/// No generic parameters and no `where` clause.
pub open spec fn no_generics() -> GenericsView {
    GenericsView { params: Seq::empty(), where_clause: None }
}

/// The generic parameter list at the front of `input`: nothing where no `<`
/// stands there, else `<`, the parameters and `>`.
pub open spec fn generics(input: Seq<Tok>) -> Parsed<GenericsView> {
    if !punct_at(input, 0, '<') {
        Ok((no_generics(), input))
    } else {
        match generic_params_behind(input.skip(1), Seq::empty()) {
            Err(fail) => Err(fail),
            Ok((params, rest)) => Ok((GenericsView { params, where_clause: None }, rest.skip(1))),
        }
    }
}

/// The generic parameter list never yields more tokens than it was given.
pub proof fn lemma_generics_within(input: Seq<Tok>)
    ensures
        within(generics(input), input),
{
    if punct_at(input, 0, '<') {
        lemma_generic_params_within(input.skip(1), Seq::empty());
    }
}

impl Default for Generics {
    /// No generic parameters and no `where` clause.
    fn default() -> (r: Generics)
        ensures
            r.deep_view() == no_generics(),
    {
        let params: Vec<GenericParam> = Vec::new();
        assert(params.deep_view() == Seq::<GenericParamView>::empty());
        Generics { params, where_clause: None }
    }
}

impl Generics {
    /// A generic parameter list, in the order in which the parameters stand.
    pub fn parse(cur: Cursor) -> (r: Result<(Generics, Cursor), Failure>)
        ensures
            agrees(r, generics(cur.rest())),
    {
        if !cur.punct_at(0, '<') {
            return Ok((Generics::default(), cur));
        }
        let ghost start = cur.rest().skip(1);
        let mut at = cur.advance(1);
        let mut params: Vec<GenericParam> = Vec::new();
        assert(params.deep_view() == Seq::<GenericParamView>::empty());
        loop
            invariant_except_break
                generic_params_behind(at.rest(), params.deep_view()) == generic_params_behind(
                    start,
                    Seq::empty(),
                ),
            invariant
                punct_at(cur.rest(), 0, '<'),
                start == cur.rest().skip(1),
            ensures
                generic_params_behind(start, Seq::empty()) == Ok::<
                    (Seq<GenericParamView>, Seq<Tok>),
                    crate::error::Fail,
                >((params.deep_view(), at.rest())),
                punct_at(at.rest(), 0, '>'),
            decreases at.rest().len(),
        {
            if at.punct_at(0, '>') {
                break ;
            }
            proof {
                lemma_generic_param_advances(at.rest());
            }
            let (next, behind) = match GenericParam::parse(at) {
                Ok(parsed) => parsed,
                Err(failure) => return Err(failure),
            };
            let ghost before = params.deep_view();
            params.push(next);
            assert(params.deep_view() == before.push(next.deep_view()));
            if behind.punct_at(0, '>') {
                at = behind;
                break ;
            }
            if !behind.punct_at(0, ',') {
                return Err(behind.unexpected(Expected::Comma));
            }
            at = behind.advance(1);
        }
        Ok((Generics { params, where_clause: None }, at.advance(1)))
    }
}

} // verus!
