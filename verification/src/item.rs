//! The grammar of the whole block: its header, the trait it implements, the
//! type it implements it for, the `where` clause and the body.

use crate::cursor::{group_at, lifetime_at, name_at, next_at, punct_at, word_at, Cursor};
use crate::delegate::{
    agrees, classify_type, fails_by_expectation, impl_item, mod_style_path, outer_attributes,
    parse_impl_item, parse_mod_style_path, parse_outer_attributes, parse_type, type_node,
    whole_type_kind, within, Parsed, TypeKind, TypeNodeView,
};
use crate::error::{unexpected, Expected, Fail, Failure, ParseError, Problem};
use crate::generics::{
    generics, lemma_generic_params_fail_by_expectation, lemma_generics_within, no_generics,
    optional_word, parse_optional_word,
};
use crate::predicates::{
    lemma_optional_where_clause_within, lemma_predicates_fail_by_expectation, optional_where_clause,
};
use crate::syntax::{
    Attribute, AttributeView, Generics, GenericsView, ItemConstImpl, ItemView, TraitRef,
    TraitRefView, WhereClause,
};
use crate::token::{fresh, inside, lexable, Delimiter, Shape, Tok, Token};
use vstd::prelude::*;

verus! {

/// One of `:`, `,`, `>` and `=` stands at `at`: what may follow the name of
/// a generic parameter.
pub open spec fn param_name_ends_at(input: Seq<Tok>, at: int) -> bool {
    punct_at(input, at, ':') || punct_at(input, at, ',') || punct_at(input, at, '>') || punct_at(
        input,
        at,
        '=',
    )
}

/// A generic parameter list begins at the front of `input`: `<`, and then
/// `>`, `#`, `const`, or a name or lifetime with `:`, `,`, `>` or `=` behind
/// it. Any other `<` begins something else, a qualified path for one.
pub open spec fn generics_start_at(input: Seq<Tok>) -> bool {
    &&& punct_at(input, 0, '<')
    &&& {
        ||| punct_at(input, 1, '>')
        ||| punct_at(input, 1, '#')
        ||| word_at(input, 1, "const"@)
        ||| (name_at(input, 1) || lifetime_at(input, 1)) && param_name_ends_at(
            input,
            next_at(input, 1),
        )
    }
}

/// Whether a generic parameter list begins at the cursor.
pub fn at_generics_start(cur: &Cursor) -> (r: bool)
    ensures
        r == generics_start_at(cur.rest()),
{
    if !cur.punct_at(0, '<') {
        return false;
    }
    if cur.punct_at(1, '>') || cur.punct_at(1, '#') || cur.word_at(1, "const") {
        return true;
    }
    if cur.name_at(1) || cur.lifetime_at(1) {
        let third = cur.next_at(1);
        cur.punct_at(third, ':') || cur.punct_at(third, ',') || cur.punct_at(third, '>')
            || cur.punct_at(third, '=')
    } else {
        false
    }
}

/// The path of the trait that a type in front of `for` names: the type
/// itself where it is a plain path; what is inside where it is a type in an
/// invisible group, any number of times; nothing for any other type.
pub open spec fn trait_path(tokens: Seq<Tok>, kind: TypeKind) -> Option<Seq<Tok>>
    decreases tokens,
{
    match kind {
        TypeKind::BarePath => Some(tokens),
        TypeKind::Other => None,
        TypeKind::Group => if tokens.len() == 1 && group_at(tokens, 0, Delimiter::Invisible)
            && lexable(inside(tokens[0])) {
            match whole_type_kind(inside(tokens[0])) {
                Some(kind) => trait_path(inside(tokens[0]), kind),
                None => None,
            }
        } else {
            None
        },
    }
}

/// Strips the invisible groups from around a type and hands back the plain
/// path inside, if that is what is there.
pub fn reduce_to_path(tokens: Vec<Token>, kind: TypeKind) -> (r: Option<Vec<Token>>)
    ensures
        r.deep_view() == trait_path(tokens.deep_view(), kind),
    decreases tokens.deep_view(),
{
    match kind {
        TypeKind::BarePath => Some(tokens),
        TypeKind::Other => None,
        TypeKind::Group => {
            if tokens.len() != 1 {
                return None;
            }
            let content = match tokens[0].shape() {
                Shape::Group(Delimiter::Invisible) => tokens[0].children(),
                _ => None,
            };
            match content {
                Some(content) => match classify_type(&content) {
                    Some(kind) => reduce_to_path(content, kind),
                    None => None,
                },
                None => None,
            }
        },
    }
}

/// An inner attribute begins at the front of `input`: `#` and then `!`.
pub open spec fn inner_attribute_at(input: Seq<Tok>) -> bool {
    punct_at(input, 0, '#') && punct_at(input, 1, '!')
}

/// The tokens of an inner attribute with the given path and the tokens behind
/// the path: `#`, `!`, and both in brackets.
pub open spec fn inner_attribute_tokens(path: Seq<Tok>, rest: Seq<Tok>) -> Seq<Tok> {
    seq![fresh('#'), fresh('!'), Tok::Group(Delimiter::Bracket, path + rest)]
}

/// An inner attribute at the front of `input`: `#`, `!`, and in brackets a
/// path and any tokens. A problem inside the brackets is reported at the
/// brackets.
pub open spec fn inner_attribute(input: Seq<Tok>) -> Parsed<AttributeView> {
    if !punct_at(input, 0, '#') {
        Err(unexpected(Expected::Pound, input.len()))
    } else if !punct_at(input, 1, '!') {
        Err(unexpected(Expected::Bang, (input.len() - 1) as nat))
    } else if !group_at(input, 2, Delimiter::Bracket) {
        Err(unexpected(Expected::Bracket, (input.len() - 2) as nat))
    } else if !lexable(inside(input[2])) {
        Err(unexpected(Expected::UnsignedLiteral, (input.len() - 2) as nat))
    } else {
        match mod_style_path(inside(input[2])) {
            Err(fail) => Err(Fail { problem: fail.problem, remaining: (input.len() - 2) as nat }),
            Ok((path, rest)) => Ok(
                (
                    AttributeView { inner: true, tokens: inner_attribute_tokens(path, rest) },
                    input.skip(3),
                ),
            ),
        }
    }
}

/// One inner attribute: `#![...]`.
pub fn single_parse_inner(cur: Cursor) -> (r: Result<(Attribute, Cursor), Failure>)
    ensures
        agrees(r, inner_attribute(cur.rest())),
{
    if !cur.punct_at(0, '#') {
        return Err(cur.unexpected(Expected::Pound));
    }
    if !cur.punct_at(1, '!') {
        return Err(cur.advance(1).unexpected(Expected::Bang));
    }
    let ghost start = cur.rest();
    let behind_bang = cur.advance(2);
    if !behind_bang.group_at(0, Delimiter::Bracket) {
        return Err(behind_bang.unexpected(Expected::Bracket));
    }
    let content = match behind_bang.token(0) {
        Some(group) => group.children(),
        None => None,
    };
    let content = match content {
        Some(content) => content,
        None => return Err(behind_bang.unexpected(Expected::UnsignedLiteral)),
    };
    match parse_mod_style_path(Cursor::new(content)) {
        Ok((path, behind_path)) => {
            let mut inner = path;
            let mut rest = behind_path.copy(behind_path.remaining());
            let ghost front = inner.deep_view();
            let ghost back = rest.deep_view();
            assert(back == behind_path.rest());
            inner.append(&mut rest);
            assert(inner.deep_view() == front + back);
            let mut tokens: Vec<Token> = Vec::new();
            tokens.push(Token::punct('#'));
            tokens.push(Token::punct('!'));
            tokens.push(Token::group(Delimiter::Bracket, &inner));
            assert(tokens.deep_view() == inner_attribute_tokens(front, back));
            let behind = behind_bang.advance(1);
            assert(behind.rest() == start.skip(3));
            Ok((Attribute { inner: true, tokens }, behind))
        },
        Err(failure) => Err(
            Failure { problem: failure.problem, remaining: behind_bang.remaining() },
        ),
    }
}

/// The inner attributes at the front of `input`, added to the attributes
/// `found`.
pub open spec fn inner_attributes_behind(input: Seq<Tok>, found: Seq<AttributeView>) -> Parsed<
    Seq<AttributeView>,
>
    decreases input.len(),
{
    if inner_attribute_at(input) {
        match inner_attribute(input) {
            Err(fail) => Err(fail),
            Ok((next, rest)) => inner_attributes_behind(rest, found.push(next)),
        }
    } else {
        Ok((found, input))
    }
}

/// Reads the inner attributes at the cursor and adds them to `attrs`.
pub fn parse_inner(cur: Cursor, attrs: &mut Vec<Attribute>) -> (r: Result<Cursor, Failure>)
    ensures
        match r {
            Ok(behind) => inner_attributes_behind(cur.rest(), old(attrs).deep_view()) == Ok::<
                (Seq<AttributeView>, Seq<Tok>),
                Fail,
            >((final(attrs).deep_view(), behind.rest())),
            Err(failure) => inner_attributes_behind(cur.rest(), old(attrs).deep_view()) == Err::<
                (Seq<AttributeView>, Seq<Tok>),
                Fail,
            >(failure.deep_view()),
        },
{
    let mut at = cur;
    while at.punct_at(0, '#') && at.punct_at(1, '!')
        invariant
            inner_attributes_behind(at.rest(), attrs.deep_view()) == inner_attributes_behind(
                cur.rest(),
                old(attrs).deep_view(),
            ),
        decreases at.rest().len(),
    {
        let (next, behind) = match single_parse_inner(at) {
            Ok(parsed) => parsed,
            Err(failure) => return Err(failure),
        };
        let ghost before = attrs.deep_view();
        attrs.push(next);
        assert(attrs.deep_view() == before.push(next.deep_view()));
        at = behind;
    }
    Ok(at)
}

/// The associated items at the front of `input`, behind the items `found`
/// that were read before: items up to the end of the tokens.
pub open spec fn items_behind(input: Seq<Tok>, found: Seq<Seq<Tok>>) -> Parsed<Seq<Seq<Tok>>>
    decreases input.len(),
{
    if input.len() == 0 {
        Ok((found, input))
    } else {
        match impl_item(input) {
            Err(fail) => Err(fail),
            Ok((next, rest)) => items_behind(rest, found.push(next)),
        }
    }
}

/// The associated items of a block, in the order in which they stand.
pub fn parse_items(cur: Cursor) -> (r: Result<(Vec<Vec<Token>>, Cursor), Failure>)
    ensures
        agrees(r, items_behind(cur.rest(), Seq::empty())),
{
    let mut at = cur;
    let mut items: Vec<Vec<Token>> = Vec::new();
    assert(items.deep_view() == Seq::<Seq<Tok>>::empty());
    while at.remaining() > 0
        invariant
            items_behind(at.rest(), items.deep_view()) == items_behind(cur.rest(), Seq::empty()),
        decreases at.rest().len(),
    {
        let (next, behind) = match parse_impl_item(at) {
            Ok(parsed) => parsed,
            Err(failure) => return Err(failure),
        };
        let ghost before = items.deep_view();
        items.push(next);
        assert(items.deep_view() == before.push(next.deep_view()));
        at = behind;
    }
    Ok((items, at))
}

/// What stands inside the braces of a block: the inner attributes, added to
/// the attributes `attrs` from in front of the block, and the items.
pub open spec fn body(content: Seq<Tok>, attrs: Seq<AttributeView>) -> Result<
    (Seq<AttributeView>, Seq<Seq<Tok>>),
    Problem,
> {
    match inner_attributes_behind(content, attrs) {
        Err(fail) => Err(fail.problem),
        Ok((attrs, behind_attrs)) => match items_behind(behind_attrs, Seq::empty()) {
            Err(fail) => Err(fail.problem),
            Ok((items, _)) => Ok((attrs, items)),
        },
    }
}

/// The block in braces at the front of `input`, with the attributes `attrs`
/// from in front of the header. A problem inside the braces is reported at
/// the braces.
pub open spec fn block(input: Seq<Tok>, attrs: Seq<AttributeView>) -> Parsed<
    (Seq<AttributeView>, Seq<Seq<Tok>>),
> {
    if !group_at(input, 0, Delimiter::Brace) {
        Err(unexpected(Expected::Body, input.len()))
    } else if !lexable(inside(input[0])) {
        Err(unexpected(Expected::UnsignedLiteral, input.len()))
    } else {
        match body(inside(input[0]), attrs) {
            Err(problem) => Err(Fail { problem, remaining: input.len() }),
            Ok(found) => Ok((found, input.skip(1))),
        }
    }
}

/// The block in braces: its inner attributes, added to `attrs`, and its
/// items.
pub fn parse_block(cur: Cursor, attrs: Vec<Attribute>) -> (r: Result<
    ((Vec<Attribute>, Vec<Vec<Token>>), Cursor),
    Failure,
>)
    ensures
        agrees(r, block(cur.rest(), attrs.deep_view())),
{
    if !cur.group_at(0, Delimiter::Brace) {
        return Err(cur.unexpected(Expected::Body));
    }
    let content = match cur.token(0) {
        Some(group) => group.children(),
        None => None,
    };
    let content = match content {
        Some(content) => content,
        None => return Err(cur.unexpected(Expected::UnsignedLiteral)),
    };
    let mut attrs = attrs;
    let behind_attrs = match parse_inner(Cursor::new(content), &mut attrs) {
        Ok(behind) => behind,
        Err(failure) => return Err(
            Failure { problem: failure.problem, remaining: cur.remaining() },
        ),
    };
    match parse_items(behind_attrs) {
        Ok((items, _)) => Ok(((attrs, items), cur.advance(1))),
        Err(failure) => Err(Failure { problem: failure.problem, remaining: cur.remaining() }),
    }
}

/// The header of a block up to the trait: attributes, `default`, `unsafe`,
/// `impl`, the generic parameters, `const`.
#[derive(Debug)]
pub struct Header {
    pub attrs: Vec<Attribute>,
    pub defaultness: bool,
    pub unsafety: bool,
    pub generics: Generics,
    pub constness: bool,
}

/// The model of a `Header`.
pub struct HeaderView {
    pub attrs: Seq<AttributeView>,
    pub defaultness: bool,
    pub unsafety: bool,
    pub generics: GenericsView,
    pub constness: bool,
}

impl DeepView for Header {
    type V = HeaderView;

    open spec fn deep_view(&self) -> HeaderView {
        HeaderView {
            attrs: self.attrs.deep_view(),
            defaultness: self.defaultness,
            unsafety: self.unsafety,
            generics: self.generics.deep_view(),
            constness: self.constness,
        }
    }
}

/// The generic parameter list behind `impl`: parsed where one begins there,
/// else none.
pub open spec fn header_generics(input: Seq<Tok>) -> Parsed<GenericsView> {
    if generics_start_at(input) {
        generics(input)
    } else {
        Ok((no_generics(), input))
    }
}

/// The header at the front of `input`. The block's own `const`, where it has
/// one, stands directly behind the generic parameters.
pub open spec fn header(input: Seq<Tok>) -> Parsed<HeaderView> {
    match outer_attributes(input) {
        Err(fail) => Err(fail),
        Ok((attrs, behind_attrs)) => {
            let (defaultness, behind_default) = optional_word(behind_attrs, "default"@);
            let (unsafety, behind_unsafe) = optional_word(behind_default, "unsafe"@);
            if !word_at(behind_unsafe, 0, "impl"@) {
                Err(unexpected(Expected::Impl, behind_unsafe.len()))
            } else {
                match header_generics(behind_unsafe.skip(1)) {
                    Err(fail) => Err(fail),
                    Ok((generics, behind_generics)) => {
                        let (constness, rest) = optional_word(behind_generics, "const"@);
                        Ok((HeaderView { attrs, defaultness, unsafety, generics, constness }, rest))
                    },
                }
            }
        },
    }
}

/// The header never yields more tokens than it was given.
pub proof fn lemma_header_within(input: Seq<Tok>)
    ensures
        within(header(input), input),
{
    match outer_attributes(input) {
        Err(fail) => {},
        Ok((attrs, behind_attrs)) => {
            let (defaultness, behind_default) = optional_word(behind_attrs, "default"@);
            let (unsafety, behind_unsafe) = optional_word(behind_default, "unsafe"@);
            if word_at(behind_unsafe, 0, "impl"@) {
                lemma_generics_within(behind_unsafe.skip(1));
            }
        },
    }
}

/// The header of a block.
pub fn parse_header(cur: Cursor) -> (r: Result<(Header, Cursor), Failure>)
    ensures
        agrees(r, header(cur.rest())),
{
    let (attrs, cur) = match parse_outer_attributes(cur) {
        Ok(found) => found,
        Err(failure) => return Err(failure),
    };
    let (defaultness, cur) = parse_optional_word(cur, "default");
    let (unsafety, cur) = parse_optional_word(cur, "unsafe");
    if !cur.word_at(0, "impl") {
        return Err(cur.unexpected(Expected::Impl));
    }
    let cur = cur.advance(1);
    let (generics, cur) = if at_generics_start(&cur) {
        match Generics::parse(cur) {
            Ok(found) => found,
            Err(failure) => return Err(failure),
        }
    } else {
        (Generics::default(), cur)
    };
    let (constness, cur) = parse_optional_word(cur, "const");
    Ok((Header { attrs, defaultness, unsafety, generics, constness }, cur))
}

/// `!` marks the implementation as negative where it comes next and no block
/// in braces follows it.
pub open spec fn polarity(input: Seq<Tok>) -> (bool, Seq<Tok>) {
    if punct_at(input, 0, '!') && !group_at(input, 1, Delimiter::Brace) {
        (true, input.skip(1))
    } else {
        (false, input)
    }
}

/// The trait and the implementing type at the front of `input`: an optional
/// `!`, a type, `for`, and a type. Without `for` the block implements no
/// trait and is refused. The type in front of `for` must name a trait: be a
/// plain path, possibly inside invisible groups. That is looked at only when
/// `for` has been found, and a failure is reported where the type begins.
pub open spec fn trait_and_self(input: Seq<Tok>) -> Parsed<(TraitRefView, Seq<Tok>)> {
    let (negative, behind_polarity) = polarity(input);
    match type_node(behind_polarity) {
        Err(fail) => Err(fail),
        Ok((first, behind_first)) => if !word_at(behind_first, 0, "for"@) {
            Err(Fail { problem: Problem::MissingTraitKeyword, remaining: behind_first.len() })
        } else {
            match trait_path(first.tokens, first.kind) {
                None => Err(
                    Fail { problem: Problem::MissingTraitPath, remaining: behind_polarity.len() },
                ),
                Some(path) => match type_node(behind_first.skip(1)) {
                    Err(fail) => Err(fail),
                    Ok((self_ty, rest)) => Ok(
                        ((TraitRefView { negative, path }, self_ty.tokens), rest),
                    ),
                },
            }
        },
    }
}

/// The trait and the implementing type never yield more tokens than they
/// were given.
pub proof fn lemma_trait_and_self_within(input: Seq<Tok>)
    ensures
        within(trait_and_self(input), input),
{
}

/// The trait that the block implements, and the type it implements it for.
pub fn parse_trait_and_self(cur: Cursor) -> (r: Result<((TraitRef, Vec<Token>), Cursor), Failure>)
    ensures
        agrees(r, trait_and_self(cur.rest())),
{
    let (negative, behind_polarity) = if cur.punct_at(0, '!') && !cur.group_at(
        1,
        Delimiter::Brace,
    ) {
        (true, cur.advance(1))
    } else {
        (false, cur)
    };
    let first_position = behind_polarity.remaining();
    let (first, behind_first) = match parse_type(behind_polarity) {
        Ok(found) => found,
        Err(failure) => return Err(failure),
    };
    if !behind_first.word_at(0, "for") {
        return Err(
            Failure {
                problem: Problem::MissingTraitKeyword,
                remaining: behind_first.remaining(),
            },
        );
    }
    let behind_for = behind_first.advance(1);
    let path = match reduce_to_path(first.tokens, first.kind) {
        Some(path) => path,
        None => return Err(
            Failure { problem: Problem::MissingTraitPath, remaining: first_position },
        ),
    };
    match parse_type(behind_for) {
        Ok((self_ty, behind)) => Ok(((TraitRef { negative, path }, self_ty.tokens), behind)),
        Err(failure) => Err(failure),
    }
}

/// A trait implementation at the front of `input`: header, trait and type,
/// `where` clause, block.
pub open spec fn item(input: Seq<Tok>) -> Parsed<ItemView> {
    match header(input) {
        Err(fail) => Err(fail),
        Ok((head, behind_header)) => match trait_and_self(behind_header) {
            Err(fail) => Err(fail),
            Ok(((trait_, self_ty), behind_self)) => match optional_where_clause(behind_self) {
                Err(fail) => Err(fail),
                Ok((where_clause, behind_where)) => match block(behind_where, head.attrs) {
                    Err(fail) => Err(fail),
                    Ok(((attrs, items), rest)) => Ok(
                        (
                            ItemView {
                                attrs,
                                defaultness: head.defaultness,
                                unsafety: head.unsafety,
                                generics: GenericsView { where_clause, ..head.generics },
                                constness: head.constness,
                                trait_,
                                self_ty,
                                items,
                            },
                            rest,
                        ),
                    ),
                },
            },
        },
    }
}

/// A trait implementation never yields more tokens than it was given.
pub proof fn lemma_item_within(input: Seq<Tok>)
    ensures
        within(item(input), input),
{
    lemma_header_within(input);
    match header(input) {
        Err(fail) => {},
        Ok((head, behind_header)) => {
            lemma_trait_and_self_within(behind_header);
            match trait_and_self(behind_header) {
                Err(fail) => {},
                Ok(((trait_, self_ty), behind_self)) => {
                    lemma_optional_where_clause_within(behind_self);
                },
            }
        },
    }
}

/// What the tokens `input` are as a whole: the trait implementation that
/// they spell, or the error with the index of the token where parsing
/// stopped. Tokens behind the block are an error.
pub open spec fn parse_item(input: Seq<Tok>) -> Result<ItemView, ParseError> {
    match item(input) {
        Err(fail) => Err(ParseError::at(fail.problem, (input.len() - fail.remaining) as usize)),
        Ok((found, rest)) => if rest.len() == 0 {
            Ok(found)
        } else {
            Err(
                ParseError::UnexpectedToken {
                    expected: Expected::End,
                    position: (input.len() - rest.len()) as usize,
                },
            )
        },
    }
}

impl ItemConstImpl {
    /// A trait implementation at the cursor.
    pub fn parse(cur: Cursor) -> (r: Result<(ItemConstImpl, Cursor), Failure>)
        ensures
            agrees(r, item(cur.rest())),
    {
        let (head, cur) = match parse_header(cur) {
            Ok(found) => found,
            Err(failure) => return Err(failure),
        };
        let ((trait_, self_ty), cur) = match parse_trait_and_self(cur) {
            Ok(found) => found,
            Err(failure) => return Err(failure),
        };
        let (where_clause, cur) = match WhereClause::local_parse(cur) {
            Ok(found) => found,
            Err(failure) => return Err(failure),
        };
        let Header { attrs, defaultness, unsafety, generics, constness } = head;
        let ((attrs, items), cur) = match parse_block(cur, attrs) {
            Ok(found) => found,
            Err(failure) => return Err(failure),
        };
        let Generics { params, where_clause: _ } = generics;
        let generics = Generics { params, where_clause };
        Ok(
            (
                ItemConstImpl {
                    attrs,
                    defaultness,
                    unsafety,
                    generics,
                    constness,
                    trait_,
                    self_ty,
                    items,
                },
                cur,
            ),
        )
    }
}

/// Parses `tokens` as one trait implementation of the extended dialect.
pub fn parse(tokens: Vec<Token>) -> (r: Result<ItemConstImpl, ParseError>)
    ensures
        match r {
            Ok(found) => parse_item(tokens.deep_view()) == Ok::<ItemView, ParseError>(
                found.deep_view(),
            ),
            Err(error) => parse_item(tokens.deep_view()) == Err::<ItemView, ParseError>(error),
        },
{
    let total = tokens.len();
    proof {
        lemma_item_within(tokens.deep_view());
    }
    match ItemConstImpl::parse(Cursor::new(tokens)) {
        Ok((found, behind)) => if behind.remaining() == 0 {
            Ok(found)
        } else {
            Err(
                ParseError::UnexpectedToken {
                    expected: Expected::End,
                    position: total - behind.remaining(),
                },
            )
        },
        Err(failure) => Err(ParseError::new(failure.problem, total - failure.remaining)),
    }
}

/// The type that stands where the trait is expected, with the tokens from
/// that type on and the tokens behind it: `None` where the header or that
/// type cannot be parsed.
pub open spec fn candidate(input: Seq<Tok>) -> Option<(TypeNodeView, Seq<Tok>, Seq<Tok>)> {
    match header(input) {
        Err(_) => None,
        Ok((_, behind_header)) => match type_node(polarity(behind_header).1) {
            Err(_) => None,
            Ok((first, behind_first)) => Some((first, polarity(behind_header).1, behind_first)),
        },
    }
}

/// The inner attributes fail only because something expected is not there.
pub proof fn lemma_inner_attributes_fail_by_expectation(
    input: Seq<Tok>,
    found: Seq<AttributeView>,
)
    ensures
        fails_by_expectation(inner_attributes_behind(input, found)),
    decreases input.len(),
{
    if inner_attribute_at(input) {
        match inner_attribute(input) {
            Err(fail) => {},
            Ok((next, rest)) => {
                lemma_inner_attributes_fail_by_expectation(rest, found.push(next));
            },
        }
    }
}

/// The items fail only because something expected is not there.
pub proof fn lemma_items_fail_by_expectation(input: Seq<Tok>, found: Seq<Seq<Tok>>)
    ensures
        fails_by_expectation(items_behind(input, found)),
    decreases input.len(),
{
    if input.len() > 0 {
        match impl_item(input) {
            Err(fail) => {},
            Ok((next, rest)) => {
                lemma_items_fail_by_expectation(rest, found.push(next));
            },
        }
    }
}

/// The header fails only because something expected is not there.
pub proof fn lemma_header_fails_by_expectation(input: Seq<Tok>)
    ensures
        fails_by_expectation(header(input)),
{
    match outer_attributes(input) {
        Err(fail) => {},
        Ok((attrs, behind_attrs)) => {
            let (defaultness, behind_default) = optional_word(behind_attrs, "default"@);
            let (unsafety, behind_unsafe) = optional_word(behind_default, "unsafe"@);
            if word_at(behind_unsafe, 0, "impl"@) {
                let behind_impl = behind_unsafe.skip(1);
                if generics_start_at(behind_impl) {
                    lemma_generic_params_fail_by_expectation(behind_impl.skip(1), Seq::empty());
                }
            }
        },
    }
}

/// The block fails only because something expected is not there.
pub proof fn lemma_block_fails_by_expectation(input: Seq<Tok>, attrs: Seq<AttributeView>)
    ensures
        fails_by_expectation(block(input, attrs)),
{
    if group_at(input, 0, Delimiter::Brace) && lexable(inside(input[0])) {
        let content = inside(input[0]);
        lemma_inner_attributes_fail_by_expectation(content, attrs);
        match inner_attributes_behind(content, attrs) {
            Err(fail) => {},
            Ok((found, behind)) => {
                lemma_items_fail_by_expectation(behind, Seq::empty());
            },
        }
    }
}

/// The inherent form, and nothing else, is refused as such: the error is
/// `MissingTraitKeyword` exactly where the header and the type behind it can
/// be parsed and no `for` follows that type. The error stands at the token
/// behind the type.
pub proof fn lemma_inherent_form_refused(input: Seq<Tok>)
    ensures
        parse_item(input) is Err && parse_item(input)->Err_0 is MissingTraitKeyword <==> (
        candidate(input) matches Some((_, _, behind)) && !word_at(behind, 0, "for"@)),
        candidate(input) matches Some((_, _, behind)) ==> (!word_at(behind, 0, "for"@)
            ==> parse_item(input) == Err::<ItemView, ParseError>(
            ParseError::MissingTraitKeyword { position: (input.len() - behind.len()) as usize },
        )),
{
    lemma_header_fails_by_expectation(input);
    match header(input) {
        Err(fail) => {},
        Ok((head, behind_header)) => {
            match trait_and_self(behind_header) {
                Err(fail) => {},
                Ok(((trait_, self_ty), behind_self)) => {
                    lemma_predicates_fail_by_expectation(behind_self.skip(1), Seq::empty());
                    match optional_where_clause(behind_self) {
                        Err(fail) => {},
                        Ok((where_clause, behind_where)) => {
                            lemma_block_fails_by_expectation(behind_where, head.attrs);
                        },
                    }
                },
            }
        },
    }
}

/// A trait that is no plain path, and nothing else, is refused as such: the
/// error is `MissingTraitPath` exactly where the header and the type behind
/// it can be parsed, `for` follows that type, and the type is no plain path
/// even without the invisible groups around it. The error stands at the
/// token with which the type begins.
pub proof fn lemma_trait_must_be_path(input: Seq<Tok>)
    ensures
        parse_item(input) is Err && parse_item(input)->Err_0 is MissingTraitPath <==> (
        candidate(input) matches Some((first, _, behind)) && word_at(behind, 0, "for"@)
            && trait_path(first.tokens, first.kind) is None),
        candidate(input) matches Some((first, from, behind)) ==> (word_at(behind, 0, "for"@)
            && trait_path(first.tokens, first.kind) is None ==> parse_item(input) == Err::<
            ItemView,
            ParseError,
        >(ParseError::MissingTraitPath { position: (input.len() - from.len()) as usize })),
{
    lemma_header_fails_by_expectation(input);
    match header(input) {
        Err(fail) => {},
        Ok((head, behind_header)) => {
            match trait_and_self(behind_header) {
                Err(fail) => {},
                Ok(((trait_, self_ty), behind_self)) => {
                    lemma_predicates_fail_by_expectation(behind_self.skip(1), Seq::empty());
                    match optional_where_clause(behind_self) {
                        Err(fail) => {},
                        Ok((where_clause, behind_where)) => {
                            lemma_block_fails_by_expectation(behind_where, head.attrs);
                        },
                    }
                },
            }
        },
    }
}

} // verus!
