//! The grammar that is not this library's own: types, paths, attributes,
//! parameters of lifetimes and constants, and associated items are parsed and
//! printed by `syn`. Each of its parsers is run at the front of the unread
//! tokens and hands back what it printed of the node, and the tokens it left.

use crate::cursor::{punct_at, Cursor};
use crate::error::{unexpected, Expected, Fail, Failure};
use crate::syntax::{Attribute, AttributeView};
use crate::token::{lex, lexable, stream_toks, to_stream, Tok, Token};
use proc_macro2::TokenStream;
use quote::ToTokens;
use syn::{
    BoundLifetimes, ConstParam, ImplItem, LifetimeDef, ParenthesizedGenericArguments, Path, Type,
    TypePath,
};
use syn::parse::{ParseStream, Parser};
use vstd::prelude::*;

verus! {

/// What kind of type `syn` found.
#[derive(Clone, Copy, Debug, PartialEq, Eq, Structural)]
pub enum TypeKind {
    /// A type inside an invisible group.
    Group,
    /// A path with no qualified self type in front.
    BarePath,
    /// Any other type.
    Other,
}

/// What `syn::Attribute::parse_outer` makes of `input`: each attribute as
/// `syn` prints it, and the tokens left; `None` where it fails.
pub uninterp spec fn syn_outer_attributes(input: Seq<Tok>) -> Option<(Seq<Seq<Tok>>, Seq<Tok>)>;

/// What `syn`'s parser of `Type` makes of `input`: the type as `syn` prints
/// it, its kind, and the tokens left; `None` where it fails.
pub uninterp spec fn syn_type(input: Seq<Tok>) -> Option<(Seq<Tok>, TypeKind, Seq<Tok>)>;

/// What `syn`'s parser of `Path` makes of `input`: the path as `syn` prints
/// it, the identifier of its last segment, whether that segment has no
/// arguments, and the tokens left; `None` where it fails.
pub uninterp spec fn syn_path(input: Seq<Tok>) -> Option<(Seq<Tok>, Seq<char>, bool, Seq<Tok>)>;

/// What `syn`'s parser of `BoundLifetimes` makes of `input`: the binder as
/// `syn` prints it, and the tokens left; `None` where it fails.
pub uninterp spec fn syn_bound_lifetimes(input: Seq<Tok>) -> Option<(Seq<Tok>, Seq<Tok>)>;

/// What `syn`'s parser of `ParenthesizedGenericArguments` makes of `input`:
/// the arguments as `syn` prints them, and the tokens left; `None` where it
/// fails.
pub uninterp spec fn syn_parenthesized_arguments(input: Seq<Tok>) -> Option<(Seq<Tok>, Seq<Tok>)>;

/// What `syn`'s parser of `LifetimeDef` makes of `input`: the parameter as
/// `syn` prints it, and the tokens left; `None` where it fails.
pub uninterp spec fn syn_lifetime_def(input: Seq<Tok>) -> Option<(Seq<Tok>, Seq<Tok>)>;

/// What `syn`'s parser of `ConstParam` makes of `input`: the parameter as
/// `syn` prints it, and the tokens left; `None` where it fails.
pub uninterp spec fn syn_const_param(input: Seq<Tok>) -> Option<(Seq<Tok>, Seq<Tok>)>;

/// What `syn`'s parser of `ImplItem` makes of `input`: the item as `syn`
/// prints it, and the tokens left; `None` where it fails.
pub uninterp spec fn syn_impl_item(input: Seq<Tok>) -> Option<(Seq<Tok>, Seq<Tok>)>;

/// What `syn::Path::parse_mod_style` makes of `input`: the path as `syn`
/// prints it, and the tokens left; `None` where it fails.
pub uninterp spec fn syn_mod_style_path(input: Seq<Tok>) -> Option<(Seq<Tok>, Seq<Tok>)>;

/// A node and the tokens left behind it, as `syn` handed them back, on the
/// model.
pub open spec fn front_toks(found: Option<(TokenStream, TokenStream)>) -> Option<
    (Seq<Tok>, Seq<Tok>),
> {
    match found {
        Some((node, rest)) => Some((stream_toks(node), stream_toks(rest))),
        None => None,
    }
}

/// The tokens of each stream.
pub open spec fn streams_toks(streams: Seq<TokenStream>) -> Seq<Seq<Tok>> {
    Seq::new(streams.len(), |i: int| stream_toks(streams[i]))
}

/// Runs `syn::Attribute::parse_outer` at the front of `input`, then takes
/// the rest of the tokens. The attributes are handed back as
/// `ToTokens::into_token_stream` prints them.
#[verifier::external_body]
fn outer_attributes_front(input: TokenStream) -> (r: Option<(Vec<TokenStream>, TokenStream)>)
    ensures
        match r {
            Some((attrs, rest)) => syn_outer_attributes(stream_toks(input)) == Some(
                (streams_toks(attrs@), stream_toks(rest)),
            ),
            None => syn_outer_attributes(stream_toks(input)) is None,
        },
{
    let front = |p: ParseStream| -> syn::Result<(Vec<syn::Attribute>, TokenStream)> {
        Ok((p.call(syn::Attribute::parse_outer)?, p.parse()?))
    };
    let (attrs, rest) = front.parse2(input).ok()?;
    Some((attrs.into_iter().map(ToTokens::into_token_stream).collect(), rest))
}

/// Runs `syn`'s parser of `Type` at the front of `input`, then takes the rest
/// of the tokens. The type is handed back as `ToTokens::into_token_stream`
/// prints it, with the variant of `syn::Type` that it is.
#[verifier::external_body]
fn type_front(input: TokenStream) -> (r: Option<(TokenStream, TypeKind, TokenStream)>)
    ensures
        match r {
            Some((node, kind, rest)) => syn_type(stream_toks(input)) == Some(
                (stream_toks(node), kind, stream_toks(rest)),
            ),
            None => syn_type(stream_toks(input)) is None,
        },
{
    let front = |p: ParseStream| -> syn::Result<(Type, TokenStream)> {
        Ok((p.parse()?, p.parse()?))
    };
    let (ty, rest) = front.parse2(input).ok()?;
    let kind = match &ty {
        Type::Group(_) => TypeKind::Group,
        Type::Path(TypePath { qself: None, .. }) => TypeKind::BarePath,
        _ => TypeKind::Other,
    };
    Some((ty.into_token_stream(), kind, rest))
}

/// Runs `syn`'s parser of `Path` at the front of `input`, then takes the rest
/// of the tokens. The path is handed back as `ToTokens::to_token_stream`
/// prints it, with the identifier of its last segment (`to_string`) and
/// whether that segment's arguments are empty (`PathArguments::is_empty`).
#[verifier::external_body]
fn path_front(input: TokenStream) -> (r: Option<(TokenStream, String, bool, TokenStream)>)
    ensures
        match r {
            Some((node, last, plain, rest)) => syn_path(stream_toks(input)) == Some(
                (stream_toks(node), last@, plain, stream_toks(rest)),
            ),
            None => syn_path(stream_toks(input)) is None,
        },
{
    let front = |p: ParseStream| -> syn::Result<(Path, TokenStream)> {
        Ok((p.parse()?, p.parse()?))
    };
    let (path, rest) = front.parse2(input).ok()?;
    let last = path.segments.last()?;
    Some((path.to_token_stream(), last.ident.to_string(), last.arguments.is_empty(), rest))
}

/// Runs `syn`'s parser of `BoundLifetimes` at the front of `input`, then
/// takes the rest of the tokens. The binder is handed back as
/// `ToTokens::into_token_stream` prints it.
#[verifier::external_body]
fn bound_lifetimes_front(input: TokenStream) -> (r: Option<(TokenStream, TokenStream)>)
    ensures
        front_toks(r) == syn_bound_lifetimes(stream_toks(input)),
{
    let front = |p: ParseStream| -> syn::Result<(BoundLifetimes, TokenStream)> {
        Ok((p.parse()?, p.parse()?))
    };
    let (node, rest) = front.parse2(input).ok()?;
    Some((node.into_token_stream(), rest))
}

/// Runs `syn`'s parser of `ParenthesizedGenericArguments` at the front of
/// `input`, then takes the rest of the tokens. The arguments are handed back
/// as `ToTokens::into_token_stream` prints them.
#[verifier::external_body]
fn parenthesized_arguments_front(input: TokenStream) -> (r: Option<(TokenStream, TokenStream)>)
    ensures
        front_toks(r) == syn_parenthesized_arguments(stream_toks(input)),
{
    let front = |p: ParseStream| -> syn::Result<(ParenthesizedGenericArguments, TokenStream)> {
        Ok((p.parse()?, p.parse()?))
    };
    let (node, rest) = front.parse2(input).ok()?;
    Some((node.into_token_stream(), rest))
}

/// Runs `syn`'s parser of `LifetimeDef` at the front of `input`, then takes
/// the rest of the tokens. The parameter is handed back as
/// `ToTokens::into_token_stream` prints it.
#[verifier::external_body]
fn lifetime_def_front(input: TokenStream) -> (r: Option<(TokenStream, TokenStream)>)
    ensures
        front_toks(r) == syn_lifetime_def(stream_toks(input)),
{
    let front = |p: ParseStream| -> syn::Result<(LifetimeDef, TokenStream)> {
        Ok((p.parse()?, p.parse()?))
    };
    let (node, rest) = front.parse2(input).ok()?;
    Some((node.into_token_stream(), rest))
}

/// Runs `syn`'s parser of `ConstParam` at the front of `input`, then takes
/// the rest of the tokens. The parameter is handed back as
/// `ToTokens::into_token_stream` prints it.
#[verifier::external_body]
fn const_param_front(input: TokenStream) -> (r: Option<(TokenStream, TokenStream)>)
    ensures
        front_toks(r) == syn_const_param(stream_toks(input)),
{
    let front = |p: ParseStream| -> syn::Result<(ConstParam, TokenStream)> {
        Ok((p.parse()?, p.parse()?))
    };
    let (node, rest) = front.parse2(input).ok()?;
    Some((node.into_token_stream(), rest))
}

/// Runs `syn`'s parser of `ImplItem` at the front of `input`, then takes the
/// rest of the tokens. The item is handed back as
/// `ToTokens::into_token_stream` prints it.
#[verifier::external_body]
fn impl_item_front(input: TokenStream) -> (r: Option<(TokenStream, TokenStream)>)
    ensures
        front_toks(r) == syn_impl_item(stream_toks(input)),
{
    let front = |p: ParseStream| -> syn::Result<(ImplItem, TokenStream)> {
        Ok((p.parse()?, p.parse()?))
    };
    let (node, rest) = front.parse2(input).ok()?;
    Some((node.into_token_stream(), rest))
}

/// Runs `syn::Path::parse_mod_style` at the front of `input`, then takes the
/// rest of the tokens. The path is handed back as
/// `ToTokens::into_token_stream` prints it.
#[verifier::external_body]
fn mod_style_path_front(input: TokenStream) -> (r: Option<(TokenStream, TokenStream)>)
    ensures
        front_toks(r) == syn_mod_style_path(stream_toks(input)),
{
    let front = |p: ParseStream| -> syn::Result<(Path, TokenStream)> {
        Ok((p.call(Path::parse_mod_style)?, p.parse()?))
    };
    let (node, rest) = front.parse2(input).ok()?;
    Some((node.into_token_stream(), rest))
}

/// What a parser of this library yields on the model: the node and the
/// tokens left, or the failure.
pub type Parsed<V> = Result<(V, Seq<Tok>), Fail>;

/// The executable result `r` is what the model `model` says.
pub open spec fn agrees<T: DeepView>(r: Result<(T, Cursor), Failure>, model: Parsed<T::V>) -> bool {
    match r {
        Ok((node, next)) => model == Ok::<(T::V, Seq<Tok>), Fail>((node.deep_view(), next.rest())),
        Err(failure) => model == Err::<(T::V, Seq<Tok>), Fail>(failure.deep_view()),
    }
}

/// A node and the tokens left behind it are taken over from `syn` where both
/// can be read as tokens and fewer tokens are left than there were.
pub open spec fn admitted(before: nat, node: Seq<Tok>, rest: Seq<Tok>) -> bool {
    lexable(node) && lexable(rest) && rest.len() < before
}

/// A plain node of `syn`'s at the front of `input`, where `found` is what
/// `syn` made of `input`.
pub open spec fn step(
    found: Option<(Seq<Tok>, Seq<Tok>)>,
    expected: Expected,
    input: Seq<Tok>,
) -> Parsed<Seq<Tok>> {
    match found {
        Some((node, rest)) => if admitted(input.len(), node, rest) {
            Ok((node, rest))
        } else {
            Err(unexpected(expected, input.len()))
        },
        None => Err(unexpected(expected, input.len())),
    }
}

/// Reads what `syn` handed back into tokens and a cursor: `None` where a
/// signed literal stands in the node or among the tokens left, and where no
/// fewer tokens are left than `before` has.
pub fn receive(before: &Cursor, node: &TokenStream, rest: &TokenStream) -> (r: Option<
    (Vec<Token>, Cursor),
>)
    ensures
        match r {
            Some((tokens, next)) => admitted(
                before.rest().len(),
                stream_toks(*node),
                stream_toks(*rest),
            ) && tokens.deep_view() == stream_toks(*node) && next.rest() == stream_toks(*rest),
            None => !admitted(before.rest().len(), stream_toks(*node), stream_toks(*rest)),
        },
{
    match lex(node) {
        Ok(tokens) => match lex(rest) {
            Ok(left) => if left.len() < before.remaining() {
                Some((tokens, Cursor::new(left)))
            } else {
                None
            },
            Err(_) => None,
        },
        Err(_) => None,
    }
}

/// Takes over the node that `syn` found at the cursor `cur`, or fails with
/// `expected` at `cur`.
pub fn take_over(cur: &Cursor, found: Option<(TokenStream, TokenStream)>, expected: Expected) -> (r:
    Result<(Vec<Token>, Cursor), Failure>)
    ensures
        agrees(r, step(front_toks(found), expected, cur.rest())),
{
    let failure = cur.unexpected(expected);
    match found {
        Some((node, rest)) => match receive(cur, &node, &rest) {
            Some((tokens, next)) => Ok((tokens, next)),
            None => Err(failure),
        },
        None => Err(failure),
    }
}

/// The parser never yields more unread tokens than it was given.
pub open spec fn within<V>(result: Parsed<V>, input: Seq<Tok>) -> bool {
    match result {
        Ok((_, rest)) => rest.len() <= input.len(),
        Err(fail) => fail.remaining <= input.len(),
    }
}

/// The parser yields fewer unread tokens than it was given, where it
/// succeeds.
pub open spec fn advances<V>(result: Parsed<V>, input: Seq<Tok>) -> bool {
    match result {
        Ok((_, rest)) => rest.len() < input.len(),
        Err(fail) => fail.remaining <= input.len(),
    }
}

/// Where the parser fails, it fails because something that it expected is
/// not there.
pub open spec fn fails_by_expectation<V>(result: Parsed<V>) -> bool {
    result matches Err(fail) ==> fail.problem is Unexpected
}

/// A `for<...>` binder at the front of `input`.
pub open spec fn bound_lifetimes(input: Seq<Tok>) -> Parsed<Seq<Tok>> {
    step(syn_bound_lifetimes(input), Expected::BoundLifetimes, input)
}

/// A `for<...>` binder, as `syn` parses and prints it.
pub fn parse_bound_lifetimes(cur: Cursor) -> (r: Result<(Vec<Token>, Cursor), Failure>)
    ensures
        agrees(r, bound_lifetimes(cur.rest())),
{
    let found = bound_lifetimes_front(cur.stream());
    take_over(&cur, found, Expected::BoundLifetimes)
}

/// The parenthesized arguments of a call-style bound at the front of `input`.
pub open spec fn parenthesized_arguments(input: Seq<Tok>) -> Parsed<Seq<Tok>> {
    step(syn_parenthesized_arguments(input), Expected::ParenthesizedArguments, input)
}

/// The arguments of a call-style bound, `(A, B) -> C`, as `syn` parses and
/// prints them.
pub fn parse_parenthesized_arguments(cur: Cursor) -> (r: Result<(Vec<Token>, Cursor), Failure>)
    ensures
        agrees(r, parenthesized_arguments(cur.rest())),
{
    let found = parenthesized_arguments_front(cur.stream());
    take_over(&cur, found, Expected::ParenthesizedArguments)
}

/// A lifetime parameter at the front of `input`.
pub open spec fn lifetime_param(input: Seq<Tok>) -> Parsed<Seq<Tok>> {
    step(syn_lifetime_def(input), Expected::LifetimeParam, input)
}

/// A lifetime parameter, `'a: 'b + 'c`, as `syn` parses and prints it.
pub fn parse_lifetime_param(cur: Cursor) -> (r: Result<(Vec<Token>, Cursor), Failure>)
    ensures
        agrees(r, lifetime_param(cur.rest())),
{
    let found = lifetime_def_front(cur.stream());
    take_over(&cur, found, Expected::LifetimeParam)
}

/// A const parameter at the front of `input`.
pub open spec fn const_param(input: Seq<Tok>) -> Parsed<Seq<Tok>> {
    step(syn_const_param(input), Expected::ConstParam, input)
}

/// A const parameter, `const N: usize`, as `syn` parses and prints it.
pub fn parse_const_param(cur: Cursor) -> (r: Result<(Vec<Token>, Cursor), Failure>)
    ensures
        agrees(r, const_param(cur.rest())),
{
    let found = const_param_front(cur.stream());
    take_over(&cur, found, Expected::ConstParam)
}

/// An associated item at the front of `input`.
pub open spec fn impl_item(input: Seq<Tok>) -> Parsed<Seq<Tok>> {
    step(syn_impl_item(input), Expected::ImplItem, input)
}

/// An associated item, as `syn` parses and prints it.
pub fn parse_impl_item(cur: Cursor) -> (r: Result<(Vec<Token>, Cursor), Failure>)
    ensures
        agrees(r, impl_item(cur.rest())),
{
    let found = impl_item_front(cur.stream());
    take_over(&cur, found, Expected::ImplItem)
}

/// The path of an attribute at the front of `input`.
pub open spec fn mod_style_path(input: Seq<Tok>) -> Parsed<Seq<Tok>> {
    step(syn_mod_style_path(input), Expected::AttributePath, input)
}

/// A path of identifiers only, as `syn` parses and prints it.
pub fn parse_mod_style_path(cur: Cursor) -> (r: Result<(Vec<Token>, Cursor), Failure>)
    ensures
        agrees(r, mod_style_path(cur.rest())),
{
    let found = mod_style_path_front(cur.stream());
    take_over(&cur, found, Expected::AttributePath)
}

/// A type, as the tokens that print it, with its kind.
#[derive(Debug)]
pub struct TypeNode {
    pub tokens: Vec<Token>,
    pub kind: TypeKind,
}

/// The model of a `TypeNode`.
pub struct TypeNodeView {
    pub tokens: Seq<Tok>,
    pub kind: TypeKind,
}

impl DeepView for TypeNode {
    type V = TypeNodeView;

    open spec fn deep_view(&self) -> TypeNodeView {
        TypeNodeView { tokens: self.tokens.deep_view(), kind: self.kind }
    }
}

/// A type at the front of `input`.
pub open spec fn type_node(input: Seq<Tok>) -> Parsed<TypeNodeView> {
    match syn_type(input) {
        Some((tokens, kind, rest)) => if admitted(input.len(), tokens, rest) {
            Ok((TypeNodeView { tokens, kind }, rest))
        } else {
            Err(unexpected(Expected::Type, input.len()))
        },
        None => Err(unexpected(Expected::Type, input.len())),
    }
}

/// A type, as `syn` parses and prints it.
pub fn parse_type(cur: Cursor) -> (r: Result<(TypeNode, Cursor), Failure>)
    ensures
        agrees(r, type_node(cur.rest())),
{
    match type_front(cur.stream()) {
        Some((node, kind, rest)) => match receive(&cur, &node, &rest) {
            Some((tokens, next)) => Ok((TypeNode { tokens, kind }, next)),
            None => Err(cur.unexpected(Expected::Type)),
        },
        None => Err(cur.unexpected(Expected::Type)),
    }
}

/// The kind of the type that `tokens` are, where they are one type and
/// nothing more.
pub open spec fn whole_type_kind(tokens: Seq<Tok>) -> Option<TypeKind> {
    match syn_type(tokens) {
        Some((_, kind, rest)) => if rest.len() == 0 {
            Some(kind)
        } else {
            None
        },
        None => None,
    }
}

/// What kind of type `tokens` are, as `syn` parses them: `None` where they
/// are no type, or a type and more.
pub fn classify_type(tokens: &Vec<Token>) -> (r: Option<TypeKind>)
    ensures
        r == whole_type_kind(tokens.deep_view()),
{
    match type_front(to_stream(tokens)) {
        Some((_, kind, rest)) => match lex(&rest) {
            Ok(left) => if left.len() == 0 {
                Some(kind)
            } else {
                None
            },
            Err(_) => None,
        },
        None => None,
    }
}

/// A path, as the tokens that print it, with what lowering and the bound
/// grammar ask of its last segment.
#[derive(Debug)]
pub struct PathNode {
    pub tokens: Vec<Token>,
    /// The identifier of the last segment.
    pub last_segment: String,
    /// The last segment has no arguments.
    pub plain: bool,
}

/// The model of a `PathNode`.
pub struct PathNodeView {
    pub tokens: Seq<Tok>,
    pub last_segment: Seq<char>,
    pub plain: bool,
}

impl DeepView for PathNode {
    type V = PathNodeView;

    open spec fn deep_view(&self) -> PathNodeView {
        PathNodeView {
            tokens: self.tokens.deep_view(),
            last_segment: self.last_segment@,
            plain: self.plain,
        }
    }
}

/// A path at the front of `input`.
pub open spec fn path_node(input: Seq<Tok>) -> Parsed<PathNodeView> {
    match syn_path(input) {
        Some((tokens, last_segment, plain, rest)) => if admitted(input.len(), tokens, rest) {
            Ok((PathNodeView { tokens, last_segment, plain }, rest))
        } else {
            Err(unexpected(Expected::Path, input.len()))
        },
        None => Err(unexpected(Expected::Path, input.len())),
    }
}

/// A path, as `syn` parses and prints it.
pub fn parse_path(cur: Cursor) -> (r: Result<(PathNode, Cursor), Failure>)
    ensures
        agrees(r, path_node(cur.rest())),
{
    match path_front(cur.stream()) {
        Some((node, last_segment, plain, rest)) => match receive(&cur, &node, &rest) {
            Some((tokens, next)) => Ok((PathNode { tokens, last_segment, plain }, next)),
            None => Err(cur.unexpected(Expected::Path)),
        },
        None => Err(cur.unexpected(Expected::Path)),
    }
}

/// Every node can be read as tokens.
pub open spec fn all_lexable(nodes: Seq<Seq<Tok>>) -> bool {
    forall|i: int| 0 <= i < nodes.len() ==> lexable(#[trigger] nodes[i])
}

/// The printed attributes as outer attributes.
pub open spec fn outer(attrs: Seq<Seq<Tok>>) -> Seq<AttributeView> {
    Seq::new(attrs.len(), |i: int| AttributeView { inner: false, tokens: attrs[i] })
}

/// The outer attributes at the front of `input`: none where no `#` stands
/// there.
pub open spec fn outer_attributes(input: Seq<Tok>) -> Parsed<Seq<AttributeView>> {
    if !punct_at(input, 0, '#') {
        Ok((Seq::empty(), input))
    } else {
        match syn_outer_attributes(input) {
            Some((attrs, rest)) => if all_lexable(attrs) && lexable(rest) && rest.len()
                < input.len() {
                Ok((outer(attrs), rest))
            } else {
                Err(unexpected(Expected::Attribute, input.len()))
            },
            None => Err(unexpected(Expected::Attribute, input.len())),
        }
    }
}

/// Reads the printed attributes into tokens: `None` where one of them holds
/// a signed literal.
fn receive_attributes(streams: &Vec<TokenStream>) -> (r: Option<Vec<Attribute>>)
    ensures
        match r {
            Some(attrs) => all_lexable(streams_toks(streams@)) && attrs.deep_view() == outer(
                streams_toks(streams@),
            ),
            None => !all_lexable(streams_toks(streams@)),
        },
{
    let ghost nodes = streams_toks(streams@);
    let mut attrs: Vec<Attribute> = Vec::new();
    let mut i: usize = 0;
    while i < streams.len()
        invariant
            i <= streams.len(),
            nodes == streams_toks(streams@),
            all_lexable(nodes.take(i as int)),
            attrs.deep_view() == outer(nodes.take(i as int)),
        decreases streams.len() - i,
    {
        match lex(&streams[i]) {
            Ok(tokens) => {
                let ghost before = attrs.deep_view();
                let attr = Attribute { inner: false, tokens };
                attrs.push(attr);
                assert(attrs.deep_view() == before.push(attr.deep_view()));
                assert(nodes.take(i + 1) == nodes.take(i as int).push(nodes[i as int]));
                assert(attrs.deep_view() == outer(nodes.take(i + 1)));
            },
            Err(_) => {
                assert(!lexable(nodes[i as int]));
                return None;
            },
        }
        i += 1;
    }
    assert(nodes.take(i as int) == nodes);
    Some(attrs)
}

/// The attributes in front of an item or a parameter, as `syn` parses and
/// prints them.
pub fn parse_outer_attributes(cur: Cursor) -> (r: Result<(Vec<Attribute>, Cursor), Failure>)
    ensures
        agrees(r, outer_attributes(cur.rest())),
{
    if !cur.punct_at(0, '#') {
        let none: Vec<Attribute> = Vec::new();
        assert(none.deep_view() == Seq::<AttributeView>::empty());
        return Ok((none, cur));
    }
    match outer_attributes_front(cur.stream()) {
        Some((streams, rest)) => match receive_attributes(&streams) {
            Some(attrs) => match lex(&rest) {
                Ok(left) => if left.len() < cur.remaining() {
                    Ok((attrs, Cursor::new(left)))
                } else {
                    Err(cur.unexpected(Expected::Attribute))
                },
                Err(_) => Err(cur.unexpected(Expected::Attribute)),
            },
            None => Err(cur.unexpected(Expected::Attribute)),
        },
        None => Err(cur.unexpected(Expected::Attribute)),
    }
}

} // verus!
