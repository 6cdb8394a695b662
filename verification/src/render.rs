//! Printing: the tokens that spell a trait implementation, on the model and
//! for the baseline tree.
//!
//! The fields are printed in the order in which they are declared, and the
//! elements of a list in the order of the list; only the generic parameters
//! are printed with the lifetimes first. Keywords and punctuation are printed
//! anew, each punctuation character as a token of its own: `+` between
//! bounds, `,` between parameters and between predicates, and nothing behind
//! the last element of a list.

use crate::baseline::{
    GenericParam, Generics, ItemImpl, PredicateType, TraitBound, TraitBoundModifier, TypeParam,
    TypeParamBound, WherePredicate,
};
use crate::lower::lower_trait_bound;
use crate::syntax;
use crate::syntax::{
    Attribute, AttributeView, BoundView, GenericParamView, GenericsView, ItemView, OpaqueParam,
    OpaqueParamView, PredicateLifetime, PredicateLifetimeView, PredicateTypeView, TraitBoundView,
    TraitRef, TraitRefView, TypeParamView, WhereClauseView, WherePredicateView,
};
use crate::token::{fresh, inside, keyword, punct_char, Delimiter, Tok, Token};
use vstd::prelude::*;

verus! {

/// The parts in their order, with the separator between each two of them.
pub open spec fn separated(parts: Seq<Seq<Tok>>, separator: Tok) -> Seq<Tok>
    decreases parts.len(),
{
    if parts.len() == 0 {
        Seq::empty()
    } else if parts.len() == 1 {
        parts[0]
    } else {
        separated(parts.drop_last(), separator) + seq![separator] + parts.last()
    }
}

/// Adding a part behind a separated list.
pub proof fn lemma_separated_push(parts: Seq<Seq<Tok>>, separator: Tok, next: Seq<Tok>)
    ensures
        separated(parts.push(next), separator) == if parts.len() == 0 {
            next
        } else {
            separated(parts, separator) + seq![separator] + next
        },
{
    assert(parts.push(next).drop_last() == parts);
}

/// The token, where it is present.
pub open spec fn flag(present: bool, token: Tok) -> Seq<Tok> {
    if present {
        seq![token]
    } else {
        Seq::empty()
    }
}

/// The tokens, if there are any.
pub open spec fn optional_tokens(tokens: Option<Seq<Tok>>) -> Seq<Tok> {
    match tokens {
        Some(tokens) => tokens,
        None => Seq::empty(),
    }
}

/// The attributes that stand inside (`inner`) or in front, in their order.
pub open spec fn render_attributes(attrs: Seq<AttributeView>, inner: bool) -> Seq<Tok>
    decreases attrs.len(),
{
    if attrs.len() == 0 {
        Seq::empty()
    } else {
        render_attributes(attrs.drop_last(), inner) + if attrs.last().inner == inner {
            attrs.last().tokens
        } else {
            Seq::empty()
        }
    }
}

/// A modifier: nothing, `?`, or `~const`.
pub open spec fn render_modifier(modifier: syntax::TraitBoundModifier) -> Seq<Tok> {
    match modifier {
        syntax::TraitBoundModifier::Plain => Seq::empty(),
        syntax::TraitBoundModifier::Maybe => seq![fresh('?')],
        syntax::TraitBoundModifier::TildeConst(_) => seq![fresh('~'), Tok::Ident("const"@)],
    }
}

/// A trait bound: modifier, binder, path; in parentheses where the bound
/// stood in parentheses.
pub open spec fn render_trait_bound(bound: TraitBoundView) -> Seq<Tok> {
    let inner = render_modifier(bound.modifier) + optional_tokens(bound.lifetimes) + bound.path;
    if bound.parenthesized {
        seq![Tok::Group(Delimiter::Parenthesis, inner)]
    } else {
        inner
    }
}

/// One bound: a trait bound, or the two tokens of a lifetime.
pub open spec fn render_bound(bound: BoundView) -> Seq<Tok> {
    match bound {
        BoundView::Trait(bound) => render_trait_bound(bound),
        BoundView::Lifetime(lifetime) => lifetime,
    }
}

/// What lowering does to the print of a trait bound: it takes the `~const`
/// from the front, inside the parentheses where the bound has them, and
/// leaves every other token.
pub proof fn lemma_lowered_bound_prints_without_mark(bound: TraitBoundView)
    ensures
        !(bound.modifier is TildeConst) ==> render_trait_bound(lower_trait_bound(bound))
            == render_trait_bound(bound),
        bound.modifier is TildeConst && !bound.parenthesized ==> render_trait_bound(bound) == seq![
            fresh('~'),
            Tok::Ident("const"@),
        ] + render_trait_bound(lower_trait_bound(bound)),
        bound.modifier is TildeConst && bound.parenthesized ==> render_trait_bound(bound) == seq![
            Tok::Group(
                Delimiter::Parenthesis,
                seq![fresh('~'), Tok::Ident("const"@)] + inside(
                    render_trait_bound(lower_trait_bound(bound))[0],
                ),
            ),
        ],
{
    let lowered = lower_trait_bound(bound);
    let rest = optional_tokens(bound.lifetimes) + bound.path;
    assert(render_modifier(lowered.modifier) + optional_tokens(lowered.lifetimes) + lowered.path
        == render_modifier(lowered.modifier) + rest);
    assert(render_modifier(bound.modifier) + optional_tokens(bound.lifetimes) + bound.path
        == render_modifier(bound.modifier) + rest);
    if bound.modifier is TildeConst {
        assert(Seq::<Tok>::empty() + rest == rest);
    }
}

/// Each bound of a list, printed.
pub open spec fn bound_parts(bounds: Seq<BoundView>) -> Seq<Seq<Tok>> {
    bounds.map_values(|b: BoundView| render_bound(b))
}

/// A list of bounds, with `+` between them.
pub open spec fn render_bounds(bounds: Seq<BoundView>) -> Seq<Tok> {
    separated(bound_parts(bounds), fresh('+'))
}

/// A type parameter. The colon is printed only where bounds follow it.
pub open spec fn render_type_param(param: TypeParamView) -> Seq<Tok> {
    render_attributes(param.attrs, false) + seq![param.ident] + if param.bounds.len() > 0 {
        seq![fresh(':')] + render_bounds(param.bounds)
    } else {
        Seq::empty()
    } + match param.default {
        Some(default) => seq![fresh('=')] + default,
        None => Seq::empty(),
    }
}

/// A lifetime or const parameter: its attributes and its tokens.
pub open spec fn render_opaque_param(param: OpaqueParamView) -> Seq<Tok> {
    render_attributes(param.attrs, false) + param.tokens
}

/// One generic parameter.
pub open spec fn render_generic_param(param: GenericParamView) -> Seq<Tok> {
    match param {
        GenericParamView::Type(param) => render_type_param(param),
        GenericParamView::Lifetime(param) => render_opaque_param(param),
        GenericParamView::Const(param) => render_opaque_param(param),
    }
}

/// Each generic parameter of a list, printed.
pub open spec fn param_parts(params: Seq<GenericParamView>) -> Seq<Seq<Tok>> {
    params.map_values(|p: GenericParamView| render_generic_param(p))
}

/// The lifetime parameters of a list, in their order.
pub open spec fn lifetime_params(params: Seq<GenericParamView>) -> Seq<GenericParamView> {
    params.filter(|p: GenericParamView| p is Lifetime)
}

/// The type and const parameters of a list, in their order.
pub open spec fn other_params(params: Seq<GenericParamView>) -> Seq<GenericParamView> {
    params.filter(|p: GenericParamView| !(p is Lifetime))
}

/// The parameters in the order in which they are printed: the lifetimes
/// come first, whatever their places in the list; otherwise the order stays.
pub open spec fn print_order(params: Seq<GenericParamView>) -> Seq<GenericParamView> {
    lifetime_params(params) + other_params(params)
}

/// Going through a parameter list parameter by parameter: the last one joins
/// the lifetimes or the others.
pub proof fn lemma_print_order_push(params: Seq<GenericParamView>, param: GenericParamView)
    ensures
        lifetime_params(params.push(param)) == if param is Lifetime {
            lifetime_params(params).push(param)
        } else {
            lifetime_params(params)
        },
        other_params(params.push(param)) == if param is Lifetime {
            other_params(params)
        } else {
            other_params(params).push(param)
        },
{
    params.lemma_filter_push(param, |p: GenericParamView| p is Lifetime);
    params.lemma_filter_push(param, |p: GenericParamView| !(p is Lifetime));
}

/// No lifetime parameter stands behind a type or const parameter.
pub open spec fn lifetimes_first(params: Seq<GenericParamView>) -> bool {
    forall|i: int, j: int|
        0 <= i < j < params.len() && #[trigger] params[j] is Lifetime ==> #[trigger] params[i]
            is Lifetime
}

/// A list without parameters has neither lifetimes nor others.
pub proof fn lemma_print_order_empty()
    ensures
        lifetime_params(Seq::empty()) == Seq::<GenericParamView>::empty(),
        other_params(Seq::empty()) == Seq::<GenericParamView>::empty(),
{
    reveal(Seq::filter);
}

/// A list of lifetime parameters only is printed in its own order.
pub proof fn lemma_print_order_of_lifetimes(params: Seq<GenericParamView>)
    requires
        forall|i: int| 0 <= i < params.len() ==> #[trigger] params[i] is Lifetime,
    ensures
        lifetime_params(params) == params,
        other_params(params) == Seq::<GenericParamView>::empty(),
    decreases params.len(),
{
    if params.len() == 0 {
        lemma_print_order_empty();
        assert(params == Seq::<GenericParamView>::empty());
    } else {
        let front = params.drop_last();
        assert(params == front.push(params.last()));
        assert forall|i: int| 0 <= i < front.len() implies #[trigger] front[i] is Lifetime by {
            assert(front[i] == params[i]);
        }
        lemma_print_order_of_lifetimes(front);
        lemma_print_order_push(front, params.last());
    }
}

/// A parameter list in which the lifetimes stand first is printed in its own
/// order.
pub proof fn lemma_print_order_of_ordered_list(params: Seq<GenericParamView>)
    requires
        lifetimes_first(params),
    ensures
        print_order(params) == params,
    decreases params.len(),
{
    if params.len() == 0 {
        lemma_print_order_empty();
        assert(params == Seq::<GenericParamView>::empty());
    } else if params.last() is Lifetime {
        assert forall|i: int| 0 <= i < params.len() implies #[trigger] params[i] is Lifetime by {
            if i < params.len() - 1 {
                assert(params[params.len() - 1] is Lifetime);
            }
        }
        lemma_print_order_of_lifetimes(params);
    } else {
        let front = params.drop_last();
        let last = params.last();
        assert(params == front.push(last));
        assert forall|i: int, j: int|
            0 <= i < j < front.len() && #[trigger] front[j] is Lifetime implies #[trigger] front[i]
            is Lifetime by {
            assert(front[i] == params[i] && front[j] == params[j]);
        }
        lemma_print_order_of_ordered_list(front);
        lemma_print_order_push(front, last);
        assert(lifetime_params(front) + other_params(front).push(last) == (lifetime_params(front)
            + other_params(front)).push(last));
    }
}

/// The generic parameter list: nothing where there is no parameter, else the
/// parameters between angle brackets, the lifetimes first, with `,` between
/// them.
pub open spec fn render_params(generics: GenericsView) -> Seq<Tok> {
    if generics.params.len() == 0 {
        Seq::empty()
    } else {
        seq![fresh('<')] + separated(param_parts(print_order(generics.params)), fresh(','))
            + seq![fresh('>')]
    }
}

/// A predicate on a type: binder, type, `:`, bounds.
pub open spec fn render_predicate_type(predicate: PredicateTypeView) -> Seq<Tok> {
    optional_tokens(predicate.lifetimes) + predicate.bounded_ty + seq![fresh(':')]
        + render_bounds(predicate.bounds)
}

/// A predicate on a lifetime: the lifetime, `:`, and its bounds with `+`
/// between them.
pub open spec fn render_predicate_lifetime(predicate: PredicateLifetimeView) -> Seq<Tok> {
    predicate.lifetime + seq![fresh(':')] + separated(predicate.bounds, fresh('+'))
}

/// One predicate.
pub open spec fn render_where_predicate(predicate: WherePredicateView) -> Seq<Tok> {
    match predicate {
        WherePredicateView::Type(predicate) => render_predicate_type(predicate),
        WherePredicateView::Lifetime(predicate) => render_predicate_lifetime(predicate),
        WherePredicateView::Eq(tokens) => tokens,
    }
}

/// Each predicate of a list, printed.
pub open spec fn predicate_parts(predicates: Seq<WherePredicateView>) -> Seq<Seq<Tok>> {
    predicates.map_values(|p: WherePredicateView| render_where_predicate(p))
}

/// The `where` clause: nothing where there is no predicate, else `where` and
/// the predicates, with `,` between them.
pub open spec fn render_where_clause(clause: Option<WhereClauseView>) -> Seq<Tok> {
    match clause {
        Some(clause) => if clause.predicates.len() == 0 {
            Seq::empty()
        } else {
            seq![Tok::Ident("where"@)] + separated(predicate_parts(clause.predicates), fresh(','))
        },
        None => Seq::empty(),
    }
}

/// The trait: `!` where it is negated, its path, `for`.
pub open spec fn render_trait(trait_: TraitRefView) -> Seq<Tok> {
    flag(trait_.negative, fresh('!')) + trait_.path + seq![Tok::Ident("for"@)]
}

/// What stands inside the braces: the inner attributes, then the items.
pub open spec fn render_body(item: ItemView) -> Seq<Tok> {
    render_attributes(item.attrs, true) + item.items.flatten()
}

/// The tokens that spell a trait implementation.
pub open spec fn render_item(item: ItemView) -> Seq<Tok> {
    render_attributes(item.attrs, false) + flag(item.defaultness, Tok::Ident("default"@)) + flag(
        item.unsafety,
        Tok::Ident("unsafe"@),
    ) + seq![Tok::Ident("impl"@)] + render_params(item.generics) + flag(
        item.constness,
        Tok::Ident("const"@),
    ) + render_trait(item.trait_) + item.self_ty + render_where_clause(item.generics.where_clause)
        + seq![Tok::Group(Delimiter::Brace, render_body(item))]
}

/// Adds copies of `tokens` to `out`.
pub fn push_tokens(out: &mut Vec<Token>, tokens: &Vec<Token>)
    ensures
        final(out).deep_view() == old(out).deep_view() + tokens.deep_view(),
{
    let mut i: usize = 0;
    while i < tokens.len()
        invariant
            i <= tokens.len(),
            out.deep_view() == old(out).deep_view() + tokens.deep_view().take(i as int),
        decreases tokens.len() - i,
    {
        let ghost before = out.deep_view();
        let token = tokens[i].clone();
        out.push(token);
        assert(out.deep_view() == before.push(token.deep_view()));
        assert(tokens.deep_view().take(i + 1) == tokens.deep_view().take(i as int).push(
            tokens.deep_view()[i as int],
        ));
        i += 1;
    }
    assert(tokens.deep_view().take(i as int) == tokens.deep_view());
}

/// Adds a copy of `token` to `out`.
pub fn push_token(out: &mut Vec<Token>, token: &Token)
    ensures
        final(out).deep_view() == old(out).deep_view() + seq![token.deep_view()],
{
    let ghost before = out.deep_view();
    let token = token.clone();
    out.push(token);
    assert(out.deep_view() == before.push(token.deep_view()));
}

/// Adds the keyword `word` to `out`, where it is present.
pub fn push_word(out: &mut Vec<Token>, present: bool, word: &str)
    requires
        keyword(word@),
    ensures
        final(out).deep_view() == old(out).deep_view() + flag(present, Tok::Ident(word@)),
{
    if present {
        let ghost before = out.deep_view();
        let token = Token::word(word);
        out.push(token);
        assert(out.deep_view() == before.push(token.deep_view()));
    } else {
        assert(out.deep_view() + Seq::<Tok>::empty() == out.deep_view());
    }
}

/// Adds copies of the tokens to `out`, if there are any.
pub fn push_optional_tokens(out: &mut Vec<Token>, tokens: &Option<Vec<Token>>)
    ensures
        final(out).deep_view() == old(out).deep_view() + optional_tokens(tokens.deep_view()),
{
    match tokens {
        Some(tokens) => push_tokens(out, tokens),
        None => {},
    }
}

/// Adds the punctuation character `ch` to `out`.
pub fn push_fresh(out: &mut Vec<Token>, ch: char)
    requires
        punct_char(ch),
    ensures
        final(out).deep_view() == old(out).deep_view() + seq![fresh(ch)],
{
    let ghost before = out.deep_view();
    let token = Token::punct(ch);
    out.push(token);
    assert(out.deep_view() == before.push(token.deep_view()));
}

/// Adds to `out` the attributes that stand inside (`inner`) or in front.
pub fn push_attributes(out: &mut Vec<Token>, attrs: &Vec<Attribute>, inner: bool)
    ensures
        final(out).deep_view() == old(out).deep_view() + render_attributes(
            attrs.deep_view(),
            inner,
        ),
{
    let ghost all = attrs.deep_view();
    let mut i: usize = 0;
    while i < attrs.len()
        invariant
            i <= attrs.len(),
            all == attrs.deep_view(),
            out.deep_view() == old(out).deep_view() + render_attributes(all.take(i as int), inner),
        decreases attrs.len() - i,
    {
        assert(all.take(i + 1).drop_last() == all.take(i as int));
        if attrs[i].inner == inner {
            push_tokens(out, &attrs[i].tokens);
        }
        i += 1;
    }
    assert(all.take(i as int) == all);
}

impl TraitBoundModifier {
    /// Adds the modifier to `out`.
    pub fn render(&self, out: &mut Vec<Token>)
        ensures
            final(out).deep_view() == old(out).deep_view() + render_modifier(self.deep_view()),
    {
        match self {
            TraitBoundModifier::Plain => {
                assert(out.deep_view() + Seq::<Tok>::empty() == out.deep_view());
            },
            TraitBoundModifier::Maybe => push_fresh(out, '?'),
        }
    }
}

impl TraitBound {
    /// Adds modifier, binder and path to `out`.
    fn render_inner(&self, out: &mut Vec<Token>)
        ensures
            final(out).deep_view() == old(out).deep_view() + (render_modifier(
                self.deep_view().modifier,
            ) + optional_tokens(self.deep_view().lifetimes) + self.deep_view().path),
    {
        self.modifier.render(out);
        push_optional_tokens(out, &self.lifetimes);
        push_tokens(out, &self.path);
        assert(out.deep_view() == old(out).deep_view() + (render_modifier(
            self.deep_view().modifier,
        ) + optional_tokens(self.deep_view().lifetimes) + self.deep_view().path));
    }

    /// Adds the bound to `out`.
    pub fn render(&self, out: &mut Vec<Token>)
        ensures
            final(out).deep_view() == old(out).deep_view() + render_trait_bound(self.deep_view()),
    {
        if self.parenthesized {
            let mut inner: Vec<Token> = Vec::new();
            assert(inner.deep_view() == Seq::<Tok>::empty());
            self.render_inner(&mut inner);
            assert(Seq::<Tok>::empty() + (render_modifier(self.deep_view().modifier)
                + optional_tokens(self.deep_view().lifetimes) + self.deep_view().path)
                == render_modifier(self.deep_view().modifier) + optional_tokens(
                self.deep_view().lifetimes,
            ) + self.deep_view().path);
            let ghost before = out.deep_view();
            let group = Token::group(Delimiter::Parenthesis, &inner);
            out.push(group);
            assert(out.deep_view() == before.push(group.deep_view()));
            assert(before.push(group.deep_view()) == before + seq![group.deep_view()]);
        } else {
            self.render_inner(out);
        }
    }
}

impl TypeParamBound {
    /// Adds the bound to `out`.
    pub fn render(&self, out: &mut Vec<Token>)
        ensures
            final(out).deep_view() == old(out).deep_view() + render_bound(self.deep_view()),
    {
        match self {
            TypeParamBound::Trait(bound) => bound.render(out),
            TypeParamBound::Lifetime(lifetime) => push_tokens(out, lifetime),
        }
    }
}

/// Adds a list of bounds to `out`, with `+` between them.
pub fn render_bound_list(bounds: &Vec<TypeParamBound>, out: &mut Vec<Token>)
    ensures
        final(out).deep_view() == old(out).deep_view() + render_bounds(bounds.deep_view()),
{
    let ghost parts = bound_parts(bounds.deep_view());
    let mut i: usize = 0;
    assert(old(out).deep_view() + Seq::<Tok>::empty() == old(out).deep_view());
    while i < bounds.len()
        invariant
            i <= bounds.len(),
            parts == bound_parts(bounds.deep_view()),
            out.deep_view() == old(out).deep_view() + separated(parts.take(i as int), fresh('+')),
        decreases bounds.len() - i,
    {
        proof {
            lemma_separated_push(parts.take(i as int), fresh('+'), parts[i as int]);
            assert(parts.take(i + 1) == parts.take(i as int).push(parts[i as int]));
        }
        if i > 0 {
            push_fresh(out, '+');
        }
        bounds[i].render(out);
        assert(out.deep_view() == old(out).deep_view() + separated(parts.take(i + 1), fresh('+')));
        i += 1;
    }
    assert(parts.take(i as int) == parts);
}

impl TypeParam {
    /// Adds the parameter to `out`.
    pub fn render(&self, out: &mut Vec<Token>)
        ensures
            final(out).deep_view() == old(out).deep_view() + render_type_param(self.deep_view()),
    {
        let ghost start = out.deep_view();
        let ghost view = self.deep_view();
        push_attributes(out, &self.attrs, false);
        push_token(out, &self.ident);
        let ghost head = render_attributes(view.attrs, false) + seq![view.ident];
        assert(out.deep_view() == start + head);
        let ghost middle = if view.bounds.len() > 0 {
            seq![fresh(':')] + render_bounds(view.bounds)
        } else {
            Seq::<Tok>::empty()
        };
        if self.bounds.len() > 0 {
            push_fresh(out, ':');
            render_bound_list(&self.bounds, out);
        }
        assert(out.deep_view() == start + (head + middle));
        let ghost tail = match view.default {
            Some(default) => seq![fresh('=')] + default,
            None => Seq::<Tok>::empty(),
        };
        match &self.default {
            Some(default) => {
                push_fresh(out, '=');
                push_tokens(out, default);
            },
            None => {},
        }
        assert(out.deep_view() == start + (head + middle + tail));
    }
}

/// Adds a lifetime or const parameter to `out`.
pub fn render_opaque(param: &OpaqueParam, out: &mut Vec<Token>)
    ensures
        final(out).deep_view() == old(out).deep_view() + render_opaque_param(param.deep_view()),
{
    push_attributes(out, &param.attrs, false);
    push_tokens(out, &param.tokens);
    assert(out.deep_view() == old(out).deep_view() + render_opaque_param(param.deep_view()));
}

impl GenericParam {
    /// Adds the parameter to `out`.
    pub fn render(&self, out: &mut Vec<Token>)
        ensures
            final(out).deep_view() == old(out).deep_view() + render_generic_param(
                self.deep_view(),
            ),
    {
        match self {
            GenericParam::Type(param) => param.render(out),
            GenericParam::Lifetime(param) => render_opaque(param, out),
            GenericParam::Const(param) => render_opaque(param, out),
        }
    }
}

impl PredicateType {
    /// Adds the predicate to `out`.
    pub fn render(&self, out: &mut Vec<Token>)
        ensures
            final(out).deep_view() == old(out).deep_view() + render_predicate_type(
                self.deep_view(),
            ),
    {
        push_optional_tokens(out, &self.lifetimes);
        push_tokens(out, &self.bounded_ty);
        push_fresh(out, ':');
        render_bound_list(&self.bounds, out);
        assert(out.deep_view() == old(out).deep_view() + render_predicate_type(self.deep_view()));
    }
}

/// Adds a predicate on a lifetime to `out`, with `+` between its bounds.
pub fn render_lifetime_predicate(predicate: &PredicateLifetime, out: &mut Vec<Token>)
    ensures
        final(out).deep_view() == old(out).deep_view() + render_predicate_lifetime(
            predicate.deep_view(),
        ),
{
    let ghost parts = predicate.bounds.deep_view();
    push_tokens(out, &predicate.lifetime);
    push_fresh(out, ':');
    let ghost start = out.deep_view();
    assert(start == old(out).deep_view() + (predicate.deep_view().lifetime + seq![fresh(':')]));
    assert(start + Seq::<Tok>::empty() == start);
    let mut i: usize = 0;
    while i < predicate.bounds.len()
        invariant
            i <= predicate.bounds.len(),
            parts == predicate.bounds.deep_view(),
            out.deep_view() == start + separated(parts.take(i as int), fresh('+')),
        decreases predicate.bounds.len() - i,
    {
        proof {
            lemma_separated_push(parts.take(i as int), fresh('+'), parts[i as int]);
            assert(parts.take(i + 1) == parts.take(i as int).push(parts[i as int]));
        }
        if i > 0 {
            push_fresh(out, '+');
        }
        push_tokens(out, &predicate.bounds[i]);
        assert(out.deep_view() == start + separated(parts.take(i + 1), fresh('+')));
        i += 1;
    }
    assert(parts.take(i as int) == parts);
    assert(out.deep_view() == old(out).deep_view() + render_predicate_lifetime(
        predicate.deep_view(),
    ));
}

impl WherePredicate {
    /// Adds the predicate to `out`.
    pub fn render(&self, out: &mut Vec<Token>)
        ensures
            final(out).deep_view() == old(out).deep_view() + render_where_predicate(
                self.deep_view(),
            ),
    {
        match self {
            WherePredicate::Type(predicate) => predicate.render(out),
            WherePredicate::Lifetime(predicate) => render_lifetime_predicate(predicate, out),
            WherePredicate::Eq(tokens) => push_tokens(out, tokens),
        }
    }
}

impl Generics {
    /// The parameters in the order in which they are printed: the lifetimes
    /// first.
    pub fn print_order(&self) -> (order: Vec<&GenericParam>)
        ensures
            order.deep_view() == print_order(self.deep_view().params),
    {
        let ghost all = self.params.deep_view();
        let mut lifetimes: Vec<&GenericParam> = Vec::new();
        let mut others: Vec<&GenericParam> = Vec::new();
        proof {
            lemma_print_order_empty();
            assert(all.take(0) == Seq::<GenericParamView>::empty());
            assert(lifetimes.deep_view() == Seq::<GenericParamView>::empty());
            assert(others.deep_view() == Seq::<GenericParamView>::empty());
        }
        let mut i: usize = 0;
        while i < self.params.len()
            invariant
                i <= self.params.len(),
                all == self.params.deep_view(),
                lifetimes.deep_view() == lifetime_params(all.take(i as int)),
                others.deep_view() == other_params(all.take(i as int)),
            decreases self.params.len() - i,
        {
            let param = &self.params[i];
            proof {
                lemma_print_order_push(all.take(i as int), all[i as int]);
                assert(all.take(i + 1) == all.take(i as int).push(all[i as int]));
            }
            let ghost lifetimes_before = lifetimes.deep_view();
            let ghost others_before = others.deep_view();
            match param {
                GenericParam::Lifetime(_) => {
                    lifetimes.push(param);
                    assert(lifetimes.deep_view() == lifetimes_before.push(param.deep_view()));
                },
                _ => {
                    others.push(param);
                    assert(others.deep_view() == others_before.push(param.deep_view()));
                },
            }
            i += 1;
        }
        assert(all.take(i as int) == all);
        let ghost front = lifetimes.deep_view();
        let ghost back = others.deep_view();
        lifetimes.append(&mut others);
        assert(lifetimes.deep_view() == front + back);
        lifetimes
    }

    /// Adds the parameter list to `out`.
    pub fn render_params(&self, out: &mut Vec<Token>)
        ensures
            final(out).deep_view() == old(out).deep_view() + render_params(self.deep_view()),
    {
        if self.params.len() == 0 {
            assert(out.deep_view() + Seq::<Tok>::empty() == out.deep_view());
            return ;
        }
        let order = self.print_order();
        let ghost parts = param_parts(order.deep_view());
        push_fresh(out, '<');
        let ghost start = out.deep_view();
        assert(start + Seq::<Tok>::empty() == start);
        let mut i: usize = 0;
        while i < order.len()
            invariant
                i <= order.len(),
                parts == param_parts(order.deep_view()),
                out.deep_view() == start + separated(parts.take(i as int), fresh(',')),
            decreases order.len() - i,
        {
            proof {
                lemma_separated_push(parts.take(i as int), fresh(','), parts[i as int]);
                assert(parts.take(i + 1) == parts.take(i as int).push(parts[i as int]));
            }
            if i > 0 {
                push_fresh(out, ',');
            }
            order[i].render(out);
            assert(out.deep_view() == start + separated(parts.take(i + 1), fresh(',')));
            i += 1;
        }
        assert(parts.take(i as int) == parts);
        push_fresh(out, '>');
        assert(out.deep_view() == old(out).deep_view() + render_params(self.deep_view()));
    }

    /// Adds the `where` clause to `out`.
    pub fn render_where_clause(&self, out: &mut Vec<Token>)
        ensures
            final(out).deep_view() == old(out).deep_view() + render_where_clause(
                self.deep_view().where_clause,
            ),
    {
        assert(out.deep_view() + Seq::<Tok>::empty() == out.deep_view());
        let clause = match &self.where_clause {
            Some(clause) => clause,
            None => return ,
        };
        if clause.predicates.len() == 0 {
            return ;
        }
        let ghost parts = predicate_parts(clause.predicates.deep_view());
        push_word(out, true, "where");
        let ghost start = out.deep_view();
        assert(start + Seq::<Tok>::empty() == start);
        let mut i: usize = 0;
        while i < clause.predicates.len()
            invariant
                i <= clause.predicates.len(),
                parts == predicate_parts(clause.predicates.deep_view()),
                out.deep_view() == start + separated(parts.take(i as int), fresh(',')),
            decreases clause.predicates.len() - i,
        {
            proof {
                lemma_separated_push(parts.take(i as int), fresh(','), parts[i as int]);
                assert(parts.take(i + 1) == parts.take(i as int).push(parts[i as int]));
            }
            if i > 0 {
                push_fresh(out, ',');
            }
            clause.predicates[i].render(out);
            assert(out.deep_view() == start + separated(parts.take(i + 1), fresh(',')));
            i += 1;
        }
        assert(parts.take(i as int) == parts);
        assert(out.deep_view() == old(out).deep_view() + render_where_clause(
            self.deep_view().where_clause,
        ));
    }
}

/// Adds the trait, with `!` in front where it is negated and `for` behind it,
/// to `out`.
pub fn render_trait_ref(trait_: &TraitRef, out: &mut Vec<Token>)
    ensures
        final(out).deep_view() == old(out).deep_view() + render_trait(trait_.deep_view()),
{
    if trait_.negative {
        push_fresh(out, '!');
    } else {
        assert(out.deep_view() + Seq::<Tok>::empty() == out.deep_view());
    }
    push_tokens(out, &trait_.path);
    push_word(out, true, "for");
    assert(out.deep_view() == old(out).deep_view() + render_trait(trait_.deep_view()));
}

impl ItemImpl {
    /// The braces with the inner attributes and the items inside.
    fn render_block(&self) -> (group: Token)
        ensures
            group.deep_view() == Tok::Group(Delimiter::Brace, render_body(self.deep_view())),
    {
        let mut inner: Vec<Token> = Vec::new();
        assert(inner.deep_view() == Seq::<Tok>::empty());
        push_attributes(&mut inner, &self.attrs, true);
        let ghost start = inner.deep_view();
        let ghost items = self.items.deep_view();
        assert(start == render_attributes(self.deep_view().attrs, true));
        assert(start + Seq::<Seq<Tok>>::empty().flatten() == start);
        let mut i: usize = 0;
        while i < self.items.len()
            invariant
                i <= self.items.len(),
                items == self.items.deep_view(),
                inner.deep_view() == start + items.take(i as int).flatten(),
            decreases self.items.len() - i,
        {
            proof {
                items.take(i as int).lemma_flatten_push(items[i as int]);
                assert(items.take(i + 1) == items.take(i as int).push(items[i as int]));
            }
            push_tokens(&mut inner, &self.items[i]);
            assert(inner.deep_view() == start + items.take(i + 1).flatten());
            i += 1;
        }
        assert(items.take(i as int) == items);
        Token::group(Delimiter::Brace, &inner)
    }

    /// The tokens that spell the block.
    pub fn render(&self) -> (out: Vec<Token>)
        ensures
            out.deep_view() == render_item(self.deep_view()),
    {
        let ghost view = self.deep_view();
        let mut out: Vec<Token> = Vec::new();
        assert(out.deep_view() == Seq::<Tok>::empty());
        push_attributes(&mut out, &self.attrs, false);
        push_word(&mut out, self.defaultness, "default");
        push_word(&mut out, self.unsafety, "unsafe");
        push_word(&mut out, true, "impl");
        let ghost head = render_attributes(view.attrs, false) + flag(
            view.defaultness,
            Tok::Ident("default"@),
        ) + flag(view.unsafety, Tok::Ident("unsafe"@)) + seq![Tok::Ident("impl"@)];
        assert(out.deep_view() == head);
        self.generics.render_params(&mut out);
        let ghost with_params = head + render_params(view.generics) + flag(
            view.constness,
            Tok::Ident("const"@),
        );
        assert(out.deep_view() == with_params);
        render_trait_ref(&self.trait_, &mut out);
        push_tokens(&mut out, &self.self_ty);
        let ghost with_type = with_params + render_trait(view.trait_) + view.self_ty;
        assert(out.deep_view() == with_type);
        self.generics.render_where_clause(&mut out);
        let ghost before = out.deep_view();
        let block = self.render_block();
        out.push(block);
        assert(out.deep_view() == before.push(block.deep_view()));
        assert(out.deep_view() == with_type + render_where_clause(view.generics.where_clause)
            + seq![Tok::Group(Delimiter::Brace, render_body(view))]);
        out
    }
}

} // verus!
