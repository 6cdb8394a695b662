//! The syntax tree of a trait implementation in the baseline grammar, and the
//! conversions that lower the extended tree to it.

use crate::cursor::same_text;
use crate::lower::{
    bounds_are_baseline, is_baseline, is_kept, lemma_lower_bounds_empty, lemma_lower_bounds_push,
    lower_bound, lower_bounds, lower_generic_param, lower_generics, lower_item, lower_modifier,
    lower_predicate_type, lower_trait_bound, lower_type_param, lower_where_clause,
    lower_where_predicate, param_is_baseline, predicate_is_baseline,
};
use crate::syntax;
use crate::syntax::{
    Attribute, BoundView, GenericParamView, GenericsView, ItemConstImpl, ItemView, OpaqueParam,
    PredicateLifetime, PredicateTypeView, TraitBoundView, TraitRef, TypeParamView, WhereClauseView,
    WherePredicateView,
};
use crate::token::Token;
use vstd::prelude::*;

verus! {

/// What stands in front of a trait bound.
#[derive(Clone, Copy, Debug, PartialEq, Eq, Structural)]
pub enum TraitBoundModifier {
    /// Nothing.
    Plain,
    /// `?`
    Maybe,
}

impl DeepView for TraitBoundModifier {
    type V = syntax::TraitBoundModifier;

    open spec fn deep_view(&self) -> syntax::TraitBoundModifier {
        match self {
            TraitBoundModifier::Plain => syntax::TraitBoundModifier::Plain,
            TraitBoundModifier::Maybe => syntax::TraitBoundModifier::Maybe,
        }
    }
}

impl TraitBoundModifier {
    /// The modifier, with `~const` erased.
    pub fn from(m: syntax::TraitBoundModifier) -> (r: TraitBoundModifier)
        ensures
            r.deep_view() == lower_modifier(m),
    {
        match m {
            syntax::TraitBoundModifier::Plain | syntax::TraitBoundModifier::TildeConst(_) => {
                TraitBoundModifier::Plain
            },
            syntax::TraitBoundModifier::Maybe => TraitBoundModifier::Maybe,
        }
    }
}

/// A trait bound.
#[derive(Debug)]
pub struct TraitBound {
    pub parenthesized: bool,
    pub modifier: TraitBoundModifier,
    pub lifetimes: Option<Vec<Token>>,
    pub path: Vec<Token>,
    pub last_segment: String,
}

impl DeepView for TraitBound {
    type V = TraitBoundView;

    open spec fn deep_view(&self) -> TraitBoundView {
        TraitBoundView {
            parenthesized: self.parenthesized,
            modifier: self.modifier.deep_view(),
            lifetimes: self.lifetimes.deep_view(),
            path: self.path.deep_view(),
            last_segment: self.last_segment@,
        }
    }
}

impl TraitBound {
    /// The bound, with `~const` erased.
    pub fn from(b: syntax::TraitBound) -> (r: TraitBound)
        ensures
            r.deep_view() == lower_trait_bound(b.deep_view()),
    {
        let syntax::TraitBound { parenthesized, modifier, lifetimes, path, last_segment } = b;
        TraitBound {
            parenthesized,
            modifier: TraitBoundModifier::from(modifier),
            lifetimes,
            path,
            last_segment,
        }
    }
}

/// One bound of a bound list.
#[derive(Debug)]
pub enum TypeParamBound {
    Trait(TraitBound),
    Lifetime(Vec<Token>),
}

impl DeepView for TypeParamBound {
    type V = BoundView;

    open spec fn deep_view(&self) -> BoundView {
        match self {
            TypeParamBound::Trait(bound) => BoundView::Trait(bound.deep_view()),
            TypeParamBound::Lifetime(lifetime) => BoundView::Lifetime(lifetime.deep_view()),
        }
    }
}

impl TypeParamBound {
    /// The bound, with `~const` erased.
    pub fn from(b: syntax::TypeParamBound) -> (r: TypeParamBound)
        ensures
            r.deep_view() == lower_bound(b.deep_view()),
    {
        match b {
            syntax::TypeParamBound::Lifetime(l) => TypeParamBound::Lifetime(l),
            syntax::TypeParamBound::Trait(t) => TypeParamBound::Trait(TraitBound::from(t)),
        }
    }
}

/// Whether lowering keeps the bound: it is no `~const` bound on `Drop`.
pub fn keeps(bound: &syntax::TypeParamBound) -> (r: bool)
    ensures
        r == is_kept(bound.deep_view()),
{
    match bound {
        syntax::TypeParamBound::Trait(b) => match &b.modifier {
            syntax::TraitBoundModifier::TildeConst(_) => !same_text(&b.last_segment, "Drop"),
            _ => true,
        },
        syntax::TypeParamBound::Lifetime(_) => true,
    }
}

/// A bound list, lowered: the bounds that are kept, each with `~const`
/// erased, in their order.
pub fn lower_bound_list(bounds: Vec<syntax::TypeParamBound>) -> (r: Vec<TypeParamBound>)
    ensures
        r.deep_view() == lower_bounds(bounds.deep_view()),
{
    let ghost all = bounds.deep_view();
    let mut kept: Vec<TypeParamBound> = Vec::new();
    proof {
        lemma_lower_bounds_empty();
        assert(all.take(0) == Seq::<BoundView>::empty());
    }
    for bound in iter: bounds.into_iter()
        invariant
            iter.seq() == bounds@,
            all == bounds.deep_view(),
            kept.deep_view() == lower_bounds(all.take(iter.index() as int)),
    {
        proof {
            let done = all.take(iter.index() as int);
            assert(all.take(iter.index() + 1) == done.push(bound.deep_view()));
            lemma_lower_bounds_push(done, bound.deep_view());
        }
        if keeps(&bound) {
            let ghost before = kept.deep_view();
            let lowered = TypeParamBound::from(bound);
            kept.push(lowered);
            assert(kept.deep_view() == before.push(lowered.deep_view()));
        }
    }
    assert(all.take(all.len() as int) == all);
    kept
}

/// A type parameter.
#[derive(Debug)]
pub struct TypeParam {
    pub attrs: Vec<Attribute>,
    pub ident: Token,
    pub colon_token: bool,
    pub bounds: Vec<TypeParamBound>,
    pub default: Option<Vec<Token>>,
}

impl DeepView for TypeParam {
    type V = TypeParamView;

    open spec fn deep_view(&self) -> TypeParamView {
        TypeParamView {
            attrs: self.attrs.deep_view(),
            ident: self.ident.deep_view(),
            colon_token: self.colon_token,
            bounds: self.bounds.deep_view(),
            default: self.default.deep_view(),
        }
    }
}

impl TypeParam {
    /// The parameter with its bound list lowered.
    pub fn from(t: syntax::TypeParam) -> (r: TypeParam)
        ensures
            r.deep_view() == lower_type_param(t.deep_view()),
    {
        let syntax::TypeParam { attrs, ident, colon_token, bounds, default } = t;
        TypeParam { attrs, ident, colon_token, bounds: lower_bound_list(bounds), default }
    }
}

/// One generic parameter.
#[derive(Debug)]
pub enum GenericParam {
    Type(TypeParam),
    Lifetime(OpaqueParam),
    Const(OpaqueParam),
}

impl DeepView for GenericParam {
    type V = GenericParamView;

    open spec fn deep_view(&self) -> GenericParamView {
        match self {
            GenericParam::Type(param) => GenericParamView::Type(param.deep_view()),
            GenericParam::Lifetime(param) => GenericParamView::Lifetime(param.deep_view()),
            GenericParam::Const(param) => GenericParamView::Const(param.deep_view()),
        }
    }
}

impl GenericParam {
    /// The parameter, lowered: only a type parameter changes.
    pub fn from(param: syntax::GenericParam) -> (r: GenericParam)
        ensures
            r.deep_view() == lower_generic_param(param.deep_view()),
    {
        match param {
            syntax::GenericParam::Const(c) => GenericParam::Const(c),
            syntax::GenericParam::Lifetime(l) => GenericParam::Lifetime(l),
            syntax::GenericParam::Type(t) => GenericParam::Type(TypeParam::from(t)),
        }
    }
}

/// A predicate on a type.
#[derive(Debug)]
pub struct PredicateType {
    pub lifetimes: Option<Vec<Token>>,
    pub bounded_ty: Vec<Token>,
    pub bounds: Vec<TypeParamBound>,
}

impl DeepView for PredicateType {
    type V = PredicateTypeView;

    open spec fn deep_view(&self) -> PredicateTypeView {
        PredicateTypeView {
            lifetimes: self.lifetimes.deep_view(),
            bounded_ty: self.bounded_ty.deep_view(),
            bounds: self.bounds.deep_view(),
        }
    }
}

impl PredicateType {
    /// The predicate with its bound list lowered.
    pub fn from(predicate: syntax::PredicateType) -> (r: PredicateType)
        ensures
            r.deep_view() == lower_predicate_type(predicate.deep_view()),
    {
        let syntax::PredicateType { lifetimes, bounded_ty, bounds } = predicate;
        PredicateType { lifetimes, bounded_ty, bounds: lower_bound_list(bounds) }
    }
}

/// One predicate of a `where` clause.
#[derive(Debug)]
pub enum WherePredicate {
    Type(PredicateType),
    Lifetime(PredicateLifetime),
    Eq(Vec<Token>),
}

impl DeepView for WherePredicate {
    type V = WherePredicateView;

    open spec fn deep_view(&self) -> WherePredicateView {
        match self {
            WherePredicate::Type(predicate) => WherePredicateView::Type(predicate.deep_view()),
            WherePredicate::Lifetime(predicate) => WherePredicateView::Lifetime(
                predicate.deep_view(),
            ),
            WherePredicate::Eq(tokens) => WherePredicateView::Eq(tokens.deep_view()),
        }
    }
}

impl WherePredicate {
    /// The predicate, lowered: only a predicate on a type changes.
    pub fn from(predicate: syntax::WherePredicate) -> (r: WherePredicate)
        ensures
            r.deep_view() == lower_where_predicate(predicate.deep_view()),
    {
        match predicate {
            syntax::WherePredicate::Eq(eq) => WherePredicate::Eq(eq),
            syntax::WherePredicate::Lifetime(lt) => WherePredicate::Lifetime(lt),
            syntax::WherePredicate::Type(ty) => WherePredicate::Type(PredicateType::from(ty)),
        }
    }
}

/// A `where` clause.
#[derive(Debug)]
pub struct WhereClause {
    pub predicates: Vec<WherePredicate>,
}

impl DeepView for WhereClause {
    type V = WhereClauseView;

    open spec fn deep_view(&self) -> WhereClauseView {
        WhereClauseView { predicates: self.predicates.deep_view() }
    }
}

impl WhereClause {
    /// The clause with each predicate lowered, in their order.
    pub fn from(clause: syntax::WhereClause) -> (r: WhereClause)
        ensures
            r.deep_view() == lower_where_clause(clause.deep_view()),
    {
        let syntax::WhereClause { predicates } = clause;
        let ghost all = predicates.deep_view();
        let ghost lowered = all.map_values(|p: WherePredicateView| lower_where_predicate(p));
        let mut out: Vec<WherePredicate> = Vec::new();
        for predicate in iter: predicates.into_iter()
            invariant
                iter.seq() == predicates@,
                all == predicates.deep_view(),
                lowered == all.map_values(|p: WherePredicateView| lower_where_predicate(p)),
                out.deep_view() == lowered.take(iter.index() as int),
        {
            let ghost before = out.deep_view();
            let next = WherePredicate::from(predicate);
            out.push(next);
            assert(out.deep_view() == before.push(next.deep_view()));
        }
        assert(lowered.take(lowered.len() as int) == lowered);
        WhereClause { predicates: out }
    }
}

/// The generic parameters of the block and its `where` clause.
#[derive(Debug)]
pub struct Generics {
    pub params: Vec<GenericParam>,
    pub where_clause: Option<WhereClause>,
}

impl DeepView for Generics {
    type V = GenericsView;

    open spec fn deep_view(&self) -> GenericsView {
        GenericsView {
            params: self.params.deep_view(),
            where_clause: self.where_clause.deep_view(),
        }
    }
}

impl Generics {
    /// The generics with each parameter and the `where` clause lowered.
    pub fn from(generics: syntax::Generics) -> (r: Generics)
        ensures
            r.deep_view() == lower_generics(generics.deep_view()),
    {
        let syntax::Generics { params, where_clause } = generics;
        let ghost all = params.deep_view();
        let ghost lowered = all.map_values(|p: GenericParamView| lower_generic_param(p));
        let mut out: Vec<GenericParam> = Vec::new();
        for param in iter: params.into_iter()
            invariant
                iter.seq() == params@,
                all == params.deep_view(),
                lowered == all.map_values(|p: GenericParamView| lower_generic_param(p)),
                out.deep_view() == lowered.take(iter.index() as int),
        {
            let ghost before = out.deep_view();
            let next = GenericParam::from(param);
            out.push(next);
            assert(out.deep_view() == before.push(next.deep_view()));
        }
        assert(lowered.take(lowered.len() as int) == lowered);
        let where_clause = match where_clause {
            Some(clause) => Some(WhereClause::from(clause)),
            None => None,
        };
        Generics { params: out, where_clause }
    }
}

/// A trait implementation in the baseline grammar.
#[derive(Debug)]
pub struct ItemImpl {
    /// The attributes in front of the block and those inside it.
    pub attrs: Vec<Attribute>,
    /// `default` stands in front.
    pub defaultness: bool,
    /// `unsafe` stands in front.
    pub unsafety: bool,
    pub generics: Generics,
    pub trait_: TraitRef,
    pub self_ty: Vec<Token>,
    pub items: Vec<Vec<Token>>,
}

impl DeepView for ItemImpl {
    type V = ItemView;

    open spec fn deep_view(&self) -> ItemView {
        ItemView {
            attrs: self.attrs.deep_view(),
            defaultness: self.defaultness,
            unsafety: self.unsafety,
            generics: self.generics.deep_view(),
            constness: false,
            trait_: self.trait_.deep_view(),
            self_ty: self.self_ty.deep_view(),
            items: self.items.deep_view(),
        }
    }
}

impl ItemImpl {
    /// The block without its `const`, and with its generics lowered.
    pub fn from(item_const_impl: ItemConstImpl) -> (r: ItemImpl)
        ensures
            r.deep_view() == lower_item(item_const_impl.deep_view()),
    {
        let ItemConstImpl {
            attrs,
            defaultness,
            unsafety,
            generics,
            constness: _constness,
            trait_,
            self_ty,
            items,
        } = item_const_impl;
        ItemImpl {
            attrs,
            defaultness,
            unsafety,
            generics: Generics::from(generics),
            trait_,
            self_ty,
            items,
        }
    }
}

/// A tree of this module is a block of the baseline grammar: it cannot hold
/// `const` or `~const`.
pub proof fn lemma_baseline_tree(item: ItemImpl)
    ensures
        is_baseline(item.deep_view()),
{
    let generics = item.generics.deep_view();
    assert forall|i: int| 0 <= i < generics.params.len() implies param_is_baseline(
        #[trigger] generics.params[i],
    ) by {
        match item.generics.params@[i] {
            GenericParam::Type(param) => {
                assert(bounds_are_baseline(param.bounds.deep_view()));
            },
            _ => {},
        }
    }
    match item.generics.where_clause {
        Some(clause) => {
            let predicates = clause.predicates.deep_view();
            assert forall|i: int| 0 <= i < predicates.len() implies predicate_is_baseline(
                #[trigger] predicates[i],
            ) by {
                match clause.predicates@[i] {
                    WherePredicate::Type(predicate) => {
                        assert(bounds_are_baseline(predicate.bounds.deep_view()));
                    },
                    _ => {},
                }
            }
        },
        None => {},
    }
}

} // verus!
