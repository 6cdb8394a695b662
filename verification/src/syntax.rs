//! The syntax tree of a trait implementation in the extended dialect, where
//! the block and its trait bounds may be marked `const`, and its model.
//!
//! A node that this library does not look into (a type, a path, an attribute,
//! an associated item) is held as the tokens that print it. Keywords and
//! punctuation are not held: where one may stand or not, the tree says which.

use crate::token::{Tok, Token};
use vstd::prelude::*;

verus! {

/// An attribute: `#[...]` in front of the block or a parameter, or `#![...]`
/// inside the block.
#[derive(Debug)]
pub struct Attribute {
    pub inner: bool,
    pub tokens: Vec<Token>,
}

/// The model of an `Attribute`.
pub struct AttributeView {
    pub inner: bool,
    pub tokens: Seq<Tok>,
}

impl DeepView for Attribute {
    type V = AttributeView;

    open spec fn deep_view(&self) -> AttributeView {
        AttributeView { inner: self.inner, tokens: self.tokens.deep_view() }
    }
}

/// The mark `~const`.
#[derive(Clone, Copy, Debug, PartialEq, Eq, Structural)]
pub struct TildeConst;

impl DeepView for TildeConst {
    type V = TildeConst;

    open spec fn deep_view(&self) -> TildeConst {
        *self
    }
}

/// What stands in front of a trait bound.
#[derive(Clone, Copy, Debug, PartialEq, Eq, Structural)]
pub enum TraitBoundModifier {
    /// Nothing.
    Plain,
    /// `?`
    Maybe,
    /// `~const`
    TildeConst(TildeConst),
}

impl DeepView for TraitBoundModifier {
    type V = TraitBoundModifier;

    open spec fn deep_view(&self) -> TraitBoundModifier {
        *self
    }
}

/// A trait bound: `?Sized`, `~const Clone`, `for<'a> Fn(&'a T)`, `(Send)`.
#[derive(Debug)]
pub struct TraitBound {
    /// The bound stands in parentheses.
    pub parenthesized: bool,
    pub modifier: TraitBoundModifier,
    /// The `for<...>` binder.
    pub lifetimes: Option<Vec<Token>>,
    /// The path, with its call-style arguments where it has them.
    pub path: Vec<Token>,
    /// The identifier of the path's last segment.
    pub last_segment: String,
}

/// The model of a trait bound, in either dialect.
pub struct TraitBoundView {
    pub parenthesized: bool,
    pub modifier: TraitBoundModifier,
    pub lifetimes: Option<Seq<Tok>>,
    pub path: Seq<Tok>,
    pub last_segment: Seq<char>,
}

impl DeepView for TraitBound {
    type V = TraitBoundView;

    open spec fn deep_view(&self) -> TraitBoundView {
        TraitBoundView {
            parenthesized: self.parenthesized,
            modifier: self.modifier,
            lifetimes: self.lifetimes.deep_view(),
            path: self.path.deep_view(),
            last_segment: self.last_segment@,
        }
    }
}

/// One bound of a bound list.
#[derive(Debug)]
pub enum TypeParamBound {
    Trait(TraitBound),
    /// A lifetime: its two tokens.
    Lifetime(Vec<Token>),
}

/// The model of one bound, in either dialect.
pub enum BoundView {
    Trait(TraitBoundView),
    Lifetime(Seq<Tok>),
}

impl DeepView for TypeParamBound {
    type V = BoundView;

    open spec fn deep_view(&self) -> BoundView {
        match self {
            TypeParamBound::Trait(bound) => BoundView::Trait(bound.deep_view()),
            TypeParamBound::Lifetime(lifetime) => BoundView::Lifetime(lifetime.deep_view()),
        }
    }
}

/// A type parameter: `T`, `T: Clone + 'a`, `T = u8`.
#[derive(Debug)]
pub struct TypeParam {
    pub attrs: Vec<Attribute>,
    pub ident: Token,
    /// A colon stands behind the name.
    pub colon_token: bool,
    pub bounds: Vec<TypeParamBound>,
    /// The type behind `=`.
    pub default: Option<Vec<Token>>,
}

/// The model of a type parameter, in either dialect.
pub struct TypeParamView {
    pub attrs: Seq<AttributeView>,
    pub ident: Tok,
    pub colon_token: bool,
    pub bounds: Seq<BoundView>,
    pub default: Option<Seq<Tok>>,
}

impl DeepView for TypeParam {
    type V = TypeParamView;

    open spec fn deep_view(&self) -> TypeParamView {
        TypeParamView {
            attrs: self.attrs.deep_view(),
            ident: self.ident.deep_view(),
            colon_token: self.colon_token,
            bounds: self.bounds.deep_view(),
            default: self.default.deep_view(),
        }
    }
}

/// A parameter that this library does not look into: a lifetime parameter or
/// a const parameter, with the attributes in front of it.
#[derive(Debug)]
pub struct OpaqueParam {
    pub attrs: Vec<Attribute>,
    pub tokens: Vec<Token>,
}

/// The model of an `OpaqueParam`.
pub struct OpaqueParamView {
    pub attrs: Seq<AttributeView>,
    pub tokens: Seq<Tok>,
}

impl DeepView for OpaqueParam {
    type V = OpaqueParamView;

    open spec fn deep_view(&self) -> OpaqueParamView {
        OpaqueParamView { attrs: self.attrs.deep_view(), tokens: self.tokens.deep_view() }
    }
}

/// One generic parameter.
#[derive(Debug)]
pub enum GenericParam {
    Type(TypeParam),
    Lifetime(OpaqueParam),
    Const(OpaqueParam),
}

/// The model of one generic parameter, in either dialect.
pub enum GenericParamView {
    Type(TypeParamView),
    Lifetime(OpaqueParamView),
    Const(OpaqueParamView),
}

impl DeepView for GenericParam {
    type V = GenericParamView;

    open spec fn deep_view(&self) -> GenericParamView {
        match self {
            GenericParam::Type(param) => GenericParamView::Type(param.deep_view()),
            GenericParam::Lifetime(param) => GenericParamView::Lifetime(param.deep_view()),
            GenericParam::Const(param) => GenericParamView::Const(param.deep_view()),
        }
    }
}

/// A predicate on a type: `for<'c> Foo<'c>: Trait<'c>`.
#[derive(Debug)]
pub struct PredicateType {
    pub lifetimes: Option<Vec<Token>>,
    pub bounded_ty: Vec<Token>,
    pub bounds: Vec<TypeParamBound>,
}

/// The model of a predicate on a type, in either dialect.
pub struct PredicateTypeView {
    pub lifetimes: Option<Seq<Tok>>,
    pub bounded_ty: Seq<Tok>,
    pub bounds: Seq<BoundView>,
}

impl DeepView for PredicateType {
    type V = PredicateTypeView;

    open spec fn deep_view(&self) -> PredicateTypeView {
        PredicateTypeView {
            lifetimes: self.lifetimes.deep_view(),
            bounded_ty: self.bounded_ty.deep_view(),
            bounds: self.bounds.deep_view(),
        }
    }
}

/// A predicate on a lifetime: `'a: 'b + 'c`.
#[derive(Debug)]
pub struct PredicateLifetime {
    pub lifetime: Vec<Token>,
    pub bounds: Vec<Vec<Token>>,
}

/// The model of a `PredicateLifetime`.
pub struct PredicateLifetimeView {
    pub lifetime: Seq<Tok>,
    pub bounds: Seq<Seq<Tok>>,
}

impl DeepView for PredicateLifetime {
    type V = PredicateLifetimeView;

    open spec fn deep_view(&self) -> PredicateLifetimeView {
        PredicateLifetimeView {
            lifetime: self.lifetime.deep_view(),
            bounds: self.bounds.deep_view(),
        }
    }
}

/// One predicate of a `where` clause.
#[derive(Debug)]
pub enum WherePredicate {
    Type(PredicateType),
    Lifetime(PredicateLifetime),
    /// An equality predicate. No parser of this library yields one.
    Eq(Vec<Token>),
}

/// The model of one predicate, in either dialect.
pub enum WherePredicateView {
    Type(PredicateTypeView),
    Lifetime(PredicateLifetimeView),
    Eq(Seq<Tok>),
}

impl DeepView for WherePredicate {
    type V = WherePredicateView;

    open spec fn deep_view(&self) -> WherePredicateView {
        match self {
            WherePredicate::Type(predicate) => WherePredicateView::Type(predicate.deep_view()),
            WherePredicate::Lifetime(predicate) => WherePredicateView::Lifetime(
                predicate.deep_view(),
            ),
            WherePredicate::Eq(tokens) => WherePredicateView::Eq(tokens.deep_view()),
        }
    }
}

/// A `where` clause.
#[derive(Debug)]
pub struct WhereClause {
    pub predicates: Vec<WherePredicate>,
}

/// The model of a `where` clause, in either dialect.
pub struct WhereClauseView {
    pub predicates: Seq<WherePredicateView>,
}

impl DeepView for WhereClause {
    type V = WhereClauseView;

    open spec fn deep_view(&self) -> WhereClauseView {
        WhereClauseView { predicates: self.predicates.deep_view() }
    }
}

/// The generic parameters of the block and its `where` clause.
#[derive(Debug)]
pub struct Generics {
    pub params: Vec<GenericParam>,
    pub where_clause: Option<WhereClause>,
}

/// The model of the generics, in either dialect.
pub struct GenericsView {
    pub params: Seq<GenericParamView>,
    pub where_clause: Option<WhereClauseView>,
}

impl DeepView for Generics {
    type V = GenericsView;

    open spec fn deep_view(&self) -> GenericsView {
        GenericsView {
            params: self.params.deep_view(),
            where_clause: self.where_clause.deep_view(),
        }
    }
}

/// The trait that the block implements: `Trait for`, `!Trait for`.
#[derive(Debug)]
pub struct TraitRef {
    /// `!` stands in front: the block says that the trait is not implemented.
    pub negative: bool,
    pub path: Vec<Token>,
}

/// The model of a `TraitRef`.
pub struct TraitRefView {
    pub negative: bool,
    pub path: Seq<Tok>,
}

impl DeepView for TraitRef {
    type V = TraitRefView;

    open spec fn deep_view(&self) -> TraitRefView {
        TraitRefView { negative: self.negative, path: self.path.deep_view() }
    }
}

/// A trait implementation in the extended dialect.
#[derive(Debug)]
pub struct ItemConstImpl {
    /// The attributes in front of the block and those inside it.
    pub attrs: Vec<Attribute>,
    /// `default` stands in front.
    pub defaultness: bool,
    /// `unsafe` stands in front.
    pub unsafety: bool,
    pub generics: Generics,
    /// The block itself is marked `const`.
    pub constness: bool,
    pub trait_: TraitRef,
    pub self_ty: Vec<Token>,
    /// The associated items.
    pub items: Vec<Vec<Token>>,
}

/// The model of a trait implementation, in either dialect.
pub struct ItemView {
    pub attrs: Seq<AttributeView>,
    pub defaultness: bool,
    pub unsafety: bool,
    pub generics: GenericsView,
    pub constness: bool,
    pub trait_: TraitRefView,
    pub self_ty: Seq<Tok>,
    pub items: Seq<Seq<Tok>>,
}

impl DeepView for ItemConstImpl {
    type V = ItemView;

    open spec fn deep_view(&self) -> ItemView {
        ItemView {
            attrs: self.attrs.deep_view(),
            defaultness: self.defaultness,
            unsafety: self.unsafety,
            generics: self.generics.deep_view(),
            constness: self.constness,
            trait_: self.trait_.deep_view(),
            self_ty: self.self_ty.deep_view(),
            items: self.items.deep_view(),
        }
    }
}

} // verus!
