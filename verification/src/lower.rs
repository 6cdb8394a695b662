//! Lowering on the model: what becomes of a trait implementation of the
//! extended dialect when it is rewritten for the baseline grammar.
//!
//! The block loses its `const`. A bound marked `~const` loses the mark, unless
//! the last segment of its path is `Drop`: then the whole bound goes. Nothing
//! else changes, and what stays keeps its order.

use crate::syntax::{
    BoundView, GenericParamView, GenericsView, ItemView, PredicateTypeView, TraitBoundModifier,
    TraitBoundView, TypeParamView, WhereClauseView, WherePredicateView,
};
use vstd::prelude::*;

verus! {

/// The bound is marked `~const`.
pub open spec fn is_tilde_const(bound: BoundView) -> bool {
    bound matches BoundView::Trait(b) && b.modifier is TildeConst
}

/// The bound is one that lowering removes: a trait bound marked `~const`
/// whose path ends in `Drop`.
pub open spec fn is_removed(bound: BoundView) -> bool {
    bound matches BoundView::Trait(b) && (b.modifier is TildeConst && b.last_segment == "Drop"@)
}

/// The bound is one that lowering keeps.
pub open spec fn is_kept(bound: BoundView) -> bool {
    !is_removed(bound)
}

/// A modifier, lowered: `~const` is erased, `?` stays.
pub open spec fn lower_modifier(modifier: TraitBoundModifier) -> TraitBoundModifier {
    match modifier {
        TraitBoundModifier::TildeConst(_) => TraitBoundModifier::Plain,
        other => other,
    }
}

/// A trait bound, lowered: only its modifier changes.
pub open spec fn lower_trait_bound(bound: TraitBoundView) -> TraitBoundView {
    TraitBoundView { modifier: lower_modifier(bound.modifier), ..bound }
}

/// A kept bound, lowered: a `~const` in front of it is erased.
pub open spec fn lower_bound(bound: BoundView) -> BoundView {
    match bound {
        BoundView::Trait(b) => BoundView::Trait(lower_trait_bound(b)),
        BoundView::Lifetime(lifetime) => BoundView::Lifetime(lifetime),
    }
}

/// A bound list, lowered: the kept bounds, each lowered, in their order.
pub open spec fn lower_bounds(bounds: Seq<BoundView>) -> Seq<BoundView> {
    bounds.filter(|b: BoundView| is_kept(b)).map_values(|b: BoundView| lower_bound(b))
}

/// Lowering a bound list bound by bound: the last bound is dropped or added,
/// lowered, to what the bounds before it gave.
pub proof fn lemma_lower_bounds_push(bounds: Seq<BoundView>, bound: BoundView)
    ensures
        lower_bounds(bounds.push(bound)) == if is_kept(bound) {
            lower_bounds(bounds).push(lower_bound(bound))
        } else {
            lower_bounds(bounds)
        },
{
    let kept = |b: BoundView| is_kept(b);
    bounds.lemma_filter_push(bound, kept);
    if is_kept(bound) {
        assert(bounds.filter(kept).push(bound).map_values(|b: BoundView| lower_bound(b))
            =~= bounds.filter(kept).map_values(|b: BoundView| lower_bound(b)).push(
            lower_bound(bound),
        ));
    }
}

/// The empty bound list stays empty.
pub proof fn lemma_lower_bounds_empty()
    ensures
        lower_bounds(Seq::<BoundView>::empty()) == Seq::<BoundView>::empty(),
{
    reveal(Seq::filter);
    assert(lower_bounds(Seq::<BoundView>::empty()) =~= Seq::<BoundView>::empty());
}

/// A type parameter, lowered: only its bound list changes.
pub open spec fn lower_type_param(param: TypeParamView) -> TypeParamView {
    TypeParamView { bounds: lower_bounds(param.bounds), ..param }
}

/// A generic parameter, lowered: only a type parameter changes.
pub open spec fn lower_generic_param(param: GenericParamView) -> GenericParamView {
    match param {
        GenericParamView::Type(p) => GenericParamView::Type(lower_type_param(p)),
        other => other,
    }
}

/// A predicate on a type, lowered: only its bound list changes.
pub open spec fn lower_predicate_type(predicate: PredicateTypeView) -> PredicateTypeView {
    PredicateTypeView { bounds: lower_bounds(predicate.bounds), ..predicate }
}

/// A predicate, lowered: only a predicate on a type changes.
pub open spec fn lower_where_predicate(predicate: WherePredicateView) -> WherePredicateView {
    match predicate {
        WherePredicateView::Type(p) => WherePredicateView::Type(lower_predicate_type(p)),
        other => other,
    }
}

/// A `where` clause, lowered: each predicate lowered, at its place.
pub open spec fn lower_where_clause(clause: WhereClauseView) -> WhereClauseView {
    WhereClauseView {
        predicates: clause.predicates.map_values(|p: WherePredicateView| lower_where_predicate(p)),
    }
}

/// The generics, lowered: each parameter lowered, at its place, and the
/// `where` clause lowered.
pub open spec fn lower_generics(generics: GenericsView) -> GenericsView {
    GenericsView {
        params: generics.params.map_values(|p: GenericParamView| lower_generic_param(p)),
        where_clause: match generics.where_clause {
            Some(clause) => Some(lower_where_clause(clause)),
            None => None,
        },
    }
}

/// A trait implementation, lowered.
pub open spec fn lower_item(item: ItemView) -> ItemView {
    ItemView { generics: lower_generics(item.generics), constness: false, ..item }
}

/// No bound of the list is marked `~const`.
pub open spec fn bounds_are_baseline(bounds: Seq<BoundView>) -> bool {
    forall|i: int| 0 <= i < bounds.len() ==> !is_tilde_const(#[trigger] bounds[i])
}

/// No bound of the parameter is marked `~const`.
pub open spec fn param_is_baseline(param: GenericParamView) -> bool {
    param matches GenericParamView::Type(p) ==> bounds_are_baseline(p.bounds)
}

/// No bound of the predicate is marked `~const`.
pub open spec fn predicate_is_baseline(predicate: WherePredicateView) -> bool {
    predicate matches WherePredicateView::Type(p) ==> bounds_are_baseline(p.bounds)
}

/// No bound of the `where` clause is marked `~const`.
pub open spec fn clause_is_baseline(clause: Option<WhereClauseView>) -> bool {
    clause matches Some(c) ==> forall|i: int|
        0 <= i < c.predicates.len() ==> predicate_is_baseline(#[trigger] c.predicates[i])
}

/// No bound of a parameter or of the `where` clause is marked `~const`.
pub open spec fn generics_are_baseline(generics: GenericsView) -> bool {
    &&& forall|i: int|
        0 <= i < generics.params.len() ==> param_is_baseline(#[trigger] generics.params[i])
    &&& clause_is_baseline(generics.where_clause)
}

/// The block is one of the baseline grammar: it is not marked `const`, and
/// none of its bounds is marked `~const`.
pub open spec fn is_baseline(item: ItemView) -> bool {
    !item.constness && generics_are_baseline(item.generics)
}

/// A bound list without `~const` is lowered to itself.
pub proof fn lemma_lower_bounds_identity(bounds: Seq<BoundView>)
    requires
        bounds_are_baseline(bounds),
    ensures
        lower_bounds(bounds) == bounds,
    decreases bounds.len(),
{
    if bounds.len() == 0 {
        lemma_lower_bounds_empty();
        assert(bounds == Seq::<BoundView>::empty());
    } else {
        let front = bounds.drop_last();
        assert(bounds == front.push(bounds.last()));
        assert forall|i: int| 0 <= i < front.len() implies !is_tilde_const(#[trigger] front[i]) by {
            assert(front[i] == bounds[i]);
        }
        lemma_lower_bounds_identity(front);
        lemma_lower_bounds_push(front, bounds.last());
    }
}

/// Identity on the baseline grammar: a block that is not marked `const` and
/// has no bound marked `~const` is lowered to itself.
pub proof fn lemma_lower_identity(item: ItemView)
    requires
        is_baseline(item),
    ensures
        lower_item(item) == item,
{
    let generics = item.generics;
    assert(generics.params.map_values(|p: GenericParamView| lower_generic_param(p))
        == generics.params) by {
        assert forall|i: int| 0 <= i < generics.params.len() implies lower_generic_param(
            #[trigger] generics.params[i],
        ) == generics.params[i] by {
            assert(param_is_baseline(generics.params[i]));
            match generics.params[i] {
                GenericParamView::Type(p) => lemma_lower_bounds_identity(p.bounds),
                _ => {},
            }
        }
    }
    match generics.where_clause {
        Some(clause) => {
            assert(clause.predicates.map_values(|p: WherePredicateView| lower_where_predicate(p))
                == clause.predicates) by {
                assert forall|i: int|
                    0 <= i < clause.predicates.len() implies lower_where_predicate(
                    #[trigger] clause.predicates[i],
                ) == clause.predicates[i] by {
                    assert(predicate_is_baseline(clause.predicates[i]));
                    match clause.predicates[i] {
                        WherePredicateView::Type(p) => lemma_lower_bounds_identity(p.bounds),
                        _ => {},
                    }
                }
            }
        },
        None => {},
    }
}

/// The positions, in a bound list, of the bounds that lowering keeps, in
/// rising order.
pub open spec fn kept_positions(bounds: Seq<BoundView>) -> Seq<int>
    decreases bounds.len(),
{
    if bounds.len() == 0 {
        Seq::empty()
    } else if is_kept(bounds.last()) {
        kept_positions(bounds.drop_last()).push(bounds.len() - 1)
    } else {
        kept_positions(bounds.drop_last())
    }
}

/// Filtering and order in a bound list: the lowered list holds one bound
/// for each bound that is kept, at the place that the order of the kept
/// bounds gives it, and that bound is the kept one with its `~const` erased.
/// The positions rise, so what stays keeps its order; every kept bound has
/// its position, and a removed bound has none.
pub proof fn lemma_bounds_filtered(bounds: Seq<BoundView>)
    ensures
        lower_bounds(bounds).len() == kept_positions(bounds).len(),
        forall|j: int|
            0 <= j < kept_positions(bounds).len() ==> {
                let from = #[trigger] kept_positions(bounds)[j];
                0 <= from < bounds.len() && is_kept(bounds[from]) && lower_bounds(bounds)[j]
                    == lower_bound(bounds[from])
            },
        forall|j: int, k: int|
            0 <= j < k < kept_positions(bounds).len() ==> kept_positions(bounds)[j]
                < kept_positions(bounds)[k],
        forall|i: int|
            0 <= i < bounds.len() ==> (is_kept(#[trigger] bounds[i]) <==> kept_positions(
                bounds,
            ).contains(i)),
    decreases bounds.len(),
{
    if bounds.len() == 0 {
        lemma_lower_bounds_empty();
        assert(bounds == Seq::<BoundView>::empty());
    } else {
        let front = bounds.drop_last();
        let last = bounds.last();
        assert(bounds == front.push(last));
        lemma_bounds_filtered(front);
        lemma_lower_bounds_push(front, last);
        let positions = kept_positions(bounds);
        let before = kept_positions(front);
        assert forall|i: int| 0 <= i < bounds.len() implies (is_kept(#[trigger] bounds[i])
            <==> positions.contains(i)) by {
            if i < front.len() {
                assert(front[i] == bounds[i]);
                if is_kept(bounds[i]) {
                    let j = choose|j: int| 0 <= j < before.len() && before[j] == i;
                    assert(positions[j] == i);
                }
                if positions.contains(i) {
                    let j = choose|j: int| 0 <= j < positions.len() && positions[j] == i;
                    assert(before[j] == i);
                }
            } else {
                if is_kept(last) {
                    assert(positions[positions.len() - 1] == i);
                } else {
                    if positions.contains(i) {
                        let j = choose|j: int| 0 <= j < positions.len() && positions[j] == i;
                        assert(before[j] < front.len());
                    }
                }
            }
        }
    }
}

/// Filtering totality: what becomes of the bound at `i` of a bound list. It
/// is removed exactly if it is a trait bound marked `~const` whose path ends
/// in `Drop`; any other bound stays and loses no more than its `~const`.
pub proof fn lemma_filtering_totality(bounds: Seq<BoundView>, i: int)
    requires
        0 <= i < bounds.len(),
    ensures
        is_removed(bounds[i]) <==> !kept_positions(bounds).contains(i),
        is_removed(bounds[i]) <==> (bounds[i] matches BoundView::Trait(b) && (b.modifier
            is TildeConst && b.last_segment == "Drop"@)),
        !is_removed(bounds[i]) ==> exists|j: int|
            0 <= j < lower_bounds(bounds).len() && kept_positions(bounds)[j] == i
                && #[trigger] lower_bounds(bounds)[j] == lower_bound(bounds[i]),
        !is_tilde_const(lower_bound(bounds[i])),
{
    lemma_bounds_filtered(bounds);
    if !is_removed(bounds[i]) {
        assert(is_kept(bounds[i]));
        let j = choose|j: int|
            0 <= j < kept_positions(bounds).len() && kept_positions(bounds)[j] == i;
        assert(lower_bounds(bounds)[j] == lower_bound(bounds[i]));
    }
}

/// Order preservation among the bounds: of two bounds that stay, the one
/// that stood first stands first.
pub proof fn lemma_bounds_keep_order(bounds: Seq<BoundView>, j: int, k: int)
    requires
        0 <= j < k < lower_bounds(bounds).len(),
    ensures
        0 <= kept_positions(bounds)[j] < kept_positions(bounds)[k] < bounds.len(),
        lower_bounds(bounds)[j] == lower_bound(bounds[kept_positions(bounds)[j]]),
        lower_bounds(bounds)[k] == lower_bound(bounds[kept_positions(bounds)[k]]),
{
    lemma_bounds_filtered(bounds);
}

/// Order preservation among the generic parameters and the predicates:
/// lowering keeps every one of them, each at its place.
pub proof fn lemma_generics_keep_order(generics: GenericsView)
    ensures
        lower_generics(generics).params.len() == generics.params.len(),
        forall|i: int|
            0 <= i < generics.params.len() ==> #[trigger] lower_generics(generics).params[i]
                == lower_generic_param(generics.params[i]),
        generics.where_clause matches Some(clause) ==> {
            &&& lower_generics(generics).where_clause is Some
            &&& lower_generics(generics).where_clause->0.predicates.len()
                == clause.predicates.len()
            &&& forall|i: int|
                0 <= i < clause.predicates.len() ==> #[trigger] lower_generics(
                    generics,
                ).where_clause->0.predicates[i] == lower_where_predicate(clause.predicates[i])
        },
        generics.where_clause is None ==> lower_generics(generics).where_clause is None,
{
}

/// A lowered bound list has no bound marked `~const`.
pub proof fn lemma_lowered_bounds_are_baseline(bounds: Seq<BoundView>)
    ensures
        bounds_are_baseline(lower_bounds(bounds)),
{
    lemma_bounds_filtered(bounds);
}

/// What lowering yields is a block of the baseline grammar.
pub proof fn lemma_lowered_is_baseline(item: ItemView)
    ensures
        is_baseline(lower_item(item)),
{
    let lowered = lower_item(item).generics;
    assert forall|i: int| 0 <= i < lowered.params.len() implies param_is_baseline(
        #[trigger] lowered.params[i],
    ) by {
        match item.generics.params[i] {
            GenericParamView::Type(p) => lemma_lowered_bounds_are_baseline(p.bounds),
            _ => {},
        }
    }
    match item.generics.where_clause {
        Some(clause) => {
            let predicates = lowered.where_clause->0.predicates;
            assert forall|i: int| 0 <= i < predicates.len() implies predicate_is_baseline(
                #[trigger] predicates[i],
            ) by {
                match clause.predicates[i] {
                    WherePredicateView::Type(p) => lemma_lowered_bounds_are_baseline(p.bounds),
                    _ => {},
                }
            }
        },
        None => {},
    }
}

/// Lowering twice is lowering once.
pub proof fn lemma_lower_idempotent(item: ItemView)
    ensures
        lower_item(lower_item(item)) == lower_item(item),
{
    lemma_lowered_is_baseline(item);
    lemma_lower_identity(lower_item(item));
}

} // verus!
