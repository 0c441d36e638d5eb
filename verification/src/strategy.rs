//! The strategy resolver: given the directives found on a member and the
//! directives found on the enclosing type, picks the merge strategy for that
//! member.
//!
//! The precedence is fixed: `skip` short-circuits resolution entirely, a
//! member-level `with` comes next, then a type-level `with`, and a member
//! with no directive at all falls back to the merge trait implementation
//! for its declared type.

use vstd::prelude::*;

use crate::ast::DirectiveSet;
use crate::ast::DirectiveSetView;
use crate::ast::MergeExpr;
use crate::ast::MergeExprView;
use crate::ast::Strategy;
use crate::ast::StrategyView;

verus! {

/// The strategy a `with` value stands for: a named function for a path, the
/// inline-expression indirection for anything else.
pub open spec fn strategy_of_expr(e: MergeExprView) -> StrategyView {
    match e {
        MergeExprView::Path(p) => StrategyView::NamedFunction(p),
        MergeExprView::Closure(c) => StrategyView::InlineExpression(c),
    }
}

/// The strategy resolved for one member: `skip`, then the member's own
/// `with`, then the type-level `with`, then the trait default.
pub open spec fn resolve_spec(member: DirectiveSetView, type_level: DirectiveSetView) -> StrategyView {
    if member.skip {
        StrategyView::Skip
    } else {
        match member.with_expr {
            Some(e) => strategy_of_expr(e),
            None => match type_level.with_expr {
                Some(e) => strategy_of_expr(e),
                None => StrategyView::UseTraitDefault,
            },
        }
    }
}

/// Picks the merge strategy for one member with the fixed precedence:
/// member-level `with` over type-level `with` over the trait default, with
/// `skip` short-circuiting resolution entirely.
pub fn resolve(member: &DirectiveSet, type_level: &DirectiveSet) -> (s: Strategy)
    ensures
        s@ == resolve_spec(member@, type_level@),
{
    if member.skip {
        Strategy::Skip
    } else {
        match &member.with_expr {
            Some(MergeExpr::Path(p)) => Strategy::NamedFunction(p.clone()),
            Some(MergeExpr::Closure(c)) => Strategy::InlineExpression(c.clone()),
            None => match &type_level.with_expr {
                Some(MergeExpr::Path(p)) => Strategy::NamedFunction(p.clone()),
                Some(MergeExpr::Closure(c)) => Strategy::InlineExpression(c.clone()),
                None => Strategy::UseTraitDefault,
            },
        }
    }
}

/// A member's own `with` override always decides the strategy: the member is
/// updated with exactly that function or expression, never with the trait
/// default, and never silently skipped.
pub proof fn lemma_member_override_wins(member: DirectiveSetView, type_level: DirectiveSetView)
    requires
        !member.skip,
        member.with_expr is Some,
    ensures
        member.with_expr matches Some(MergeExprView::Path(p)) ==> resolve_spec(member, type_level)
            == StrategyView::NamedFunction(p),
        member.with_expr matches Some(MergeExprView::Closure(c)) ==> resolve_spec(
            member,
            type_level,
        ) == StrategyView::InlineExpression(c),
        resolve_spec(member, type_level) != StrategyView::UseTraitDefault,
        resolve_spec(member, type_level) != StrategyView::Skip,
{
}

/// A member with a `with` override of its own resolves the same way whatever
/// the enclosing type declares: the member-level override takes precedence
/// over any type-level one.
pub proof fn lemma_member_override_ignores_type_level(
    member: DirectiveSetView,
    type_level_a: DirectiveSetView,
    type_level_b: DirectiveSetView,
)
    requires
        member.with_expr is Some || member.skip,
    ensures
        resolve_spec(member, type_level_a) == resolve_spec(member, type_level_b),
{
}

/// The type-level `with` applies to every member that has no override of
/// its own; a member with no directives at all falls back to the trait
/// default.
pub proof fn lemma_type_level_default_applies(member: DirectiveSetView, type_level: DirectiveSetView)
    requires
        !member.skip,
        member.with_expr is None,
    ensures
        type_level.with_expr matches Some(MergeExprView::Path(p)) ==> resolve_spec(
            member,
            type_level,
        ) == StrategyView::NamedFunction(p),
        type_level.with_expr is None ==> resolve_spec(member, type_level)
            == StrategyView::UseTraitDefault,
{
}

/// A member marked `skip` resolves to `Skip`, whatever else is declared on
/// the member or on the type.
pub proof fn lemma_skip_short_circuits(member: DirectiveSetView, type_level: DirectiveSetView)
    requires
        member.skip,
    ensures
        resolve_spec(member, type_level) == StrategyView::Skip,
{
}

} // verus!
