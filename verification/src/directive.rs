//! The directive parser: scans the `merge(...)` attribute entries of one
//! syntactic scope and extracts the recognized directives into a
//! [`DirectiveSet`], or reports the first invalid entry.
//!
//! Recognized keys are `with` (which needs a value: a named function
//! anywhere, or an inline expression at member scope only) and `skip`
//! (member scope only). Any other key is rejected. Entries are read in
//! order; a later `with` overwrites an earlier one, and the first invalid
//! entry decides the diagnostic.

use vstd::prelude::*;

use crate::ast::Diagnostic;
use crate::ast::DiagnosticView;
use crate::ast::DirectiveSet;
use crate::ast::DirectiveSetView;
use crate::ast::MergeExpr;
use crate::ast::MergeExprView;
use crate::ast::MetaItem;
use crate::ast::MetaItemView;
use crate::ast::Scope;
use crate::ast::attrs_view;

verus! {

/// The directives of a scope that carries no attribute entries at all.
pub open spec fn empty_directives() -> DirectiveSetView {
    DirectiveSetView { with_expr: None, skip: false }
}

/// How one attribute entry updates the directives gathered so far, or which
/// diagnostic it raises.
pub open spec fn parse_item_spec(acc: DirectiveSetView, item: MetaItemView, scope: Scope) -> Result<
    DirectiveSetView,
    DiagnosticView,
> {
    if item.key == "with"@ {
        match item.value {
            None => Err(DiagnosticView::MissingValue { loc: item.loc }),
            Some(MergeExprView::Closure(c)) => if scope is Type {
                Err(DiagnosticView::MisplacedDirective { key: item.key, loc: item.loc })
            } else {
                Ok(
                    DirectiveSetView {
                        with_expr: Some(MergeExprView::Closure(c)),
                        skip: acc.skip,
                    },
                )
            },
            Some(MergeExprView::Path(p)) => Ok(
                DirectiveSetView { with_expr: Some(MergeExprView::Path(p)), skip: acc.skip },
            ),
        }
    } else if item.key == "skip"@ {
        if scope is Type {
            Err(DiagnosticView::MisplacedDirective { key: item.key, loc: item.loc })
        } else {
            Ok(DirectiveSetView { with_expr: acc.with_expr, skip: true })
        }
    } else {
        Err(DiagnosticView::UnknownDirective { key: item.key, loc: item.loc })
    }
}

/// The directives gathered from the first `n` attribute entries of a scope,
/// or the first diagnostic among them.
pub open spec fn parse_items_prefix(items: Seq<MetaItemView>, scope: Scope, n: int) -> Result<
    DirectiveSetView,
    DiagnosticView,
>
    decreases n,
{
    if n <= 0 {
        Ok(empty_directives())
    } else {
        match parse_items_prefix(items, scope, n - 1) {
            Err(d) => Err(d),
            Ok(acc) => parse_item_spec(acc, items[n - 1], scope),
        }
    }
}

/// What parsing a whole attribute list yields: the directive set, or the
/// first diagnostic.
pub open spec fn parse_directives_spec(items: Seq<MetaItemView>, scope: Scope) -> Result<
    DirectiveSetView,
    DiagnosticView,
> {
    parse_items_prefix(items, scope, items.len() as int)
}

/// Once an entry has raised a diagnostic, every longer prefix yields that
/// same diagnostic: the first invalid entry decides.
pub proof fn lemma_prefix_error_sticks(items: Seq<MetaItemView>, scope: Scope, i: int, n: int)
    requires
        0 <= i <= n,
        parse_items_prefix(items, scope, i) is Err,
    ensures
        parse_items_prefix(items, scope, n) == parse_items_prefix(items, scope, i),
    decreases n,
{
    if n > i {
        lemma_prefix_error_sticks(items, scope, i, n - 1);
    }
}

/// Scans the attribute entries of one scope and extracts the recognized
/// directives, or reports the first invalid entry.
pub fn parse_directives(attrs: &Vec<MetaItem>, scope: Scope) -> (r: Result<
    DirectiveSet,
    Diagnostic,
>)
    ensures
        match r {
            Ok(d) => parse_directives_spec(attrs_view(attrs@), scope) == Ok::<
                DirectiveSetView,
                DiagnosticView,
            >(d@),
            Err(e) => parse_directives_spec(attrs_view(attrs@), scope) == Err::<
                DirectiveSetView,
                DiagnosticView,
            >(e@),
        },
{
    let with_key = String::from_str("with");
    let skip_key = String::from_str("skip");
    let mut acc = DirectiveSet { with_expr: None, skip: false };
    let mut i: usize = 0;
    while i < attrs.len()
        invariant
            i <= attrs.len(),
            parse_items_prefix(attrs_view(attrs@), scope, i as int) == Ok::<
                DirectiveSetView,
                DiagnosticView,
            >(acc@),
            with_key@ == "with"@,
            skip_key@ == "skip"@,
        decreases attrs.len() - i,
    {
        let item = &attrs[i];
        let ghost items = attrs_view(attrs@);
        proof {
            assert(items[i as int] == attrs@[i as int]@);
        }
        if item.key == with_key {
            match &item.value {
                None => {
                    let e = Diagnostic::MissingValue { loc: item.loc };
                    proof {
                        lemma_prefix_error_sticks(items, scope, i + 1, items.len() as int);
                    }
                    return Err(e);
                },
                Some(MergeExpr::Closure(c)) => {
                    if matches!(scope, Scope::Type) {
                        let e = Diagnostic::MisplacedDirective {
                            key: item.key.clone(),
                            loc: item.loc,
                        };
                        proof {
                            lemma_prefix_error_sticks(items, scope, i + 1, items.len() as int);
                        }
                        return Err(e);
                    }
                    acc.with_expr = Some(MergeExpr::Closure(c.clone()));
                },
                Some(MergeExpr::Path(p)) => {
                    acc.with_expr = Some(MergeExpr::Path(p.clone()));
                },
            }
        } else if item.key == skip_key {
            if matches!(scope, Scope::Type) {
                let e = Diagnostic::MisplacedDirective { key: item.key.clone(), loc: item.loc };
                proof {
                    lemma_prefix_error_sticks(items, scope, i + 1, items.len() as int);
                }
                return Err(e);
            }
            acc.skip = true;
        } else {
            let e = Diagnostic::UnknownDirective { key: item.key.clone(), loc: item.loc };
            proof {
                lemma_prefix_error_sticks(items, scope, i + 1, items.len() as int);
            }
            return Err(e);
        }
        i += 1;
    }
    Ok(acc)
}

} // verus!
