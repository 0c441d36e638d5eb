//! The laws of the generator, stated and proved once over the spec-level
//! pipeline: what a record with no directives compiles to, that a skipped
//! member leaves no trace in the output, and which inputs are rejected with
//! which diagnostic.

use vstd::prelude::*;

use crate::ast::DiagnosticView;
use crate::ast::DirectiveSetView;
use crate::ast::FieldView;
use crate::ast::MetaItemView;
use crate::ast::Scope;
use crate::ast::StrategyView;
use crate::ast::TypeDefView;
use crate::ast::VariantView;
use crate::ast::type_ident;
use crate::directive::empty_directives;
use crate::directive::lemma_prefix_error_sticks;
use crate::directive::parse_directives_spec;
use crate::directive::parse_items_prefix;
use crate::strategy::resolve_spec;
use crate::synth::empty_impl_text;
use crate::synth::generated_code_spec;
use crate::synth::lemma_record_error_sticks;
use crate::synth::lemma_sum_error_sticks;
use crate::synth::generated_diag_spec;
use crate::synth::pipeline_spec;
use crate::synth::record_body_to;
use crate::synth::record_field_piece;
use crate::synth::record_impl_text;
use crate::synth::record_stmt_text;
use crate::synth::stub_text;
use crate::synth::sum_arm_text;
use crate::synth::sum_arms_to;
use crate::synth::sum_variant_piece;

verus! {

// ---------------------------------------------------------------------
// Records with no directives: every field falls back to the trait.
// ---------------------------------------------------------------------

/// The body a record compiles to when every field uses the trait default:
/// one dispatch per field, in declaration order.
pub open spec fn trait_default_body(fields: Seq<FieldView>, n: int) -> Seq<char>
    decreases n,
{
    if n <= 0 {
        Seq::<char>::empty()
    } else {
        trait_default_body(fields, n - 1) + (match fields[n - 1].ident {
            Some(name) => record_stmt_text(name, fields[n - 1].ty, StrategyView::UseTraitDefault),
            None => Seq::<char>::empty(),
        })
    }
}

proof fn lemma_no_directives_body(fields: Seq<FieldView>, n: int)
    requires
        0 <= n <= fields.len(),
        forall|j: int|
            0 <= j < fields.len() ==> (#[trigger] fields[j]).attrs.len() == 0 && fields[j].ident
                is Some,
    ensures
        record_body_to(fields, empty_directives(), n) == Ok::<Seq<char>, DiagnosticView>(
            trait_default_body(fields, n),
        ),
    decreases n,
{
    if n > 0 {
        lemma_no_directives_body(fields, n - 1);
    }
}

/// A record type with no directives anywhere merges every field by that
/// field's own trait implementation: every field resolves to the trait
/// default, and the generated body is exactly one trait dispatch per field,
/// in declaration order.
pub proof fn lemma_no_directives_all_trait_default(
    ident: Seq<char>,
    attrs: Seq<MetaItemView>,
    fields: Seq<FieldView>,
)
    requires
        attrs.len() == 0,
        forall|j: int|
            0 <= j < fields.len() ==> (#[trigger] fields[j]).attrs.len() == 0 && fields[j].ident
                is Some,
    ensures
        pipeline_spec(TypeDefView::Record { ident, attrs, fields }) == Ok::<
            Seq<char>,
            DiagnosticView,
        >(record_impl_text(ident, trait_default_body(fields, fields.len() as int))),
        forall|j: int|
            0 <= j < fields.len() ==> parse_directives_spec(
                (#[trigger] fields[j]).attrs,
                Scope::Member,
            ) == Ok::<DirectiveSetView, DiagnosticView>(empty_directives()),
        resolve_spec(empty_directives(), empty_directives()) == StrategyView::UseTraitDefault,
{
    lemma_no_directives_body(fields, fields.len() as int);
}

// ---------------------------------------------------------------------
// Skipped members leave no trace in the output.
// ---------------------------------------------------------------------

proof fn lemma_record_body_agrees_on_prefix(
    a: Seq<FieldView>,
    b: Seq<FieldView>,
    type_level: DirectiveSetView,
    n: int,
)
    requires
        0 <= n <= a.len(),
        n <= b.len(),
        forall|j: int| 0 <= j < n ==> a[j] == b[j],
    ensures
        record_body_to(a, type_level, n) == record_body_to(b, type_level, n),
    decreases n,
{
    if n > 0 {
        lemma_record_body_agrees_on_prefix(a, b, type_level, n - 1);
    }
}

proof fn lemma_skip_field_removed_upto(
    fields: Seq<FieldView>,
    type_level: DirectiveSetView,
    i: int,
    n: int,
)
    requires
        0 <= i < n <= fields.len(),
        parse_directives_spec(fields[i].attrs, Scope::Member) matches Ok(ds) && ds.skip,
    ensures
        record_body_to(fields, type_level, n) == record_body_to(fields.remove(i), type_level, n - 1),
    decreases n,
{
    let removed = fields.remove(i);
    fields.remove_ensures(i);
    if n == i + 1 {
        lemma_record_body_agrees_on_prefix(fields, removed, type_level, i);
        assert(record_field_piece(fields[i], type_level) == Ok::<Seq<char>, DiagnosticView>(
            Seq::<char>::empty(),
        ));
        match record_body_to(fields, type_level, i) {
            Ok(acc) => {
                assert(acc + Seq::<char>::empty() =~= acc);
            },
            Err(_) => {},
        }
    } else {
        lemma_skip_field_removed_upto(fields, type_level, i, n - 1);
        assert(removed[n - 2] == fields[n - 1]);
    }
}

/// A record field marked `skip` is excluded from the generated merge
/// entirely: the synthesized body is the one the record without that field
/// would get, so no generated statement can touch the field.
pub proof fn lemma_skip_field_contributes_nothing(
    fields: Seq<FieldView>,
    type_level: DirectiveSetView,
    i: int,
)
    requires
        0 <= i < fields.len(),
        parse_directives_spec(fields[i].attrs, Scope::Member) matches Ok(ds) && ds.skip,
    ensures
        record_body_to(fields, type_level, fields.len() as int) == record_body_to(
            fields.remove(i),
            type_level,
            fields.len() - 1,
        ),
{
    lemma_skip_field_removed_upto(fields, type_level, i, fields.len() as int);
}

/// Lifted to the whole pipeline: a record with a skipped field compiles to
/// exactly what the record without that field compiles to, so merging can
/// never touch the skipped field, whatever the right-hand value holds.
pub proof fn lemma_skip_field_removed_from_record(
    ident: Seq<char>,
    attrs: Seq<MetaItemView>,
    fields: Seq<FieldView>,
    i: int,
)
    requires
        0 <= i < fields.len(),
        parse_directives_spec(fields[i].attrs, Scope::Member) matches Ok(ds) && ds.skip,
    ensures
        pipeline_spec(TypeDefView::Record { ident, attrs, fields }) == pipeline_spec(
            TypeDefView::Record { ident, attrs, fields: fields.remove(i) },
        ),
{
    match parse_directives_spec(attrs, Scope::Type) {
        Ok(tl) => {
            lemma_skip_field_contributes_nothing(fields, tl, i);
        },
        Err(_) => {},
    }
}

proof fn lemma_sum_arms_agree_on_prefix(
    a: Seq<VariantView>,
    b: Seq<VariantView>,
    type_level: DirectiveSetView,
    n: int,
)
    requires
        0 <= n <= a.len(),
        n <= b.len(),
        forall|j: int| 0 <= j < n ==> a[j] == b[j],
    ensures
        sum_arms_to(a, type_level, n) == sum_arms_to(b, type_level, n),
    decreases n,
{
    if n > 0 {
        lemma_sum_arms_agree_on_prefix(a, b, type_level, n - 1);
    }
}

proof fn lemma_skip_variant_removed_upto(
    variants: Seq<VariantView>,
    type_level: DirectiveSetView,
    i: int,
    n: int,
)
    requires
        0 <= i < n <= variants.len(),
        parse_directives_spec(variants[i].attrs, Scope::Member) matches Ok(ds) && ds.skip,
    ensures
        sum_arms_to(variants, type_level, n) == sum_arms_to(variants.remove(i), type_level, n - 1),
    decreases n,
{
    let removed = variants.remove(i);
    variants.remove_ensures(i);
    if n == i + 1 {
        lemma_sum_arms_agree_on_prefix(variants, removed, type_level, i);
        assert(sum_variant_piece(variants[i], type_level) == Ok::<Seq<char>, DiagnosticView>(
            Seq::<char>::empty(),
        ));
        match sum_arms_to(variants, type_level, i) {
            Ok(acc) => {
                assert(acc + Seq::<char>::empty() =~= acc);
            },
            Err(_) => {},
        }
    } else {
        lemma_skip_variant_removed_upto(variants, type_level, i, n - 1);
        assert(removed[n - 2] == variants[n - 1]);
    }
}

/// A variant marked `skip` is excluded from the generated match entirely —
/// and in particular its payload arity is never validated: the synthesized
/// arms are the ones the sum type without that variant would get.
pub proof fn lemma_skip_variant_contributes_nothing(
    variants: Seq<VariantView>,
    type_level: DirectiveSetView,
    i: int,
)
    requires
        0 <= i < variants.len(),
        parse_directives_spec(variants[i].attrs, Scope::Member) matches Ok(ds) && ds.skip,
    ensures
        sum_arms_to(variants, type_level, variants.len() as int) == sum_arms_to(
            variants.remove(i),
            type_level,
            variants.len() - 1,
        ),
{
    lemma_skip_variant_removed_upto(variants, type_level, i, variants.len() as int);
}

/// Lifted to the whole pipeline: a sum type with a skipped variant compiles
/// to exactly what the sum type without that variant compiles to — in
/// particular a skipped variant of any payload arity is tolerated.
pub proof fn lemma_skip_variant_removed_from_sum(
    ident: Seq<char>,
    attrs: Seq<MetaItemView>,
    variants: Seq<VariantView>,
    i: int,
)
    requires
        0 <= i < variants.len(),
        parse_directives_spec(variants[i].attrs, Scope::Member) matches Ok(ds) && ds.skip,
    ensures
        pipeline_spec(TypeDefView::Sum { ident, attrs, variants }) == pipeline_spec(
            TypeDefView::Sum { ident, attrs, variants: variants.remove(i) },
        ),
{
    match parse_directives_spec(attrs, Scope::Type) {
        Ok(tl) => {
            lemma_skip_variant_contributes_nothing(variants, tl, i);
        },
        Err(_) => {},
    }
}

// ---------------------------------------------------------------------
// Participating variants: one arm each, guarded by variant identity.
// ---------------------------------------------------------------------

/// A participating variant of the right shape contributes exactly one arm,
/// carrying its resolved strategy applied to the two payloads; the arm is
/// guarded so that it merges only when `other` carries the same variant.
pub proof fn lemma_participating_variant_arm(v: VariantView, type_level: DirectiveSetView)
    requires
        parse_directives_spec(v.attrs, Scope::Member) matches Ok(ds) && !ds.skip,
        v.arity == 1,
    ensures
        parse_directives_spec(v.attrs, Scope::Member) matches Ok(ds) ==> sum_variant_piece(
            v,
            type_level,
        ) == Ok::<Seq<char>, DiagnosticView>(sum_arm_text(v.ident, v.ty, resolve_spec(ds, type_level))),
{
}

// ---------------------------------------------------------------------
// Rejected inputs and the stub they fall back to.
// ---------------------------------------------------------------------

/// A directive key that is neither `with` nor `skip` is rejected, at any
/// scope, with a diagnostic naming that key and its location.
pub proof fn lemma_unknown_directive_rejected(items: Seq<MetaItemView>, scope: Scope, i: int)
    requires
        0 <= i < items.len(),
        parse_items_prefix(items, scope, i) is Ok,
        items[i].key != "with"@,
        items[i].key != "skip"@,
    ensures
        parse_directives_spec(items, scope) == Err::<DirectiveSetView, DiagnosticView>(
            DiagnosticView::UnknownDirective { key: items[i].key, loc: items[i].loc },
        ),
{
    lemma_prefix_error_sticks(items, scope, i + 1, items.len() as int);
}

/// An unknown directive key at type scope rejects the whole record: the
/// generator emits the loudly failing stub for the type and a diagnostic
/// naming that key and its location.
pub proof fn lemma_unknown_type_directive_yields_stub(
    ident: Seq<char>,
    attrs: Seq<MetaItemView>,
    fields: Seq<FieldView>,
    i: int,
)
    requires
        0 <= i < attrs.len(),
        parse_items_prefix(attrs, Scope::Type, i) is Ok,
        attrs[i].key != "with"@,
        attrs[i].key != "skip"@,
    ensures
        generated_code_spec(TypeDefView::Record { ident, attrs, fields }) == stub_text(ident),
        generated_diag_spec(TypeDefView::Record { ident, attrs, fields }) == Some(
            DiagnosticView::UnknownDirective { key: attrs[i].key, loc: attrs[i].loc },
        ),
{
    lemma_unknown_directive_rejected(attrs, Scope::Type, i);
}

/// An unknown directive key on a field rejects the whole record just the
/// same: the generator emits the loudly failing stub for the type and a
/// diagnostic naming that key and its location.
pub proof fn lemma_unknown_field_directive_yields_stub(
    ident: Seq<char>,
    attrs: Seq<MetaItemView>,
    fields: Seq<FieldView>,
    i: int,
    j: int,
)
    requires
        0 <= i < fields.len(),
        0 <= j < fields[i].attrs.len(),
        parse_directives_spec(attrs, Scope::Type) matches Ok(tl) && record_body_to(
            fields,
            tl,
            i,
        ) is Ok,
        parse_items_prefix(fields[i].attrs, Scope::Member, j) is Ok,
        fields[i].attrs[j].key != "with"@,
        fields[i].attrs[j].key != "skip"@,
    ensures
        generated_code_spec(TypeDefView::Record { ident, attrs, fields }) == stub_text(ident),
        generated_diag_spec(TypeDefView::Record { ident, attrs, fields }) == Some(
            DiagnosticView::UnknownDirective {
                key: fields[i].attrs[j].key,
                loc: fields[i].attrs[j].loc,
            },
        ),
{
    lemma_unknown_directive_rejected(fields[i].attrs, Scope::Member, j);
    match parse_directives_spec(attrs, Scope::Type) {
        Ok(tl) => {
            lemma_record_error_sticks(fields, tl, i + 1, fields.len() as int);
        },
        Err(_) => {},
    }
}

/// A participating variant with a payload that is not exactly one unnamed
/// field rejects the whole sum type: the generator emits the loudly failing
/// stub for the type and a diagnostic naming the variant and its location.
pub proof fn lemma_invalid_variant_yields_stub(
    ident: Seq<char>,
    attrs: Seq<MetaItemView>,
    variants: Seq<VariantView>,
    i: int,
)
    requires
        0 <= i < variants.len(),
        parse_directives_spec(attrs, Scope::Type) matches Ok(tl) && sum_arms_to(
            variants,
            tl,
            i,
        ) is Ok,
        parse_directives_spec(variants[i].attrs, Scope::Member) matches Ok(ds) && !ds.skip,
        variants[i].arity != 1,
    ensures
        generated_code_spec(TypeDefView::Sum { ident, attrs, variants }) == stub_text(ident),
        generated_diag_spec(TypeDefView::Sum { ident, attrs, variants }) == Some(
            DiagnosticView::InvalidVariantShape {
                ident: variants[i].ident,
                loc: variants[i].loc,
            },
        ),
{
    match parse_directives_spec(attrs, Scope::Type) {
        Ok(tl) => {
            lemma_sum_error_sticks(variants, tl, i + 1, variants.len() as int);
        },
        Err(_) => {},
    }
}

/// A participating variant whose payload is not exactly one unnamed field
/// is rejected with a diagnostic naming the variant and its location.
pub proof fn lemma_invalid_variant_shape_rejected(v: VariantView, type_level: DirectiveSetView)
    requires
        parse_directives_spec(v.attrs, Scope::Member) matches Ok(ds) && !ds.skip,
        v.arity != 1,
    ensures
        sum_variant_piece(v, type_level) == Err::<Seq<char>, DiagnosticView>(
            DiagnosticView::InvalidVariantShape { ident: v.ident, loc: v.loc },
        ),
{
}

/// Whenever any stage of the pipeline fails, the generator still emits a
/// complete implementation for the type's identifier together with the
/// first diagnostic — the loudly failing stub for a parser, resolver or
/// validator error, the empty-bodied one for an unsupported type kind,
/// which has no member list to iterate over — and emits no diagnostic
/// otherwise.
pub proof fn lemma_failure_yields_stub(def: TypeDefView)
    ensures
        pipeline_spec(def) matches Err(d) ==> generated_diag_spec(def) == Some(d),
        pipeline_spec(def) matches Err(d) ==> generated_code_spec(def) == (
        if d is UnsupportedTypeKind {
            empty_impl_text(type_ident(def))
        } else {
            stub_text(type_ident(def))
        }),
        pipeline_spec(def) matches Ok(code) ==> generated_code_spec(def) == code
            && generated_diag_spec(def) is None,
{
}

} // verus!
