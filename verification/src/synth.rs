//! The shape validator and code synthesizer: turns one type definition into
//! the source text of its merge implementation, or into a stub plus a
//! diagnostic.
//!
//! For a record, the generated body holds one statement per participating
//! field, in field declaration order, each applying that field's resolved
//! strategy; a skipped field contributes nothing. For a sum type, the body
//! matches on the variant of `self`: each participating variant gets one
//! arm that merges the two payloads only when `other` is the same variant,
//! so that merging values of different variants leaves `self` unchanged.
//! On the first failure — an invalid directive, a field without a name, or
//! a variant whose payload is not exactly one unnamed field — the output is
//! a compilable stub whose body signals failure when invoked, paired with
//! the diagnostic; a type that is neither record nor sum type gets the same
//! stub with an empty body, since there is no member list to iterate over.

use vstd::prelude::*;

use crate::ast::Diagnostic;
use crate::ast::DiagnosticView;
use crate::ast::DirectiveSet;
use crate::ast::DirectiveSetView;
use crate::ast::Field;
use crate::ast::FieldView;
use crate::ast::Strategy;
use crate::ast::StrategyView;
use crate::ast::Scope;
use crate::ast::TypeDef;
use crate::ast::TypeDefView;
use crate::ast::Variant;
use crate::ast::VariantView;
use crate::ast::attrs_view;
use crate::ast::fields_view;
use crate::ast::type_ident;
use crate::ast::variants_view;
use crate::directive::parse_directives;
use crate::directive::parse_directives_spec;
use crate::strategy::resolve;
use crate::strategy::resolve_spec;

verus! {

// ---------------------------------------------------------------------
// The generated text, spec level.
// ---------------------------------------------------------------------

/// The opening of every generated implementation, stub included.
pub open spec fn impl_header(ident: Seq<char>) -> Seq<char> {
    "impl ::merge_it::Merge for "@ + ident + " {\n    fn merge(&mut self, other: Self) {\n"@
}

/// The closing of every generated implementation.
pub open spec fn impl_footer() -> Seq<char> {
    "    }\n}\n"@
}

/// The one statement a record field contributes to the generated body: a
/// dispatch to the merge trait, a direct call of the named function, or an
/// invocation of the inline expression through the indirection helper. A
/// skipped field contributes nothing.
pub open spec fn record_stmt_text(ident: Seq<char>, ty: Seq<char>, s: StrategyView) -> Seq<char> {
    match s {
        StrategyView::UseTraitDefault => "        <"@ + ty
            + " as ::merge_it::Merge>::merge(&mut self."@ + ident + ", other."@ + ident + ");\n"@,
        StrategyView::NamedFunction(f) => "        "@ + f + "(&mut self."@ + ident + ", other."@
            + ident + ");\n"@,
        StrategyView::InlineExpression(e) => "        ::merge_it::__apply(&mut self."@ + ident
            + ", other."@ + ident + ", "@ + e + ");\n"@,
        StrategyView::Skip => Seq::<char>::empty(),
    }
}

/// A full record implementation around an already synthesized body.
pub open spec fn record_impl_text(ident: Seq<char>, body: Seq<char>) -> Seq<char> {
    impl_header(ident) + body + impl_footer()
}

/// The statement inside a sum-type arm, applied to the two payloads bound
/// as `left` and `right`.
pub open spec fn sum_arm_stmt(ty: Seq<char>, s: StrategyView) -> Seq<char> {
    match s {
        StrategyView::UseTraitDefault => "<"@ + ty + " as ::merge_it::Merge>::merge(left, right);"@,
        StrategyView::NamedFunction(f) => f + "(left, right);"@,
        StrategyView::InlineExpression(e) => "::merge_it::__apply(left, right, "@ + e + ");"@,
        StrategyView::Skip => Seq::<char>::empty(),
    }
}

/// The one arm a participating variant contributes: it fires on the variant
/// of `self`, and merges the payloads only when `other` carries the same
/// variant — values of different variants are left untouched.
pub open spec fn sum_arm_text(ident: Seq<char>, ty: Seq<char>, s: StrategyView) -> Seq<char> {
    "            Self::"@ + ident + "(left) => { if let Self::"@ + ident + "(right) = other { "@
        + sum_arm_stmt(ty, s) + " } }\n"@
}

/// A full sum-type implementation around already synthesized arms. The
/// final wildcard arm makes merging a skipped or mismatched variant a
/// no-op.
pub open spec fn sum_impl_text(ident: Seq<char>, arms: Seq<char>) -> Seq<char> {
    impl_header(ident) + "        match self {\n"@ + arms + "            _ => {}\n        }\n"@
        + impl_footer()
}

/// The degraded implementation emitted alongside a diagnostic: it compiles,
/// so that dependent code still type-checks, but it can never silently run.
pub open spec fn stub_text(ident: Seq<char>) -> Seq<char> {
    impl_header(ident) + "        panic!(\"merge implementation unavailable\");\n"@ + impl_footer()
}

/// The implementation emitted for a type that is neither a record nor a sum
/// type: with no member list to iterate over, the stub's body is simply
/// empty.
pub open spec fn empty_impl_text(ident: Seq<char>) -> Seq<char> {
    impl_header(ident) + impl_footer()
}

// ---------------------------------------------------------------------
// The pipeline, spec level.
// ---------------------------------------------------------------------

/// What one record field contributes to the generated body, or the first
/// diagnostic its attributes raise. The skip check comes first: a skipped
/// field contributes nothing and need not be named, while a participating
/// field without an identifier is a shape violation.
pub open spec fn record_field_piece(f: FieldView, type_level: DirectiveSetView) -> Result<
    Seq<char>,
    DiagnosticView,
> {
    match parse_directives_spec(f.attrs, Scope::Member) {
        Err(d) => Err(d),
        Ok(ds) => if ds.skip {
            Ok(Seq::<char>::empty())
        } else {
            match f.ident {
                None => Err(DiagnosticView::AnonymousField { loc: f.loc }),
                Some(name) => Ok(record_stmt_text(name, f.ty, resolve_spec(ds, type_level))),
            }
        },
    }
}

/// The statements contributed by the first `n` fields, in declaration
/// order, or the first diagnostic among them.
pub open spec fn record_body_to(
    fields: Seq<FieldView>,
    type_level: DirectiveSetView,
    n: int,
) -> Result<Seq<char>, DiagnosticView>
    decreases n,
{
    if n <= 0 {
        Ok(Seq::<char>::empty())
    } else {
        match record_body_to(fields, type_level, n - 1) {
            Err(d) => Err(d),
            Ok(acc) => match record_field_piece(fields[n - 1], type_level) {
                Err(d) => Err(d),
                Ok(piece) => Ok(acc + piece),
            },
        }
    }
}

/// What one variant contributes to the generated match, or the diagnostic
/// it raises. The skip check comes first: a skipped variant is excluded
/// from the match and its payload arity is not validated, while a
/// participating variant must carry exactly one unnamed payload field.
pub open spec fn sum_variant_piece(v: VariantView, type_level: DirectiveSetView) -> Result<
    Seq<char>,
    DiagnosticView,
> {
    match parse_directives_spec(v.attrs, Scope::Member) {
        Err(d) => Err(d),
        Ok(ds) => if ds.skip {
            Ok(Seq::<char>::empty())
        } else if v.arity != 1 {
            Err(DiagnosticView::InvalidVariantShape { ident: v.ident, loc: v.loc })
        } else {
            Ok(sum_arm_text(v.ident, v.ty, resolve_spec(ds, type_level)))
        },
    }
}

/// The arms contributed by the first `n` variants, in declaration order, or
/// the first diagnostic among them.
pub open spec fn sum_arms_to(
    variants: Seq<VariantView>,
    type_level: DirectiveSetView,
    n: int,
) -> Result<Seq<char>, DiagnosticView>
    decreases n,
{
    if n <= 0 {
        Ok(Seq::<char>::empty())
    } else {
        match sum_arms_to(variants, type_level, n - 1) {
            Err(d) => Err(d),
            Ok(acc) => match sum_variant_piece(variants[n - 1], type_level) {
                Err(d) => Err(d),
                Ok(piece) => Ok(acc + piece),
            },
        }
    }
}

/// The whole resolution-and-synthesis pipeline: the source text of a valid
/// merge implementation, or the first diagnostic that any stage raises.
pub open spec fn pipeline_spec(def: TypeDefView) -> Result<Seq<char>, DiagnosticView> {
    match def {
        TypeDefView::Record { ident, attrs, fields } => match parse_directives_spec(
            attrs,
            Scope::Type,
        ) {
            Err(d) => Err(d),
            Ok(type_level) => match record_body_to(fields, type_level, fields.len() as int) {
                Err(d) => Err(d),
                Ok(body) => Ok(record_impl_text(ident, body)),
            },
        },
        TypeDefView::Sum { ident, attrs, variants } => match parse_directives_spec(
            attrs,
            Scope::Type,
        ) {
            Err(d) => Err(d),
            Ok(type_level) => match sum_arms_to(variants, type_level, variants.len() as int) {
                Err(d) => Err(d),
                Ok(arms) => Ok(sum_impl_text(ident, arms)),
            },
        },
        TypeDefView::Other { ident, loc } => Err(DiagnosticView::UnsupportedTypeKind { loc }),
    }
}

/// The source text the generator emits for a definition: the valid
/// implementation when the pipeline succeeds, the stub otherwise — with an
/// empty body for an unsupported type kind, the failing body for every
/// other failure.
pub open spec fn generated_code_spec(def: TypeDefView) -> Seq<char> {
    match pipeline_spec(def) {
        Ok(code) => code,
        Err(DiagnosticView::UnsupportedTypeKind { .. }) => empty_impl_text(type_ident(def)),
        Err(_) => stub_text(type_ident(def)),
    }
}

/// The diagnostic the generator emits for a definition: none when the
/// pipeline succeeds, the first failure otherwise.
pub open spec fn generated_diag_spec(def: TypeDefView) -> Option<DiagnosticView> {
    match pipeline_spec(def) {
        Ok(_) => None,
        Err(d) => Some(d),
    }
}

// ---------------------------------------------------------------------
// Error propagation lemmas.
// ---------------------------------------------------------------------

/// Once a field has raised a diagnostic, the whole body synthesis yields
/// that same diagnostic: the first failing field decides.
pub proof fn lemma_record_error_sticks(
    fields: Seq<FieldView>,
    type_level: DirectiveSetView,
    i: int,
    n: int,
)
    requires
        0 <= i <= n,
        record_body_to(fields, type_level, i) is Err,
    ensures
        record_body_to(fields, type_level, n) == record_body_to(fields, type_level, i),
    decreases n,
{
    if n > i {
        lemma_record_error_sticks(fields, type_level, i, n - 1);
    }
}

/// Once a variant has raised a diagnostic, the whole match synthesis yields
/// that same diagnostic: the first failing variant decides.
pub proof fn lemma_sum_error_sticks(
    variants: Seq<VariantView>,
    type_level: DirectiveSetView,
    i: int,
    n: int,
)
    requires
        0 <= i <= n,
        sum_arms_to(variants, type_level, i) is Err,
    ensures
        sum_arms_to(variants, type_level, n) == sum_arms_to(variants, type_level, i),
    decreases n,
{
    if n > i {
        lemma_sum_error_sticks(variants, type_level, i, n - 1);
    }
}

// ---------------------------------------------------------------------
// Exec synthesis.
// ---------------------------------------------------------------------

/// Appends the statement one participating record field contributes.
fn append_record_stmt(out: &mut String, ident: &String, ty: &String, s: &Strategy)
    ensures
        final(out)@ == old(out)@ + record_stmt_text(ident@, ty@, s@),
{
    match s {
        Strategy::UseTraitDefault => {
            out.append("        <");
            out.append(ty.as_str());
            out.append(" as ::merge_it::Merge>::merge(&mut self.");
            out.append(ident.as_str());
            out.append(", other.");
            out.append(ident.as_str());
            out.append(");\n");
        },
        Strategy::NamedFunction(f) => {
            out.append("        ");
            out.append(f.as_str());
            out.append("(&mut self.");
            out.append(ident.as_str());
            out.append(", other.");
            out.append(ident.as_str());
            out.append(");\n");
        },
        Strategy::InlineExpression(e) => {
            out.append("        ::merge_it::__apply(&mut self.");
            out.append(ident.as_str());
            out.append(", other.");
            out.append(ident.as_str());
            out.append(", ");
            out.append(e.as_str());
            out.append(");\n");
        },
        Strategy::Skip => {},
    }
    proof {
        assert(out@ =~= old(out)@ + record_stmt_text(ident@, ty@, s@));
    }
}

/// Appends the arm one participating sum-type variant contributes.
fn append_sum_arm(out: &mut String, ident: &String, ty: &String, s: &Strategy)
    ensures
        final(out)@ == old(out)@ + sum_arm_text(ident@, ty@, s@),
{
    out.append("            Self::");
    out.append(ident.as_str());
    out.append("(left) => { if let Self::");
    out.append(ident.as_str());
    out.append("(right) = other { ");
    match s {
        Strategy::UseTraitDefault => {
            out.append("<");
            out.append(ty.as_str());
            out.append(" as ::merge_it::Merge>::merge(left, right);");
        },
        Strategy::NamedFunction(f) => {
            out.append(f.as_str());
            out.append("(left, right);");
        },
        Strategy::InlineExpression(e) => {
            out.append("::merge_it::__apply(left, right, ");
            out.append(e.as_str());
            out.append(");");
        },
        Strategy::Skip => {},
    }
    out.append(" } }\n");
    proof {
        assert(out@ =~= old(out)@ + sum_arm_text(ident@, ty@, s@));
    }
}

/// Synthesizes the statements of a record body, one field at a time and in
/// declaration order, or stops at the first diagnostic.
fn record_body(fields: &Vec<Field>, type_level: &DirectiveSet) -> (r: Result<String, Diagnostic>)
    ensures
        match r {
            Ok(body) => record_body_to(fields_view(fields@), type_level@, fields@.len() as int)
                == Ok::<Seq<char>, DiagnosticView>(body@),
            Err(e) => record_body_to(fields_view(fields@), type_level@, fields@.len() as int)
                == Err::<Seq<char>, DiagnosticView>(e@),
        },
{
    let ghost fv = fields_view(fields@);
    let mut body = String::new();
    let mut i: usize = 0;
    while i < fields.len()
        invariant
            i <= fields@.len(),
            fv == fields_view(fields@),
            record_body_to(fv, type_level@, i as int) == Ok::<Seq<char>, DiagnosticView>(body@),
        decreases fields@.len() - i,
    {
        let f = &fields[i];
        proof {
            assert(fv[i as int] == fields@[i as int]@);
        }
        match parse_directives(&f.attrs, Scope::Member) {
            Err(d) => {
                proof {
                    lemma_record_error_sticks(fv, type_level@, i + 1, fv.len() as int);
                }
                return Err(d);
            },
            Ok(ds) => {
                if !ds.skip {
                    match &f.ident {
                        None => {
                            let e = Diagnostic::AnonymousField { loc: f.loc };
                            proof {
                                lemma_record_error_sticks(fv, type_level@, i + 1, fv.len() as int);
                            }
                            return Err(e);
                        },
                        Some(name) => {
                            let s = resolve(&ds, type_level);
                            append_record_stmt(&mut body, name, &f.ty, &s);
                        },
                    }
                } else {
                    proof {
                        assert(body@ + Seq::<char>::empty() =~= body@);
                    }
                }
            },
        }
        i += 1;
    }
    Ok(body)
}

/// Synthesizes the arms of a sum-type match, one variant at a time and in
/// declaration order, or stops at the first diagnostic.
fn sum_arms(variants: &Vec<Variant>, type_level: &DirectiveSet) -> (r: Result<String, Diagnostic>)
    ensures
        match r {
            Ok(arms) => sum_arms_to(variants_view(variants@), type_level@, variants@.len() as int)
                == Ok::<Seq<char>, DiagnosticView>(arms@),
            Err(e) => sum_arms_to(variants_view(variants@), type_level@, variants@.len() as int)
                == Err::<Seq<char>, DiagnosticView>(e@),
        },
{
    let ghost vv = variants_view(variants@);
    let mut arms = String::new();
    let mut i: usize = 0;
    while i < variants.len()
        invariant
            i <= variants@.len(),
            vv == variants_view(variants@),
            sum_arms_to(vv, type_level@, i as int) == Ok::<Seq<char>, DiagnosticView>(arms@),
        decreases variants@.len() - i,
    {
        let v = &variants[i];
        proof {
            assert(vv[i as int] == variants@[i as int]@);
        }
        match parse_directives(&v.attrs, Scope::Member) {
            Err(d) => {
                proof {
                    lemma_sum_error_sticks(vv, type_level@, i + 1, vv.len() as int);
                }
                return Err(d);
            },
            Ok(ds) => {
                if ds.skip {
                    proof {
                        assert(arms@ + Seq::<char>::empty() =~= arms@);
                    }
                } else if v.arity != 1 {
                    let e = Diagnostic::InvalidVariantShape { ident: v.ident.clone(), loc: v.loc };
                    proof {
                        lemma_sum_error_sticks(vv, type_level@, i + 1, vv.len() as int);
                    }
                    return Err(e);
                } else {
                    let s = resolve(&ds, type_level);
                    append_sum_arm(&mut arms, &v.ident, &v.ty, &s);
                }
            },
        }
        i += 1;
    }
    Ok(arms)
}

/// Appends the shared implementation header.
fn append_impl_header(out: &mut String, ident: &String)
    ensures
        final(out)@ == old(out)@ + impl_header(ident@),
{
    out.append("impl ::merge_it::Merge for ");
    out.append(ident.as_str());
    out.append(" {\n    fn merge(&mut self, other: Self) {\n");
    proof {
        assert(out@ =~= old(out)@ + impl_header(ident@));
    }
}

/// Builds the degraded implementation emitted alongside a diagnostic: the
/// loudly failing stub, or the empty-bodied one for an unsupported type
/// kind, which has no member list to iterate over.
fn make_fallback(ident: &String, d: &Diagnostic) -> (r: String)
    ensures
        r@ == (if d@ is UnsupportedTypeKind {
            empty_impl_text(ident@)
        } else {
            stub_text(ident@)
        }),
{
    let mut out = String::new();
    append_impl_header(&mut out, ident);
    match d {
        Diagnostic::UnsupportedTypeKind { .. } => {
            out.append("    }\n}\n");
            proof {
                assert(out@ =~= empty_impl_text(ident@));
            }
        },
        _ => {
            out.append("        panic!(\"merge implementation unavailable\");\n");
            out.append("    }\n}\n");
            proof {
                assert(out@ =~= stub_text(ident@));
            }
        },
    }
    out
}

/// What one generator invocation hands back to the host: the source text to
/// splice in — a valid implementation or a stub — and the diagnostic to
/// attach, if any stage failed.
pub struct GenOutput {
    pub code: String,
    pub diag: Option<Diagnostic>,
}

/// Runs the whole pipeline on one type definition: parses the directives of
/// every scope, resolves a strategy per member, validates the type's shape,
/// and synthesizes the merge implementation. On the first failure it emits
/// the stub for the type together with the diagnostic, so that the
/// surrounding build keeps compiling but the broken implementation can
/// never silently run.
pub fn generate(def: &TypeDef) -> (out: GenOutput)
    ensures
        out.code@ == generated_code_spec(def@),
        match out.diag {
            Some(d) => generated_diag_spec(def@) == Some(d@),
            None => generated_diag_spec(def@) is None,
        },
{
    match def {
        TypeDef::Record { ident, attrs, fields } => {
            match parse_directives(attrs, Scope::Type) {
                Err(d) => GenOutput { code: make_fallback(ident, &d), diag: Some(d) },
                Ok(type_level) => match record_body(fields, &type_level) {
                    Err(d) => GenOutput { code: make_fallback(ident, &d), diag: Some(d) },
                    Ok(body) => {
                        let mut code = String::new();
                        append_impl_header(&mut code, ident);
                        code.append(body.as_str());
                        code.append("    }\n}\n");
                        proof {
                            assert(code@ =~= record_impl_text(ident@, body@));
                        }
                        GenOutput { code, diag: None }
                    },
                },
            }
        },
        TypeDef::Sum { ident, attrs, variants } => {
            match parse_directives(attrs, Scope::Type) {
                Err(d) => GenOutput { code: make_fallback(ident, &d), diag: Some(d) },
                Ok(type_level) => match sum_arms(variants, &type_level) {
                    Err(d) => GenOutput { code: make_fallback(ident, &d), diag: Some(d) },
                    Ok(arms) => {
                        let mut code = String::new();
                        append_impl_header(&mut code, ident);
                        code.append("        match self {\n");
                        code.append(arms.as_str());
                        code.append("            _ => {}\n        }\n");
                        code.append("    }\n}\n");
                        proof {
                            assert(code@ =~= sum_impl_text(ident@, arms@));
                        }
                        GenOutput { code, diag: None }
                    },
                },
            }
        },
        TypeDef::Other { ident, loc } => {
            let d = Diagnostic::UnsupportedTypeKind { loc: *loc };
            GenOutput { code: make_fallback(ident, &d), diag: Some(d) }
        },
    }
}

} // verus!
