//! The generator's picture of one annotated type definition: a record with
//! named fields or a sum type whose variants wrap one unnamed payload each,
//! together with the `merge` directives attached to the type and to its
//! members, and the diagnostics the generator can report about them.
//!
//! Every exec type here has a view made of sequences of characters and plain
//! values; the generator's contracts are stated over those views.

use vstd::prelude::*;

verus! {

/// The value of a `with` directive: a reference to a named function, or an
/// inline two-argument expression, both carried as source text.
#[derive(Debug, Clone, PartialEq, Eq)]
pub enum MergeExpr {
    Path(String),
    Closure(String),
}

/// Spec-level image of [`MergeExpr`].
pub ghost enum MergeExprView {
    Path(Seq<char>),
    Closure(Seq<char>),
}

impl View for MergeExpr {
    type V = MergeExprView;

    open spec fn view(&self) -> MergeExprView {
        match self {
            MergeExpr::Path(s) => MergeExprView::Path(s@),
            MergeExpr::Closure(s) => MergeExprView::Closure(s@),
        }
    }
}

/// One recognized-or-not entry of a `merge(...)` attribute: a directive key,
/// its value if one was written, and the source location of the entry.
#[derive(Debug, Clone, PartialEq, Eq)]
pub struct MetaItem {
    pub key: String,
    pub value: Option<MergeExpr>,
    pub loc: u64,
}

/// Spec-level image of [`MetaItem`].
pub ghost struct MetaItemView {
    pub key: Seq<char>,
    pub value: Option<MergeExprView>,
    pub loc: u64,
}

impl View for MetaItem {
    type V = MetaItemView;

    open spec fn view(&self) -> MetaItemView {
        MetaItemView {
            key: self.key@,
            value: match self.value {
                Some(e) => Some(e@),
                None => None,
            },
            loc: self.loc,
        }
    }
}

/// Maps a sequence of attribute entries to their views.
pub open spec fn attrs_view(attrs: Seq<MetaItem>) -> Seq<MetaItemView> {
    attrs.map_values(|a: MetaItem| a@)
}

/// One field of a record type. A field without an identifier is a shape
/// violation unless the field is skipped.
#[derive(Debug, Clone, PartialEq, Eq)]
pub struct Field {
    pub ident: Option<String>,
    pub ty: String,
    pub attrs: Vec<MetaItem>,
    pub loc: u64,
}

/// Spec-level image of [`Field`].
pub ghost struct FieldView {
    pub ident: Option<Seq<char>>,
    pub ty: Seq<char>,
    pub attrs: Seq<MetaItemView>,
    pub loc: u64,
}

impl View for Field {
    type V = FieldView;

    open spec fn view(&self) -> FieldView {
        FieldView {
            ident: match self.ident {
                Some(s) => Some(s@),
                None => None,
            },
            ty: self.ty@,
            attrs: attrs_view(self.attrs@),
            loc: self.loc,
        }
    }
}

/// Maps a sequence of fields to their views.
pub open spec fn fields_view(fields: Seq<Field>) -> Seq<FieldView> {
    fields.map_values(|f: Field| f@)
}

/// One variant of a sum type. `arity` is the number of unnamed payload
/// fields the variant carries; only an arity of exactly one lets the variant
/// participate in merging, and `ty` is then the payload's declared type.
#[derive(Debug, Clone, PartialEq, Eq)]
pub struct Variant {
    pub ident: String,
    pub arity: u64,
    pub ty: String,
    pub attrs: Vec<MetaItem>,
    pub loc: u64,
}

/// Spec-level image of [`Variant`].
pub ghost struct VariantView {
    pub ident: Seq<char>,
    pub arity: u64,
    pub ty: Seq<char>,
    pub attrs: Seq<MetaItemView>,
    pub loc: u64,
}

impl View for Variant {
    type V = VariantView;

    open spec fn view(&self) -> VariantView {
        VariantView {
            ident: self.ident@,
            arity: self.arity,
            ty: self.ty@,
            attrs: attrs_view(self.attrs@),
            loc: self.loc,
        }
    }
}

/// Maps a sequence of variants to their views.
pub open spec fn variants_view(variants: Seq<Variant>) -> Seq<VariantView> {
    variants.map_values(|v: Variant| v@)
}

/// One type definition handed to the generator. `Other` stands for any type
/// kind besides a record or a sum type; no merge implementation can be
/// generated for it.
#[derive(Debug, Clone, PartialEq, Eq)]
pub enum TypeDef {
    Record { ident: String, attrs: Vec<MetaItem>, fields: Vec<Field> },
    Sum { ident: String, attrs: Vec<MetaItem>, variants: Vec<Variant> },
    Other { ident: String, loc: u64 },
}

/// Spec-level image of [`TypeDef`].
pub ghost enum TypeDefView {
    Record { ident: Seq<char>, attrs: Seq<MetaItemView>, fields: Seq<FieldView> },
    Sum { ident: Seq<char>, attrs: Seq<MetaItemView>, variants: Seq<VariantView> },
    Other { ident: Seq<char>, loc: u64 },
}

impl View for TypeDef {
    type V = TypeDefView;

    open spec fn view(&self) -> TypeDefView {
        match self {
            TypeDef::Record { ident, attrs, fields } => TypeDefView::Record {
                ident: ident@,
                attrs: attrs_view(attrs@),
                fields: fields_view(fields@),
            },
            TypeDef::Sum { ident, attrs, variants } => TypeDefView::Sum {
                ident: ident@,
                attrs: attrs_view(attrs@),
                variants: variants_view(variants@),
            },
            TypeDef::Other { ident, loc } => TypeDefView::Other { ident: ident@, loc: *loc },
        }
    }
}

/// The identifier of a type definition, whatever its kind.
pub open spec fn type_ident(def: TypeDefView) -> Seq<char> {
    match def {
        TypeDefView::Record { ident, .. } => ident,
        TypeDefView::Sum { ident, .. } => ident,
        TypeDefView::Other { ident, .. } => ident,
    }
}

/// Everything that can be wrong with a type definition or its directives.
/// Each diagnostic names the source location it arose at.
#[derive(Debug, Clone, PartialEq, Eq)]
pub enum Diagnostic {
    /// A directive key that is not part of the directive language.
    UnknownDirective { key: String, loc: u64 },
    /// A recognized directive written in a scope that does not admit it:
    /// `skip` on the type itself, or an inline expression as the type-level
    /// default, which must be a named function.
    MisplacedDirective { key: String, loc: u64 },
    /// A `with` directive without a value expression.
    MissingValue { loc: u64 },
    /// A record field without an identifier.
    AnonymousField { loc: u64 },
    /// A participating sum-type variant whose payload is not exactly one
    /// unnamed field.
    InvalidVariantShape { ident: String, loc: u64 },
    /// A type that is neither a record nor a sum type.
    UnsupportedTypeKind { loc: u64 },
}

/// Spec-level image of [`Diagnostic`].
pub ghost enum DiagnosticView {
    UnknownDirective { key: Seq<char>, loc: u64 },
    MisplacedDirective { key: Seq<char>, loc: u64 },
    MissingValue { loc: u64 },
    AnonymousField { loc: u64 },
    InvalidVariantShape { ident: Seq<char>, loc: u64 },
    UnsupportedTypeKind { loc: u64 },
}

impl View for Diagnostic {
    type V = DiagnosticView;

    open spec fn view(&self) -> DiagnosticView {
        match self {
            Diagnostic::UnknownDirective { key, loc } => DiagnosticView::UnknownDirective {
                key: key@,
                loc: *loc,
            },
            Diagnostic::MisplacedDirective { key, loc } => DiagnosticView::MisplacedDirective {
                key: key@,
                loc: *loc,
            },
            Diagnostic::MissingValue { loc } => DiagnosticView::MissingValue { loc: *loc },
            Diagnostic::AnonymousField { loc } => DiagnosticView::AnonymousField { loc: *loc },
            Diagnostic::InvalidVariantShape { ident, loc } => DiagnosticView::InvalidVariantShape {
                ident: ident@,
                loc: *loc,
            },
            Diagnostic::UnsupportedTypeKind { loc } => DiagnosticView::UnsupportedTypeKind {
                loc: *loc,
            },
        }
    }
}

/// The directives one syntactic scope carries after parsing: at most one
/// `with` value and whether `skip` was present.
#[derive(Debug, Clone, PartialEq, Eq)]
pub struct DirectiveSet {
    pub with_expr: Option<MergeExpr>,
    pub skip: bool,
}

/// Spec-level image of [`DirectiveSet`].
pub ghost struct DirectiveSetView {
    pub with_expr: Option<MergeExprView>,
    pub skip: bool,
}

impl View for DirectiveSet {
    type V = DirectiveSetView;

    open spec fn view(&self) -> DirectiveSetView {
        DirectiveSetView {
            with_expr: match self.with_expr {
                Some(e) => Some(e@),
                None => None,
            },
            skip: self.skip,
        }
    }
}

/// A scope directives are parsed against: the type itself, or one of its
/// members (a record field or a sum-type variant).
#[derive(Clone, Copy, PartialEq, Eq, Structural)]
pub enum Scope {
    Type,
    Member,
}

/// The resolved rule for how one member participates in the merge
/// operation.
#[derive(Debug, Clone, PartialEq, Eq)]
pub enum Strategy {
    /// Dispatch to the `Merge` implementation for the member's declared
    /// type.
    UseTraitDefault,
    /// Call the referenced two-argument function directly.
    NamedFunction(String),
    /// Invoke the inline expression through the `__apply` indirection
    /// helper.
    InlineExpression(String),
    /// The member is excluded from the generated logic entirely.
    Skip,
}

/// Spec-level image of [`Strategy`].
pub ghost enum StrategyView {
    UseTraitDefault,
    NamedFunction(Seq<char>),
    InlineExpression(Seq<char>),
    Skip,
}

impl View for Strategy {
    type V = StrategyView;

    open spec fn view(&self) -> StrategyView {
        match self {
            Strategy::UseTraitDefault => StrategyView::UseTraitDefault,
            Strategy::NamedFunction(s) => StrategyView::NamedFunction(s@),
            Strategy::InlineExpression(s) => StrategyView::InlineExpression(s@),
            Strategy::Skip => StrategyView::Skip,
        }
    }
}

} // verus!
