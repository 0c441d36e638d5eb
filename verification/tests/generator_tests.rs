//! Behaviour of the generator half: the source text synthesized for records
//! and sum types under each strategy, and the stub-plus-diagnostic fallback
//! for every way a definition can be invalid.

use merge_it::Diagnostic;
use merge_it::Field;
use merge_it::MergeExpr;
use merge_it::MetaItem;
use merge_it::Scope;
use merge_it::Strategy;
use merge_it::TypeDef;
use merge_it::Variant;
use merge_it::directive::parse_directives;
use merge_it::generate;
use merge_it::strategy::resolve;

fn meta(key: &str, value: Option<MergeExpr>, loc: u64) -> MetaItem {
    MetaItem { key: key.to_string(), value, loc }
}

fn with_path(path: &str, loc: u64) -> MetaItem {
    meta("with", Some(MergeExpr::Path(path.to_string())), loc)
}

fn with_closure(closure: &str, loc: u64) -> MetaItem {
    meta("with", Some(MergeExpr::Closure(closure.to_string())), loc)
}

fn skip(loc: u64) -> MetaItem {
    meta("skip", None, loc)
}

fn field(ident: &str, ty: &str, attrs: Vec<MetaItem>, loc: u64) -> Field {
    Field { ident: Some(ident.to_string()), ty: ty.to_string(), attrs, loc }
}

fn variant(ident: &str, arity: u64, ty: &str, attrs: Vec<MetaItem>, loc: u64) -> Variant {
    Variant { ident: ident.to_string(), arity, ty: ty.to_string(), attrs, loc }
}

fn record(ident: &str, attrs: Vec<MetaItem>, fields: Vec<Field>) -> TypeDef {
    TypeDef::Record { ident: ident.to_string(), attrs, fields }
}

fn sum(ident: &str, attrs: Vec<MetaItem>, variants: Vec<Variant>) -> TypeDef {
    TypeDef::Sum { ident: ident.to_string(), attrs, variants }
}

fn stub_for(ident: &str) -> String {
    format!(
        "impl ::merge_it::Merge for {} {{\n    fn merge(&mut self, other: Self) {{\n        \
         panic!(\"merge implementation unavailable\");\n    }}\n}}\n",
        ident
    )
}

#[test]
fn record_without_directives_uses_trait_defaults() {
    let def = record(
        "Example",
        vec![],
        vec![field("simple", "Vec<i32>", vec![], 1), field("opt", "Option<u8>", vec![], 2)],
    );
    let out = generate(&def);
    assert_eq!(
        out.code,
        "impl ::merge_it::Merge for Example {\n    fn merge(&mut self, other: Self) {\n        \
         <Vec<i32> as ::merge_it::Merge>::merge(&mut self.simple, other.simple);\n        \
         <Option<u8> as ::merge_it::Merge>::merge(&mut self.opt, other.opt);\n    }\n}\n"
    );
    assert_eq!(out.diag, None);
}

#[test]
fn record_scenario_seq_and_flag_override() {
    let def = record(
        "Flagged",
        vec![],
        vec![
            field("seq", "Vec<i64>", vec![], 1),
            field("flag", "bool", vec![with_path("overwrite_if_true", 2)], 3),
        ],
    );
    let out = generate(&def);
    assert_eq!(
        out.code,
        "impl ::merge_it::Merge for Flagged {\n    fn merge(&mut self, other: Self) {\n        \
         <Vec<i64> as ::merge_it::Merge>::merge(&mut self.seq, other.seq);\n        \
         overwrite_if_true(&mut self.flag, other.flag);\n    }\n}\n"
    );
    assert_eq!(out.diag, None);
}

#[test]
fn field_closure_goes_through_apply() {
    let def = record(
        "Closured",
        vec![],
        vec![field("x", "Vec<i32>", vec![with_closure("|left, right| left.push(right[0] * 5)", 1)], 2)],
    );
    let out = generate(&def);
    assert_eq!(
        out.code,
        "impl ::merge_it::Merge for Closured {\n    fn merge(&mut self, other: Self) {\n        \
         ::merge_it::__apply(&mut self.x, other.x, |left, right| left.push(right[0] * 5));\n    \
         }\n}\n"
    );
    assert_eq!(out.diag, None);
}

#[test]
fn type_level_default_and_field_override() {
    let def = record(
        "WithDefault",
        vec![with_path("merge_double", 1)],
        vec![
            field("uses_default", "Vec<i32>", vec![], 2),
            field("with_override", "Vec<i32>", vec![with_path("merge_fifth", 3)], 4),
        ],
    );
    let out = generate(&def);
    assert_eq!(
        out.code,
        "impl ::merge_it::Merge for WithDefault {\n    fn merge(&mut self, other: Self) {\n        \
         merge_double(&mut self.uses_default, other.uses_default);\n        \
         merge_fifth(&mut self.with_override, other.with_override);\n    }\n}\n"
    );
    assert_eq!(out.diag, None);
}

#[test]
fn skipped_field_emits_no_statement() {
    let def = record(
        "Partly",
        vec![],
        vec![
            field("kept", "Vec<i32>", vec![], 1),
            field("skipped", "Vec<i32>", vec![skip(2)], 3),
        ],
    );
    let out = generate(&def);
    assert_eq!(
        out.code,
        "impl ::merge_it::Merge for Partly {\n    fn merge(&mut self, other: Self) {\n        \
         <Vec<i32> as ::merge_it::Merge>::merge(&mut self.kept, other.kept);\n    }\n}\n"
    );
    assert_eq!(out.diag, None);
}

#[test]
fn sum_type_arms_guard_on_variant_identity() {
    let def = sum(
        "TestEnum",
        vec![],
        vec![
            variant("Path", 1, "Vec<i32>", vec![with_path("merge_double", 1)], 2),
            variant("Single", 1, "Option<i32>", vec![], 3),
        ],
    );
    let out = generate(&def);
    assert_eq!(
        out.code,
        "impl ::merge_it::Merge for TestEnum {\n    fn merge(&mut self, other: Self) {\n        \
         match self {\n            Self::Path(left) => { if let Self::Path(right) = other { \
         merge_double(left, right); } }\n            Self::Single(left) => { if let \
         Self::Single(right) = other { <Option<i32> as ::merge_it::Merge>::merge(left, right); } \
         }\n            _ => {}\n        }\n    }\n}\n"
    );
    assert_eq!(out.diag, None);
}

#[test]
fn unknown_directive_yields_stub_and_diagnostic() {
    let def = record(
        "Broken",
        vec![],
        vec![field("x", "Vec<i32>", vec![meta("wth", None, 7)], 8)],
    );
    let out = generate(&def);
    assert_eq!(out.code, stub_for("Broken"));
    assert_eq!(
        out.diag,
        Some(Diagnostic::UnknownDirective { key: "wth".to_string(), loc: 7 })
    );
}

#[test]
fn unknown_directive_at_type_scope_is_rejected_too() {
    let def = record("Broken", vec![meta("wtf", None, 4)], vec![]);
    let out = generate(&def);
    assert_eq!(out.code, stub_for("Broken"));
    assert_eq!(
        out.diag,
        Some(Diagnostic::UnknownDirective { key: "wtf".to_string(), loc: 4 })
    );
}

#[test]
fn skip_at_type_scope_is_misplaced() {
    let def = record("Broken", vec![skip(5)], vec![]);
    let out = generate(&def);
    assert_eq!(out.code, stub_for("Broken"));
    assert_eq!(
        out.diag,
        Some(Diagnostic::MisplacedDirective { key: "skip".to_string(), loc: 5 })
    );
}

#[test]
fn closure_at_type_scope_is_misplaced() {
    let def = record("Broken", vec![with_closure("|l, r| *l = r", 6)], vec![]);
    let out = generate(&def);
    assert_eq!(out.code, stub_for("Broken"));
    assert_eq!(
        out.diag,
        Some(Diagnostic::MisplacedDirective { key: "with".to_string(), loc: 6 })
    );
}

#[test]
fn with_without_value_is_rejected() {
    let def = record(
        "Broken",
        vec![],
        vec![field("x", "bool", vec![meta("with", None, 9)], 10)],
    );
    let out = generate(&def);
    assert_eq!(out.code, stub_for("Broken"));
    assert_eq!(out.diag, Some(Diagnostic::MissingValue { loc: 9 }));
}

#[test]
fn anonymous_field_is_rejected() {
    let def = record(
        "Tuple",
        vec![],
        vec![Field { ident: None, ty: "u8".to_string(), attrs: vec![], loc: 11 }],
    );
    let out = generate(&def);
    assert_eq!(out.code, stub_for("Tuple"));
    assert_eq!(out.diag, Some(Diagnostic::AnonymousField { loc: 11 }));
}

#[test]
fn skipped_anonymous_field_is_tolerated() {
    let def = record(
        "Tuple",
        vec![],
        vec![Field { ident: None, ty: "u8".to_string(), attrs: vec![skip(1)], loc: 2 }],
    );
    let out = generate(&def);
    assert_eq!(
        out.code,
        "impl ::merge_it::Merge for Tuple {\n    fn merge(&mut self, other: Self) {\n    }\n}\n"
    );
    assert_eq!(out.diag, None);
}

#[test]
fn variant_with_zero_payloads_is_rejected() {
    let def = sum("Broken", vec![], vec![variant("Unit", 0, "", vec![], 12)]);
    let out = generate(&def);
    assert_eq!(out.code, stub_for("Broken"));
    assert_eq!(
        out.diag,
        Some(Diagnostic::InvalidVariantShape { ident: "Unit".to_string(), loc: 12 })
    );
}

#[test]
fn variant_with_two_payloads_is_rejected() {
    let def = sum("Broken", vec![], vec![variant("Pair", 2, "", vec![], 13)]);
    let out = generate(&def);
    assert_eq!(out.code, stub_for("Broken"));
    assert_eq!(
        out.diag,
        Some(Diagnostic::InvalidVariantShape { ident: "Pair".to_string(), loc: 13 })
    );
}

#[test]
fn skipped_variant_is_not_shape_checked() {
    let def = sum(
        "Partly",
        vec![],
        vec![
            variant("Pair", 2, "", vec![skip(1)], 2),
            variant("Single", 1, "Vec<u8>", vec![], 3),
        ],
    );
    let out = generate(&def);
    assert_eq!(
        out.code,
        "impl ::merge_it::Merge for Partly {\n    fn merge(&mut self, other: Self) {\n        \
         match self {\n            Self::Single(left) => { if let Self::Single(right) = other { \
         <Vec<u8> as ::merge_it::Merge>::merge(left, right); } }\n            _ => {}\n        \
         }\n    }\n}\n"
    );
    assert_eq!(out.diag, None);
}

#[test]
fn unsupported_type_kind_yields_empty_stub() {
    let def = TypeDef::Other { ident: "Uni".to_string(), loc: 14 };
    let out = generate(&def);
    assert_eq!(
        out.code,
        "impl ::merge_it::Merge for Uni {\n    fn merge(&mut self, other: Self) {\n    }\n}\n"
    );
    assert_eq!(out.diag, Some(Diagnostic::UnsupportedTypeKind { loc: 14 }));
}

#[test]
fn later_with_overwrites_earlier() {
    let def = record(
        "Twice",
        vec![],
        vec![field("x", "bool", vec![with_path("first_fn", 1), with_path("second_fn", 2)], 3)],
    );
    let out = generate(&def);
    assert_eq!(
        out.code,
        "impl ::merge_it::Merge for Twice {\n    fn merge(&mut self, other: Self) {\n        \
         second_fn(&mut self.x, other.x);\n    }\n}\n"
    );
    assert_eq!(out.diag, None);
}

#[test]
fn parse_directives_collects_with_and_skip() {
    let attrs = vec![with_path("my_fn", 1), skip(2)];
    let parsed = parse_directives(&attrs, Scope::Member).unwrap();
    assert_eq!(parsed.with_expr, Some(MergeExpr::Path("my_fn".to_string())));
    assert!(parsed.skip);
}

#[test]
fn resolve_precedence_member_over_type_over_trait() {
    let member = parse_directives(&vec![with_path("mine", 1)], Scope::Member).unwrap();
    let type_level = parse_directives(&vec![with_path("theirs", 2)], Scope::Type).unwrap();
    let none = parse_directives(&vec![], Scope::Member).unwrap();

    assert_eq!(resolve(&member, &type_level), Strategy::NamedFunction("mine".to_string()));
    assert_eq!(resolve(&none, &type_level), Strategy::NamedFunction("theirs".to_string()));
    assert_eq!(
        resolve(&none, &parse_directives(&vec![], Scope::Type).unwrap()),
        Strategy::UseTraitDefault
    );

    let skipped = parse_directives(&vec![with_path("mine", 1), skip(2)], Scope::Member).unwrap();
    assert_eq!(resolve(&skipped, &type_level), Strategy::Skip);
}
