//! Derivable field-by-field merging.
//!
//! The crate has two halves. The runtime half is the [`Merge`] trait together
//! with a handful of ready-made merging strategies (`overwrite_if_true`,
//! `overwrite_always`, ...) that generated code and users call directly.
//! The generator half ([`generate`](synth::generate)) takes the description of
//! a record or sum type annotated with `merge` directives, resolves a merging
//! strategy for every member, and emits the source text of a `Merge`
//! implementation for that type, or a stub plus a diagnostic when the
//! directives or the type's shape are invalid.

pub mod ast;
pub mod directive;
pub mod strategy;
pub mod synth;
pub mod laws;
pub mod maps;
pub mod runtime;

pub use ast::Diagnostic;
pub use ast::DirectiveSet;
pub use ast::Field;
pub use ast::MergeExpr;
pub use ast::MetaItem;
pub use ast::Scope;
pub use ast::Strategy;
pub use ast::TypeDef;
pub use ast::Variant;
pub use maps::merge_btree_maps;
pub use synth::GenOutput;
pub use synth::generate;
pub use runtime::__apply;
pub use runtime::Merge;
pub use runtime::merge_options;
pub use runtime::overwrite_always;
pub use runtime::overwrite_if_false;
pub use runtime::overwrite_if_not_default;
pub use runtime::overwrite_if_none;
pub use runtime::overwrite_if_true;
