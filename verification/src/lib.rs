//! A verified core of the Erg compiler's middle end: a model of the
//! high-level intermediate representation, its desugaring, the side-effect
//! checker, scope bookkeeping and the naming helpers used in diagnostics.
pub mod context;
pub mod desugar_hir;
pub mod effectcheck;
pub mod error;
pub mod hir;
pub mod instantiate_spec;
pub mod lower_error;
pub mod register;
pub mod strutil;
pub mod style;
pub mod token;
pub mod ty;
