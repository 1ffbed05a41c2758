//! Numerical-methods workbench: a small expression language with a
//! tokeniser, parser and evaluator, the forms and field validation of the
//! problem harness, and the string-level pieces of the solvers' front end.
//!
//! Numeric kernels that compute with machine reals live outside this crate;
//! the crate holds the data structures, the grammar and the decisions, each
//! with a verified contract.
//!
//! - `mathparse`: literals, tokens, the tokeniser, the grammar, the
//!   syntax tree, evaluation over a caller-supplied runtime, and the
//!   laws proved of them.
//! - `problems`: input forms, formula validation and the per-problem
//!   form builders.
//! - `views`: the per-problem editable field sets of the view layer.
//! - `dispatch`: the named problems, their ordering, and the events a
//!   front end sends.
//! - `common`: the CSV line grammar of the table-function exchange.
//! - `integral_eq`: the solvers' shared error and the Volterra scheme's
//!   grid record.

pub mod common;
pub mod dispatch;
pub mod integral_eq;
pub mod mathparse;
pub mod problems;
pub mod views;
