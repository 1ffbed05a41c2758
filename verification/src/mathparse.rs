//! The expression engine: numeric literals, tokens, the tokeniser, the
//! recursive-descent parser and the abstract syntax tree with its
//! evaluator, variable query and LaTeX printer.

use vstd::prelude::*;

pub mod chars;
pub mod expr;
pub mod laws;
pub mod number;
pub mod parse;
pub mod runtime;

use expr::Expr;
use parse::{opt_expr_view, parse_expr, spec_parse, tokenize};
use runtime::lang_pred;
use runtime::Language;

verus! {

/// Tokenises and parses a formula against the environment's function
/// names, exactly as `spec_parse` says.
pub fn parse<R: Language>(expr: &str, language: &R) -> (r: Option<Expr>)
    ensures
        opt_expr_view(r) == spec_parse(expr@, lang_pred(language)),
{
    match tokenize(expr) {
        Some(tokens) => parse_expr(&tokens, language),
        None => None,
    }
}

} // verus!
