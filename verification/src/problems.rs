//! The problem harness: input forms, field validation, and the builders
//! that hold each solver's form.  The numeric solving itself happens
//! outside this crate; what is validated and which fields exist is decided
//! here.

use vstd::prelude::*;

pub mod area_calc;
pub mod form;
pub mod fredholm_1st;
pub mod graph;
pub mod gradients_min;
pub mod penalty_min;
pub mod spline;
pub mod volterra_2nd;
pub mod wolterra_2nd;

use crate::mathparse::expr::{spec_vars, Expr, expr_view};
use crate::mathparse::parse::spec_parse;
use crate::mathparse::runtime::{lang_pred, Language};
use crate::mathparse::chars::str_eq;
use vstd::string::StringExecFns;

verus! {

/// A field the user filled in that cannot be used, with the reason.
pub struct ValidationError(pub String);

/// Whether every free variable of the formula is among the allowed names;
/// with no restriction, every formula passes.
pub open spec fn vars_allowed(e: crate::mathparse::expr::ExprV, allowed: Option<Seq<Seq<char>>>) -> bool {
    match allowed {
        None => true,
        Some(av) => spec_vars(e).subset_of(av.to_set()),
    }
}

/// The allowed names as character sequences.
pub open spec fn allowed_view(allowed_vars: Option<&Vec<String>>) -> Option<Seq<Seq<char>>> {
    match allowed_vars {
        Some(av) => Some(crate::mathparse::runtime::strs_view(av@)),
        None => None,
    }
}

/// Parses one formula field and checks its variables against the allowed
/// axes.  On success the parsed tree lands in `expr`; on failure `expr` is
/// left alone and the error names the field.
pub fn validate_expr<R: Language>(
    field_name: &str,
    contents: &str,
    allowed_vars: Option<&Vec<String>>,
    runtime: &R,
    expr: &mut Option<Expr>,
) -> (r: Result<(), ValidationError>)
    ensures
        match r {
            Ok(()) => {
                &&& spec_parse(contents@, lang_pred(runtime)) is Some
                &&& vars_allowed(spec_parse(contents@, lang_pred(runtime))->0, allowed_view(allowed_vars))
                &&& (*final(expr)) matches Some(pe) && Some(expr_view(pe)) == spec_parse(
                    contents@,
                    lang_pred(runtime),
                )
            },
            Err(v) => {
                &&& *final(expr) == *old(expr)
                &&& (spec_parse(contents@, lang_pred(runtime)) is None ==> v.0@ == field_name@
                    + " - could not parse"@)
                &&& (spec_parse(contents@, lang_pred(runtime)) is Some ==> v.0@ == field_name@
                    + " - variables not allowed"@)
                &&& (spec_parse(contents@, lang_pred(runtime)) is Some ==> !vars_allowed(
                    spec_parse(contents@, lang_pred(runtime))->0,
                    allowed_view(allowed_vars),
                ))
            },
        },
{
    match crate::mathparse::parse(contents, runtime) {
        None => {
            let mut msg = field_name.to_owned();
            msg.append(" - could not parse");
            Err(ValidationError(msg))
        },
        Some(parsed) => {
            let ok = match allowed_vars {
                None => true,
                Some(av) => {
                    let vars = parsed.query_vars();
                    let mut all_in: bool = true;
                    let ghost avv = crate::mathparse::runtime::strs_view(av@);
                    let mut i: usize = 0;
                    while i < vars.len()
                        invariant
                            i <= vars@.len(),
                            all_in == (forall|j: int|
                                0 <= j < i ==> avv.to_set().contains(vars@[j]@)),
                            avv == crate::mathparse::runtime::strs_view(av@),
                        decreases vars@.len() - i,
                    {
                        let mut found: bool = false;
                        let mut k: usize = 0;
                        while k < av.len()
                            invariant
                                k <= av@.len(),
                                avv == crate::mathparse::runtime::strs_view(av@),
                                i < vars@.len(),
                                found == (exists|m: int|
                                    0 <= m < k && avv[m] == vars@[i as int]@),
                            decreases av@.len() - k,
                        {
                            if str_eq(av[k].as_str(), vars[i].as_str()) {
                                proof {
                                    assert(avv[k as int] == vars@[i as int]@);
                                }
                                found = true;
                            }
                            k = k + 1;
                        }
                        proof {
                            if found {
                                assert(avv.to_set().contains(vars@[i as int]@)) by {
                                    let m = choose|m: int|
                                        0 <= m < av@.len() && avv[m] == vars@[i as int]@;
                                    assert(avv.contains(vars@[i as int]@));
                                }
                            } else {
                                assert(!avv.to_set().contains(vars@[i as int]@)) by {
                                    if avv.to_set().contains(vars@[i as int]@) {
                                        let m = choose|m: int|
                                            0 <= m < avv.len() && avv[m] == vars@[i as int]@;
                                    }
                                }
                            }
                        }
                        all_in = all_in && found;
                        i = i + 1;
                    }
                    proof {
                        let e = expr_view(parsed);
                        if all_in {
                            assert forall|n: Seq<char>|
                                spec_vars(e).contains(n) implies avv.to_set().contains(n) by {
                                assert(crate::mathparse::expr::strs_contain(vars@, n));
                                let j = choose|j: int|
                                    0 <= j < vars@.len() && vars@[j]@ == n;
                                assert(avv.to_set().contains(vars@[j]@));
                            }
                        } else {
                            let j = choose|j: int|
                                0 <= j < vars@.len() && !avv.to_set().contains(vars@[j]@);
                            assert(crate::mathparse::expr::strs_contain(vars@, vars@[j]@)) by {
                                assert(vars@[j]@ == vars@[j]@);
                            }
                            assert(spec_vars(e).contains(vars@[j]@));
                        }
                    }
                    all_in
                },
            };
            if ok {
                *expr = Some(parsed);
                Ok(())
            } else {
                let mut msg = field_name.to_owned();
                msg.append(" - variables not allowed");
                Err(ValidationError(msg))
            }
        },
    }
}

} // verus!
