//! Binding environments for parsing and evaluation.
//!
//! Parsing needs one capability of the environment: which names denote
//! functions (`Language`).  Evaluation needs the rest: variable lookup,
//! function application and the scalar arithmetic itself (`Runtime`).  The
//! scalar type is the runtime's choice; the crate never computes with
//! machine reals, it hands every arithmetic step to the runtime and proves
//! how the steps are combined.

use vstd::prelude::*;
use vstd::string::StringExecFns;

use super::chars::str_eq;
use super::expr::{res_view, Error, ErrorV};
use super::number::{Number, NumberV};

verus! {

/// The names an environment can classify: parsing asks it which
/// identifiers denote functions.
pub trait Language {
    open spec fn has_func_spec(&self, name: Seq<char>) -> bool {
        false
    }

    fn has_func(&self, name: &str) -> (r: bool)
        ensures
            r == self.has_func_spec(name@),
    ;
}

/// The name-classification a `Language` value induces, as a bare
/// predicate; the grammar depends on the environment through this alone.
pub open spec fn lang_pred<R: Language>(rt: &R) -> spec_fn(Seq<char>) -> bool {
    |n: Seq<char>| rt.has_func_spec(n)
}

/// The classification of the default environment's built-in names.
pub open spec fn builtin_pred() -> spec_fn(Seq<char>) -> bool {
    |n: Seq<char>| is_builtin_func(n)
}

/// The views of a string list.
pub open spec fn strs_view(s: Seq<String>) -> Seq<Seq<char>> {
    s.map_values(|x: String| x@)
}

/// The result of rendering, at the specification level.
pub open spec fn latex_res_view(r: Result<String, Error>) -> Result<Seq<char>, ErrorV> {
    match r {
        Ok(s) => Ok(s@),
        Err(e) => Err(e@),
    }
}

/// A binding environment over some scalar type `V`: variables, functions,
/// and the four arithmetic operations with negation.  Division reports the
/// runtime's own failure (division by zero raises its math error); the
/// other operations are total.
pub trait Runtime<V: Copy>: Language {
    open spec fn var_spec(&self, name: Seq<char>) -> Option<V> {
        None
    }

    open spec fn func_spec(&self, name: Seq<char>, args: Seq<V>) -> Result<V, ErrorV> {
        Err(ErrorV::UndefinedFunction(name))
    }

    open spec fn num_spec(&self, n: NumberV) -> V {
        vstd::pervasive::arbitrary::<V>()
    }

    open spec fn neg_spec(&self, v: V) -> V {
        vstd::pervasive::arbitrary::<V>()
    }

    open spec fn add_spec(&self, l: V, r: V) -> V {
        vstd::pervasive::arbitrary::<V>()
    }

    open spec fn sub_spec(&self, l: V, r: V) -> V {
        vstd::pervasive::arbitrary::<V>()
    }

    open spec fn mul_spec(&self, l: V, r: V) -> V {
        vstd::pervasive::arbitrary::<V>()
    }

    open spec fn div_spec(&self, l: V, r: V) -> Result<V, ErrorV> {
        Err(ErrorV::Math(Seq::empty()))
    }

    open spec fn latex_func_spec(&self, name: Seq<char>, args: Seq<Seq<char>>) -> Result<
        Seq<char>,
        ErrorV,
    > {
        Err(ErrorV::UndefinedFunction(name))
    }

    fn get_var(&self, name: &str) -> (r: Option<V>)
        ensures
            r == self.var_spec(name@),
    ;

    fn eval_func(&self, name: &str, args: &Vec<V>) -> (r: Result<V, Error>)
        ensures
            res_view(r) == self.func_spec(name@, args@),
    ;

    fn num(&self, n: &Number) -> (r: V)
        ensures
            r == self.num_spec(n@),
    ;

    fn neg(&self, v: V) -> (r: V)
        ensures
            r == self.neg_spec(v),
    ;

    fn add(&self, l: V, r: V) -> (res: V)
        ensures
            res == self.add_spec(l, r),
    ;

    fn sub(&self, l: V, r: V) -> (res: V)
        ensures
            res == self.sub_spec(l, r),
    ;

    fn mul(&self, l: V, r: V) -> (res: V)
        ensures
            res == self.mul_spec(l, r),
    ;

    fn div(&self, l: V, r: V) -> (res: Result<V, Error>)
        ensures
            res_view(res) == self.div_spec(l, r),
    ;

    fn to_latex(&self, name: &str, args: &Vec<String>) -> (r: Result<String, Error>)
        ensures
            latex_res_view(r) == self.latex_func_spec(name@, strs_view(args@)),
    ;
}

/// The function names the default environment understands.
pub open spec fn is_builtin_func(n: Seq<char>) -> bool {
    n == "sin"@ || n == "cos"@ || n == "pow"@ || n == "exp"@ || n == "sqrt"@ || n == "ln"@ || n
        == "abs"@
}

/// The name set of the default environment: a list of function names.
/// Scalar behaviour is no concern of parsing, so this type answers only
/// name queries; a caller that evaluates supplies a full `Runtime`.
pub struct DefaultLanguage {
    funcs: Vec<String>,
}

impl DefaultLanguage {
    /// An environment that knows exactly the given function names.
    pub fn new(funcs: Vec<String>) -> (r: DefaultLanguage)
        ensures
            forall|n: Seq<char>|
                r.has_func_spec(n) <==> super::expr::strs_contain(funcs@, n),
    {
        DefaultLanguage { funcs }
    }
}

impl Default for DefaultLanguage {
    /// The built-in alphabet: `sin, cos, pow, exp, sqrt, ln, abs`.
    fn default() -> (r: DefaultLanguage)
        ensures
            forall|n: Seq<char>| r.has_func_spec(n) <==> is_builtin_func(n),
    {
        let mut funcs: Vec<String> = Vec::new();
        funcs.push(String::from_str("sin"));
        funcs.push(String::from_str("cos"));
        funcs.push(String::from_str("pow"));
        funcs.push(String::from_str("exp"));
        funcs.push(String::from_str("sqrt"));
        funcs.push(String::from_str("ln"));
        funcs.push(String::from_str("abs"));
        let r = DefaultLanguage { funcs };
        proof {
            assert forall|n: Seq<char>| r.has_func_spec(n) <==> is_builtin_func(n) by {
                assert(r.funcs@[0]@ == "sin"@);
                assert(r.funcs@[1]@ == "cos"@);
                assert(r.funcs@[2]@ == "pow"@);
                assert(r.funcs@[3]@ == "exp"@);
                assert(r.funcs@[4]@ == "sqrt"@);
                assert(r.funcs@[5]@ == "ln"@);
                assert(r.funcs@[6]@ == "abs"@);
            }
        }
        r
    }
}

impl Language for DefaultLanguage {
    closed spec fn has_func_spec(&self, name: Seq<char>) -> bool {
        super::expr::strs_contain(self.funcs@, name)
    }

    fn has_func(&self, name: &str) -> (r: bool) {
        let mut i: usize = 0;
        while i < self.funcs.len()
            invariant
                i <= self.funcs@.len(),
                forall|j: int| 0 <= j < i ==> self.funcs@[j]@ != name@,
            decreases self.funcs@.len() - i,
        {
            if str_eq(self.funcs[i].as_str(), name) {
                return true;
            }
            i = i + 1;
        }
        false
    }
}

/// How many arguments a built-in function of the default environment
/// takes; `None` for a name it does not know.
pub open spec fn spec_default_arity(name: Seq<char>) -> Option<int> {
    if name == "pow"@ {
        Some(2int)
    } else if name == "sin"@ || name == "cos"@ || name == "exp"@ || name == "sqrt"@ || name
        == "ln"@ || name == "abs"@ {
        Some(1int)
    } else {
        None
    }
}

/// The arity of a built-in function of the default environment.
pub fn default_arity(name: &str) -> (r: Option<usize>)
    ensures
        match r {
            Some(k) => spec_default_arity(name@) == Some(k as int),
            None => spec_default_arity(name@) is None,
        },
{
    if str_eq(name, "pow") {
        Some(2)
    } else if str_eq(name, "sin") || str_eq(name, "cos") || str_eq(name, "exp") || str_eq(
        name,
        "sqrt",
    ) || str_eq(name, "ln") || str_eq(name, "abs") {
        Some(1)
    } else {
        None
    }
}

/// What the default environment renders a function call as.
pub open spec fn spec_default_latex(name: Seq<char>, args: Seq<Seq<char>>) -> Result<
    Seq<char>,
    ErrorV,
> {
    match spec_default_arity(name) {
        None => Err(ErrorV::UndefinedFunction(name)),
        Some(k) => if args.len() != k {
            Err(
                ErrorV::InvalidArgCount {
                    op_name: name,
                    got_args: args.len() as int,
                    expected_args: k,
                },
            )
        } else if name == "sin"@ {
            Ok("sin({"@ + args[0] + "})"@)
        } else if name == "cos"@ {
            Ok("cos({"@ + args[0] + "})"@)
        } else if name == "pow"@ {
            Ok("({"@ + args[0] + "})^{"@ + args[1] + "}"@)
        } else if name == "exp"@ {
            Ok("e^{"@ + args[0] + "}"@)
        } else if name == "sqrt"@ {
            Ok("\\sqrt{"@ + args[0] + "}"@)
        } else if name == "ln"@ {
            Ok("ln({"@ + args[0] + "})"@)
        } else {
            Ok("|{"@ + args[0] + "}|"@)
        },
    }
}

/// Renders one function call of the default environment as LaTeX, exactly
/// as `spec_default_latex` says: unknown names and wrong argument counts
/// are the same errors evaluation would give.
pub fn default_latex(name: &str, args: &Vec<String>) -> (r: Result<String, Error>)
    ensures
        latex_res_view(r) == spec_default_latex(name@, strs_view(args@)),
{
    let arity = match default_arity(name) {
        None => {
            return Err(Error::UndefinedFunction(name.to_owned()));
        },
        Some(k) => k,
    };
    if args.len() != arity {
        return Err(
            Error::InvalidArgCount {
                op_name: name.to_owned(),
                got_args: args.len(),
                expected_args: arity,
            },
        );
    }
    if str_eq(name, "sin") {
        let mut s = String::from_str("sin({");
        s.append(args[0].as_str());
        s.append("})");
        Ok(s)
    } else if str_eq(name, "cos") {
        let mut s = String::from_str("cos({");
        s.append(args[0].as_str());
        s.append("})");
        Ok(s)
    } else if str_eq(name, "pow") {
        let mut s = String::from_str("({");
        s.append(args[0].as_str());
        s.append("})^{");
        s.append(args[1].as_str());
        s.append("}");
        Ok(s)
    } else if str_eq(name, "exp") {
        let mut s = String::from_str("e^{");
        s.append(args[0].as_str());
        s.append("}");
        Ok(s)
    } else if str_eq(name, "sqrt") {
        let mut s = String::from_str("\\sqrt{");
        s.append(args[0].as_str());
        s.append("}");
        Ok(s)
    } else if str_eq(name, "ln") {
        let mut s = String::from_str("ln({");
        s.append(args[0].as_str());
        s.append("})");
        Ok(s)
    } else {
        let mut s = String::from_str("|{");
        s.append(args[0].as_str());
        s.append("}|");
        Ok(s)
    }
}

} // verus!
