//! The abstract syntax tree of the expression language, its evaluation
//! errors, and the pure queries over it.
//!
//! A tree is finite and owns its subexpressions; evaluation walks it
//! against a runtime (see the `runtime` module) and reports the first
//! failure found, evaluating operands left to right.

use vstd::prelude::*;
use vstd::string::StringExecFns;

use super::chars::push_char;
use super::number::{Number, NumberV};
use super::runtime::{latex_res_view, strs_view, Runtime};

verus! {

/// A binary operator of the grammar.
#[derive(Debug, Clone, Copy, PartialEq, Eq, Structural)]
pub enum Op {
    Add,
    Sub,
    Mul,
    Div,
}

/// A variable reference.
#[derive(Debug, Clone)]
pub struct Variable {
    pub name: String,
}

impl Variable {
    /// Wraps a name as an expression.
    pub fn new_expression(name: String) -> (r: Expr)
        ensures
            expr_view(r) == ExprV::Var(name@),
    {
        Expr::Var(Variable { name })
    }
}

/// An expression tree.
#[derive(Debug)]
pub enum Expr {
    Num(Number),
    Var(Variable),
    Neg(Box<Expr>),
    BinOp(Op, Box<Expr>, Box<Expr>),
    Call(String, Vec<Expr>),
}

/// Specification-level image of an expression tree.
pub enum ExprV {
    Num(NumberV),
    Var(Seq<char>),
    Neg(Box<ExprV>),
    BinOp(Op, Box<ExprV>, Box<ExprV>),
    Call(Seq<char>, Seq<ExprV>),
}

pub open spec fn expr_view(e: Expr) -> ExprV
    decreases e,
{
    match e {
        Expr::Num(n) => ExprV::Num(n@),
        Expr::Var(v) => ExprV::Var(v.name@),
        Expr::Neg(inner) => ExprV::Neg(Box::new(expr_view(*inner))),
        Expr::BinOp(op, l, r) => ExprV::BinOp(op, Box::new(expr_view(*l)), Box::new(expr_view(*r))),
        Expr::Call(name, args) => ExprV::Call(name@, exprs_view(args@)),
    }
}

pub open spec fn exprs_view(s: Seq<Expr>) -> Seq<ExprV>
    decreases s,
{
    if s.len() == 0 {
        Seq::empty()
    } else {
        seq![expr_view(s[0])] + exprs_view(s.subrange(1, s.len() as int))
    }
}

/// An evaluation failure.
#[derive(Debug, Clone)]
pub enum Error {
    UndefinedVariable(String),
    UndefinedFunction(String),
    InvalidArgCount { op_name: String, got_args: usize, expected_args: usize },
    Math(String),
}

/// Specification-level image of an evaluation failure.
pub enum ErrorV {
    UndefinedVariable(Seq<char>),
    UndefinedFunction(Seq<char>),
    InvalidArgCount { op_name: Seq<char>, got_args: int, expected_args: int },
    Math(Seq<char>),
}

impl View for Error {
    type V = ErrorV;

    open spec fn view(&self) -> ErrorV {
        match self {
            Error::UndefinedVariable(s) => ErrorV::UndefinedVariable(s@),
            Error::UndefinedFunction(s) => ErrorV::UndefinedFunction(s@),
            Error::InvalidArgCount { op_name, got_args, expected_args } => ErrorV::InvalidArgCount {
                op_name: op_name@,
                got_args: *got_args as int,
                expected_args: *expected_args as int,
            },
            Error::Math(s) => ErrorV::Math(s@),
        }
    }
}

impl PartialEq for Error {
    fn eq(&self, other: &Error) -> (r: bool) {
        match (self, other) {
            (Error::UndefinedVariable(a), Error::UndefinedVariable(b)) => *a == *b,
            (Error::UndefinedFunction(a), Error::UndefinedFunction(b)) => *a == *b,
            (
                Error::InvalidArgCount { op_name: a, got_args: ag, expected_args: ae },
                Error::InvalidArgCount { op_name: b, got_args: bg, expected_args: be },
            ) => *a == *b && *ag == *bg && *ae == *be,
            (Error::Math(a), Error::Math(b)) => *a == *b,
            _ => false,
        }
    }
}

impl vstd::std_specs::cmp::PartialEqSpecImpl for Error {
    open spec fn obeys_eq_spec() -> bool {
        true
    }

    open spec fn eq_spec(&self, other: &Error) -> bool {
        self@ == other@
    }
}

/// The result of an evaluation, at the specification level.
pub open spec fn res_view<V>(r: Result<V, Error>) -> Result<V, ErrorV> {
    match r {
        Ok(v) => Ok(v),
        Err(e) => Err(e@),
    }
}

/// The free variables of an expression.
pub open spec fn spec_vars(e: ExprV) -> Set<Seq<char>>
    decreases e,
{
    match e {
        ExprV::Num(_) => Set::empty(),
        ExprV::Var(name) => Set::empty().insert(name),
        ExprV::Neg(inner) => spec_vars(*inner),
        ExprV::BinOp(_, l, r) => spec_vars(*l).union(spec_vars(*r)),
        ExprV::Call(_, args) => spec_vars_list(args),
    }
}

pub open spec fn spec_vars_list(s: Seq<ExprV>) -> Set<Seq<char>>
    decreases s,
{
    if s.len() == 0 {
        Set::empty()
    } else {
        spec_vars(s[0]).union(spec_vars_list(s.subrange(1, s.len() as int)))
    }
}

/// Whether some string of the list reads `n`.
pub open spec fn strs_contain(s: Seq<String>, n: Seq<char>) -> bool {
    exists|i: int| 0 <= i < s.len() && s[i]@ == n
}

/// Whether the list holds no two strings that read the same.
pub open spec fn strs_distinct(s: Seq<String>) -> bool {
    forall|i: int, j: int| 0 <= i < j < s.len() ==> s[i]@ != s[j]@
}

fn contains_name(v: &Vec<String>, name: &String) -> (r: bool)
    ensures
        r == strs_contain(v@, name@),
{
    let mut i: usize = 0;
    while i < v.len()
        invariant
            i <= v@.len(),
            forall|j: int| 0 <= j < i ==> v@[j]@ != name@,
        decreases v@.len() - i,
    {
        if v[i] == *name {
            return true;
        }
        i = i + 1;
    }
    false
}

impl Expr {
    /// The set of free variable names, each reported once.
    pub fn query_vars(&self) -> (r: Vec<String>)
        ensures
            strs_distinct(r@),
            forall|n: Seq<char>| strs_contain(r@, n) <==> spec_vars(expr_view(*self)).contains(n),
    {
        let mut acc: Vec<String> = Vec::new();
        self.collect_vars(&mut acc);
        acc
    }

    fn collect_vars(&self, acc: &mut Vec<String>)
        requires
            strs_distinct(old(acc)@),
        ensures
            strs_distinct(final(acc)@),
            forall|n: Seq<char>|
                strs_contain(final(acc)@, n) <==> strs_contain(old(acc)@, n) || spec_vars(
                    expr_view(*self),
                ).contains(n),
        decreases self,
    {
        match self {
            Expr::Num(_) => {},
            Expr::Var(v) => {
                if !contains_name(acc, &v.name) {
                    let ghost before = acc@;
                    acc.push(v.name.clone());
                    proof {
                        assert forall|n: Seq<char>|
                            strs_contain(acc@, n) implies strs_contain(before, n) || n
                            == v.name@ by {
                            let i = choose|i: int| 0 <= i < acc@.len() && acc@[i]@ == n;
                            if i < before.len() {
                                assert(before[i]@ == n);
                            }
                        }
                        assert forall|n: Seq<char>|
                            strs_contain(before, n) implies strs_contain(acc@, n) by {
                            let i = choose|i: int| 0 <= i < before.len() && before[i]@ == n;
                            assert(acc@[i]@ == n);
                        }
                        assert(strs_contain(acc@, v.name@)) by {
                            assert(acc@[acc@.len() - 1]@ == v.name@);
                        }
                    }
                }
            },
            Expr::Neg(inner) => {
                inner.collect_vars(acc);
            },
            Expr::BinOp(_, l, r) => {
                l.collect_vars(acc);
                r.collect_vars(acc);
            },
            Expr::Call(_, args) => {
                let ghost all = args@;
                proof {
                    assert(all.subrange(0, 0) =~= Seq::<Expr>::empty());
                }
                let mut i: usize = 0;
                while i < args.len()
                    invariant
                        i <= args@.len(),
                        args@ == all,
                        self is Call,
                        self->Call_1@ == all,
                        strs_distinct(acc@),
                        forall|n: Seq<char>|
                            strs_contain(acc@, n) <==> strs_contain(old(acc)@, n)
                                || spec_vars_list(exprs_view(all.subrange(0, i as int))).contains(
                                n,
                            ),
                    decreases args@.len() - i,
                {
                    proof {
                        assert(decreases_to!(*self => self->Call_1@[i as int])) by {
                            assert(decreases_to!(*self => self->Call_1));
                            assert(decreases_to!(self->Call_1 => self->Call_1@));
                            assert(decreases_to!(self->Call_1@ => self->Call_1@[i as int]));
                        }
                    }
                    args[i].collect_vars(acc);
                    proof {
                        lemma_vars_list_take(all, i as int);
                    }
                    i = i + 1;
                }
                proof {
                    assert(all.subrange(0, all.len() as int) =~= all);
                }
            },
        }
    }
}

/// What evaluating an expression against the runtime `rt` yields: the
/// literal via the runtime's reading, a variable via its bindings, an
/// operation via its arithmetic; operands left to right, the first
/// failure wins.
pub open spec fn spec_eval<V: Copy, R: Runtime<V>>(e: ExprV, rt: &R) -> Result<V, ErrorV>
    decreases e,
{
    match e {
        ExprV::Num(n) => Ok(rt.num_spec(n)),
        ExprV::Var(name) => match rt.var_spec(name) {
            Some(v) => Ok(v),
            None => Err(ErrorV::UndefinedVariable(name)),
        },
        ExprV::Neg(inner) => match spec_eval(*inner, rt) {
            Ok(v) => Ok(rt.neg_spec(v)),
            Err(e) => Err(e),
        },
        ExprV::BinOp(op, l, r) => match spec_eval(*l, rt) {
            Ok(lv) => match spec_eval(*r, rt) {
                Ok(rv) => match op {
                    Op::Add => Ok(rt.add_spec(lv, rv)),
                    Op::Sub => Ok(rt.sub_spec(lv, rv)),
                    Op::Mul => Ok(rt.mul_spec(lv, rv)),
                    Op::Div => rt.div_spec(lv, rv),
                },
                Err(e) => Err(e),
            },
            Err(e) => Err(e),
        },
        ExprV::Call(name, args) => match spec_eval_args(args, rt) {
            Ok(vs) => rt.func_spec(name, vs),
            Err(e) => Err(e),
        },
    }
}

pub open spec fn spec_eval_args<V: Copy, R: Runtime<V>>(s: Seq<ExprV>, rt: &R) -> Result<
    Seq<V>,
    ErrorV,
>
    decreases s,
{
    if s.len() == 0 {
        Ok(Seq::empty())
    } else {
        match spec_eval(s[0], rt) {
            Ok(v) => match spec_eval_args(s.subrange(1, s.len() as int), rt) {
                Ok(vs) => Ok(seq![v] + vs),
                Err(e) => Err(e),
            },
            Err(e) => Err(e),
        }
    }
}

/// Argument values already computed, joined with what the rest yields.
pub open spec fn args_tail<V>(done: Seq<V>, rest: Result<Seq<V>, ErrorV>) -> Result<
    Seq<V>,
    ErrorV,
> {
    match rest {
        Ok(vs) => Ok(done + vs),
        Err(e) => Err(e),
    }
}

/// Evaluating a non-empty list splits off its head.
proof fn lemma_eval_args_head<V: Copy, R: Runtime<V>>(s: Seq<Expr>, rt: &R)
    requires
        s.len() > 0,
    ensures
        spec_eval_args(exprs_view(s), rt) == (match spec_eval(expr_view(s[0]), rt) {
            Ok(v) => match spec_eval_args(exprs_view(s.subrange(1, s.len() as int)), rt) {
                Ok(vs) => Ok(seq![v] + vs),
                Err(e) => Err(e),
            },
            Err(e) => Err(e),
        }),
{
    let ev = exprs_view(s);
    let rest = exprs_view(s.subrange(1, s.len() as int));
    assert(ev == seq![expr_view(s[0])] + rest);
    assert(ev.len() == rest.len() + 1);
    assert(ev[0] == expr_view(s[0]));
    assert(ev.subrange(1, ev.len() as int) =~= rest);
}

impl Expr {
    /// Evaluates the tree against a runtime, exactly as `spec_eval` says.
    pub fn eval<V: Copy, R: Runtime<V>>(&self, runtime: &R) -> (r: Result<V, Error>)
        ensures
            res_view(r) == spec_eval(expr_view(*self), runtime),
        decreases self,
    {
        match self {
            Expr::Num(n) => Ok(runtime.num(n)),
            Expr::Var(v) => match runtime.get_var(v.name.as_str()) {
                Some(val) => Ok(val),
                None => Err(Error::UndefinedVariable(v.name.clone())),
            },
            Expr::Neg(inner) => match inner.eval(runtime) {
                Ok(val) => Ok(runtime.neg(val)),
                Err(e) => Err(e),
            },
            Expr::BinOp(op, l, r) => match l.eval(runtime) {
                Ok(lv) => match r.eval(runtime) {
                    Ok(rv) => match op {
                        Op::Add => Ok(runtime.add(lv, rv)),
                        Op::Sub => Ok(runtime.sub(lv, rv)),
                        Op::Mul => Ok(runtime.mul(lv, rv)),
                        Op::Div => runtime.div(lv, rv),
                    },
                    Err(e) => Err(e),
                },
                Err(e) => Err(e),
            },
            Expr::Call(name, args) => {
                let ghost all = args@;
                proof {
                    assert(all.subrange(0, all.len() as int) =~= all);
                }
                let mut vals: Vec<V> = Vec::new();
                let mut i: usize = 0;
                while i < args.len()
                    invariant
                        i <= args@.len(),
                        args@ == all,
                        self is Call,
                        self->Call_1@ == all,
                        spec_eval_args(exprs_view(all), runtime) == args_tail(
                            vals@,
                            spec_eval_args(
                                exprs_view(all.subrange(i as int, all.len() as int)),
                                runtime,
                            ),
                        ),
                    decreases args@.len() - i,
                {
                    proof {
                        assert(decreases_to!(*self => self->Call_1@[i as int])) by {
                            assert(decreases_to!(*self => self->Call_1));
                            assert(decreases_to!(self->Call_1 => self->Call_1@));
                            assert(decreases_to!(self->Call_1@ => self->Call_1@[i as int]));
                        }
                    }
                    let ghost suffix = all.subrange(i as int, all.len() as int);
                    match args[i].eval(runtime) {
                        Ok(v) => {
                            proof {
                                lemma_eval_args_head(suffix, runtime);
                                assert(suffix[0] == all[i as int]);
                                assert(suffix.subrange(1, suffix.len() as int) =~= all.subrange(
                                    i + 1,
                                    all.len() as int,
                                ));
                                if let Ok(vs) = spec_eval_args(
                                    exprs_view(all.subrange(i + 1, all.len() as int)),
                                    runtime,
                                ) {
                                    assert(vals@ + (seq![v] + vs) =~= vals@.push(v) + vs);
                                }
                            }
                            vals.push(v);
                        },
                        Err(e) => {
                            proof {
                                lemma_eval_args_head(suffix, runtime);
                                assert(suffix[0] == all[i as int]);
                            }
                            return Err(e);
                        },
                    }
                    i = i + 1;
                }
                proof {
                    assert(all.subrange(all.len() as int, all.len() as int)
                        =~= Seq::<Expr>::empty());
                    assert(exprs_view(Seq::<Expr>::empty()) =~= Seq::<ExprV>::empty());
                    assert(vals@ + Seq::<V>::empty() =~= vals@);
                }
                runtime.eval_func(name.as_str(), &vals)
            },
        }
    }
}

/// The characters of a digit run.
pub open spec fn digits_chars(d: Seq<u8>) -> Seq<char> {
    d.map_values(|x: u8| (((x + 48) as u8) as char))
}

/// How a literal is printed: the whole digits (`0` when there are none),
/// then the dot and the fractional digits when any are stored.
pub open spec fn num_latex(n: NumberV) -> Seq<char> {
    let whole = if n.whole.len() == 0 {
        seq!['0']
    } else {
        digits_chars(n.whole)
    };
    if n.frac.len() > 0 {
        whole + seq!['.'] + digits_chars(n.frac)
    } else {
        whole
    }
}

/// The LaTeX glyph of a binary operator.
pub open spec fn op_latex(op: Op) -> Seq<char> {
    match op {
        Op::Add => "+"@,
        Op::Sub => "-"@,
        Op::Mul => "\\cdot"@,
        Op::Div => "\\over"@,
    }
}

/// What rendering an expression against the runtime `rt` yields: each
/// operand braced, calls handed to the runtime's own renderer, the first
/// failure winning left to right.
pub open spec fn spec_to_latex<V: Copy, R: Runtime<V>>(e: ExprV, rt: &R) -> Result<
    Seq<char>,
    ErrorV,
>
    decreases e,
{
    match e {
        ExprV::Num(n) => Ok(num_latex(n)),
        ExprV::Var(name) => Ok(name),
        ExprV::Neg(inner) => match spec_to_latex(*inner, rt) {
            Ok(s) => Ok("-{"@ + s + "}"@),
            Err(e) => Err(e),
        },
        ExprV::BinOp(op, l, r) => match spec_to_latex(*l, rt) {
            Ok(ls) => match spec_to_latex(*r, rt) {
                Ok(rs) => Ok("{"@ + ls + "}"@ + op_latex(op) + "{"@ + rs + "}"@),
                Err(e) => Err(e),
            },
            Err(e) => Err(e),
        },
        ExprV::Call(name, args) => match spec_latex_args(args, rt) {
            Ok(strs) => rt.latex_func_spec(name, strs),
            Err(e) => Err(e),
        },
    }
}

pub open spec fn spec_latex_args<V: Copy, R: Runtime<V>>(s: Seq<ExprV>, rt: &R) -> Result<
    Seq<Seq<char>>,
    ErrorV,
>
    decreases s,
{
    if s.len() == 0 {
        Ok(Seq::empty())
    } else {
        match spec_to_latex(s[0], rt) {
            Ok(one) => match spec_latex_args(s.subrange(1, s.len() as int), rt) {
                Ok(strs) => Ok(seq![one] + strs),
                Err(e) => Err(e),
            },
            Err(e) => Err(e),
        }
    }
}

/// Renderings already computed, joined with what the rest yields.
pub open spec fn latex_tail(done: Seq<Seq<char>>, rest: Result<Seq<Seq<char>>, ErrorV>) -> Result<
    Seq<Seq<char>>,
    ErrorV,
> {
    match rest {
        Ok(strs) => Ok(done + strs),
        Err(e) => Err(e),
    }
}

/// Rendering a non-empty list splits off its head.
proof fn lemma_latex_args_head<V: Copy, R: Runtime<V>>(s: Seq<Expr>, rt: &R)
    requires
        s.len() > 0,
    ensures
        spec_latex_args::<V, R>(exprs_view(s), rt) == (match spec_to_latex::<V, R>(
            expr_view(s[0]),
            rt,
        ) {
            Ok(one) => match spec_latex_args::<V, R>(
                exprs_view(s.subrange(1, s.len() as int)),
                rt,
            ) {
                Ok(strs) => Ok(seq![one] + strs),
                Err(e) => Err(e),
            },
            Err(e) => Err(e),
        }),
{
    let ev = exprs_view(s);
    let rest = exprs_view(s.subrange(1, s.len() as int));
    assert(ev == seq![expr_view(s[0])] + rest);
    assert(ev.len() == rest.len() + 1);
    assert(ev[0] == expr_view(s[0]));
    assert(ev.subrange(1, ev.len() as int) =~= rest);
}

/// Prints one digit run.
fn push_digits(out: &mut String, d: &Vec<u8>)
    ensures
        final(out)@ == old(out)@ + digits_chars(d@),
{
    let mut i: usize = 0;
    while i < d.len()
        invariant
            i <= d@.len(),
            out@ == old(out)@ + digits_chars(d@).take(i as int),
        decreases d@.len() - i,
    {
        push_char(out, #[verifier::truncate] ((((d[i] as u32) + 48) as u8) as char));
        proof {
            assert(old(out)@ + digits_chars(d@).take(i as int) + seq![
                (((d@[i as int] + 48) as u8) as char),
            ] =~= old(out)@ + digits_chars(d@).take(i + 1));
        }
        i = i + 1;
    }
    proof {
        assert(digits_chars(d@).take(d@.len() as int) =~= digits_chars(d@));
    }
}

/// Prints a literal as `num_latex` says.
fn number_latex(n: &Number) -> (r: String)
    ensures
        r@ == num_latex(n@),
{
    let mut out = String::new();
    let whole = n.whole_digits();
    if whole.len() == 0 {
        push_char(&mut out, '0');
    } else {
        push_digits(&mut out, whole);
        proof {
            assert(Seq::<char>::empty() + digits_chars(n@.whole) =~= digits_chars(n@.whole));
        }
    }
    let frac = n.frac_digits();
    if frac.len() > 0 {
        let ghost w = out@;
        push_char(&mut out, '.');
        push_digits(&mut out, frac);
        proof {
            assert(w.push('.') + digits_chars(n@.frac) =~= w + seq!['.'] + digits_chars(n@.frac));
        }
    }
    out
}

impl Expr {
    /// Renders the tree as LaTeX, exactly as `spec_to_latex` says.
    pub fn to_latex<V: Copy, R: Runtime<V>>(&self, runtime: &R) -> (r: Result<String, Error>)
        ensures
            latex_res_view(r) == spec_to_latex::<V, R>(expr_view(*self), runtime),
        decreases self,
    {
        match self {
            Expr::Num(n) => Ok(number_latex(n)),
            Expr::Var(v) => Ok(v.name.clone()),
            Expr::Neg(inner) => match inner.to_latex(runtime) {
                Ok(s) => {
                    let mut out = String::from_str("-{");
                    out.append(s.as_str());
                    out.append("}");
                    proof {
                        assert("-{"@ + s@ + "}"@ =~= out@);
                    }
                    Ok(out)
                },
                Err(e) => Err(e),
            },
            Expr::BinOp(op, l, r) => match l.to_latex(runtime) {
                Ok(ls) => match r.to_latex(runtime) {
                    Ok(rs) => {
                        let mut out = String::from_str("{");
                        out.append(ls.as_str());
                        out.append("}");
                        match op {
                            Op::Add => out.append("+"),
                            Op::Sub => out.append("-"),
                            Op::Mul => out.append("\\cdot"),
                            Op::Div => out.append("\\over"),
                        }
                        out.append("{");
                        out.append(rs.as_str());
                        out.append("}");
                        proof {
                            assert("{"@ + ls@ + "}"@ + op_latex(*op) + "{"@ + rs@ + "}"@
                                =~= out@);
                        }
                        Ok(out)
                    },
                    Err(e) => Err(e),
                },
                Err(e) => Err(e),
            },
            Expr::Call(name, args) => {
                let ghost all = args@;
                proof {
                    assert(all.subrange(0, all.len() as int) =~= all);
                }
                let mut rendered: Vec<String> = Vec::new();
                let mut i: usize = 0;
                while i < args.len()
                    invariant
                        i <= args@.len(),
                        args@ == all,
                        self is Call,
                        self->Call_1@ == all,
                        spec_latex_args::<V, R>(exprs_view(all), runtime) == latex_tail(
                            strs_view(rendered@),
                            spec_latex_args::<V, R>(
                                exprs_view(all.subrange(i as int, all.len() as int)),
                                runtime,
                            ),
                        ),
                    decreases args@.len() - i,
                {
                    proof {
                        assert(decreases_to!(*self => self->Call_1@[i as int])) by {
                            assert(decreases_to!(*self => self->Call_1));
                            assert(decreases_to!(self->Call_1 => self->Call_1@));
                            assert(decreases_to!(self->Call_1@ => self->Call_1@[i as int]));
                        }
                    }
                    let ghost suffix = all.subrange(i as int, all.len() as int);
                    match args[i].to_latex(runtime) {
                        Ok(one) => {
                            proof {
                                lemma_latex_args_head::<V, R>(suffix, runtime);
                                assert(suffix[0] == all[i as int]);
                                assert(suffix.subrange(1, suffix.len() as int) =~= all.subrange(
                                    i + 1,
                                    all.len() as int,
                                ));
                                if let Ok(strs) = spec_latex_args::<V, R>(
                                    exprs_view(all.subrange(i + 1, all.len() as int)),
                                    runtime,
                                ) {
                                    assert(strs_view(rendered@) + (seq![one@] + strs)
                                        =~= strs_view(rendered@.push(one)) + strs);
                                }
                            }
                            rendered.push(one);
                        },
                        Err(e) => {
                            proof {
                                lemma_latex_args_head::<V, R>(suffix, runtime);
                                assert(suffix[0] == all[i as int]);
                            }
                            return Err(e);
                        },
                    }
                    i = i + 1;
                }
                proof {
                    assert(all.subrange(all.len() as int, all.len() as int)
                        =~= Seq::<Expr>::empty());
                    assert(exprs_view(Seq::<Expr>::empty()) =~= Seq::<ExprV>::empty());
                    assert(strs_view(rendered@) + Seq::<Seq<char>>::empty()
                        =~= strs_view(rendered@));
                }
                runtime.to_latex(name.as_str(), &rendered)
            },
        }
    }
}

/// The variables of a non-empty list split off its head.
proof fn lemma_vars_list_head(s: Seq<Expr>)
    requires
        s.len() > 0,
    ensures
        spec_vars_list(exprs_view(s)) == spec_vars(expr_view(s[0])).union(
            spec_vars_list(exprs_view(s.subrange(1, s.len() as int))),
        ),
{
    let ev = exprs_view(s);
    let rest = exprs_view(s.subrange(1, s.len() as int));
    assert(ev == seq![expr_view(s[0])] + rest);
    assert(ev.len() == rest.len() + 1);
    assert(ev[0] == expr_view(s[0]));
    assert(ev.subrange(1, ev.len() as int) =~= rest);
    assert(spec_vars_list(ev) == spec_vars(ev[0]).union(spec_vars_list(ev.subrange(1, ev.len() as int))));
}

/// Appending one expression to a prefix adds exactly its variables.
proof fn lemma_vars_list_take(s: Seq<Expr>, i: int)
    requires
        0 <= i < s.len(),
    ensures
        spec_vars_list(exprs_view(s.subrange(0, i + 1))) == spec_vars_list(
            exprs_view(s.subrange(0, i)),
        ).union(spec_vars(expr_view(s[i]))),
    decreases i,
{
    if i == 0 {
        let one = s.subrange(0, 1);
        assert(s.subrange(0, 0) =~= Seq::<Expr>::empty());
        assert(exprs_view(Seq::<Expr>::empty()) == Seq::<ExprV>::empty());
        lemma_vars_list_head(one);
        assert(one[0] == s[0]);
        assert(one.subrange(1, 1) =~= Seq::<Expr>::empty());
        assert(spec_vars_list(exprs_view(s.subrange(0, 1))) =~= spec_vars_list(
            exprs_view(s.subrange(0, 0)),
        ).union(spec_vars(expr_view(s[0]))));
    } else {
        let pre = s.subrange(0, i + 1);
        let preprev = s.subrange(0, i);
        let tail = s.subrange(1, s.len() as int);
        lemma_vars_list_take(tail, i - 1);
        lemma_vars_list_head(pre);
        lemma_vars_list_head(preprev);
        assert(tail.subrange(0, i) =~= pre.subrange(1, i + 1));
        assert(tail.subrange(0, i - 1) =~= preprev.subrange(1, i));
        assert(tail[i - 1] == s[i]);
        assert(pre[0] == s[0] && preprev[0] == s[0]);
        assert(spec_vars_list(exprs_view(pre)) =~= spec_vars_list(exprs_view(preprev)).union(
            spec_vars(expr_view(s[i])),
        ));
    }
}

} // verus!
