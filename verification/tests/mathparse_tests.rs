//! The expression engine, driven end to end: tokenising, parsing,
//! evaluation over a real-number runtime, variable queries and printing.

use numeric_workbench::mathparse::expr::{Error, Expr};
use numeric_workbench::mathparse::number::Number;
use numeric_workbench::mathparse::parse::{tokenize, Token};
use numeric_workbench::mathparse::runtime::{default_arity, default_latex, DefaultLanguage,
    Language, Runtime};
use numeric_workbench::mathparse::chars::usize_dec;
use numeric_workbench::mathparse::parse as parse_mod;
use numeric_workbench::mathparse::parse;

fn number_to_f64(n: &Number) -> f64 {
    let whole = n
        .whole_digits()
        .iter()
        .fold(0.0, |acc, d| acc * 10.0 + *d as f64);
    let (frac, div) = n
        .frac_digits()
        .iter()
        .fold((0.0, 1.0), |(acc, div), d| (acc * 10.0 + *d as f64, div * 10.0));
    whole + frac / div
}

/// The default runtime: `sin, cos, pow, exp, sqrt, ln, abs` over `f64`,
/// plus the variables bound at construction.
struct DefaultRuntime {
    vars: Vec<(String, f64)>,
}

impl DefaultRuntime {
    fn new(vars: &[(&str, f64)]) -> Self {
        DefaultRuntime {
            vars: vars.iter().map(|(n, v)| (n.to_string(), *v)).collect(),
        }
    }
}

fn builtin_eval(name: &str, args: &Vec<f64>) -> Result<f64, Error> {
    let expected = match default_arity(name) {
        Some(k) => k,
        None => return Err(Error::UndefinedFunction(name.to_string())),
    };
    if args.len() != expected {
        return Err(Error::InvalidArgCount {
            op_name: name.to_string(),
            got_args: args.len(),
            expected_args: expected,
        });
    }
    match name {
        "sin" => Ok(args[0].sin()),
        "cos" => Ok(args[0].cos()),
        "pow" => Ok(args[0].powf(args[1])),
        "sqrt" => {
            if args[0] < 0.0 {
                Err(Error::Math("Sqrt of negative".to_owned()))
            } else {
                Ok(args[0].sqrt())
            }
        }
        "exp" => Ok(args[0].exp()),
        "ln" => {
            if args[0] < 0.0 {
                Err(Error::Math("Log of negative".to_owned()))
            } else {
                Ok(args[0].ln())
            }
        }
        "abs" => Ok(args[0].abs()),
        _ => Err(Error::UndefinedFunction(name.to_string())),
    }
}

impl Language for DefaultRuntime {
    fn has_func(&self, name: &str) -> bool {
        ["sin", "cos", "pow", "exp", "sqrt", "ln", "abs"]
            .iter()
            .any(|f| *f == name)
    }
}

impl Runtime<f64> for DefaultRuntime {
    fn get_var(&self, name: &str) -> Option<f64> {
        self.vars.iter().find(|(n, _)| n == name).map(|(_, v)| *v)
    }

    fn eval_func(&self, name: &str, args: &Vec<f64>) -> Result<f64, Error> {
        builtin_eval(name, args)
    }

    fn num(&self, n: &Number) -> f64 {
        number_to_f64(n)
    }

    fn neg(&self, v: f64) -> f64 {
        -v
    }

    fn add(&self, l: f64, r: f64) -> f64 {
        l + r
    }

    fn sub(&self, l: f64, r: f64) -> f64 {
        l - r
    }

    fn mul(&self, l: f64, r: f64) -> f64 {
        l * r
    }

    fn div(&self, l: f64, r: f64) -> Result<f64, Error> {
        if r == 0.0 {
            Err(Error::Math("Divide by zero".to_owned()))
        } else {
            Ok(l / r)
        }
    }

    fn to_latex(&self, name: &str, args: &Vec<String>) -> Result<String, Error> {
        default_latex(name, args)
    }
}

/// A runtime with one extra function folded in through a closure.
struct ExtraRuntime<F: Fn(&Vec<f64>) -> Result<f64, Error>> {
    base: DefaultRuntime,
    extra_name: String,
    extra: F,
    extra_only: bool,
}

impl<F: Fn(&Vec<f64>) -> Result<f64, Error>> Language for ExtraRuntime<F> {
    fn has_func(&self, name: &str) -> bool {
        name == self.extra_name || (!self.extra_only && self.base.has_func(name))
    }
}

impl<F: Fn(&Vec<f64>) -> Result<f64, Error>> Runtime<f64> for ExtraRuntime<F> {
    fn get_var(&self, name: &str) -> Option<f64> {
        self.base.get_var(name)
    }

    fn eval_func(&self, name: &str, args: &Vec<f64>) -> Result<f64, Error> {
        if name == self.extra_name {
            (self.extra)(args)
        } else if !self.extra_only {
            builtin_eval(name, args)
        } else {
            Err(Error::UndefinedFunction(name.to_string()))
        }
    }

    fn num(&self, n: &Number) -> f64 {
        number_to_f64(n)
    }

    fn neg(&self, v: f64) -> f64 {
        -v
    }

    fn add(&self, l: f64, r: f64) -> f64 {
        l + r
    }

    fn sub(&self, l: f64, r: f64) -> f64 {
        l - r
    }

    fn mul(&self, l: f64, r: f64) -> f64 {
        l * r
    }

    fn div(&self, l: f64, r: f64) -> Result<f64, Error> {
        if r == 0.0 {
            Err(Error::Math("Divide by zero".to_owned()))
        } else {
            Ok(l / r)
        }
    }

    fn to_latex(&self, name: &str, args: &Vec<String>) -> Result<String, Error> {
        default_latex(name, args)
    }
}

fn num(lit: &str) -> Token {
    Token::Num(Number::from_literal(lit).unwrap())
}

fn ident(name: &str) -> Token {
    Token::Identifier(name.to_string())
}

#[test]
fn tokenizer() {
    let expr = "122+904-23.23*(72-x/4)+pow(2,y)";

    let expr_tokenized = vec![
        num("122"),
        Token::Plus,
        num("904"),
        Token::Minus,
        num("23.23"),
        Token::Multiply,
        Token::OpenBracket,
        num("72"),
        Token::Minus,
        ident("x"),
        Token::Divide,
        num("4"),
        Token::CloseBracket,
        Token::Plus,
        ident("pow"),
        Token::OpenBracket,
        num("2"),
        Token::Coma,
        ident("y"),
        Token::CloseBracket,
    ];

    assert_eq!(tokenize(expr), Some(expr_tokenized));
}

#[test]
fn mod_parse_no_func() {
    let expr = "1+2";
    let lang = DefaultRuntime::new(&[]);

    assert_eq!(parse(expr, &lang).map(|e| e.eval(&lang)), Some(Ok(3.0)));

    let expr = "x-10";
    assert_eq!(
        parse(expr, &lang).map(|e| e.eval(&DefaultRuntime::new(&[("x", 10.0)]))),
        Some(Ok(0.0))
    );

    let expr = "122+904-23.1*(72-x/4)";
    assert_eq!(
        parse(expr, &lang).map(|e| e.eval(&DefaultRuntime::new(&[("x", 8.0)]))),
        Some(Ok(122.0 + 904.0 - 23.1 * (72.0 - 8.0 / 4.0)))
    );
}

#[test]
fn lib_parse_no_func() {
    let lang = DefaultRuntime::new(&[]);

    assert_eq!(parse("1+2", &lang).map(|e| e.eval(&lang)), Some(Ok(3.0)));
    assert_eq!(
        parse("x-10", &lang).map(|e| e.eval(&DefaultRuntime::new(&[("x", 10.0)]))),
        Some(Ok(0.0))
    );
    assert_eq!(
        parse("122+904-23.1*(72-x/4)", &lang)
            .map(|e| e.eval(&DefaultRuntime::new(&[("x", 8.0)]))),
        Some(Ok(122.0 + 904.0 - 23.1 * (72.0 - 8.0 / 4.0)))
    );
}

#[test]
fn language_test() {
    let expr = "pow(2,x)";
    let default_lang = DefaultRuntime::new(&[("x", 10.0)]);
    let empty_lang = DefaultLanguage::new(vec![]);
    let my_lang = ExtraRuntime {
        base: DefaultRuntime::new(&[("x", 1.0), ("y", 2.0), ("z", 3.0)]),
        extra_name: "sum".to_string(),
        extra: |args: &Vec<f64>| Ok(args.iter().fold(0.0, |a, b| a + b)),
        extra_only: true,
    };

    assert_eq!(
        parse(expr, &default_lang).map(|e| e.eval(&default_lang)),
        Some(Ok(1024.0))
    );

    assert!(parse(expr, &empty_lang).is_none());

    assert_eq!(
        parse("sum(x,y,z)", &my_lang).map(|e| e.eval(&my_lang)),
        Some(Ok(6.0))
    );
}

#[test]
fn complicated_expression() {
    fn vec_len(coords: &[f64]) -> f64 {
        coords.iter().fold(0.0, |a, b| a + b * b).sqrt()
    }
    let expr = "sin(cos(x-sqrt(3+2-x))+vec_len(1,2,3,4,y,6))-pow(1.1,(10-y)*x+y)";
    let actual = |x: f64, y: f64| {
        f64::sin(
            f64::cos(x - f64::sqrt(3.0 + 2.0 - x)) + vec_len(&[1.0, 2.0, 3.0, 4.0, y, 6.0]),
        ) - f64::powf(1.1, (10.0 - y) * x + y)
    };

    let y = 2.5;
    let lang = ExtraRuntime {
        base: DefaultRuntime::new(&[("x", y), ("y", y)]),
        extra_name: "vec_len".to_string(),
        extra: |args: &Vec<f64>| Ok(args.iter().fold(0.0, |a, b| a + b * b).sqrt()),
        extra_only: false,
    };

    assert_eq!(
        parse(expr, &lang).map(|e| e.eval(&lang)),
        Some(Ok(actual(y, y)))
    );
}

#[test]
fn mod_order_of_ops() {
    let lang = DefaultRuntime::new(&[]);
    assert_eq!(
        parse("1/2/3", &lang).map(|e| e.eval(&lang)),
        Some(Ok(1.0 / 2.0 / 3.0))
    );

    assert_eq!(
        parse("1-2-3", &lang).map(|e| e.eval(&lang)),
        Some(Ok(1.0 - 2.0 - 3.0))
    );
}

#[test]
fn lib_order_of_ops() {
    let lang = DefaultRuntime::new(&[]);
    assert_eq!(
        parse("1/2/3", &lang).map(|e| e.eval(&lang)),
        Some(Ok(1.0 / 2.0 / 3.0))
    );
    assert_eq!(
        parse("1-2-3", &lang).map(|e| e.eval(&lang)),
        Some(Ok(1.0 - 2.0 - 3.0))
    );
}

#[test]
fn mod_implicit_multiplication() {
    let x = 2.0;
    let y = -1.2;
    let lang = DefaultRuntime::new(&[]);
    assert_eq!(
        parse("2x", &lang).map(|e| e.eval(&DefaultRuntime::new(&[("x", x)]))),
        Some(Ok(4.0))
    );

    assert_eq!(
        parse("2sin(x)-3cos(4x)", &lang).map(|e| e.eval(&DefaultRuntime::new(&[("x", x)]))),
        Some(Ok(2.0 * f64::sin(2.0) - 3.0 * f64::cos(4.0 * 2.0)))
    );

    assert_eq!(
        parse(
            "-sin((5-3)cos(2.1x-sqrt(3+2-0.2x))+3pow(6,2y))-pow(1.1,-(10-y)x+y)",
            &lang
        )
        .map(|e| e.eval(&DefaultRuntime::new(&[("x", x), ("y", y)]))),
        Some(Ok(-f64::sin(
            (5.0 - 3.0) * f64::cos(2.1 * x - f64::sqrt(3.0 + 2.0 - 0.2 * x))
                + 3.0 * f64::powf(6.0, 2.0 * y)
        ) - f64::powf(1.1, -(10.0 - y) * x + y)))
    );
}

#[test]
fn lib_implicit_multiplication() {
    let x = 2.0;
    let y = -1.2;
    let lang = DefaultRuntime::new(&[]);
    assert_eq!(
        parse("2x", &lang).map(|e| e.eval(&DefaultRuntime::new(&[("x", x)]))),
        Some(Ok(4.0))
    );
    assert_eq!(
        parse("2sin(x)-3cos(4x)", &lang).map(|e| e.eval(&DefaultRuntime::new(&[("x", x)]))),
        Some(Ok(2.0 * f64::sin(2.0) - 3.0 * f64::cos(4.0 * 2.0)))
    );
    assert_eq!(
        parse(
            "-sin((5-3)cos(2.1x-sqrt(3+2-0.2x))+3pow(6,2y))-pow(1.1,-(10-y)x+y)",
            &lang
        )
        .map(|e| e.eval(&DefaultRuntime::new(&[("x", x), ("y", y)]))),
        Some(Ok(-f64::sin(
            (5.0 - 3.0) * f64::cos(2.1 * x - f64::sqrt(3.0 + 2.0 - 0.2 * x))
                + 3.0 * f64::powf(6.0, 2.0 * y)
        ) - f64::powf(1.1, -(10.0 - y) * x + y)))
    );
}

#[test]
fn vars() {
    let expr = "x+4(x-2y)sin(z*x)";
    let lang = DefaultRuntime::new(&[]);
    let expr = parse(expr, &lang).unwrap();
    let vars = expr.query_vars();
    assert!(
        vars.len() == 3
            && vars.contains(&"x".to_string())
            && vars.contains(&"y".to_string())
            && vars.contains(&"z".to_string())
    );
}

#[test]
fn expression_basics_exact() {
    let lang = DefaultRuntime::new(&[("x", 8.0)]);
    let e = parse("122+904-23.1*(72-x/4)", &lang).unwrap();
    assert_eq!(e.eval(&lang), Ok(122.0 + 904.0 - 23.1 * (72.0 - 2.0)));
    assert_eq!(e.eval(&lang), Ok(-591.0));
}

#[test]
fn implicit_multiplication_trig() {
    let lang = DefaultRuntime::new(&[("x", 2.0)]);
    let e = parse("2sin(x)-3cos(4x)", &lang).unwrap();
    let got = e.eval(&lang).unwrap();
    let want = 2.0 * f64::sin(2.0) - 3.0 * f64::cos(8.0);
    assert!((got - want).abs() < 1e-12);
}

#[test]
fn tokenizer_rejects_bare_fraction() {
    let lang = DefaultRuntime::new(&[]);
    assert!(tokenize("1.").is_none());
    assert!(tokenize("1.x").is_none());
    assert!(parse("1.", &lang).is_none());
}

#[test]
fn tokenizer_empty_input() {
    assert_eq!(tokenize(""), Some(vec![]));
    assert_eq!(tokenize("   "), Some(vec![]));
}

#[test]
fn tokenizer_dot_identifier() {
    assert_eq!(
        tokenize("1 . 2"),
        Some(vec![num("1"), ident("."), num("2")])
    );
}

#[test]
fn number_literals_normalise() {
    assert_eq!(Number::from_literal("23.10"), Number::from_literal("23.1"));
    assert_eq!(Number::from_literal("007"), Number::from_literal("7"));
    assert_eq!(Number::from_literal("0.0"), Number::from_literal("0"));
    assert!(Number::from_literal("").is_none());
    assert!(Number::from_literal(".5").is_none());
    assert!(Number::from_literal("5.").is_none());
    assert!(Number::from_literal("1x").is_none());
}

#[test]
fn eval_undefined_variable() {
    let lang = DefaultRuntime::new(&[]);
    let e = parse("x+1", &lang).unwrap();
    assert_eq!(
        e.eval(&lang),
        Err(Error::UndefinedVariable("x".to_string()))
    );
}

#[test]
fn eval_divide_by_zero() {
    let lang = DefaultRuntime::new(&[]);
    let e = parse("1/0", &lang).unwrap();
    assert_eq!(e.eval(&lang), Err(Error::Math("Divide by zero".to_owned())));
}

#[test]
fn eval_wrong_arity() {
    let lang = DefaultRuntime::new(&[]);
    let e = parse("sin(1,2)", &lang).unwrap();
    assert_eq!(
        e.eval(&lang),
        Err(Error::InvalidArgCount {
            op_name: "sin".to_string(),
            got_args: 2,
            expected_args: 1,
        })
    );
}

#[test]
fn eval_math_error_domain() {
    let lang = DefaultRuntime::new(&[]);
    let e = parse("sqrt(0-4)", &lang).unwrap();
    assert_eq!(e.eval(&lang), Err(Error::Math("Sqrt of negative".to_owned())));
}

#[test]
fn latex_of_operators() {
    let lang = DefaultRuntime::new(&[]);
    let e = parse("1+2", &lang).unwrap();
    assert_eq!(e.to_latex(&lang), Ok("{1}+{2}".to_string()));

    let e = parse("x/2", &lang).unwrap();
    assert_eq!(e.to_latex(&lang), Ok("{x}\\over{2}".to_string()));

    let e = parse("-x*23.1", &lang).unwrap();
    assert_eq!(e.to_latex(&lang), Ok("{-{x}}\\cdot{23.1}".to_string()));
}

#[test]
fn latex_of_functions() {
    let lang = DefaultRuntime::new(&[]);
    let e = parse("pow(x,2)", &lang).unwrap();
    assert_eq!(e.to_latex(&lang), Ok("({x})^{2}".to_string()));

    let e = parse("sqrt(sin(x))", &lang).unwrap();
    assert_eq!(e.to_latex(&lang), Ok("\\sqrt{sin({x})}".to_string()));
}

#[test]
fn default_latex_reports_unknown_and_arity() {
    assert_eq!(
        default_latex("nope", &vec!["1".to_string()]),
        Err(Error::UndefinedFunction("nope".to_string()))
    );
    assert_eq!(
        default_latex("sin", &vec!["1".to_string(), "2".to_string()]),
        Err(Error::InvalidArgCount {
            op_name: "sin".to_string(),
            got_args: 2,
            expected_args: 1,
        })
    );
    assert_eq!(
        default_latex("exp", &vec!["y".to_string()]),
        Ok("e^{y}".to_string())
    );
    assert_eq!(default_arity("pow"), Some(2));
    assert_eq!(default_arity("ln"), Some(1));
    assert_eq!(default_arity("vec_len"), None);
}

#[test]
fn parse_respects_function_alphabet() {
    // a name the language does not know parses as a variable product,
    // so applying it to two arguments fails
    let empty = DefaultLanguage::new(vec![]);
    assert!(parse("pow(2,3)", &empty).is_none());

    // the default alphabet knows it
    let lang = DefaultRuntime::new(&[]);
    assert_eq!(
        parse("pow(2,3)", &lang).map(|e| e.eval(&lang)),
        Some(Ok(8.0))
    );
}

#[test]
fn parse_rejects_malformed() {
    let lang = DefaultRuntime::new(&[]);
    assert!(parse("1+", &lang).is_none());
    assert!(parse("(1+2", &lang).is_none());
    assert!(parse("sin()", &lang).is_none());
    assert!(parse("", &lang).is_none());
}

#[test]
fn parse_expr_over_tokens() {
    // the token-level entry behaves like the string-level one
    let lang = DefaultRuntime::new(&[]);
    let toks = tokenize("2*3+4").unwrap();
    let e: Option<Expr> = parse_mod::parse_expr(&toks, &lang);
    assert_eq!(e.map(|e| e.eval(&lang)), Some(Ok(10.0)));
}

#[test]
fn query_vars_excludes_function_names() {
    // the variable set is exactly the identifier tokens the language
    // does not recognise as functions
    let lang = DefaultRuntime::new(&[]);
    let e = parse("sin(x)+cos(y)*z", &lang).unwrap();
    let vars = e.query_vars();
    assert_eq!(vars.len(), 3);
    for v in ["x", "y", "z"] {
        assert!(vars.contains(&v.to_string()));
    }
    assert!(!vars.contains(&"sin".to_string()));
    assert!(!vars.contains(&"cos".to_string()));
}

#[test]
fn juxtaposed_call_and_group_multiply() {
    // a bracket group right after a call multiplies the call's value;
    // it does not start a second call
    let lang = DefaultRuntime::new(&[("x", 2.0)]);
    let e = parse("sin(x)(x+1)", &lang).unwrap();
    assert_eq!(e.eval(&lang), Ok(f64::sin(2.0) * (2.0 + 1.0)));
}

#[test]
fn printed_literal_reads_back() {
    // a literal printed by the renderer reads back as the same literal
    let lang = DefaultRuntime::new(&[]);
    for lit in ["23.1", "0.5", "0", "120", "7.25"] {
        let e = parse(lit, &lang).unwrap();
        let printed = e.to_latex(&lang).unwrap();
        assert_eq!(
            Number::from_literal(&printed),
            Number::from_literal(lit)
        );
    }
    // normalisation prints the canonical digits
    let e = parse("23.10", &lang).unwrap();
    assert_eq!(e.to_latex(&lang), Ok("23.1".to_string()));
}

#[test]
fn decimal_printing() {
    assert_eq!(usize_dec(0), "0".to_string());
    assert_eq!(usize_dec(7), "7".to_string());
    assert_eq!(usize_dec(120), "120".to_string());
    assert_eq!(usize_dec(10000), "10000".to_string());
}
