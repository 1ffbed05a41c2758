//! Tokeniser of the expression language.
//!
//! The input is scanned left to right; leading whitespace is dropped at
//! each step, then the scanner recognises, in order: the reserved
//! punctuation `( ) , + - * /`, a decimal number, an identifier (a run of
//! characters holding no whitespace and no reserved punctuation, not
//! starting with a digit).  An empty residual string ends the scan; any
//! other residual fails it.

use vstd::prelude::*;

use super::chars::{is_reserved_char, is_space_char, push_char, reserved_char, space_char,
    str_chars};
use super::expr::{expr_view, exprs_view, Expr, ExprV, Op, Variable};
use super::number::{digit_run, digit_values, is_digit_char, lemma_digit_run_bounds,
    lemma_digit_run_is, norm_number, Number, NumberV};
use super::runtime::{lang_pred, Language};

verus! {

/// Specification-level image of a token.
pub enum Tok {
    Num(NumberV),
    Plus,
    Minus,
    Multiply,
    Divide,
    Identifier(Seq<char>),
    OpenBracket,
    CloseBracket,
    Coma,
}

/// A lexical token of the expression language.
#[derive(Debug, Clone)]
pub enum Token {
    Num(Number),
    Plus,
    Minus,
    Multiply,
    Divide,
    Identifier(String),
    OpenBracket,
    CloseBracket,
    Coma,
}

impl View for Token {
    type V = Tok;

    open spec fn view(&self) -> Tok {
        match self {
            Token::Num(n) => Tok::Num(n@),
            Token::Plus => Tok::Plus,
            Token::Minus => Tok::Minus,
            Token::Multiply => Tok::Multiply,
            Token::Divide => Tok::Divide,
            Token::Identifier(s) => Tok::Identifier(s@),
            Token::OpenBracket => Tok::OpenBracket,
            Token::CloseBracket => Tok::CloseBracket,
            Token::Coma => Tok::Coma,
        }
    }
}

/// The views of a token sequence.
pub open spec fn toks_view(s: Seq<Token>) -> Seq<Tok> {
    s.map_values(|t: Token| t@)
}

impl PartialEq for Token {
    fn eq(&self, other: &Token) -> (r: bool) {
        match (self, other) {
            (Token::Num(a), Token::Num(b)) => *a == *b,
            (Token::Plus, Token::Plus) => true,
            (Token::Minus, Token::Minus) => true,
            (Token::Multiply, Token::Multiply) => true,
            (Token::Divide, Token::Divide) => true,
            (Token::Identifier(a), Token::Identifier(b)) => *a == *b,
            (Token::OpenBracket, Token::OpenBracket) => true,
            (Token::CloseBracket, Token::CloseBracket) => true,
            (Token::Coma, Token::Coma) => true,
            _ => false,
        }
    }
}

impl vstd::std_specs::cmp::PartialEqSpecImpl for Token {
    open spec fn obeys_eq_spec() -> bool {
        true
    }

    open spec fn eq_spec(&self, other: &Token) -> bool {
        self@ == other@
    }
}

/// The token a reserved punctuation character denotes.
pub open spec fn punct_tok(c: char) -> Tok {
    if c == '(' {
        Tok::OpenBracket
    } else if c == ')' {
        Tok::CloseBracket
    } else if c == ',' {
        Tok::Coma
    } else if c == '+' {
        Tok::Plus
    } else if c == '-' {
        Tok::Minus
    } else if c == '*' {
        Tok::Multiply
    } else {
        Tok::Divide
    }
}

/// What reading one number at the head of `s` yields: the literal and how
/// many characters it took.  `None` when a dot follows the digits with no
/// digit behind it.
pub open spec fn spec_read_number(s: Seq<char>) -> Option<(NumberV, nat)> {
    let a = digit_run(s);
    if a == 0 {
        None
    } else if a < s.len() && s[a as int] == '.' {
        let b = digit_run(s.skip(a + 1 as int));
        if b == 0 {
            None
        } else {
            Some((norm_number(digit_values(s, a), digit_values(s.skip(a + 1 as int), b)), (a + 1
                + b) as nat))
        }
    } else {
        Some((norm_number(digit_values(s, a), Seq::empty()), a))
    }
}

/// Length of the identifier run at the head of `s`: characters holding no
/// whitespace and no reserved punctuation.
pub open spec fn ident_run(s: Seq<char>) -> nat
    decreases s.len(),
{
    if s.len() == 0 || is_space_char(s[0]) || is_reserved_char(s[0]) {
        0
    } else {
        1 + ident_run(s.drop_first())
    }
}

pub proof fn lemma_ident_run_bounds(s: Seq<char>)
    ensures
        ident_run(s) <= s.len(),
        forall|j: int|
            0 <= j < ident_run(s) ==> !is_space_char(s[j]) && !is_reserved_char(s[j]),
        ident_run(s) < s.len() ==> is_space_char(s[ident_run(s) as int]) || is_reserved_char(
            s[ident_run(s) as int],
        ),
    decreases s.len(),
{
    if s.len() > 0 && !is_space_char(s[0]) && !is_reserved_char(s[0]) {
        lemma_ident_run_bounds(s.drop_first());
        assert forall|j: int|
            0 <= j < ident_run(s) implies !is_space_char(s[j]) && !is_reserved_char(s[j]) by {
            if j > 0 {
                assert(!is_space_char(s.drop_first()[j - 1]) && !is_reserved_char(
                    s.drop_first()[j - 1],
                ));
            }
        }
    }
}

pub proof fn lemma_ident_run_is(s: Seq<char>, k: nat)
    requires
        k <= s.len(),
        forall|j: int| 0 <= j < k ==> !is_space_char(s[j]) && !is_reserved_char(s[j]),
        k < s.len() ==> is_space_char(s[k as int]) || is_reserved_char(s[k as int]),
    ensures
        ident_run(s) == k,
    decreases s.len(),
{
    if s.len() > 0 && !is_space_char(s[0]) && !is_reserved_char(s[0]) {
        assert(k > 0);
        lemma_ident_run_is(s.drop_first(), (k - 1) as nat);
    }
}

/// Prepends a token to the outcome of tokenising the rest.
pub open spec fn cons_tok(t: Tok, rest: Option<Seq<Tok>>) -> Option<Seq<Tok>> {
    match rest {
        Some(r) => Some(seq![t] + r),
        None => None,
    }
}

/// What tokenising `s` yields, or `None` when some residual input matches
/// no token.
pub open spec fn spec_tokenize(s: Seq<char>) -> Option<Seq<Tok>>
    decreases s.len(),
    via spec_tokenize_decreases
{
    if s.len() == 0 {
        Some(Seq::empty())
    } else if is_space_char(s[0]) {
        spec_tokenize(s.drop_first())
    } else if is_reserved_char(s[0]) {
        cons_tok(punct_tok(s[0]), spec_tokenize(s.drop_first()))
    } else if is_digit_char(s[0]) {
        match spec_read_number(s) {
            Some(p) => cons_tok(Tok::Num(p.0), spec_tokenize(s.skip(p.1 as int))),
            None => None,
        }
    } else {
        let k = ident_run(s);
        cons_tok(Tok::Identifier(s.subrange(0, k as int)), spec_tokenize(s.skip(k as int)))
    }
}

#[via_fn]
proof fn spec_tokenize_decreases(s: Seq<char>) {
    if s.len() > 0 && !is_space_char(s[0]) && !is_reserved_char(s[0]) {
        if is_digit_char(s[0]) {
            let a = digit_run(s);
            lemma_digit_run_bounds(s);
            assert(a >= 1);
            if a < s.len() && s[a as int] == '.' {
                lemma_digit_run_bounds(s.skip(a + 1 as int));
            }
        } else {
            lemma_ident_run_bounds(s);
            assert(ident_run(s) >= 1);
        }
    }
}

/// What remains of `whole` after the scanned prefix produced `done`.
pub open spec fn tail_result(done: Seq<Tok>, rest: Option<Seq<Tok>>) -> Option<Seq<Tok>> {
    match rest {
        Some(r) => Some(done + r),
        None => None,
    }
}

fn digit_char(c: char) -> (r: bool)
    ensures
        r == is_digit_char(c),
{
    let u = c as u32;
    48 <= u && u <= 57
}

/// Length of the digit run of `cs` that starts at `from`.
fn digit_run_at(cs: &Vec<char>, from: usize) -> (k: usize)
    requires
        from <= cs@.len(),
    ensures
        from + k <= cs@.len(),
        k == digit_run(cs@.skip(from as int)),
{
    let n = cs.len();
    let mut i = from;
    while i < n && digit_char(cs[i])
        invariant
            from <= i <= n,
            n == cs@.len(),
            forall|j: int| from <= j < i ==> is_digit_char(cs@[j]),
        decreases n - i,
    {
        i = i + 1;
    }
    proof {
        let s = cs@.skip(from as int);
        lemma_digit_run_is(s, (i - from) as nat);
    }
    i - from
}

/// The digit values of `cs` at `from..from + k`.
fn collect_digits(cs: &Vec<char>, from: usize, k: usize) -> (r: Vec<u8>)
    requires
        from + k <= cs@.len(),
        forall|j: int| from <= j < from + k ==> is_digit_char(cs@[j]),
    ensures
        r@ == digit_values(cs@.skip(from as int), k as nat),
{
    let n = cs.len();
    let mut r: Vec<u8> = Vec::new();
    let mut i: usize = 0;
    while i < k
        invariant
            i <= k,
            n == cs@.len(),
            from + k <= cs@.len(),
            forall|j: int| from <= j < from + k ==> is_digit_char(cs@[j]),
            r@.len() == i,
            forall|j: int| 0 <= j < i ==> r@[j] == ((cs@[from + j] as u32) - 48) as u8,
        decreases k - i,
    {
        let c = cs[from + i];
        assert(is_digit_char(c));
        r.push(((c as u32) - 48) as u8);
        i = i + 1;
    }
    proof {
        assert(r@ =~= digit_values(cs@.skip(from as int), k as nat));
    }
    r
}

/// Reads one decimal number starting at `from`: the digits, and when a dot
/// with digits behind it follows, the fractional digits too.
fn read_number(cs: &Vec<char>, from: usize) -> (r: Option<(Number, usize)>)
    requires
        from < cs@.len(),
        is_digit_char(cs@[from as int]),
    ensures
        match r {
            Some(p) => {
                &&& from < p.1 <= cs@.len()
                &&& spec_read_number(cs@.skip(from as int)) == Some((p.0@, (p.1 - from) as nat))
            },
            None => spec_read_number(cs@.skip(from as int)) is None,
        },
{
    let ghost s = cs@.skip(from as int);
    let n = cs.len();
    let a = digit_run_at(cs, from);
    proof {
        lemma_digit_run_bounds(s);
        assert(a >= 1);
    }
    let dot = from + a;
    if dot < cs.len() && cs[dot] == '.' {
        let b = digit_run_at(cs, dot + 1);
        proof {
            lemma_digit_run_bounds(cs@.skip(dot + 1 as int));
            assert(cs@.skip(dot + 1 as int) =~= s.skip(a + 1 as int));
        }
        if b == 0 {
            None
        } else {
            proof {
                lemma_digit_run_bounds(s);
                assert forall|j: int| from <= j < from + a implies is_digit_char(cs@[j]) by {
                    assert(is_digit_char(s[j - from]));
                }
                assert forall|j: int|
                    dot + 1 <= j < dot + 1 + b implies is_digit_char(cs@[j]) by {
                    assert(is_digit_char(cs@.skip(dot + 1 as int)[j - dot - 1]));
                }
            }
            let whole = collect_digits(cs, from, a);
            let frac = collect_digits(cs, dot + 1, b);
            let num = Number::from_digits(whole, frac);
            proof {
                assert(digit_values(cs@.skip(dot + 1 as int), b as nat) == digit_values(
                    s.skip(a + 1 as int),
                    b as nat,
                ));
            }
            Some((num, dot + 1 + b))
        }
    } else {
        proof {
            assert forall|j: int| from <= j < from + a implies is_digit_char(cs@[j]) by {
                assert(is_digit_char(s[j - from]));
            }
        }
        let whole = collect_digits(cs, from, a);
        let num = Number::from_digits(whole, Vec::new());
        Some((num, dot))
    }
}

/// Reads one identifier starting at `from`: the longest run holding no
/// whitespace and no reserved punctuation.
fn read_identifier(cs: &Vec<char>, from: usize) -> (r: (String, usize))
    requires
        from < cs@.len(),
        !is_space_char(cs@[from as int]),
        !is_reserved_char(cs@[from as int]),
    ensures
        from < r.1 <= cs@.len(),
        r.1 - from == ident_run(cs@.skip(from as int)),
        r.0@ == cs@.subrange(from as int, r.1 as int),
{
    let n = cs.len();
    let mut i = from;
    let mut name = String::new();
    while i < n && !space_char(cs[i]) && !reserved_char(cs[i])
        invariant
            from <= i <= n,
            n == cs@.len(),
            forall|j: int| from <= j < i ==> !is_space_char(cs@[j]) && !is_reserved_char(cs@[j]),
            name@ == cs@.subrange(from as int, i as int),
        decreases n - i,
    {
        let ghost before = name@;
        push_char(&mut name, cs[i]);
        proof {
            assert(name@ =~= cs@.subrange(from as int, i + 1 as int));
        }
        i = i + 1;
    }
    proof {
        lemma_ident_run_is(cs@.skip(from as int), (i - from) as nat);
    }
    (name, i)
}

fn punct_token(c: char) -> (r: Option<Token>)
    ensures
        r is Some <==> is_reserved_char(c),
        r matches Some(t) ==> t@ == punct_tok(c),
{
    if c == '(' {
        Some(Token::OpenBracket)
    } else if c == ')' {
        Some(Token::CloseBracket)
    } else if c == ',' {
        Some(Token::Coma)
    } else if c == '+' {
        Some(Token::Plus)
    } else if c == '-' {
        Some(Token::Minus)
    } else if c == '*' {
        Some(Token::Multiply)
    } else if c == '/' {
        Some(Token::Divide)
    } else {
        None
    }
}

/// Splits the source into tokens; `None` when some residual input matches
/// no token.
pub fn tokenize(src: &str) -> (r: Option<Vec<Token>>)
    ensures
        r is Some <==> spec_tokenize(src@) is Some,
        r matches Some(v) ==> Some(toks_view(v@)) == spec_tokenize(src@),
{
    let cs = str_chars(src);
    let n = cs.len();
    let mut res: Vec<Token> = Vec::new();
    let mut i: usize = 0;
    proof {
        assert(src@.skip(0int) =~= src@);
        if let Some(r) = spec_tokenize(src@) {
            assert(toks_view(res@) + r =~= r);
        }
    }
    while i < n
        invariant
            i <= n,
            n == cs@.len(),
            cs@ == src@,
            spec_tokenize(src@) == tail_result(toks_view(res@), spec_tokenize(src@.skip(i as int))),
        decreases n - i,
    {
        let ghost rest = src@.skip(i as int);
        let c = cs[i];
        assert(rest[0] == c);
        if space_char(c) {
            proof {
                assert(rest.drop_first() =~= src@.skip(i + 1 as int));
            }
            i = i + 1;
        } else {
            match punct_token(c) {
                Some(t) => {
                    proof {
                        lemma_push_tok(res@, t, spec_tokenize(src@.skip(i + 1 as int)));
                        assert(rest.drop_first() =~= src@.skip(i + 1 as int));
                    }
                    res.push(t);
                    i = i + 1;
                },
                None => {
                    if digit_char(c) {
                        match read_number(&cs, i) {
                            Some((num, next)) => {
                                proof {
                                    lemma_push_tok(
                                        res@,
                                        Token::Num(num),
                                        spec_tokenize(src@.skip(next as int)),
                                    );
                                    assert(rest.skip((next - i) as int) =~= src@.skip(
                                        next as int,
                                    ));
                                }
                                res.push(Token::Num(num));
                                i = next;
                            },
                            None => {
                                return None;
                            },
                        }
                    } else {
                        let (name, next) = read_identifier(&cs, i);
                        proof {
                            let k = (next - i) as int;
                            assert(rest.subrange(0, k) =~= cs@.subrange(i as int, next as int));
                            lemma_push_tok(
                                res@,
                                Token::Identifier(name),
                                spec_tokenize(src@.skip(next as int)),
                            );
                            assert(rest.skip(k) =~= src@.skip(next as int));
                        }
                        res.push(Token::Identifier(name));
                        i = next;
                    }
                },
            }
        }
    }
    proof {
        assert(src@.skip(n as int) =~= Seq::<char>::empty());
        assert(toks_view(res@) + Seq::<Tok>::empty() =~= toks_view(res@));
    }
    Some(res)
}

/// Appending a token to the scanned prefix absorbs it from the residual.
proof fn lemma_push_tok(done: Seq<Token>, t: Token, rest: Option<Seq<Tok>>)
    ensures
        tail_result(toks_view(done), cons_tok(t@, rest)) == tail_result(
            toks_view(done.push(t)),
            rest,
        ),
{
    match rest {
        Some(r) => {
            assert(toks_view(done) + (seq![t@] + r) =~= toks_view(done.push(t)) + r);
        },
        None => {},
    }
}

// ------------------------------------------------------------------
// The grammar.  An expression splits at the first `+` (then the first
// `-`) whose two sides parse; a term does the same with `*` and `/`,
// then tries a leading minus, then implicit multiplication, then a
// factor.  Implicit multiplication reads the suffix: a trailing number
// or variable multiplies the preceding term; a trailing bracket group
// multiplies it too, taken together with a function name immediately
// before it when there is one.
// ------------------------------------------------------------------

pub open spec fn opt_expr_view(o: Option<Expr>) -> Option<ExprV> {
    match o {
        Some(e) => Some(expr_view(e)),
        None => None,
    }
}

pub open spec fn opt_exprs_view(o: Option<Vec<Expr>>) -> Option<Seq<ExprV>> {
    match o {
        Some(v) => Some(exprs_view(v@)),
        None => None,
    }
}

/// The first position at or after `j` holding `op` where the left part
/// parses as an expression and the right part as a term.
pub open spec fn expr_split(ts: Seq<Tok>, lang: spec_fn(Seq<char>) -> bool, op: Tok, j: int) -> Option<int>
    decreases ts.len(), 5int, ts.len() - j,
{
    if j < 0 || j >= ts.len() {
        None
    } else if ts[j] == op && spec_parse_expr(ts.subrange(0, j), lang) is Some && spec_parse_term(
        ts.subrange(j + 1, ts.len() as int),
        lang,
    ) is Some {
        Some(j)
    } else {
        expr_split(ts, lang, op, j + 1)
    }
}

/// The first position at or after `j` holding `op` where the left part
/// parses as a term and the right part as a factor.
pub open spec fn term_split(ts: Seq<Tok>, lang: spec_fn(Seq<char>) -> bool, op: Tok, j: int) -> Option<int>
    decreases ts.len(), 3int, ts.len() - j,
{
    if j < 0 || j >= ts.len() {
        None
    } else if ts[j] == op && spec_parse_term(ts.subrange(0, j), lang) is Some && spec_parse_factor(
        ts.subrange(j + 1, ts.len() as int),
        lang,
    ) is Some {
        Some(j)
    } else {
        term_split(ts, lang, op, j + 1)
    }
}

/// Scanning down from `j`, the position of the `(` that closes `depth`
/// more `)` than have been opened.
pub open spec fn find_open(ts: Seq<Tok>, j: int, depth: int) -> Option<int>
    decreases j + 1,
{
    if j < 0 || j >= ts.len() {
        None
    } else if ts[j] is OpenBracket && depth == 0 {
        Some(j)
    } else if ts[j] is OpenBracket {
        find_open(ts, j - 1, depth - 1)
    } else if ts[j] is CloseBracket {
        find_open(ts, j - 1, depth + 1)
    } else {
        find_open(ts, j - 1, depth)
    }
}

/// The first comma at or after `j` that sits at bracket depth zero.
pub open spec fn find_comma(ts: Seq<Tok>, j: int, depth: int) -> Option<int>
    decreases ts.len() - j,
{
    if j < 0 || j >= ts.len() {
        None
    } else if ts[j] is Coma && depth == 0 {
        Some(j)
    } else if ts[j] is OpenBracket {
        find_comma(ts, j + 1, depth + 1)
    } else if ts[j] is CloseBracket {
        find_comma(ts, j + 1, depth - 1)
    } else {
        find_comma(ts, j + 1, depth)
    }
}

pub open spec fn spec_parse_expr(ts: Seq<Tok>, lang: spec_fn(Seq<char>) -> bool) -> Option<ExprV>
    decreases ts.len(), 6int, 0int,
{
    let plus = expr_split(ts, lang, Tok::Plus, 0);
    let minus = expr_split(ts, lang, Tok::Minus, 0);
    if plus is Some && 0 <= plus->0 < ts.len() {
        let i = plus->0;
        Some(
            ExprV::BinOp(
                Op::Add,
                Box::new(spec_parse_expr(ts.subrange(0, i), lang)->0),
                Box::new(spec_parse_term(ts.subrange(i + 1, ts.len() as int), lang)->0),
            ),
        )
    } else if minus is Some && 0 <= minus->0 < ts.len() {
        let i = minus->0;
        Some(
            ExprV::BinOp(
                Op::Sub,
                Box::new(spec_parse_expr(ts.subrange(0, i), lang)->0),
                Box::new(spec_parse_term(ts.subrange(i + 1, ts.len() as int), lang)->0),
            ),
        )
    } else {
        spec_parse_term(ts, lang)
    }
}

pub open spec fn spec_parse_term(ts: Seq<Tok>, lang: spec_fn(Seq<char>) -> bool) -> Option<ExprV>
    decreases ts.len(), 4int, 0int,
{
    let mul = term_split(ts, lang, Tok::Multiply, 0);
    let div = term_split(ts, lang, Tok::Divide, 0);
    if mul is Some && 0 <= mul->0 < ts.len() {
        let i = mul->0;
        Some(
            ExprV::BinOp(
                Op::Mul,
                Box::new(spec_parse_term(ts.subrange(0, i), lang)->0),
                Box::new(spec_parse_factor(ts.subrange(i + 1, ts.len() as int), lang)->0),
            ),
        )
    } else if div is Some && 0 <= div->0 < ts.len() {
        let i = div->0;
        Some(
            ExprV::BinOp(
                Op::Div,
                Box::new(spec_parse_term(ts.subrange(0, i), lang)->0),
                Box::new(spec_parse_factor(ts.subrange(i + 1, ts.len() as int), lang)->0),
            ),
        )
    } else if ts.len() > 1 && ts[0] is Minus && spec_parse_term(
        ts.subrange(1, ts.len() as int),
        lang,
    ) is Some {
        Some(ExprV::Neg(Box::new(spec_parse_term(ts.subrange(1, ts.len() as int), lang)->0)))
    } else if spec_parse_implicit(ts, lang) is Some {
        spec_parse_implicit(ts, lang)
    } else {
        spec_parse_factor(ts, lang)
    }
}

pub open spec fn spec_parse_implicit(ts: Seq<Tok>, lang: spec_fn(Seq<char>) -> bool) -> Option<ExprV>
    decreases ts.len(), 2int, 0int,
{
    if ts.len() == 0 {
        None
    } else {
        let last = ts[ts.len() - 1];
        match last {
            Tok::Num(n) => match spec_parse_term(ts.subrange(0, ts.len() - 1), lang) {
                Some(t) => Some(ExprV::BinOp(Op::Mul, Box::new(t), Box::new(ExprV::Num(n)))),
                None => None,
            },
            Tok::Identifier(v) => if !lang(v) {
                match spec_parse_term(ts.subrange(0, ts.len() - 1), lang) {
                    Some(t) => Some(ExprV::BinOp(Op::Mul, Box::new(t), Box::new(ExprV::Var(v)))),
                    None => None,
                }
            } else {
                None
            },
            Tok::CloseBracket => {
                let open = find_open(ts, ts.len() - 2, 0);
                if open is Some && 0 <= open->0 < ts.len() {
                    let ob = open->0;
                    let func_form = ob >= 2 && ts[ob - 1] is Identifier && lang(
                        ts[ob - 1]->Identifier_0,
                    );
                    let lo = if func_form {
                        ob - 1
                    } else {
                        ob
                    };
                    match spec_parse_term(ts.subrange(0, lo), lang) {
                        Some(t) => match spec_parse_factor(
                            ts.subrange(lo, ts.len() as int),
                            lang,
                        ) {
                            Some(f) => Some(ExprV::BinOp(Op::Mul, Box::new(t), Box::new(f))),
                            None => None,
                        },
                        None => None,
                    }
                } else {
                    None
                }
            },
            _ => None,
        }
    }
}

pub open spec fn spec_parse_factor(ts: Seq<Tok>, lang: spec_fn(Seq<char>) -> bool) -> Option<ExprV>
    decreases ts.len(), 1int, 0int,
{
    if ts.len() == 0 {
        None
    } else {
        match ts[0] {
            Tok::Num(n) => if ts.len() == 1 {
                Some(ExprV::Num(n))
            } else {
                None
            },
            Tok::Identifier(id) => if ts.len() > 3 && ts[1] is OpenBracket && ts[ts.len() - 1]
                is CloseBracket && lang(id) {
                match spec_parse_arglist(ts.subrange(2, ts.len() - 1), lang) {
                    Some(args) => Some(ExprV::Call(id, args)),
                    None => None,
                }
            } else if ts.len() == 1 && !lang(id) {
                Some(ExprV::Var(id))
            } else {
                None
            },
            Tok::OpenBracket => if ts.len() > 0 && ts[ts.len() - 1] is CloseBracket {
                spec_parse_expr(ts.subrange(1, ts.len() - 1), lang)
            } else {
                None
            },
            _ => None,
        }
    }
}

pub open spec fn spec_parse_arglist(ts: Seq<Tok>, lang: spec_fn(Seq<char>) -> bool) -> Option<Seq<ExprV>>
    decreases ts.len(), 7int, 0int,
{
    let c = find_comma(ts, 0, 0);
    if c is Some && 0 <= c->0 < ts.len() {
        let i = c->0;
        match spec_parse_expr(ts.subrange(0, i), lang) {
            Some(e) => match spec_parse_arglist(ts.subrange(i + 1, ts.len() as int), lang) {
                Some(rest) => Some(seq![e] + rest),
                None => None,
            },
            None => None,
        }
    } else {
        match spec_parse_expr(ts, lang) {
            Some(e) => Some(seq![e]),
            None => None,
        }
    }
}

/// What parsing a source string yields: tokens, then the grammar.
pub open spec fn spec_parse(s: Seq<char>, lang: spec_fn(Seq<char>) -> bool) -> Option<ExprV> {
    match spec_tokenize(s) {
        Some(toks) => spec_parse_expr(toks, lang),
        None => None,
    }
}

/// The token views of `s` between `lo` and `hi`.
pub open spec fn range_view(s: Seq<Token>, lo: int, hi: int) -> Seq<Tok> {
    toks_view(s.subrange(lo, hi))
}

/// A narrower range reads the same as the matching piece of a wider one.
proof fn lemma_range_view_nest(s: Seq<Token>, lo: int, hi: int, a: int, b: int)
    requires
        0 <= lo <= hi <= s.len(),
        0 <= a <= b <= hi - lo,
    ensures
        range_view(s, lo + a, lo + b) =~= range_view(s, lo, hi).subrange(a, b),
{
}

fn parse_expr_range<R: Language>(toks: &Vec<Token>, lo: usize, hi: usize, rt: &R) -> (r: Option<
    Expr,
>)
    requires
        lo <= hi <= toks@.len(),
    ensures
        opt_expr_view(r) == spec_parse_expr(range_view(toks@, lo as int, hi as int), lang_pred(rt)),
    decreases hi - lo, 6int, 0int,
{
    let ghost rv = range_view(toks@, lo as int, hi as int);
    proof {
        assert(rv.len() == hi - lo);
    }
    match find_expr_split(toks, lo, hi, true, 0, rt) {
        Some(i) => {
            proof {
                lemma_range_view_nest(toks@, lo as int, hi as int, 0, i as int);
                lemma_range_view_nest(toks@, lo as int, hi as int, i + 1, (hi - lo) as int);
            }
            let left = parse_expr_range(toks, lo, lo + i, rt);
            let right = parse_term_range(toks, lo + i + 1, hi, rt);
            match (left, right) {
                (Some(l), Some(r2)) => Some(Expr::BinOp(Op::Add, Box::new(l), Box::new(r2))),
                _ => None,
            }
        },
        None => match find_expr_split(toks, lo, hi, false, 0, rt) {
            Some(i) => {
                proof {
                    lemma_range_view_nest(toks@, lo as int, hi as int, 0, i as int);
                    lemma_range_view_nest(toks@, lo as int, hi as int, i + 1, (hi - lo) as int);
                }
                let left = parse_expr_range(toks, lo, lo + i, rt);
                let right = parse_term_range(toks, lo + i + 1, hi, rt);
                match (left, right) {
                    (Some(l), Some(r2)) => Some(Expr::BinOp(Op::Sub, Box::new(l), Box::new(r2))),
                    _ => None,
                }
            },
            None => parse_term_range(toks, lo, hi, rt),
        },
    }
}

/// Which of `+`/`-` (or of `*`/`/`) a split scan looks for.
pub open spec fn eop(first: bool) -> Tok {
    if first {
        Tok::Plus
    } else {
        Tok::Minus
    }
}

pub open spec fn top(first: bool) -> Tok {
    if first {
        Tok::Multiply
    } else {
        Tok::Divide
    }
}

fn find_expr_split<R: Language>(
    toks: &Vec<Token>,
    lo: usize,
    hi: usize,
    first: bool,
    j: usize,
    rt: &R,
) -> (r: Option<usize>)
    requires
        lo <= hi <= toks@.len(),
        j <= hi - lo,
    ensures
        match r {
            Some(i) => {
                let rv = range_view(toks@, lo as int, hi as int);
                &&& expr_split(rv, lang_pred(rt), eop(first), j as int) == Some(i as int)
                &&& j <= i && lo + i < hi
                &&& rv[i as int] == eop(first)
                &&& spec_parse_expr(rv.subrange(0, i as int), lang_pred(rt)) is Some
                &&& spec_parse_term(rv.subrange(i + 1, rv.len() as int), lang_pred(rt)) is Some
            },
            None => expr_split(
                range_view(toks@, lo as int, hi as int),
                lang_pred(rt),
                eop(first),
                j as int,
            ) is None,
        },
    decreases hi - lo, 5int, hi - lo - j,
{
    let ghost rv = range_view(toks@, lo as int, hi as int);
    proof {
        assert(rv.len() == hi - lo);
    }
    if lo + j >= hi {
        return None;
    }
    proof {
        assert(rv[j as int] == toks@[lo + j as int]@);
    }
    let at_op = match &toks[lo + j] {
        Token::Plus => first,
        Token::Minus => !first,
        _ => false,
    };
    if at_op {
        proof {
            lemma_range_view_nest(toks@, lo as int, hi as int, 0, j as int);
            lemma_range_view_nest(toks@, lo as int, hi as int, j + 1, (hi - lo) as int);
        }
        let left = parse_expr_range(toks, lo, lo + j, rt);
        let right = parse_term_range(toks, lo + j + 1, hi, rt);
        if left.is_some() && right.is_some() {
            return Some(j);
        }
    }
    find_expr_split(toks, lo, hi, first, j + 1, rt)
}

fn find_term_split<R: Language>(
    toks: &Vec<Token>,
    lo: usize,
    hi: usize,
    first: bool,
    j: usize,
    rt: &R,
) -> (r: Option<usize>)
    requires
        lo <= hi <= toks@.len(),
        j <= hi - lo,
    ensures
        match r {
            Some(i) => {
                let rv = range_view(toks@, lo as int, hi as int);
                &&& term_split(rv, lang_pred(rt), top(first), j as int) == Some(i as int)
                &&& j <= i && lo + i < hi
                &&& rv[i as int] == top(first)
                &&& spec_parse_term(rv.subrange(0, i as int), lang_pred(rt)) is Some
                &&& spec_parse_factor(rv.subrange(i + 1, rv.len() as int), lang_pred(rt)) is Some
            },
            None => term_split(
                range_view(toks@, lo as int, hi as int),
                lang_pred(rt),
                top(first),
                j as int,
            ) is None,
        },
    decreases hi - lo, 3int, hi - lo - j,
{
    let ghost rv = range_view(toks@, lo as int, hi as int);
    proof {
        assert(rv.len() == hi - lo);
    }
    if lo + j >= hi {
        return None;
    }
    proof {
        assert(rv[j as int] == toks@[lo + j as int]@);
    }
    let at_op = match &toks[lo + j] {
        Token::Multiply => first,
        Token::Divide => !first,
        _ => false,
    };
    if at_op {
        proof {
            lemma_range_view_nest(toks@, lo as int, hi as int, 0, j as int);
            lemma_range_view_nest(toks@, lo as int, hi as int, j + 1, (hi - lo) as int);
        }
        let left = parse_term_range(toks, lo, lo + j, rt);
        let right = parse_factor_range(toks, lo + j + 1, hi, rt);
        if left.is_some() && right.is_some() {
            return Some(j);
        }
    }
    find_term_split(toks, lo, hi, first, j + 1, rt)
}

fn parse_term_range<R: Language>(toks: &Vec<Token>, lo: usize, hi: usize, rt: &R) -> (r: Option<
    Expr,
>)
    requires
        lo <= hi <= toks@.len(),
    ensures
        opt_expr_view(r) == spec_parse_term(range_view(toks@, lo as int, hi as int), lang_pred(rt)),
    decreases hi - lo, 4int, 0int,
{
    let ghost rv = range_view(toks@, lo as int, hi as int);
    proof {
        assert(rv.len() == hi - lo);
    }
    match find_term_split(toks, lo, hi, true, 0, rt) {
        Some(i) => {
            proof {
                lemma_range_view_nest(toks@, lo as int, hi as int, 0, i as int);
                lemma_range_view_nest(toks@, lo as int, hi as int, i + 1, (hi - lo) as int);
            }
            let left = parse_term_range(toks, lo, lo + i, rt);
            let right = parse_factor_range(toks, lo + i + 1, hi, rt);
            match (left, right) {
                (Some(l), Some(r2)) => Some(Expr::BinOp(Op::Mul, Box::new(l), Box::new(r2))),
                _ => None,
            }
        },
        None => match find_term_split(toks, lo, hi, false, 0, rt) {
            Some(i) => {
                proof {
                    lemma_range_view_nest(toks@, lo as int, hi as int, 0, i as int);
                    lemma_range_view_nest(toks@, lo as int, hi as int, i + 1, (hi - lo) as int);
                }
                let left = parse_term_range(toks, lo, lo + i, rt);
                let right = parse_factor_range(toks, lo + i + 1, hi, rt);
                match (left, right) {
                    (Some(l), Some(r2)) => Some(Expr::BinOp(Op::Div, Box::new(l), Box::new(r2))),
                    _ => None,
                }
            },
            None => {
                if hi - lo > 1 {
                    let head_minus = match &toks[lo] {
                        Token::Minus => true,
                        _ => false,
                    };
                    proof {
                        assert(rv[0] == toks@[lo as int]@);
                    }
                    if head_minus {
                        proof {
                            lemma_range_view_nest(toks@, lo as int, hi as int, 1, (hi - lo) as int);
                        }
                        match parse_term_range(toks, lo + 1, hi, rt) {
                            Some(t) => {
                                return Some(Expr::Neg(Box::new(t)));
                            },
                            None => {},
                        }
                    }
                }
                match parse_implicit_range(toks, lo, hi, rt) {
                    Some(e) => Some(e),
                    None => parse_factor_range(toks, lo, hi, rt),
                }
            },
        },
    }
}

fn find_open_at(toks: &Vec<Token>, lo: usize, hi: usize) -> (r: Option<usize>)
    requires
        lo <= hi <= toks@.len(),
        hi - lo >= 1,
    ensures
        match r {
            Some(j) => find_open(range_view(toks@, lo as int, hi as int), hi - lo - 2, 0) == Some(
                j as int,
            ) && lo + j < hi,
            None => find_open(range_view(toks@, lo as int, hi as int), hi - lo - 2, 0) is None,
        },
{
    let ghost rv = range_view(toks@, lo as int, hi as int);
    proof {
        assert(rv.len() == hi - lo);
    }
    let mut jp: usize = hi - lo - 1;
    let mut depth: i128 = 0;
    while jp > 0
        invariant
            lo <= hi <= toks@.len(),
            hi - lo >= 1,
            jp <= hi - lo - 1,
            -((hi - lo - 1 - jp) as int) <= depth <= (hi - lo - 1 - jp) as int,
            rv == range_view(toks@, lo as int, hi as int),
            rv.len() == hi - lo,
            find_open(rv, hi - lo - 2, 0) == find_open(rv, jp - 1, depth as int),
        decreases jp,
    {
        let j = jp - 1;
        proof {
            assert(rv[j as int] == toks@[lo + j as int]@);
        }
        match &toks[lo + j] {
            Token::OpenBracket => {
                if depth == 0 {
                    return Some(j);
                } else {
                    depth = depth - 1;
                }
            },
            Token::CloseBracket => {
                depth = depth + 1;
            },
            _ => {},
        }
        jp = j;
    }
    None
}

fn find_comma_at(toks: &Vec<Token>, lo: usize, hi: usize) -> (r: Option<usize>)
    requires
        lo <= hi <= toks@.len(),
    ensures
        match r {
            Some(i) => find_comma(range_view(toks@, lo as int, hi as int), 0, 0) == Some(i as int)
                && lo + i < hi,
            None => find_comma(range_view(toks@, lo as int, hi as int), 0, 0) is None,
        },
{
    let ghost rv = range_view(toks@, lo as int, hi as int);
    proof {
        assert(rv.len() == hi - lo);
    }
    let mut j: usize = 0;
    let mut depth: i128 = 0;
    while lo + j < hi
        invariant
            lo <= hi <= toks@.len(),
            j <= hi - lo,
            -(j as int) <= depth <= j as int,
            rv == range_view(toks@, lo as int, hi as int),
            rv.len() == hi - lo,
            find_comma(rv, 0, 0) == find_comma(rv, j as int, depth as int),
        decreases hi - lo - j,
    {
        proof {
            assert(rv[j as int] == toks@[lo + j as int]@);
        }
        match &toks[lo + j] {
            Token::Coma => {
                if depth == 0 {
                    return Some(j);
                }
            },
            Token::OpenBracket => {
                depth = depth + 1;
            },
            Token::CloseBracket => {
                depth = depth - 1;
            },
            _ => {},
        }
        j = j + 1;
    }
    None
}

fn parse_implicit_range<R: Language>(toks: &Vec<Token>, lo: usize, hi: usize, rt: &R) -> (r:
    Option<Expr>)
    requires
        lo <= hi <= toks@.len(),
    ensures
        opt_expr_view(r) == spec_parse_implicit(range_view(toks@, lo as int, hi as int), lang_pred(rt)),
    decreases hi - lo, 2int, 0int,
{
    let ghost rv = range_view(toks@, lo as int, hi as int);
    proof {
        assert(rv.len() == hi - lo);
    }
    if lo == hi {
        return None;
    }
    proof {
        assert(rv[(hi - lo - 1) as int] == toks@[(hi - 1) as int]@);
    }
    match &toks[hi - 1] {
        Token::Num(n) => {
            proof {
                lemma_range_view_nest(toks@, lo as int, hi as int, 0, (hi - lo - 1) as int);
            }
            match parse_term_range(toks, lo, hi - 1, rt) {
                Some(t) => {
                    let rhs = Expr::Num(n.clone());
                    proof {
                        assert(expr_view(rhs) == ExprV::Num(n@));
                    }
                    let res = Expr::BinOp(Op::Mul, Box::new(t), Box::new(rhs));
                    Some(res)
                },
                None => None,
            }
        },
        Token::Identifier(v) => {
            if !rt.has_func(v.as_str()) {
                proof {
                    lemma_range_view_nest(toks@, lo as int, hi as int, 0, (hi - lo - 1) as int);
                }
                match parse_term_range(toks, lo, hi - 1, rt) {
                    Some(t) => {
                        let rhs = Expr::Var(Variable { name: v.clone() });
                        proof {
                            assert(expr_view(rhs) == ExprV::Var(v@));
                        }
                        let res = Expr::BinOp(Op::Mul, Box::new(t), Box::new(rhs));
                        Some(res)
                    },
                    None => None,
                }
            } else {
                None
            }
        },
        Token::CloseBracket => {
            match find_open_at(toks, lo, hi) {
                Some(ob) => {
                    let func_form = ob >= 2 && (match &toks[lo + ob - 1] {
                        Token::Identifier(id) => rt.has_func(id.as_str()),
                        _ => false,
                    });
                    proof {
                        if ob >= 2 {
                            assert(rv[ob - 1 as int] == toks@[lo + ob - 1 as int]@);
                        }
                    }
                    let cut = if func_form {
                        ob - 1
                    } else {
                        ob
                    };
                    proof {
                        lemma_range_view_nest(toks@, lo as int, hi as int, 0, cut as int);
                        lemma_range_view_nest(
                            toks@,
                            lo as int,
                            hi as int,
                            cut as int,
                            (hi - lo) as int,
                        );
                    }
                    proof {
                        assert(rv[(hi - lo - 1) as int] is CloseBracket);
                        assert(find_open(rv, rv.len() - 2, 0) == Some(ob as int));
                        assert(func_form == (ob >= 2 && rv[ob - 1 as int] is Identifier
                            && lang_pred(rt)(rv[ob - 1 as int]->Identifier_0)));
                    }
                    match parse_term_range(toks, lo, lo + cut, rt) {
                        Some(t) => match parse_factor_range(toks, lo + cut, hi, rt) {
                            Some(f) => Some(Expr::BinOp(Op::Mul, Box::new(t), Box::new(f))),
                            None => None,
                        },
                        None => None,
                    }
                },
                None => None,
            }
        },
        _ => None,
    }
}

fn parse_factor_range<R: Language>(toks: &Vec<Token>, lo: usize, hi: usize, rt: &R) -> (r: Option<
    Expr,
>)
    requires
        lo <= hi <= toks@.len(),
    ensures
        opt_expr_view(r) == spec_parse_factor(range_view(toks@, lo as int, hi as int), lang_pred(rt)),
    decreases hi - lo, 1int, 0int,
{
    let ghost rv = range_view(toks@, lo as int, hi as int);
    proof {
        assert(rv.len() == hi - lo);
    }
    if lo == hi {
        return None;
    }
    proof {
        assert(rv[0] == toks@[lo as int]@);
        assert(rv[(hi - lo - 1) as int] == toks@[(hi - 1) as int]@);
    }
    match &toks[lo] {
        Token::Num(n) => {
            if hi - lo == 1 {
                Some(Expr::Num(n.clone()))
            } else {
                None
            }
        },
        Token::Identifier(id) => {
            let call_shape = hi - lo > 3 && (match &toks[lo + 1] {
                Token::OpenBracket => true,
                _ => false,
            }) && (match &toks[hi - 1] {
                Token::CloseBracket => true,
                _ => false,
            }) && rt.has_func(id.as_str());
            proof {
                if hi - lo > 3 {
                    assert(rv[1] == toks@[lo + 1 as int]@);
                }
            }
            if call_shape {
                proof {
                    lemma_range_view_nest(toks@, lo as int, hi as int, 2, (hi - lo - 1) as int);
                }
                match parse_arglist_range(toks, lo + 2, hi - 1, rt) {
                    Some(args) => Some(Expr::Call(id.clone(), args)),
                    None => None,
                }
            } else if hi - lo == 1 && !rt.has_func(id.as_str()) {
                Some(Expr::Var(Variable { name: id.clone() }))
            } else {
                None
            }
        },
        Token::OpenBracket => {
            let closed = match &toks[hi - 1] {
                Token::CloseBracket => true,
                _ => false,
            };
            if closed {
                proof {
                    lemma_range_view_nest(toks@, lo as int, hi as int, 1, (hi - lo - 1) as int);
                }
                parse_expr_range(toks, lo + 1, hi - 1, rt)
            } else {
                None
            }
        },
        _ => None,
    }
}

fn parse_arglist_range<R: Language>(toks: &Vec<Token>, lo: usize, hi: usize, rt: &R) -> (r:
    Option<Vec<Expr>>)
    requires
        lo <= hi <= toks@.len(),
    ensures
        opt_exprs_view(r) == spec_parse_arglist(range_view(toks@, lo as int, hi as int), lang_pred(rt)),
    decreases hi - lo, 7int, 0int,
{
    let ghost rv = range_view(toks@, lo as int, hi as int);
    proof {
        assert(rv.len() == hi - lo);
    }
    match find_comma_at(toks, lo, hi) {
        Some(i) => {
            proof {
                lemma_range_view_nest(toks@, lo as int, hi as int, 0, i as int);
                lemma_range_view_nest(toks@, lo as int, hi as int, i + 1, (hi - lo) as int);
            }
            let head = parse_expr_range(toks, lo, lo + i, rt);
            let rest = parse_arglist_range(toks, lo + i + 1, hi, rt);
            match (head, rest) {
                (Some(h), Some(mut v)) => {
                    let ghost vb = v@;
                    let ghost hv = expr_view(h);
                    v.insert(0, h);
                    proof {
                        assert(v@ =~= seq![v@[0]] + vb);
                        assert(exprs_view(v@) =~= seq![hv] + exprs_view(vb)) by {
                            assert(v@.subrange(1, v@.len() as int) =~= vb);
                        }
                    }
                    Some(v)
                },
                _ => None,
            }
        },
        None => match parse_expr_range(toks, lo, hi, rt) {
            Some(e) => {
                let ghost ev = expr_view(e);
                let mut v: Vec<Expr> = Vec::new();
                v.push(e);
                proof {
                    assert(v@.len() == 1);
                    assert(v@.subrange(1, 1) =~= Seq::<Expr>::empty());
                    assert(exprs_view(Seq::<Expr>::empty()) =~= Seq::<ExprV>::empty());
                    assert(expr_view(v@[0]) == ev);
                    assert(seq![ev] + Seq::<ExprV>::empty() =~= seq![ev]);
                    assert(exprs_view(v@) =~= seq![ev]);
                }
                Some(v)
            },
            None => None,
        },
    }
}

/// Parses a whole token sequence as an expression of the grammar.
pub fn parse_expr<R: Language>(tokens: &Vec<Token>, runtime: &R) -> (r: Option<Expr>)
    ensures
        opt_expr_view(r) == spec_parse_expr(toks_view(tokens@), lang_pred(runtime)),
{
    proof {
        assert(tokens@.subrange(0, tokens@.len() as int) =~= tokens@);
    }
    parse_expr_range(tokens, 0, tokens.len(), runtime)
}

impl Number {
    /// Reads a complete literal: one digit run, optionally a dot and a
    /// second digit run, nothing else.
    pub fn from_literal(s: &str) -> (r: Option<Number>)
        ensures
            r is Some <==> super::number::spec_number_literal(s@) is Some,
            r matches Some(n) ==> Some(n@) == super::number::spec_number_literal(s@),
    {
        let cs = str_chars(s);
        if cs.len() == 0 {
            return None;
        }
        if !digit_char(cs[0]) {
            proof {
                assert(digit_run(cs@) == 0);
            }
            return None;
        }
        proof {
            assert(cs@.skip(0) =~= cs@);
        }
        match read_number(&cs, 0) {
            Some((num, next)) => {
                if next == cs.len() {
                    Some(num)
                } else {
                    None
                }
            },
            None => None,
        }
    }
}

} // verus!
