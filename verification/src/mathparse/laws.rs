//! Laws of the expression engine, proved once over the grammar: the free
//! variables of any formula the parser accepts are exactly the identifier
//! tokens that the environment does not recognise as functions.

use vstd::prelude::*;

use super::expr::{digits_chars, num_latex, spec_vars, spec_vars_list, ExprV};
use super::number::{digit_of_char, digit_run, digit_values, is_digit_char, norm_number,
    spec_number_literal, strip_leading_zeros, strip_trailing_zeros, NumberV};
use super::parse::{expr_split, find_comma, find_open, spec_parse,
    spec_parse_arglist, spec_parse_expr, spec_parse_factor, spec_parse_implicit,
    spec_parse_term, spec_tokenize, term_split, Tok};

verus! {

/// The names of the identifier tokens of `ts` that `lang` does not
/// recognise as functions.
pub open spec fn ident_tokens(ts: Seq<Tok>, lang: spec_fn(Seq<char>) -> bool) -> Set<Seq<char>>
    decreases ts.len(),
{
    if ts.len() == 0 {
        Set::empty()
    } else {
        let rest = ident_tokens(ts.drop_last(), lang);
        match ts[ts.len() - 1] {
            Tok::Identifier(n) => if !lang(n) {
                rest.insert(n)
            } else {
                rest
            },
            _ => rest,
        }
    }
}

proof fn lemma_ident_tokens_empty(lang: spec_fn(Seq<char>) -> bool)
    ensures
        ident_tokens(Seq::empty(), lang) == Set::<Seq<char>>::empty(),
{
}

/// What one token contributes.
proof fn lemma_ident_tokens_one(t: Tok, lang: spec_fn(Seq<char>) -> bool)
    ensures
        ident_tokens(seq![t], lang) == (match t {
            Tok::Identifier(n) => if !lang(n) {
                Set::empty().insert(n)
            } else {
                Set::<Seq<char>>::empty()
            },
            _ => Set::<Seq<char>>::empty(),
        }),
{
    assert(seq![t].drop_last() =~= Seq::<Tok>::empty());
    lemma_ident_tokens_empty(lang);
    assert(seq![t][0] == t);
}

proof fn lemma_ident_tokens_concat(a: Seq<Tok>, b: Seq<Tok>, lang: spec_fn(Seq<char>) -> bool)
    ensures
        ident_tokens(a + b, lang) == ident_tokens(a, lang).union(ident_tokens(b, lang)),
    decreases b.len(),
{
    if b.len() == 0 {
        assert(a + b =~= a);
        assert(ident_tokens(a, lang).union(ident_tokens(b, lang)) =~= ident_tokens(a, lang));
    } else {
        lemma_ident_tokens_concat(a, b.drop_last(), lang);
        assert((a + b).drop_last() =~= a + b.drop_last());
        assert((a + b)[(a + b).len() - 1] == b[b.len() - 1]);
        match b[b.len() - 1] {
            Tok::Identifier(n) => {
                if !lang(n) {
                    assert(ident_tokens(a, lang).union(
                        ident_tokens(b.drop_last(), lang),
                    ).insert(n) =~= ident_tokens(a, lang).union(
                        ident_tokens(b.drop_last(), lang).insert(n),
                    ));
                }
            },
            _ => {},
        }
    }
}

/// The tokens other than one at `i` carry all the identifier names when
/// the one dropped is no identifier.
proof fn lemma_ident_tokens_drop(ts: Seq<Tok>, i: int, lang: spec_fn(Seq<char>) -> bool)
    requires
        0 <= i < ts.len(),
        !(ts[i] is Identifier),
    ensures
        ident_tokens(ts, lang) == ident_tokens(ts.subrange(0, i), lang).union(
            ident_tokens(ts.subrange(i + 1, ts.len() as int), lang),
        ),
{
    let a = ts.subrange(0, i);
    let m = seq![ts[i]];
    let b = ts.subrange(i + 1, ts.len() as int);
    assert(ts =~= a + m + b);
    lemma_ident_tokens_concat(a + m, b, lang);
    lemma_ident_tokens_concat(a, m, lang);
    lemma_ident_tokens_one(ts[i], lang);
    assert(ident_tokens(a, lang).union(Set::empty()) =~= ident_tokens(a, lang));
}

/// Two halves carry all the identifier names.
proof fn lemma_ident_tokens_cut(ts: Seq<Tok>, i: int, lang: spec_fn(Seq<char>) -> bool)
    requires
        0 <= i <= ts.len(),
    ensures
        ident_tokens(ts, lang) == ident_tokens(ts.subrange(0, i), lang).union(
            ident_tokens(ts.subrange(i, ts.len() as int), lang),
        ),
{
    assert(ts =~= ts.subrange(0, i) + ts.subrange(i, ts.len() as int));
    lemma_ident_tokens_concat(ts.subrange(0, i), ts.subrange(i, ts.len() as int), lang);
}

proof fn lemma_expr_split_props(ts: Seq<Tok>, lang: spec_fn(Seq<char>) -> bool, op: Tok, j: int)
    requires
        j >= 0,
    ensures
        expr_split(ts, lang, op, j) matches Some(i) ==> {
            &&& j <= i < ts.len()
            &&& ts[i] == op
            &&& spec_parse_expr(ts.subrange(0, i), lang) is Some
            &&& spec_parse_term(ts.subrange(i + 1, ts.len() as int), lang) is Some
        },
    decreases ts.len() - j,
{
    if 0 <= j < ts.len() {
        if !(ts[j] == op && spec_parse_expr(ts.subrange(0, j), lang) is Some && spec_parse_term(
            ts.subrange(j + 1, ts.len() as int),
            lang,
        ) is Some) {
            lemma_expr_split_props(ts, lang, op, j + 1);
        }
    }
}

proof fn lemma_term_split_props(ts: Seq<Tok>, lang: spec_fn(Seq<char>) -> bool, op: Tok, j: int)
    requires
        j >= 0,
    ensures
        term_split(ts, lang, op, j) matches Some(i) ==> {
            &&& j <= i < ts.len()
            &&& ts[i] == op
            &&& spec_parse_term(ts.subrange(0, i), lang) is Some
            &&& spec_parse_factor(ts.subrange(i + 1, ts.len() as int), lang) is Some
        },
    decreases ts.len() - j,
{
    if 0 <= j < ts.len() {
        if !(ts[j] == op && spec_parse_term(ts.subrange(0, j), lang) is Some && spec_parse_factor(
            ts.subrange(j + 1, ts.len() as int),
            lang,
        ) is Some) {
            lemma_term_split_props(ts, lang, op, j + 1);
        }
    }
}

proof fn lemma_find_open_props(ts: Seq<Tok>, j: int, depth: int)
    ensures
        find_open(ts, j, depth) matches Some(i) ==> 0 <= i <= j < ts.len() && ts[i]
            is OpenBracket,
    decreases j + 1,
{
    if 0 <= j < ts.len() && !(ts[j] is OpenBracket && depth == 0) {
        if ts[j] is OpenBracket {
            lemma_find_open_props(ts, j - 1, depth - 1);
        } else if ts[j] is CloseBracket {
            lemma_find_open_props(ts, j - 1, depth + 1);
        } else {
            lemma_find_open_props(ts, j - 1, depth);
        }
    }
}

proof fn lemma_find_comma_props(ts: Seq<Tok>, j: int, depth: int)
    requires
        j >= 0,
    ensures
        find_comma(ts, j, depth) matches Some(i) ==> j <= i < ts.len() && ts[i] is Coma,
    decreases ts.len() - j,
{
    if 0 <= j < ts.len() && !(ts[j] is Coma && depth == 0) {
        if ts[j] is OpenBracket {
            lemma_find_comma_props(ts, j + 1, depth + 1);
        } else if ts[j] is CloseBracket {
            lemma_find_comma_props(ts, j + 1, depth - 1);
        } else {
            lemma_find_comma_props(ts, j + 1, depth);
        }
    }
}

proof fn lemma_spec_vars_list_cons(e: ExprV, rest: Seq<ExprV>)
    ensures
        spec_vars_list(seq![e] + rest) == spec_vars(e).union(spec_vars_list(rest)),
{
    let s = seq![e] + rest;
    assert(s.len() == rest.len() + 1);
    assert(s[0] == e);
    assert(s.subrange(1, s.len() as int) =~= rest);
}

proof fn lemma_vars_expr(ts: Seq<Tok>, lang: spec_fn(Seq<char>) -> bool)
    ensures
        spec_parse_expr(ts, lang) matches Some(e) ==> spec_vars(e) == ident_tokens(ts, lang),
    decreases ts.len(), 6int, 0int,
{
    let plus = expr_split(ts, lang, Tok::Plus, 0);
    let minus = expr_split(ts, lang, Tok::Minus, 0);
    lemma_expr_split_props(ts, lang, Tok::Plus, 0);
    lemma_expr_split_props(ts, lang, Tok::Minus, 0);
    if plus is Some && 0 <= plus->0 < ts.len() {
        let i = plus->0;
        lemma_vars_expr(ts.subrange(0, i), lang);
        lemma_vars_term(ts.subrange(i + 1, ts.len() as int), lang);
        lemma_ident_tokens_drop(ts, i, lang);
    } else if minus is Some && 0 <= minus->0 < ts.len() {
        let i = minus->0;
        lemma_vars_expr(ts.subrange(0, i), lang);
        lemma_vars_term(ts.subrange(i + 1, ts.len() as int), lang);
        lemma_ident_tokens_drop(ts, i, lang);
    } else {
        lemma_vars_term(ts, lang);
    }
}

proof fn lemma_vars_term(ts: Seq<Tok>, lang: spec_fn(Seq<char>) -> bool)
    ensures
        spec_parse_term(ts, lang) matches Some(e) ==> spec_vars(e) == ident_tokens(ts, lang),
    decreases ts.len(), 4int, 0int,
{
    let mul = term_split(ts, lang, Tok::Multiply, 0);
    let div = term_split(ts, lang, Tok::Divide, 0);
    lemma_term_split_props(ts, lang, Tok::Multiply, 0);
    lemma_term_split_props(ts, lang, Tok::Divide, 0);
    if mul is Some && 0 <= mul->0 < ts.len() {
        let i = mul->0;
        lemma_vars_term(ts.subrange(0, i), lang);
        lemma_vars_factor(ts.subrange(i + 1, ts.len() as int), lang);
        lemma_ident_tokens_drop(ts, i, lang);
    } else if div is Some && 0 <= div->0 < ts.len() {
        let i = div->0;
        lemma_vars_term(ts.subrange(0, i), lang);
        lemma_vars_factor(ts.subrange(i + 1, ts.len() as int), lang);
        lemma_ident_tokens_drop(ts, i, lang);
    } else if ts.len() > 1 && ts[0] is Minus && spec_parse_term(
        ts.subrange(1, ts.len() as int),
        lang,
    ) is Some {
        lemma_vars_term(ts.subrange(1, ts.len() as int), lang);
        lemma_ident_tokens_drop(ts, 0, lang);
        assert(ident_tokens(ts.subrange(0, 0), lang) =~= Set::empty()) by {
            assert(ts.subrange(0, 0) =~= Seq::<Tok>::empty());
        }
        assert(Set::empty().union(ident_tokens(ts.subrange(1, ts.len() as int), lang))
            =~= ident_tokens(ts.subrange(1, ts.len() as int), lang));
    } else if spec_parse_implicit(ts, lang) is Some {
        lemma_vars_implicit(ts, lang);
    } else {
        lemma_vars_factor(ts, lang);
    }
}

proof fn lemma_vars_implicit(ts: Seq<Tok>, lang: spec_fn(Seq<char>) -> bool)
    ensures
        spec_parse_implicit(ts, lang) matches Some(e) ==> spec_vars(e) == ident_tokens(ts, lang),
    decreases ts.len(), 2int, 0int,
{
    if ts.len() == 0 {
        return ;
    }
    let last = ts[ts.len() - 1];
    match last {
        Tok::Num(nv) => {
            lemma_vars_term(ts.subrange(0, ts.len() - 1), lang);
            if spec_parse_implicit(ts, lang) is Some {
                lemma_ident_tokens_drop(ts, ts.len() - 1, lang);
                assert(ident_tokens(ts.subrange(ts.len() as int, ts.len() as int), lang)
                    =~= Set::empty()) by {
                    assert(ts.subrange(ts.len() as int, ts.len() as int) =~= Seq::<Tok>::empty());
                }
                assert(ident_tokens(ts.subrange(0, ts.len() - 1), lang).union(Set::empty())
                    =~= ident_tokens(ts.subrange(0, ts.len() - 1), lang));
                assert(spec_vars(ExprV::Num(nv)) =~= Set::empty());
                assert(spec_vars(spec_parse_implicit(ts, lang)->0) =~= ident_tokens(ts, lang));
            }
        },
        Tok::Identifier(v) => {
            if !lang(v) {
                lemma_vars_term(ts.subrange(0, ts.len() - 1), lang);
                if spec_parse_implicit(ts, lang) is Some {
                    assert(ts.drop_last() =~= ts.subrange(0, ts.len() - 1));
                    assert(spec_vars(ExprV::Var(v)) =~= Set::empty().insert(v));
                    assert(spec_vars(spec_parse_implicit(ts, lang)->0) =~= ident_tokens(
                        ts,
                        lang,
                    ));
                }
            }
        },
        Tok::CloseBracket => {
            let open = find_open(ts, ts.len() - 2, 0);
            lemma_find_open_props(ts, ts.len() - 2, 0);
            if open is Some && 0 <= open->0 < ts.len() {
                let ob = open->0;
                let func_form = ob >= 2 && ts[ob - 1] is Identifier && lang(
                    ts[ob - 1]->Identifier_0,
                );
                let cut = if func_form {
                    ob - 1
                } else {
                    ob
                };
                lemma_vars_term(ts.subrange(0, cut), lang);
                lemma_vars_factor(ts.subrange(cut, ts.len() as int), lang);
                lemma_ident_tokens_cut(ts, cut, lang);
            }
        },
        _ => {},
    }
}

proof fn lemma_vars_factor(ts: Seq<Tok>, lang: spec_fn(Seq<char>) -> bool)
    ensures
        spec_parse_factor(ts, lang) matches Some(e) ==> spec_vars(e) == ident_tokens(ts, lang),
    decreases ts.len(), 1int, 0int,
{
    if ts.len() == 0 {
        return ;
    }
    match ts[0] {
        Tok::Num(nv) => {
            if ts.len() == 1 {
                assert(ts =~= seq![ts[0]]);
                lemma_ident_tokens_one(ts[0], lang);
                assert(spec_vars(ExprV::Num(nv)) =~= Set::empty());
            }
        },
        Tok::Identifier(id) => {
            if ts.len() > 3 && ts[1] is OpenBracket && ts[ts.len() - 1] is CloseBracket && lang(
                id,
            ) {
                lemma_vars_arglist(ts.subrange(2, ts.len() - 1), lang);
                if spec_parse_factor(ts, lang) is Some {
                    // peel the close bracket, the call name, and the open bracket
                    lemma_ident_tokens_drop(ts, ts.len() - 1, lang);
                    let head = ts.subrange(0, ts.len() - 1);
                    assert(ident_tokens(ts.subrange(ts.len() as int, ts.len() as int), lang)
                        =~= Set::empty()) by {
                        assert(ts.subrange(ts.len() as int, ts.len() as int)
                            =~= Seq::<Tok>::empty());
                    }
                    lemma_ident_tokens_cut(head, 2, lang);
                    assert(ident_tokens(head.subrange(0, 2), lang) =~= Set::empty()) by {
                        let two = head.subrange(0, 2);
                        assert(two =~= seq![ts[0]] + seq![ts[1]]);
                        lemma_ident_tokens_concat(seq![ts[0]], seq![ts[1]], lang);
                        lemma_ident_tokens_one(ts[0], lang);
                        lemma_ident_tokens_one(ts[1], lang);
                    }
                    assert(head.subrange(2, head.len() as int) =~= ts.subrange(2, ts.len() - 1));
                    assert(spec_vars(spec_parse_factor(ts, lang)->0) =~= ident_tokens(ts, lang));
                }
            } else if ts.len() == 1 && !lang(id) {
                assert(ts =~= seq![ts[0]]);
                lemma_ident_tokens_one(ts[0], lang);
                assert(spec_vars(ExprV::Var(id)) =~= Set::empty().insert(id));
                assert(spec_vars(spec_parse_factor(ts, lang)->0) =~= ident_tokens(ts, lang));
            }
        },
        Tok::OpenBracket => {
            if ts.len() > 0 && ts[ts.len() - 1] is CloseBracket {
                lemma_vars_expr(ts.subrange(1, ts.len() - 1), lang);
                if spec_parse_factor(ts, lang) is Some {
                    lemma_ident_tokens_drop(ts, ts.len() - 1, lang);
                    let head = ts.subrange(0, ts.len() - 1);
                    assert(ident_tokens(ts.subrange(ts.len() as int, ts.len() as int), lang)
                        =~= Set::empty()) by {
                        assert(ts.subrange(ts.len() as int, ts.len() as int)
                            =~= Seq::<Tok>::empty());
                    }
                    lemma_ident_tokens_cut(head, 1, lang);
                    assert(ident_tokens(head.subrange(0, 1), lang) =~= Set::empty()) by {
                        assert(head.subrange(0, 1) =~= seq![ts[0]]);
                        lemma_ident_tokens_one(ts[0], lang);
                    }
                    assert(head.subrange(1, head.len() as int) =~= ts.subrange(1, ts.len() - 1));
                    assert(spec_vars(spec_parse_factor(ts, lang)->0) =~= ident_tokens(ts, lang));
                }
            }
        },
        _ => {},
    }
}

proof fn lemma_vars_arglist(ts: Seq<Tok>, lang: spec_fn(Seq<char>) -> bool)
    ensures
        spec_parse_arglist(ts, lang) matches Some(args) ==> spec_vars_list(args) == ident_tokens(
            ts,
            lang,
        ),
    decreases ts.len(), 7int, 0int,
{
    let c = find_comma(ts, 0, 0);
    lemma_find_comma_props(ts, 0, 0);
    if c is Some && 0 <= c->0 < ts.len() {
        let i = c->0;
        lemma_vars_expr(ts.subrange(0, i), lang);
        lemma_vars_arglist(ts.subrange(i + 1, ts.len() as int), lang);
        if spec_parse_arglist(ts, lang) is Some {
            let e = spec_parse_expr(ts.subrange(0, i), lang)->0;
            let rest = spec_parse_arglist(ts.subrange(i + 1, ts.len() as int), lang)->0;
            lemma_spec_vars_list_cons(e, rest);
            lemma_ident_tokens_drop(ts, i, lang);
        }
    } else {
        lemma_vars_expr(ts, lang);
        if spec_parse_arglist(ts, lang) is Some {
            let e = spec_parse_expr(ts, lang)->0;
            lemma_spec_vars_list_cons(e, Seq::empty());
            assert(seq![e] + Seq::<ExprV>::empty() =~= seq![e]);
            assert(spec_vars(e).union(Set::empty()) =~= spec_vars(e));
        }
    }
}

/// The free variables of any formula the grammar accepts are exactly the
/// identifier tokens the environment does not recognise as functions.
pub proof fn lemma_parsed_vars_are_free_identifiers(
    ts: Seq<Tok>,
    lang: spec_fn(Seq<char>) -> bool,
)
    requires
        spec_parse_expr(ts, lang) is Some,
    ensures
        spec_vars(spec_parse_expr(ts, lang)->0) == ident_tokens(ts, lang),
{
    lemma_vars_expr(ts, lang);
}

/// A literal's digits are in range and carry no redundant zero: the
/// shape every stored literal has.
pub open spec fn number_wf(nv: NumberV) -> bool {
    &&& nv.whole.len() > 0 ==> nv.whole[0] != 0
    &&& nv.frac.len() > 0 ==> nv.frac[nv.frac.len() - 1] != 0
    &&& forall|i: int| 0 <= i < nv.whole.len() ==> nv.whole[i] <= 9
    &&& forall|i: int| 0 <= i < nv.frac.len() ==> nv.frac[i] <= 9
}

proof fn lemma_digit_chars_read_back(d: Seq<u8>)
    requires
        forall|i: int| 0 <= i < d.len() ==> d[i] <= 9,
    ensures
        forall|i: int|
            0 <= i < d.len() ==> is_digit_char(#[trigger] digits_chars(d)[i]),
        digit_values(digits_chars(d), d.len()) == d,
{
    assert forall|i: int| 0 <= i < d.len() implies is_digit_char(
        #[trigger] digits_chars(d)[i],
    ) by {
        assert(digits_chars(d)[i] == (((d[i] + 48) as u8) as char));
    }
    assert(digit_values(digits_chars(d), d.len() as nat) =~= d) by {
        assert forall|i: int|
            0 <= i < d.len() implies digit_values(digits_chars(d), d.len() as nat)[i] == d[i] by {
            assert(digits_chars(d).subrange(0, d.len() as int)[i] == digits_chars(d)[i]);
            assert(digit_of_char((((d[i] + 48) as u8) as char)) == d[i]);
        }
    }
}

/// Printing a literal and reading it back yields the same literal: the
/// numeric leaf of a round trip through the printer.
pub proof fn lemma_literal_print_read_back(nv: NumberV)
    requires
        number_wf(nv),
    ensures
        spec_number_literal(num_latex(nv)) == Some(nv),
{
    let s = num_latex(nv);
    let whole_str = if nv.whole.len() == 0 {
        seq!['0']
    } else {
        digits_chars(nv.whole)
    };
    let a = whole_str.len() as int;
    lemma_digit_chars_read_back(nv.whole);
    lemma_digit_chars_read_back(nv.frac);
    assert(strip_leading_zeros(Seq::<u8>::empty()) =~= Seq::<u8>::empty());
    assert(strip_trailing_zeros(Seq::<u8>::empty()) =~= Seq::<u8>::empty());
    assert(is_digit_char('0'));
    assert(forall|i: int| 0 <= i < a ==> is_digit_char(#[trigger] whole_str[i]));
    assert(strip_leading_zeros(nv.whole) == nv.whole) by {
        if nv.whole.len() > 0 {
            assert(nv.whole[0] != 0);
        }
    }
    assert(strip_trailing_zeros(nv.frac) == nv.frac) by {
        if nv.frac.len() > 0 {
            assert(nv.frac[nv.frac.len() - 1] != 0);
        }
    }
    if nv.frac.len() == 0 {
        assert(nv.frac =~= Seq::<u8>::empty());
        assert(s == whole_str);
        lemma_digit_run_all(s);
        if nv.whole.len() == 0 {
            assert(digit_values(s, 1) =~= seq![0u8]) by {
                assert(s.subrange(0, 1)[0] == '0');
                assert(digit_of_char('0') == 0);
            }
            assert(strip_leading_zeros(seq![0u8]) =~= Seq::<u8>::empty()) by {
                assert(seq![0u8].drop_first() =~= Seq::<u8>::empty());
            }
            assert(nv.whole =~= Seq::<u8>::empty());
            assert(norm_number(digit_values(s, 1), Seq::empty()) == nv);
        } else {
            assert(digit_values(s, s.len()) == nv.whole);
            assert(norm_number(digit_values(s, s.len()), Seq::empty()) == nv);
        }
    } else {
        assert(s == whole_str + seq!['.'] + digits_chars(nv.frac));
        assert(s.len() == a + 1 + nv.frac.len());
        assert(forall|i: int| 0 <= i < a ==> #[trigger] s[i] == whole_str[i]);
        assert(s[a] == '.');
        assert(!is_digit_char('.')) by {
            assert(('.' as u32) == 46);
        }
        super::number::lemma_digit_run_is(s, a as nat);
        let rest = s.skip(a + 1);
        assert(rest =~= digits_chars(nv.frac));
        lemma_digit_run_all(rest);
        assert(digit_run(s) == a);
        let got_whole = digit_values(s, a as nat);
        assert(got_whole =~= digit_values(whole_str, a as nat)) by {
            assert(s.subrange(0, a) =~= whole_str);
        }
        if nv.whole.len() == 0 {
            assert(got_whole =~= seq![0u8]) by {
                assert(whole_str.subrange(0, 1)[0] == '0');
                assert(digit_of_char('0') == 0);
            }
            assert(strip_leading_zeros(seq![0u8]) =~= Seq::<u8>::empty()) by {
                assert(seq![0u8].drop_first() =~= Seq::<u8>::empty());
            }
            assert(nv.whole =~= Seq::<u8>::empty());
        } else {
            assert(got_whole == nv.whole);
        }
        assert(digit_values(rest, nv.frac.len()) == nv.frac);
        assert(spec_number_literal(s) == Some(
            norm_number(got_whole, digit_values(rest, nv.frac.len())),
        ));
    }
}

/// A sequence of digits reads as one digit run covering it whole.
proof fn lemma_digit_run_all(s: Seq<char>)
    requires
        forall|i: int| 0 <= i < s.len() ==> is_digit_char(#[trigger] s[i]),
    ensures
        digit_run(s) == s.len(),
    decreases s.len(),
{
    if s.len() > 0 {
        lemma_digit_run_all(s.drop_first());
    }
}

/// The same, stated of a source string: the free variables of a formula
/// that parses are the identifier tokens of its token stream that the
/// environment does not recognise as functions.
pub proof fn lemma_parse_vars_are_free_identifiers(s: Seq<char>, lang: spec_fn(Seq<char>) -> bool)
    requires
        spec_parse(s, lang) is Some,
    ensures
        spec_tokenize(s) is Some,
        spec_vars(spec_parse(s, lang)->0) == ident_tokens(spec_tokenize(s)->0, lang),
{
    lemma_parsed_vars_are_free_identifiers(spec_tokenize(s)->0, lang);
}

} // verus!
