//! Numeric literals of the expression language.
//!
//! A literal is an unsigned base-10 digit run, optionally followed by a dot
//! and a second digit run.  The crate keeps the digits themselves rather
//! than a machine real: callers that need a real convert the digits.  Two
//! literals are equal exactly when they denote the same rational, which the
//! stored form guarantees by stripping leading zeros of the whole part and
//! trailing zeros of the fractional part.

use vstd::prelude::*;

verus! {

/// What a numeric literal denotes: the digit values before the decimal dot
/// (most significant first, leading zeros stripped) and the digit values
/// after it (trailing zeros stripped).
pub struct NumberV {
    pub whole: Seq<u8>,
    pub frac: Seq<u8>,
}

pub open spec fn is_digit_char(c: char) -> bool {
    48 <= (c as u32) <= 57
}

pub open spec fn digit_of_char(c: char) -> u8 {
    ((c as u32) - 48) as u8
}

/// Length of the longest run of decimal digits at the head of `s`.
pub open spec fn digit_run(s: Seq<char>) -> nat
    decreases s.len(),
{
    if s.len() == 0 || !is_digit_char(s[0]) {
        0
    } else {
        1 + digit_run(s.drop_first())
    }
}

/// The digit values of the first `n` characters of `s`.
pub open spec fn digit_values(s: Seq<char>, n: nat) -> Seq<u8> {
    s.subrange(0, n as int).map_values(|c: char| digit_of_char(c))
}

pub open spec fn strip_leading_zeros(d: Seq<u8>) -> Seq<u8>
    decreases d.len(),
{
    if d.len() > 0 && d[0] == 0 {
        strip_leading_zeros(d.drop_first())
    } else {
        d
    }
}

pub open spec fn strip_trailing_zeros(d: Seq<u8>) -> Seq<u8>
    decreases d.len(),
{
    if d.len() > 0 && d[d.len() - 1] == 0 {
        strip_trailing_zeros(d.drop_last())
    } else {
        d
    }
}

/// The denotation of a literal with the given raw digit runs.
pub open spec fn norm_number(whole: Seq<u8>, frac: Seq<u8>) -> NumberV {
    NumberV { whole: strip_leading_zeros(whole), frac: strip_trailing_zeros(frac) }
}

/// The denotation of a complete literal string: one digit run, optionally
/// `.` and a second digit run, nothing else.  A bare dot on either side is
/// no literal.
pub open spec fn spec_number_literal(s: Seq<char>) -> Option<NumberV> {
    let a = digit_run(s);
    if a == 0 {
        None
    } else if a == s.len() {
        Some(norm_number(digit_values(s, a), Seq::empty()))
    } else if s[a as int] == '.' {
        let b = digit_run(s.skip(a + 1 as int));
        if b == 0 || a + 1 + b != s.len() {
            None
        } else {
            Some(norm_number(digit_values(s, a), digit_values(s.skip(a + 1 as int), b)))
        }
    } else {
        None
    }
}

/// A numeric literal, stored as its digit values.
#[derive(Debug)]
pub struct Number {
    whole: Vec<u8>,
    frac: Vec<u8>,
}

fn copy_digits(d: &Vec<u8>) -> (r: Vec<u8>)
    ensures
        r@ == d@,
{
    let mut r: Vec<u8> = Vec::new();
    let mut i: usize = 0;
    while i < d.len()
        invariant
            i <= d@.len(),
            r@ == d@.subrange(0, i as int),
        decreases d@.len() - i,
    {
        r.push(d[i]);
        proof {
            assert(r@ =~= d@.subrange(0, i + 1));
        }
        i = i + 1;
    }
    proof {
        assert(d@.subrange(0, d@.len() as int) =~= d@);
    }
    r
}

impl Clone for Number {
    fn clone(&self) -> (r: Number)
        ensures
            r@ == self@,
    {
        Number { whole: copy_digits(&self.whole), frac: copy_digits(&self.frac) }
    }
}

fn digits_eq(a: &Vec<u8>, b: &Vec<u8>) -> (r: bool)
    ensures
        r == (a@ == b@),
{
    if a.len() != b.len() {
        return false;
    }
    let mut i: usize = 0;
    while i < a.len()
        invariant
            i <= a@.len(),
            a@.len() == b@.len(),
            forall|j: int| 0 <= j < i ==> a@[j] == b@[j],
        decreases a@.len() - i,
    {
        if a[i] != b[i] {
            return false;
        }
        i = i + 1;
    }
    proof {
        assert(a@ =~= b@);
    }
    true
}

impl PartialEq for Number {
    fn eq(&self, other: &Number) -> (r: bool) {
        digits_eq(&self.whole, &other.whole) && digits_eq(&self.frac, &other.frac)
    }
}

impl vstd::std_specs::cmp::PartialEqSpecImpl for Number {
    open spec fn obeys_eq_spec() -> bool {
        true
    }

    open spec fn eq_spec(&self, other: &Number) -> bool {
        self@ == other@
    }
}

impl View for Number {
    type V = NumberV;

    closed spec fn view(&self) -> NumberV {
        NumberV { whole: self.whole@, frac: self.frac@ }
    }
}

pub proof fn lemma_digit_run_bounds(s: Seq<char>)
    ensures
        digit_run(s) <= s.len(),
        forall|j: int| 0 <= j < digit_run(s) ==> is_digit_char(s[j]),
        digit_run(s) < s.len() ==> !is_digit_char(s[digit_run(s) as int]),
    decreases s.len(),
{
    if s.len() > 0 && is_digit_char(s[0]) {
        lemma_digit_run_bounds(s.drop_first());
        assert forall|j: int| 0 <= j < digit_run(s) implies is_digit_char(s[j]) by {
            if j > 0 {
                assert(is_digit_char(s.drop_first()[j - 1]));
            }
        }
    }
}

pub proof fn lemma_digit_run_is(s: Seq<char>, k: nat)
    requires
        k <= s.len(),
        forall|j: int| 0 <= j < k ==> is_digit_char(s[j]),
        k < s.len() ==> !is_digit_char(s[k as int]),
    ensures
        digit_run(s) == k,
    decreases s.len(),
{
    if s.len() > 0 && is_digit_char(s[0]) {
        assert(k > 0);
        lemma_digit_run_is(s.drop_first(), (k - 1) as nat);
    }
}

impl Number {
    /// Build the literal out of raw digit runs, stripping redundant zeros.
    pub(crate) fn from_digits(whole: Vec<u8>, frac: Vec<u8>) -> (r: Number)
        ensures
            r@ == norm_number(whole@, frac@),
    {
        let mut whole = whole;
        let mut frac = frac;
        let ghost whole0 = whole@;
        let ghost frac0 = frac@;
        loop
            invariant
                strip_leading_zeros(whole@) == strip_leading_zeros(whole0),
                frac@ == frac0,
            ensures
                frac@ == frac0,
                whole@ == strip_leading_zeros(whole0),
            decreases whole@.len(),
        {
            if whole.len() > 0 && whole[0] == 0 {
                let ghost before = whole@;
                let _ = whole.remove(0);
                proof {
                    assert(whole@ =~= before.drop_first());
                }
            } else {
                assert(strip_leading_zeros(whole@) == whole@);
                break;
            }
        }
        loop
            invariant
                strip_trailing_zeros(frac@) == strip_trailing_zeros(frac0),
            ensures
                frac@ == strip_trailing_zeros(frac0),
            decreases frac@.len(),
        {
            if frac.len() > 0 && frac[frac.len() - 1] == 0 {
                let ghost before = frac@;
                let _ = frac.pop();
                proof {
                    assert(frac@ =~= before.drop_last());
                }
            } else {
                assert(strip_trailing_zeros(frac@) == frac@);
                break;
            }
        }
        Number { whole, frac }
    }

    /// Digit values before the decimal dot, most significant first.
    pub fn whole_digits(&self) -> (r: &Vec<u8>)
        ensures
            r@ == self@.whole,
    {
        &self.whole
    }

    /// Digit values after the decimal dot.
    pub fn frac_digits(&self) -> (r: &Vec<u8>)
        ensures
            r@ == self@.frac,
    {
        &self.frac
    }
}

} // verus!
