//! The line grammar of the table function's CSV exchange format.

use vstd::prelude::*;

use crate::mathparse::chars::str_chars;

verus! {

/// The position of the first `c` in `s` at or after `j`, or -1.
pub open spec fn char_index_of(s: Seq<char>, c: char, j: int) -> int
    decreases s.len() - j,
{
    if j < 0 || j >= s.len() {
        -1
    } else if s[j] == c {
        j
    } else {
        char_index_of(s, c, j + 1)
    }
}

/// What a CSV sample line holds: the text before the first comma and the
/// text between the first comma and the second one or the line's end.
/// A line with no comma holds no sample.
pub open spec fn spec_csv_fields(s: Seq<char>) -> Option<(Seq<char>, Seq<char>)> {
    let c1 = char_index_of(s, ',', 0);
    if c1 == -1 {
        None
    } else {
        let c2 = char_index_of(s, ',', c1 + 1);
        if c2 == -1 {
            Some((s.subrange(0, c1), s.subrange(c1 + 1, s.len() as int)))
        } else {
            Some((s.subrange(0, c1), s.subrange(c1 + 1, c2)))
        }
    }
}

/// A found position really holds the character, with none before it.
proof fn lemma_char_index_of(s: Seq<char>, c: char, j: int)
    requires
        j >= 0,
    ensures
        char_index_of(s, c, j) == -1 ==> forall|k: int| j <= k < s.len() ==> s[k] != c,
        char_index_of(s, c, j) != -1 ==> {
            &&& j <= char_index_of(s, c, j) < s.len()
            &&& s[char_index_of(s, c, j)] == c
            &&& forall|k: int| j <= k < char_index_of(s, c, j) ==> s[k] != c
        },
    decreases s.len() - j,
{
    if 0 <= j < s.len() && s[j] != c {
        lemma_char_index_of(s, c, j + 1);
    }
}

/// Splits one CSV sample line into its two fields, exactly as
/// `spec_csv_fields` says; the caller reads each field as a number.
pub fn csv_fields(line: &str) -> (r: Option<(String, String)>)
    ensures
        match r {
            Some(p) => spec_csv_fields(line@) == Some((p.0@, p.1@)),
            None => spec_csv_fields(line@) is None,
        },
{
    let cs = str_chars(line);
    let n = cs.len();
    let mut c1: usize = 0;
    while c1 < n && cs[c1] != ','
        invariant
            c1 <= n,
            n == cs@.len(),
            cs@ == line@,
            forall|k: int| 0 <= k < c1 ==> cs@[k] != ',',
        decreases n - c1,
    {
        c1 = c1 + 1;
    }
    proof {
        lemma_char_index_of(line@, ',', 0);
    }
    if c1 == n {
        proof {
            if char_index_of(line@, ',', 0) != -1 {
                assert(line@[char_index_of(line@, ',', 0)] == ',');
            }
        }
        return None;
    }
    let mut c2: usize = c1 + 1;
    while c2 < n && cs[c2] != ','
        invariant
            c1 + 1 <= c2 <= n,
            n == cs@.len(),
            cs@ == line@,
            forall|k: int| c1 + 1 <= k < c2 ==> cs@[k] != ',',
        decreases n - c2,
    {
        c2 = c2 + 1;
    }
    proof {
        lemma_char_index_of(line@, ',', c1 + 1);
        assert(char_index_of(line@, ',', 0) == c1) by {
            if char_index_of(line@, ',', 0) == -1 {
                assert(line@[c1 as int] != ',');
            }
        }
        if c2 == n {
            if char_index_of(line@, ',', c1 + 1) != -1 {
                assert(line@[char_index_of(line@, ',', c1 + 1)] == ',');
            }
        } else {
            assert(char_index_of(line@, ',', c1 + 1) == c2) by {
                if char_index_of(line@, ',', c1 + 1) == -1 {
                    assert(line@[c2 as int] != ',');
                }
            }
        }
    }
    let mut a = String::new();
    proof {
        assert(Seq::<char>::empty() =~= line@.subrange(0, 0));
    }
    let mut i: usize = 0;
    while i < c1
        invariant
            i <= c1 <= n,
            n == cs@.len(),
            cs@ == line@,
            a@ == line@.subrange(0, i as int),
        decreases c1 - i,
    {
        crate::mathparse::chars::push_char(&mut a, cs[i]);
        proof {
            assert(a@ =~= line@.subrange(0, i + 1));
        }
        i = i + 1;
    }
    let mut b = String::new();
    proof {
        assert(Seq::<char>::empty() =~= line@.subrange(c1 + 1, c1 + 1));
    }
    let mut j: usize = c1 + 1;
    while j < c2
        invariant
            c1 + 1 <= j <= c2 <= n,
            n == cs@.len(),
            cs@ == line@,
            b@ == line@.subrange(c1 + 1, j as int),
        decreases c2 - j,
    {
        crate::mathparse::chars::push_char(&mut b, cs[j]);
        proof {
            assert(b@ =~= line@.subrange(c1 + 1, j + 1));
        }
        j = j + 1;
    }
    proof {
        assert(b@ == line@.subrange(c1 + 1, c2 as int));
    }
    Some((a, b))
}

} // verus!
