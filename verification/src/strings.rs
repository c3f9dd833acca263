//! Small verified string utilities: equality, searching, splitting on a
//! separator character, and decimal parsing.  The registry and settings
//! formats are built on these.
use vstd::prelude::*;
use vstd::string::*;

verus! {

/// Splits off everything before the first occurrence of `c`, and
/// everything after it; `None` when `c` does not occur.
pub open spec fn split_first(s: Seq<char>, c: char) -> Option<(Seq<char>, Seq<char>)> {
    match s.index_of_first(c) {
        Some(i) => Some((s.take(i), s.skip(i + 1))),
        None => None,
    }
}

/// The two fields of a string with exactly one separator in it; `None`
/// when the separator occurs zero or several times.
pub open spec fn spec_split2(s: Seq<char>, c: char) -> Option<(Seq<char>, Seq<char>)> {
    match split_first(s, c) {
        Some((a, b)) => if !b.contains(c) {
            Some((a, b))
        } else {
            None
        },
        None => None,
    }
}

/// The three fields of a string with exactly two separators in it; `None`
/// otherwise.
pub open spec fn spec_split3(s: Seq<char>, c: char) -> Option<(Seq<char>, Seq<char>, Seq<char>)> {
    match split_first(s, c) {
        Some((a, rest)) => match split_first(rest, c) {
            Some((b, d)) => if !d.contains(c) {
                Some((a, b, d))
            } else {
                None
            },
            None => None,
        },
        None => None,
    }
}

/// A first occurrence characterizes `index_of_first`.
pub proof fn lemma_first_occurrence(s: Seq<char>, c: char, i: int)
    requires
        0 <= i < s.len(),
        s[i] == c,
        forall|k: int| 0 <= k < i ==> s[k] != c,
    ensures
        s.index_of_first(c) == Some(i),
{
    s.index_of_first_ensures(c);
    match s.index_of_first(c) {
        Some(j) => {
            assert(!(j < i) && !(i < j));
        },
        None => {
            assert(s.contains(c));
        },
    }
}

/// A character that occurs nowhere makes `index_of_first` return `None`.
pub proof fn lemma_no_occurrence(s: Seq<char>, c: char)
    requires
        forall|k: int| 0 <= k < s.len() ==> s[k] != c,
    ensures
        s.index_of_first(c) is None,
{
    s.index_of_first_ensures(c);
    match s.index_of_first(c) {
        Some(j) => {
        },
        None => {
        },
    }
}

/// Whether two strings hold the same characters.
pub fn str_eq(a: &str, b: &str) -> (r: bool)
    ensures
        r == (a@ == b@),
{
    let an = a.unicode_len();
    let bn = b.unicode_len();
    if an != bn {
        return false;
    }
    let mut i: usize = 0;
    while i < an
        invariant
            0 <= i <= an,
            an == a@.len(),
            an == b@.len(),
            forall|k: int| 0 <= k < i ==> a@[k] == b@[k],
        decreases an - i,
    {
        if a.get_char(i) != b.get_char(i) {
            return false;
        }
        i += 1;
    }
    proof {
        assert(a@ =~= b@);
    }
    true
}

/// The index of the first occurrence of `c` in `s` at or after `from`.
pub fn find_char_from(s: &str, c: char, from: usize) -> (r: Option<usize>)
    requires
        from <= s@.len(),
    ensures
        match r {
            Some(i) => from <= i < s@.len() && s@[i as int] == c && forall|k: int|
                from <= k < i ==> s@[k] != c,
            None => forall|k: int| from <= k < s@.len() ==> s@[k] != c,
        },
{
    let n = s.unicode_len();
    let mut i: usize = from;
    while i < n
        invariant
            from <= i <= n,
            n == s@.len(),
            forall|k: int| from <= k < i ==> s@[k] != c,
        decreases n - i,
    {
        if s.get_char(i) == c {
            return Some(i);
        }
        i += 1;
    }
    None
}

/// Splits `s` into its two `c`-separated fields; `None` unless `c` occurs
/// exactly once.
pub fn split2(s: &str, c: char) -> (r: Option<(String, String)>)
    ensures
        match r {
            Some(p) => spec_split2(s@, c) == Some((p.0@, p.1@)),
            None => spec_split2(s@, c) is None,
        },
{
    let n = s.unicode_len();
    match find_char_from(s, c, 0) {
        None => {
            proof {
                lemma_no_occurrence(s@, c);
            }
            None
        },
        Some(i) => {
            proof {
                lemma_first_occurrence(s@, c, i as int);
            }
            match find_char_from(s, c, i + 1) {
                Some(j2) => {
                    proof {
                        assert(s@.skip(i + 1)[j2 - i - 1] == c);
                        assert(s@.skip(i + 1).contains(c));
                    }
                    None
                },
                None => {
                    let a = s.substring_char(0, i);
                    let b = s.substring_char(i + 1, n);
                    proof {
                        assert(a@ =~= s@.take(i as int));
                        assert(b@ =~= s@.skip(i + 1));
                        assert(!s@.skip(i + 1).contains(c));
                    }
                    Some((String::from_str(a), String::from_str(b)))
                },
            }
        },
    }
}

/// Splits `s` into its three `c`-separated fields; `None` unless `c`
/// occurs exactly twice.
pub fn split3(s: &str, c: char) -> (r: Option<(String, String, String)>)
    ensures
        match r {
            Some(p) => spec_split3(s@, c) == Some((p.0@, p.1@, p.2@)),
            None => spec_split3(s@, c) is None,
        },
{
    let n = s.unicode_len();
    match find_char_from(s, c, 0) {
        None => {
            proof {
                lemma_no_occurrence(s@, c);
            }
            None
        },
        Some(i) => {
            proof {
                lemma_first_occurrence(s@, c, i as int);
            }
            let ghost rest = s@.skip(i + 1);
            match find_char_from(s, c, i + 1) {
                None => {
                    proof {
                        lemma_no_occurrence(rest, c);
                    }
                    None
                },
                Some(j) => {
                    proof {
                        assert(rest[j - i - 1] == c);
                        assert(forall|k: int| 0 <= k < j - i - 1 ==> rest[k] != c);
                        lemma_first_occurrence(rest, c, j - i - 1);
                    }
                    match find_char_from(s, c, j + 1) {
                        Some(k2) => {
                            proof {
                                assert(rest.skip(j - i)[k2 - j - 1] == c);
                                assert(rest.skip(j - i).contains(c));
                            }
                            None
                        },
                        None => {
                            let a = s.substring_char(0, i);
                            let b = s.substring_char(i + 1, j);
                            let d = s.substring_char(j + 1, n);
                            proof {
                                assert(a@ =~= s@.take(i as int));
                                assert(b@ =~= rest.take(j - i - 1));
                                assert(d@ =~= rest.skip(j - i));
                                assert(!rest.skip(j - i).contains(c));
                            }
                            Some((String::from_str(a), String::from_str(b), String::from_str(d)))
                        },
                    }
                },
            }
        },
    }
}


/// A decimal digit.
pub open spec fn is_digit(c: char) -> bool {
    '0' <= c && c <= '9'
}

/// The numeric value of a digit character.
pub open spec fn digit_val(c: char) -> int {
    c as int - '0' as int
}

/// Whether every character of `s` is a decimal digit.
pub open spec fn all_digits(s: Seq<char>) -> bool {
    forall|k: int| 0 <= k < s.len() ==> is_digit(s[k])
}

/// The value of a digit string, most significant digit first.
pub open spec fn digits_val(s: Seq<char>) -> int
    decreases s.len(),
{
    if s.len() == 0 {
        0
    } else {
        digits_val(s.drop_last()) * 10 + digit_val(s.last())
    }
}

/// What parsing a decimal unsigned 64-bit integer yields: an optional
/// leading `+`, then at least one digit, and the value must fit.
pub open spec fn spec_parse_u64(s: Seq<char>) -> Option<u64> {
    let t = if s.len() > 0 && s[0] == '+' {
        s.skip(1)
    } else {
        s
    };
    if t.len() > 0 && all_digits(t) && digits_val(t) <= u64::MAX {
        Some(digits_val(t) as u64)
    } else {
        None
    }
}

/// A digit string has a non-negative value.
proof fn lemma_digits_val_nonneg(s: Seq<char>)
    requires
        all_digits(s),
    ensures
        digits_val(s) >= 0,
    decreases s.len(),
{
    if s.len() > 0 {
        assert(all_digits(s.drop_last()));
        lemma_digits_val_nonneg(s.drop_last());
    }
}

/// Extending a digit string never shrinks its value.
proof fn lemma_digits_val_mono(s: Seq<char>, m: int)
    requires
        0 <= m <= s.len(),
        all_digits(s),
    ensures
        digits_val(s) >= digits_val(s.take(m)),
    decreases s.len() - m,
{
    if m == s.len() {
        assert(s.take(m) =~= s);
    } else {
        assert(s.take(m + 1).drop_last() =~= s.take(m));
        assert(s.take(m + 1).last() == s[m]);
        assert(all_digits(s.take(m)));
        lemma_digits_val_nonneg(s.take(m));
        let v = digits_val(s.take(m));
        assert(digits_val(s.take(m + 1)) == v * 10 + digit_val(s[m]));
        assert(v * 10 >= v) by (nonlinear_arith)
            requires
                v >= 0,
        ;
        lemma_digits_val_mono(s, m + 1);
    }
}

/// Parses a decimal unsigned 64-bit integer: an optional leading `+`,
/// then at least one digit; rejects any other character and any value
/// that does not fit.
pub fn parse_u64(s: &str) -> (r: Option<u64>)
    ensures
        r == spec_parse_u64(s@),
{
    let n = s.unicode_len();
    if n == 0 {
        return None;
    }
    let start: usize = if s.get_char(0) == '+' {
        1
    } else {
        0
    };
    let ghost t = if s@[0] == '+' {
        s@.skip(1)
    } else {
        s@
    };
    if n == start {
        return None;
    }
    let mut val: u64 = 0;
    let mut i: usize = start;
    while i < n
        invariant
            start <= i <= n,
            n == s@.len(),
            start == 1 ==> s@.len() > 0 && s@[0] == '+',
            start == 0 ==> s@.len() == 0 || s@[0] != '+',
            t == (if s@.len() > 0 && s@[0] == '+' {
                s@.skip(1)
            } else {
                s@
            }),
            t.len() == n - start,
            forall|k: int| 0 <= k < t.len() ==> t[k] == s@[k + start],
            all_digits(t.take(i - start)),
            val == digits_val(t.take(i - start)),
        decreases n - i,
    {
        let c = s.get_char(i);
        let cv = c as u32;
        if cv < 48 || cv > 57 {
            proof {
                assert(t[i - start] == s@[i as int]);
                assert(!is_digit(t[i - start]));
            }
            return None;
        }
        let d: u64 = (cv - 48) as u64;
        let stepped: Option<u64> = match val.checked_mul(10) {
            Some(v10) => v10.checked_add(d),
            None => None,
        };
        proof {
            assert(t.take(i - start + 1).drop_last() =~= t.take(i - start));
            assert(t.take(i - start + 1).last() == t[i - start]);
            assert(t[i - start] == s@[i as int]);
            assert(digit_val(t[i - start]) == d);
            assert(digits_val(t.take(i - start + 1)) == val * 10 + d);
            assert(all_digits(t.take(i - start + 1)));
        }
        match stepped {
            Some(v) => {
                val = v;
            },
            None => {
                proof {
                    if all_digits(t) {
                        lemma_digits_val_mono(t, i - start + 1);
                    }
                }
                return None;
            },
        }
        i += 1;
    }
    proof {
        assert(t.take(n - start) =~= t);
    }
    Some(val)
}

} // verus!
