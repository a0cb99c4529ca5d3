use vstd::prelude::*;
use vstd::string::*;

verus! {

pub open spec fn is_digit(c: char) -> bool {
    48 <= (c as u32) <= 57
}

pub open spec fn digit_of(c: char) -> int {
    (c as u32) - 48
}

pub open spec fn all_digits(s: Seq<char>) -> bool {
    forall|i: int| 0 <= i < s.len() ==> is_digit(#[trigger] s[i])
}

/// The number that a run of decimal digits denotes.
pub open spec fn digits_value(s: Seq<char>) -> int
    decreases s.len(),
{
    if s.len() == 0 {
        0
    } else {
        10 * digits_value(s.drop_last()) + digit_of(s.last())
    }
}

/// A decimal literal: an optional `+` or `-`, then at least one digit.
/// Gives the sign (true for `-`) and the magnitude.
pub open spec fn decimal_of(s: Seq<char>) -> Option<(bool, int)> {
    if s.len() > 0 && (s[0] == '-' || s[0] == '+') {
        let m = s.drop_first();
        if m.len() > 0 && all_digits(m) {
            Some((s[0] == '-', digits_value(m)))
        } else {
            None
        }
    } else if s.len() > 0 && all_digits(s) {
        Some((false, digits_value(s)))
    } else {
        None
    }
}

/// `c` equals the lower-case ASCII letter or digit `w`, ignoring case.
pub open spec fn char_ci_eq(c: char, w: char) -> bool {
    c == w || (65 <= (c as u32) <= 90 && (c as u32) + 32 == (w as u32))
}

pub open spec fn ci_eq(s: Seq<char>, w: Seq<char>) -> bool {
    s.len() == w.len() && forall|i: int| 0 <= i < s.len() ==> char_ci_eq(#[trigger] s[i], w[i])
}

/// The boolean tokens: `true` and `false` in any case, `1` and `0`.
pub open spec fn bool_of_text(s: Seq<char>) -> Option<bool> {
    if ci_eq(s, seq!['t', 'r', 'u', 'e']) || s == seq!['1'] {
        Some(true)
    } else if ci_eq(s, seq!['f', 'a', 'l', 's', 'e']) || s == seq!['0'] {
        Some(false)
    } else {
        None
    }
}

proof fn lemma_digits_nonneg(s: Seq<char>)
    requires
        all_digits(s),
    ensures
        digits_value(s) >= 0,
    decreases s.len(),
{
    if s.len() > 0 {
        lemma_digits_nonneg(s.drop_last());
    }
}

/// The value of a prefix of a digit run is at most the value of the run.
proof fn lemma_prefix_le(s: Seq<char>, k: int)
    requires
        all_digits(s),
        0 <= k <= s.len(),
    ensures
        digits_value(s.subrange(0, k)) <= digits_value(s),
    decreases s.len() - k,
{
    if k == s.len() {
        assert(s.subrange(0, k) =~= s);
    } else {
        let t = s.drop_last();
        lemma_prefix_le(t, k);
        lemma_digits_nonneg(t);
        assert(t.subrange(0, k) =~= s.subrange(0, k));
        assert(is_digit(s[s.len() - 1]));
    }
}

/// Reads the digits of `text` from `start` to the end. Gives their value where
/// they are at least one, all digits, and the value is at most `limit`.
fn parse_magnitude(text: &str, start: usize, limit: u64) -> (r: Option<u64>)
    requires
        start <= text@.len(),
    ensures
        ({
            let m = text@.subrange(start as int, text@.len() as int);
            match r {
                Some(v) => m.len() > 0 && all_digits(m) && v == digits_value(m) && v <= limit,
                None => !(m.len() > 0 && all_digits(m) && digits_value(m) <= limit),
            }
        }),
{
    let n = text.unicode_len();
    let ghost s = text@;
    let ghost m = s.subrange(start as int, n as int);
    let mut i: usize = start;
    let mut acc: u64 = 0;
    while i < n
        invariant
            n == s.len(),
            s == text@,
            m == s.subrange(start as int, n as int),
            start <= i <= n,
            all_digits(s.subrange(start as int, i as int)),
            acc == digits_value(s.subrange(start as int, i as int)),
            acc <= limit,
        decreases n - i,
    {
        let c = text.get_char(i);
        let ghost p = s.subrange(start as int, i as int);
        let ghost q = s.subrange(start as int, i as int + 1);
        assert(q.drop_last() =~= p);
        assert(q.last() == c);
        assert(m.subrange(0, i - start + 1) =~= q);
        if !((c as u32) >= 48 && (c as u32) <= 57) {
            assert(m[i - start] == c);
            return None;
        }
        let d: u64 = (c as u32 - 48) as u64;
        if d > limit {
            proof {
                lemma_digits_nonneg(p);
                if all_digits(m) {
                    lemma_prefix_le(m, i - start + 1);
                }
            }
            return None;
        }
        if acc > (limit - d) / 10 {
            proof {
                assert(10 * acc + d > limit) by (nonlinear_arith)
                    requires
                        acc > (limit - d) / 10,
                        d <= 9,
                        d <= limit,
                ;
                if all_digits(m) {
                    lemma_prefix_le(m, i - start + 1);
                }
            }
            return None;
        }
        proof {
            assert(10 * acc + d <= limit) by (nonlinear_arith)
                requires
                    acc <= (limit - d) / 10,
                    d <= limit,
            ;
            assert forall|j: int| 0 <= j < q.len() implies is_digit(#[trigger] q[j]) by {
                if j < p.len() {
                    assert(q[j] == p[j]);
                }
            }
        }
        acc = acc * 10 + d;
        i = i + 1;
    }
    assert(s.subrange(start as int, i as int) =~= m);
    if i == start {
        return None;
    }
    Some(acc)
}

/// Reads a decimal literal whose value lies in `-neg_limit ..= pos_limit`; a `-`
/// sign is taken only where `neg_limit` is given. Gives the sign and the magnitude.
pub fn parse_decimal(text: &str, neg_limit: Option<u64>, pos_limit: u64) -> (r: Option<(bool, u64)>)
    ensures
        r matches Some((neg, mag)) ==> (neg ==> neg_limit is Some && mag <= neg_limit->Some_0) && (
        !neg ==> mag <= pos_limit) && decimal_of(text@) == Some((neg, mag as int)),
        match decimal_of(text@) {
            Some((neg, mag)) => {
                if (neg && neg_limit.is_some() && mag <= neg_limit.unwrap()) || (!neg && mag <= pos_limit) {
                    r == Some((neg, mag as u64))
                } else {
                    r is None
                }
            },
            None => r is None,
        },
{
    let n = text.unicode_len();
    if n == 0 {
        return None;
    }
    let c = text.get_char(0);
    let ghost s = text@;
    if c == '-' || c == '+' {
        let neg = c == '-';
        let limit = if neg {
            match neg_limit {
                Some(l) => l,
                None => {
                    assert(s.drop_first() =~= s.subrange(1, s.len() as int));
                    return None;
                },
            }
        } else {
            pos_limit
        };
        let r = parse_magnitude(text, 1, limit);
        assert(s.drop_first() =~= s.subrange(1, s.len() as int));
        match r {
            Some(v) => Some((neg, v)),
            None => None,
        }
    } else {
        let r = parse_magnitude(text, 0, pos_limit);
        assert(s =~= s.subrange(0, s.len() as int));
        match r {
            Some(v) => Some((false, v)),
            None => None,
        }
    }
}

/// Compares `text` with the lower-case word `word`, ignoring the case of `text`.
fn eq_ignore_case(text: &str, word: &str) -> (r: bool)
    ensures
        r == ci_eq(text@, word@),
{
    let n = text.unicode_len();
    if n != word.unicode_len() {
        return false;
    }
    let mut i: usize = 0;
    while i < n
        invariant
            n == text@.len(),
            n == word@.len(),
            0 <= i <= n,
            forall|j: int| 0 <= j < i ==> char_ci_eq(#[trigger] text@[j], word@[j]),
        decreases n - i,
    {
        let c = text.get_char(i);
        let w = word.get_char(i);
        let cu = c as u32;
        if !(c == w || (cu >= 65 && cu <= 90 && cu + 32 == w as u32)) {
            return false;
        }
        i = i + 1;
    }
    true
}

/// Reads a boolean token.
pub fn parse_boolean(text: &str) -> (r: Option<bool>)
    ensures
        r == bool_of_text(text@),
{
    proof {
        reveal_strlit("true");
        reveal_strlit("false");
        reveal_strlit("1");
        reveal_strlit("0");
    }
    let one = text.unicode_len() == 1;
    if eq_ignore_case(text, "true") {
        assert("true"@ =~= seq!['t', 'r', 'u', 'e']);
        Some(true)
    } else if one && text.get_char(0) == '1' {
        assert(text@ =~= seq!['1']);
        assert("true"@ =~= seq!['t', 'r', 'u', 'e']);
        Some(true)
    } else if eq_ignore_case(text, "false") {
        assert("true"@ =~= seq!['t', 'r', 'u', 'e']);
        assert("false"@ =~= seq!['f', 'a', 'l', 's', 'e']);
        Some(false)
    } else if one && text.get_char(0) == '0' {
        assert(text@ =~= seq!['0']);
        assert("true"@ =~= seq!['t', 'r', 'u', 'e']);
        assert("false"@ =~= seq!['f', 'a', 'l', 's', 'e']);
        Some(false)
    } else {
        assert("true"@ =~= seq!['t', 'r', 'u', 'e']);
        assert("false"@ =~= seq!['f', 'a', 'l', 's', 'e']);
        None
    }
}

} // verus!
