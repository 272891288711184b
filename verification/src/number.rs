//! Recognises the texts that denote a decimal number: an optional sign, then
//! `inf`, `infinity`, `nan` in any letter case, or digits with an optional
//! fraction and an optional exponent. No surrounding whitespace is allowed.

use vstd::prelude::*;
use crate::text::chars_of;

verus! {

pub open spec fn is_digit(c: char) -> bool {
    '0' <= c && c <= '9'
}

pub open spec fn is_sign(c: char) -> bool {
    c == '+' || c == '-'
}

/// The capital of a letter that the special words use; any other character
/// is its own capital here.
pub open spec fn capital(lower: char) -> char {
    if lower == 'a' {
        'A'
    } else if lower == 'f' {
        'F'
    } else if lower == 'i' {
        'I'
    } else if lower == 'n' {
        'N'
    } else if lower == 't' {
        'T'
    } else if lower == 'y' {
        'Y'
    } else if lower == 'e' {
        'E'
    } else {
        lower
    }
}

/// `c` is the letter `lower`, in either case.
pub open spec fn is_letter(c: char, lower: char) -> bool {
    c == lower || c == capital(lower)
}

/// The length of the longest run of digits of `s` that starts at `from`.
pub open spec fn digit_run(s: Seq<char>, from: int) -> int
    decreases s.len() - from,
{
    if 0 <= from < s.len() && is_digit(s[from]) {
        1 + digit_run(s, from + 1)
    } else {
        0
    }
}

/// `s` spells `word`, letter case aside.
pub open spec fn spells(s: Seq<char>, word: Seq<char>) -> bool {
    s.len() == word.len() && forall|i: int| 0 <= i < s.len() ==> is_letter(s[i], #[trigger] word[i])
}

/// From `at` on, `s` is empty or holds an exponent: `e`, an optional sign and
/// at least one digit, up to the end.
pub open spec fn exponent_ok(s: Seq<char>, at: int) -> bool {
    at == s.len() || (0 <= at < s.len() && is_letter(s[at], 'e') && {
        let start = if at + 1 < s.len() && is_sign(s[at + 1]) {
            at + 2
        } else {
            at + 1
        };
        digit_run(s, start) >= 1 && start + digit_run(s, start) == s.len()
    })
}

/// `s` is digits with an optional fraction and an optional exponent, with at
/// least one digit before the exponent.
pub open spec fn is_decimal(s: Seq<char>) -> bool {
    let whole = digit_run(s, 0);
    let dotted = whole < s.len() && s[whole] == '.';
    let frac_start = if dotted {
        whole + 1
    } else {
        whole
    };
    let frac = if dotted {
        digit_run(s, frac_start)
    } else {
        0
    };
    whole + frac >= 1 && exponent_ok(s, frac_start + frac)
}

/// `s` without its leading sign, if it has one.
pub open spec fn unsigned_part(s: Seq<char>) -> Seq<char> {
    if s.len() > 0 && is_sign(s[0]) {
        s.skip(1)
    } else {
        s
    }
}

/// `s` denotes a number.
pub open spec fn is_number_text(s: Seq<char>) -> bool {
    let body = unsigned_part(s);
    spells(body, "inf"@) || spells(body, "infinity"@) || spells(body, "nan"@) || is_decimal(body)
}

/// Counts the digits of `v` that start at `from`.
fn scan_digits(v: &Vec<char>, from: usize) -> (n: usize)
    requires
        from <= v.len(),
    ensures
        n == digit_run(v@, from as int),
        from + n <= v.len(),
{
    let mut i: usize = from;
    while i < v.len() && '0' <= v[i] && v[i] <= '9'
        invariant
            from <= i <= v.len(),
            digit_run(v@, from as int) == (i - from) + digit_run(v@, i as int),
        decreases v.len() - i,
    {
        i = i + 1;
    }
    i - from
}

/// The capital of a letter.
fn capital_of(lower: char) -> (c: char)
    ensures
        c == capital(lower),
{
    if lower == 'a' {
        'A'
    } else if lower == 'f' {
        'F'
    } else if lower == 'i' {
        'I'
    } else if lower == 'n' {
        'N'
    } else if lower == 't' {
        'T'
    } else if lower == 'y' {
        'Y'
    } else if lower == 'e' {
        'E'
    } else {
        lower
    }
}

/// Tells whether `v` spells `word`, letter case aside.
fn spells_word(v: &Vec<char>, word: &str) -> (r: bool)
    ensures
        r == spells(v@, word@),
{
    let w = chars_of(word);
    if v.len() != w.len() {
        return false;
    }
    let mut i: usize = 0;
    while i < v.len()
        invariant
            i <= v.len(),
            v.len() == w.len(),
            w@ == word@,
            forall|j: int| 0 <= j < i ==> is_letter(v@[j], #[trigger] w@[j]),
        decreases v.len() - i,
    {
        let c = v[i];
        let l = w[i];
        if !(c == l || c == capital_of(l)) {
            assert(!is_letter(v@[i as int], w@[i as int]));
            return false;
        }
        i = i + 1;
    }
    true
}

/// Tells whether the exponent part of `v`, from `at` on, is well formed.
fn check_exponent(v: &Vec<char>, at: usize) -> (r: bool)
    requires
        at <= v.len(),
    ensures
        r == exponent_ok(v@, at as int),
{
    if at == v.len() {
        return true;
    }
    if !(v[at] == 'e' || v[at] == 'E') {
        return false;
    }
    let start: usize = if at + 1 < v.len() && (v[at + 1] == '+' || v[at + 1] == '-') {
        at + 2
    } else {
        at + 1
    };
    let n = scan_digits(v, start);
    n >= 1 && start + n == v.len()
}

/// Tells whether `v` is a decimal numeral.
fn check_decimal(v: &Vec<char>) -> (r: bool)
    ensures
        r == is_decimal(v@),
{
    let whole = scan_digits(v, 0);
    let dotted = whole < v.len() && v[whole] == '.';
    let frac_start: usize = if dotted {
        whole + 1
    } else {
        whole
    };
    let frac: usize = if dotted {
        scan_digits(v, frac_start)
    } else {
        0
    };
    whole + frac >= 1 && check_exponent(v, frac_start + frac)
}

/// The characters of `v` from `from` on.
fn tail_from(v: &Vec<char>, from: usize) -> (t: Vec<char>)
    requires
        from <= v.len(),
    ensures
        t@ == v@.skip(from as int),
{
    let mut t: Vec<char> = Vec::new();
    let mut i: usize = from;
    while i < v.len()
        invariant
            from <= i <= v.len(),
            t@ == v@.subrange(from as int, i as int),
        decreases v.len() - i,
    {
        t.push(v[i]);
        i = i + 1;
    }
    t
}

/// Tells whether `s` denotes a number.
pub fn is_number(s: &str) -> (r: bool)
    ensures
        r == is_number_text(s@),
{
    let v = chars_of(s);
    let signed = v.len() > 0 && (v[0] == '+' || v[0] == '-');
    let body = if signed {
        tail_from(&v, 1)
    } else {
        v
    };
    proof {
        reveal_strlit("inf");
        reveal_strlit("infinity");
        reveal_strlit("nan");
    }
    spells_word(&body, "inf") || spells_word(&body, "infinity") || spells_word(&body, "nan")
        || check_decimal(&body)
}

} // verus!
