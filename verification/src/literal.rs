//! The grammar of number literals.
//!
//! A literal is an optional sign followed by a decimal number or by one of the
//! words `inf`, `infinity` and `nan` in any mix of upper and lower case. A
//! decimal number has digits before or after an optional point, at least one in
//! all, and may end in an exponent: `e`, an optional sign, and digits.

use vstd::prelude::*;
use vstd::std_specs::iter::IteratorSpec;

verus! {

pub open spec fn is_digit(c: char) -> bool {
    '0' <= c && c <= '9'
}

pub open spec fn is_sign(c: char) -> bool {
    c == '+' || c == '-'
}

/// `c` with an upper-case ASCII letter turned into its lower-case form.
pub open spec fn folded(c: char) -> char {
    if 'A' <= c && c <= 'Z' {
        ((c as u8 + 32) as u8) as char
    } else {
        c
    }
}

/// How many digits stand in `s` without a gap from position `from` on.
pub open spec fn digit_run(s: Seq<char>, from: int) -> nat
    decreases s.len() - from,
{
    if 0 <= from < s.len() && is_digit(s[from]) {
        1 + digit_run(s, from + 1)
    } else {
        0
    }
}

/// From position `from` to its end, `s` is `word` up to the case of letters.
pub open spec fn spells(s: Seq<char>, from: int, word: Seq<char>) -> bool {
    &&& s.len() - from == word.len()
    &&& forall|i: int| 0 <= i < word.len() ==> folded(#[trigger] s[from + i]) == word[i]
}

/// From position `from` to its end, `s` names an infinity or a not-a-number.
pub open spec fn special(s: Seq<char>, from: int) -> bool {
    ||| spells(s, from, seq!['i', 'n', 'f'])
    ||| spells(s, from, seq!['i', 'n', 'f', 'i', 'n', 'i', 't', 'y'])
    ||| spells(s, from, seq!['n', 'a', 'n'])
}

/// From position `at` to its end, `s` is an exponent.
pub open spec fn exponent(s: Seq<char>, at: int) -> bool {
    let digits = if at + 1 < s.len() && is_sign(s[at + 1]) {
        at + 2
    } else {
        at + 1
    };
    &&& 0 <= at < s.len()
    &&& folded(s[at]) == 'e'
    &&& digit_run(s, digits) >= 1
    &&& digits + digit_run(s, digits) == s.len()
}

/// From position `from` to its end, `s` is a decimal number.
pub open spec fn decimal(s: Seq<char>, from: int) -> bool {
    let whole = digit_run(s, from);
    let point = from + whole;
    let has_point = point < s.len() && s[point] == '.';
    let fraction = if has_point {
        digit_run(s, point + 1)
    } else {
        0
    };
    let end = if has_point {
        point + 1 + fraction
    } else {
        point
    };
    &&& whole + fraction >= 1
    &&& (end == s.len() || exponent(s, end))
}

/// `s` is a number literal.
pub open spec fn number_literal(s: Seq<char>) -> bool {
    let from: int = if s.len() > 0 && is_sign(s[0]) {
        1
    } else {
        0
    };
    special(s, from) || decimal(s, from)
}

/// The characters of `text`, in order.
pub fn characters(text: &str) -> (r: Vec<char>)
    ensures
        r@ == text@,
{
    let mut r: Vec<char> = Vec::new();
    for c in it: text.chars()
        invariant
            it.seq() == text@,
            r.len() == it.index(),
            forall|j: int| 0 <= j < r.len() ==> r@[j] == it.seq()[j],
    {
        r.push(c);
    }
    assert(r@ =~= text@);
    r
}

fn fold_case(c: char) -> (r: char)
    ensures
        r == folded(c),
{
    if 'A' <= c && c <= 'Z' {
        (c as u8 + 32) as char
    } else {
        c
    }
}

/// The position of the first character from `from` on that is no digit.
fn skip_digits(s: &Vec<char>, from: usize) -> (end: usize)
    requires
        from <= s.len(),
    ensures
        end == from + digit_run(s@, from as int),
        end <= s.len(),
{
    let mut end: usize = from;
    while end < s.len() && '0' <= s[end] && s[end] <= '9'
        invariant
            from <= end <= s.len(),
            digit_run(s@, from as int) == (end - from) + digit_run(s@, end as int),
        decreases s.len() - end,
    {
        end += 1;
    }
    end
}

fn spells_word(s: &Vec<char>, from: usize, word: &[char]) -> (r: bool)
    requires
        from <= s.len(),
    ensures
        r == spells(s@, from as int, word@),
{
    if s.len() - from != word.len() {
        return false;
    }
    let mut i: usize = 0;
    while i < word.len()
        invariant
            from <= s.len(),
            s.len() - from == word.len(),
            i <= word.len(),
            forall|j: int| 0 <= j < i ==> folded(#[trigger] s@[from + j]) == word@[j],
        decreases word.len() - i,
    {
        if fold_case(s[from + i]) != word[i] {
            return false;
        }
        i += 1;
    }
    true
}

fn is_special(s: &Vec<char>, from: usize) -> (r: bool)
    requires
        from <= s.len(),
    ensures
        r == special(s@, from as int),
{
    let inf: [char; 3] = ['i', 'n', 'f'];
    let infinity: [char; 8] = ['i', 'n', 'f', 'i', 'n', 'i', 't', 'y'];
    let nan: [char; 3] = ['n', 'a', 'n'];
    assert(inf@ =~= seq!['i', 'n', 'f']);
    assert(infinity@ =~= seq!['i', 'n', 'f', 'i', 'n', 'i', 't', 'y']);
    assert(nan@ =~= seq!['n', 'a', 'n']);
    spells_word(s, from, inf.as_slice()) || spells_word(s, from, infinity.as_slice())
        || spells_word(s, from, nan.as_slice())
}

fn is_exponent(s: &Vec<char>, at: usize) -> (r: bool)
    requires
        at < s.len(),
    ensures
        r == exponent(s@, at as int),
{
    if fold_case(s[at]) != 'e' {
        return false;
    }
    let digits: usize = if at + 1 < s.len() && (s[at + 1] == '+' || s[at + 1] == '-') {
        at + 2
    } else {
        at + 1
    };
    let end = skip_digits(s, digits);
    end > digits && end == s.len()
}

fn is_decimal(s: &Vec<char>, from: usize) -> (r: bool)
    requires
        from <= s.len(),
    ensures
        r == decimal(s@, from as int),
{
    let point = skip_digits(s, from);
    let has_point = point < s.len() && s[point] == '.';
    let end = if has_point {
        skip_digits(s, point + 1)
    } else {
        point
    };
    let digits = if has_point {
        end - from - 1
    } else {
        end - from
    };
    digits >= 1 && (end == s.len() || is_exponent(s, end))
}

/// Whether the characters `s` are a number literal.
pub fn recognize(s: &Vec<char>) -> (r: bool)
    ensures
        r == number_literal(s@),
{
    let from: usize = if s.len() > 0 && (s[0] == '+' || s[0] == '-') {
        1
    } else {
        0
    };
    is_special(s, from) || is_decimal(s, from)
}

/// Whether `text` is a number literal.
pub fn is_number_literal(text: &str) -> (r: bool)
    ensures
        r == number_literal(text@),
{
    let s = characters(text);
    recognize(&s)
}

} // verus!
