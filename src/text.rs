use crate::lexical::{
    digits_end, exponent_digits_start, fraction_end, is_digit, is_exponent_mark,
    is_number_literal,
};
use vstd::prelude::*;

verus! {

broadcast use vstd::std_specs::vec::group_vec_axioms;

/// Relies on `String::push`: it appends `c` to the end of `s`.
#[verifier::external_body]
fn push_char(s: &mut String, c: char)
    ensures
        final(s)@ == old(s)@.push(c),
{
    s.push(c)
}

/// The characters of `s`, in order.
pub fn chars_of(s: &str) -> (r: Vec<char>)
    ensures
        r@ == s@,
{
    broadcast use vstd::string::group_string_axioms;

    let mut chars: Vec<char> = Vec::new();
    for c in it: s.chars()
        invariant
            chars@ == it.history(),
            it.seq() == s@,
    {
        chars.push(c);
    }
    assert(chars@ =~= s@);
    chars
}

/// The string made of the characters of `chars` from `start` to `end`.
pub fn substring(chars: &Vec<char>, start: usize, end: usize) -> (r: String)
    requires
        start <= end <= chars@.len(),
    ensures
        r@ == chars@.subrange(start as int, end as int),
{
    let mut r = String::new();
    let mut i: usize = start;
    while i < end
        invariant
            start <= i <= end <= chars@.len(),
            r@ == chars@.subrange(start as int, i as int),
        decreases end - i,
    {
        push_char(&mut r, chars[i]);
        i = i + 1;
        assert(r@ =~= chars@.subrange(start as int, i as int));
    }
    r
}

pub fn is_ascii_digit(c: char) -> (r: bool)
    ensures
        r == is_digit(c),
{
    '0' <= c && c <= '9'
}

pub proof fn lemma_digits_end(s: Seq<char>, i: int)
    requires
        0 <= i <= s.len(),
    ensures
        i <= digits_end(s, i) <= s.len(),
    decreases s.len() - i,
{
    if i < s.len() && is_digit(s[i]) {
        lemma_digits_end(s, i + 1);
    }
}

/// The end of the run of digits of `chars` that starts at `i`.
pub fn digit_run_end(chars: &Vec<char>, i: usize) -> (r: usize)
    requires
        i <= chars@.len(),
    ensures
        r == digits_end(chars@, i as int),
        i <= r <= chars@.len(),
{
    let mut j = i;
    while j < chars.len() && is_ascii_digit(chars[j])
        invariant
            i <= j <= chars@.len(),
            digits_end(chars@, j as int) == digits_end(chars@, i as int),
        decreases chars@.len() - j,
    {
        j = j + 1;
    }
    j
}

/// Whether `s` is a decimal literal (see `is_number_literal`).
pub fn is_decimal_literal(s: &String) -> (r: bool)
    ensures
        r == is_number_literal(s@),
{
    let cs = chars_of(s.as_str());
    let n = cs.len();
    let a = digit_run_end(&cs, 0);
    let b = if a < n && cs[a] == '.' {
        digit_run_end(&cs, a + 1)
    } else {
        a
    };
    assert(b == fraction_end(cs@, a as int));
    if !(a > 0 || b - a > 1) {
        return false;
    }
    if b < n && (cs[b] == 'e' || cs[b] == 'E') {
        let c = if b + 1 < n && (cs[b + 1] == '+' || cs[b + 1] == '-') {
            b + 2
        } else {
            b + 1
        };
        assert(c == exponent_digits_start(cs@, b as int));
        let d = digit_run_end(&cs, c);
        d > c && d == n
    } else {
        assert(!is_exponent_mark(cs@, b as int));
        b == n
    }
}

} // verus!
