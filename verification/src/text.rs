//! Small string utilities over the character view of `str` and `String`.

use vstd::prelude::*;
use vstd::string::*;

verus! {

/// Appends one character to `out`; wraps `String::push`, which adds the
/// character at the end and leaves the rest untouched.
#[verifier::external_body]
pub(crate) fn push_char(out: &mut String, c: char)
    ensures
        final(out)@ == old(out)@.push(c),
{
    out.push(c)
}

/// The characters of `s`, in order.
pub fn chars_of(s: &str) -> (v: Vec<char>)
    ensures
        v@ == s@,
{
    let mut v: Vec<char> = Vec::new();
    for c in it: s.chars()
        invariant
            v@ == it.seq().take(it.index() as int),
            it.seq() == s@,
    {
        v.push(c);
    }
    v
}

/// A string made of `chars[from..to]`.
pub fn string_of(chars: &Vec<char>, from: usize, to: usize) -> (r: String)
    requires
        from <= to <= chars.len(),
    ensures
        r@ == chars@.subrange(from as int, to as int),
{
    let mut r = String::new();
    let mut i: usize = from;
    while i < to
        invariant
            from <= i <= to <= chars.len(),
            r@ == chars@.subrange(from as int, i as int),
        decreases to - i,
    {
        push_char(&mut r, chars[i]);
        i += 1;
    }
    r
}

/// `p` occurs in `s` starting at position `i`.
pub open spec fn occurs_at(s: Seq<char>, p: Seq<char>, i: int) -> bool {
    0 <= i && i + p.len() <= s.len() && s.subrange(i, i + p.len()) == p
}

/// `p` occurs somewhere in `s` as a contiguous run of characters.
pub open spec fn contains_seq(s: Seq<char>, p: Seq<char>) -> bool {
    exists|i: int| occurs_at(s, p, i)
}

fn matches_at(s: &Vec<char>, p: &Vec<char>, i: usize) -> (b: bool)
    requires
        i + p.len() <= s.len(),
    ensures
        b == occurs_at(s@, p@, i as int),
{
    let mut k: usize = 0;
    while k < p.len()
        invariant
            k <= p.len(),
            i + p.len() <= s.len(),
            forall|j: int| 0 <= j < k ==> s@[i + j] == p@[j],
        decreases p.len() - k,
    {
        if s[i + k] != p[k] {
            return false;
        }
        k += 1;
    }
    assert(s@.subrange(i as int, i + p.len()) =~= p@);
    true
}

/// Whether `pattern` occurs in `s`; the empty pattern occurs in every string.
pub fn contains(s: &str, pattern: &str) -> (b: bool)
    ensures
        b == contains_seq(s@, pattern@),
{
    let sv = chars_of(s);
    let pv = chars_of(pattern);
    if pv.len() > sv.len() {
        return false;
    }
    let last: usize = sv.len() - pv.len();
    let mut i: usize = 0;
    loop
        invariant
            i <= last,
            last + pv.len() == sv.len(),
            sv@ == s@,
            pv@ == pattern@,
            forall|k: int| 0 <= k < i ==> !occurs_at(s@, pattern@, k),
        decreases last - i,
    {
        if matches_at(&sv, &pv, i) {
            return true;
        }
        if i == last {
            return false;
        }
        i += 1;
    }
}

/// Whether two strings hold the same characters.
pub fn same_text(a: &str, b: &str) -> (r: bool)
    ensures
        r == (a@ == b@),
{
    let av = chars_of(a);
    let bv = chars_of(b);
    if av.len() != bv.len() {
        return false;
    }
    let mut i: usize = 0;
    while i < av.len()
        invariant
            i <= av.len(),
            av.len() == bv.len(),
            av@ == a@,
            bv@ == b@,
            forall|j: int| 0 <= j < i ==> av@[j] == bv@[j],
        decreases av.len() - i,
    {
        if av[i] != bv[i] {
            return false;
        }
        i += 1;
    }
    assert(av@ =~= bv@);
    true
}

/// What follows the last `sep` in `s`; all of `s` where `sep` does not occur.
pub open spec fn after_last(s: Seq<char>, sep: char) -> Seq<char>
    decreases s.len(),
{
    if s.len() == 0 {
        s
    } else if s.last() == sep {
        Seq::empty()
    } else {
        after_last(s.drop_last(), sep).push(s.last())
    }
}

proof fn lemma_after_last(s: Seq<char>, sep: char, start: int)
    requires
        0 <= start <= s.len(),
        start == 0 || s[start - 1] == sep,
        forall|j: int| start <= j < s.len() ==> s[j] != sep,
    ensures
        after_last(s, sep) == s.subrange(start, s.len() as int),
    decreases s.len(),
{
    if s.len() == 0 {
        assert(s.subrange(0, 0) =~= s);
    } else if start == s.len() {
        assert(s.subrange(start, s.len() as int) =~= Seq::<char>::empty());
    } else {
        lemma_after_last(s.drop_last(), sep, start);
        assert(s.subrange(start, s.len() as int) =~= s.drop_last().subrange(
            start,
            s.len() - 1,
        ).push(s.last()));
    }
}

/// The part of `s` after its last `sep`.
pub fn last_segment(s: &str, sep: char) -> (r: String)
    ensures
        r@ == after_last(s@, sep),
{
    let v = chars_of(s);
    let mut start: usize = v.len();
    while start > 0 && v[start - 1] != sep
        invariant
            start <= v.len(),
            forall|j: int| start <= j < v.len() ==> v@[j] != sep,
        decreases start,
    {
        start -= 1;
    }
    proof {
        lemma_after_last(v@, sep, start as int);
    }
    string_of(&v, start, v.len())
}

/// The character that writes the digit `d`.
pub open spec fn digit_char(d: int) -> char {
    if d == 0 {
        '0'
    } else if d == 1 {
        '1'
    } else if d == 2 {
        '2'
    } else if d == 3 {
        '3'
    } else if d == 4 {
        '4'
    } else if d == 5 {
        '5'
    } else if d == 6 {
        '6'
    } else if d == 7 {
        '7'
    } else if d == 8 {
        '8'
    } else {
        '9'
    }
}

/// The decimal numeral of `n`, without sign or leading zeros.
pub open spec fn decimal(n: nat) -> Seq<char>
    decreases n,
{
    if n < 10 {
        seq![digit_char(n as int)]
    } else {
        decimal(n / 10).push(digit_char((n % 10) as int))
    }
}

fn digit_of(d: u64) -> (c: char)
    requires
        d < 10,
    ensures
        c == digit_char(d as int),
{
    if d == 0 {
        '0'
    } else if d == 1 {
        '1'
    } else if d == 2 {
        '2'
    } else if d == 3 {
        '3'
    } else if d == 4 {
        '4'
    } else if d == 5 {
        '5'
    } else if d == 6 {
        '6'
    } else if d == 7 {
        '7'
    } else if d == 8 {
        '8'
    } else {
        '9'
    }
}

/// `n` written in decimal.
pub fn decimal_string(n: u64) -> (r: String)
    ensures
        r@ == decimal(n as nat),
    decreases n,
{
    if n < 10 {
        let mut r = String::new();
        push_char(&mut r, digit_of(n));
        r
    } else {
        let mut r = decimal_string(n / 10);
        push_char(&mut r, digit_of(n % 10));
        r
    }
}

/// The value of a decimal digit, or 10 for any other character.
pub open spec fn digit_value(c: char) -> nat {
    if c == '0' {
        0
    } else if c == '1' {
        1
    } else if c == '2' {
        2
    } else if c == '3' {
        3
    } else if c == '4' {
        4
    } else if c == '5' {
        5
    } else if c == '6' {
        6
    } else if c == '7' {
        7
    } else if c == '8' {
        8
    } else if c == '9' {
        9
    } else {
        10
    }
}

/// Every character of `s` is one of `0` to `9`.
pub open spec fn all_digits(s: Seq<char>) -> bool {
    forall|i: int| 0 <= i < s.len() ==> digit_value(#[trigger] s[i]) < 10
}

/// The number that the digits of `s` write in base ten.
pub open spec fn decimal_value(s: Seq<char>) -> nat
    decreases s.len(),
{
    if s.len() == 0 {
        0
    } else {
        decimal_value(s.drop_last()) * 10 + digit_value(s.last())
    }
}

/// What reading `s` as an unsigned decimal number no greater than `max`
/// gives: an optional `+`, then one or more digits. Anything else, and a
/// value above `max`, is `None`.
pub open spec fn parsed_unsigned(s: Seq<char>, max: nat) -> Option<nat> {
    let digits = if s.len() > 0 && s[0] == '+' {
        s.drop_first()
    } else {
        s
    };
    if digits.len() > 0 && all_digits(digits) && decimal_value(digits) <= max {
        Some(decimal_value(digits))
    } else {
        None
    }
}

fn value_of(c: char) -> (d: u64)
    ensures
        d == digit_value(c),
{
    if c == '0' {
        0
    } else if c == '1' {
        1
    } else if c == '2' {
        2
    } else if c == '3' {
        3
    } else if c == '4' {
        4
    } else if c == '5' {
        5
    } else if c == '6' {
        6
    } else if c == '7' {
        7
    } else if c == '8' {
        8
    } else if c == '9' {
        9
    } else {
        10
    }
}

proof fn lemma_decimal_value_grows(s: Seq<char>, k: int)
    requires
        0 <= k <= s.len(),
    ensures
        decimal_value(s.take(k)) <= decimal_value(s),
    decreases s.len() - k,
{
    if k < s.len() {
        lemma_decimal_value_grows(s, k + 1);
        assert(s.take(k + 1).drop_last() =~= s.take(k));
    } else {
        assert(s.take(k) =~= s);
    }
}

/// Reads `s` as an unsigned decimal number no greater than `max`.
pub fn parse_unsigned(s: &str, max: u64) -> (r: Option<u64>)
    ensures
        r matches Some(n) ==> parsed_unsigned(s@, max as nat) == Some(n as nat),
        r is None ==> parsed_unsigned(s@, max as nat) is None,
{
    let v = chars_of(s);
    let start: usize = if v.len() > 0 && v[0] == '+' {
        1
    } else {
        0
    };
    let ghost digits = if start == 1 {
        s@.drop_first()
    } else {
        s@
    };
    if start == v.len() {
        return None;
    }
    let mut acc: u64 = 0;
    let mut i: usize = start;
    while i < v.len()
        invariant
            start <= i <= v.len(),
            v@ == s@,
            digits == s@.subrange(start as int, s@.len() as int),
            digits == (if s@.len() > 0 && s@[0] == '+' {
                s@.drop_first()
            } else {
                s@
            }),
            all_digits(digits.take(i - start)),
            acc == decimal_value(digits.take(i - start)),
            acc <= max,
        decreases v.len() - i,
    {
        let d = value_of(v[i]);
        let ghost next = digits.take(i - start + 1);
        proof {
            assert(next.drop_last() =~= digits.take(i - start));
            assert(next.last() == v@[i as int]);
            lemma_decimal_value_grows(digits, i - start + 1);
        }
        if d >= 10 {
            assert(!all_digits(digits)) by {
                assert(digit_value(digits[i - start]) >= 10);
            }
            return None;
        }
        if acc > max / 10 {
            assert(decimal_value(next) > max);
            return None;
        }
        let shifted: u64 = acc * 10;
        if d > max - shifted {
            assert(decimal_value(next) > max);
            return None;
        }
        acc = shifted + d;
        i += 1;
        assert(all_digits(next)) by {
            assert forall|j: int| 0 <= j < next.len() implies digit_value(#[trigger] next[j])
                < 10 by {
                if j < next.len() - 1 {
                    assert(next[j] == digits.take(i - start - 1)[j]);
                }
            }
        }
    }
    assert(digits.take(i - start) =~= digits);
    Some(acc)
}

} // verus!
