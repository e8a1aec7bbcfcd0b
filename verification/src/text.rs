//! Low-level text helpers shared by the statement builders and renderers:
//! character collection, substring search, and decimal formatting and
//! parsing of integers.

use vstd::prelude::*;
use vstd::string::StringExecFns;

verus! {

/// Relies on String::push: appends one character to the end of the string.
#[verifier::external_body]
pub(crate) fn push_char(s: &mut String, c: char)
    ensures
        final(s)@ == old(s)@.push(c),
{
    s.push(c)
}

/// Collects the characters of a string slice into a vector.
pub fn str_chars(s: &str) -> (v: Vec<char>)
    ensures
        v@ == s@,
{
    let mut v: Vec<char> = Vec::new();
    for c in it: s.chars()
        invariant
            it.seq() == s@,
            v@ == it.seq().take(it.index() as int),
    {
        v.push(c);
    }
    proof {
        assert(v@ =~= s@);
    }
    v
}

/// The needle occurs somewhere in the haystack as a contiguous run.
pub open spec fn seq_contains(hay: Seq<char>, needle: Seq<char>) -> bool {
    exists|i: int| #[trigger] matches_at(hay, needle, i)
}

/// Whether the needle matches the haystack at the given offset.
pub open spec fn matches_at(hay: Seq<char>, needle: Seq<char>, i: int) -> bool {
    0 <= i && i + needle.len() <= hay.len() && hay.subrange(i, i + needle.len()) == needle
}

/// Naive substring search over character vectors.
pub fn contains_chars(hay: &Vec<char>, needle: &Vec<char>) -> (b: bool)
    ensures
        b == seq_contains(hay@, needle@),
{
    if needle.len() > hay.len() {
        return false;
    }
    if needle.len() == 0 {
        proof {
            assert(hay@.subrange(0, 0) =~= needle@);
            assert(matches_at(hay@, needle@, 0));
        }
        return true;
    }
    let end: usize = hay.len() - needle.len();
    let mut i: usize = 0;
    while i <= end
        invariant
            0 < needle@.len() <= hay@.len() <= usize::MAX,
            end == hay@.len() - needle@.len(),
            0 <= i <= end + 1,
            forall|k: int| 0 <= k < i ==> !matches_at(hay@, needle@, k),
        decreases end + 1 - i,
    {
        let mut j: usize = 0;
        let mut hit: bool = true;
        while j < needle.len()
            invariant
                0 < needle@.len() <= hay@.len() <= usize::MAX,
                0 <= i <= hay@.len() - needle@.len(),
                0 <= j <= needle@.len(),
                hit <==> (forall|k: int| 0 <= k < j ==> hay@[i + k] == needle@[k]),
                !hit ==> j == needle@.len(),
            decreases needle@.len() - j,
        {
            if hay[i + j] != needle[j] {
                hit = false;
                j = needle.len();
            } else {
                proof {
                    assert forall|k: int| 0 <= k < j + 1 implies hay@[i + k] == needle@[k] by {
                        if k < j {
                            assert(hay@[i + k] == needle@[k]);
                        }
                    }
                }
                j = j + 1;
            }
        }
        if hit {
            proof {
                assert(hay@.subrange(i as int, i + needle@.len()) =~= needle@);
                assert(matches_at(hay@, needle@, i as int));
            }
            return true;
        }
        proof {
            assert(!matches_at(hay@, needle@, i as int)) by {
                if matches_at(hay@, needle@, i as int) {
                    let w: int = choose|k: int|
                        0 <= k < needle@.len() && hay@[i + k] != needle@[k];
                    assert(hay@.subrange(i as int, i + needle@.len())[w] == hay@[i + w]);
                }
            }
        }
        i = i + 1;
    }
    proof {
        assert(!seq_contains(hay@, needle@)) by {
            if seq_contains(hay@, needle@) {
                let w: int = choose|k: int| #[trigger] matches_at(hay@, needle@, k);
                assert(!matches_at(hay@, needle@, w));
            }
        }
    }
    false
}

/// A needle longer than the haystack occurs nowhere in it.
pub proof fn lemma_longer_not_contained(hay: Seq<char>, needle: Seq<char>)
    requires
        needle.len() > hay.len(),
    ensures
        !seq_contains(hay, needle),
{
    if seq_contains(hay, needle) {
        let w: int = choose|i: int| #[trigger] matches_at(hay, needle, i);
        assert(w + needle.len() <= hay.len());
    }
}

/// A needle holding a character that the haystack lacks occurs nowhere
/// in it.
pub proof fn lemma_absent_char_not_contained(hay: Seq<char>, needle: Seq<char>, k: int, c: char)
    requires
        0 <= k < needle.len(),
        needle[k] == c,
        forall|j: int| 0 <= j < hay.len() ==> hay[j] != c,
    ensures
        !seq_contains(hay, needle),
{
    if seq_contains(hay, needle) {
        let w: int = choose|i: int| #[trigger] matches_at(hay, needle, i);
        assert(hay.subrange(w, w + needle.len() as int)[k] == hay[w + k]);
        assert(hay[w + k] != c);
    }
}

/// The character for one decimal digit value.
pub open spec fn digit_char(d: int) -> char {
    if d == 0 {
        '0'
    } else if d == 1 {
        '1'
    } else if d == 2 {
        '2'
    } else if d == 3 {
        '3'
    } else if d == 4 {
        '4'
    } else if d == 5 {
        '5'
    } else if d == 6 {
        '6'
    } else if d == 7 {
        '7'
    } else if d == 8 {
        '8'
    } else {
        '9'
    }
}

/// The decimal representation of a natural number, most significant
/// digit first, with no leading zeros (a lone zero for zero).
pub open spec fn dec_str(n: nat) -> Seq<char>
    decreases n,
{
    if n < 10 {
        seq![digit_char(n as int)]
    } else {
        dec_str(n / 10).push(digit_char((n % 10) as int))
    }
}

/// The decimal representation of an integer: a minus sign for negative
/// values, then the digits of the magnitude.
pub open spec fn int_str(i: int) -> Seq<char> {
    if i < 0 {
        seq!['-'] + dec_str((-i) as nat)
    } else {
        dec_str(i as nat)
    }
}

fn digit_to_char(d: u32) -> (c: char)
    requires
        d < 10,
    ensures
        c == digit_char(d as int),
{
    match d {
        0 => '0',
        1 => '1',
        2 => '2',
        3 => '3',
        4 => '4',
        5 => '5',
        6 => '6',
        7 => '7',
        8 => '8',
        _ => '9',
    }
}

/// Formats a 32-bit unsigned integer in decimal.
pub fn u32_string(n: u32) -> (s: String)
    ensures
        s@ == dec_str(n as nat),
{
    let mut digits: Vec<char> = Vec::new();
    let mut m: u32 = n;
    while m >= 10
        invariant
            dec_str(n as nat) == dec_str(m as nat) + digits@.reverse(),
        decreases m,
    {
        let d: u32 = m % 10;
        let rest: u32 = m / 10;
        proof {
            assert(digits@.push(digit_char(d as int)).reverse() =~= seq![digit_char(d as int)]
                + digits@.reverse());
            assert(dec_str(m as nat) == dec_str(rest as nat).push(digit_char(d as int)));
            assert(dec_str(rest as nat).push(digit_char(d as int)) =~= dec_str(rest as nat)
                + seq![digit_char(d as int)]);
            assert(dec_str(n as nat) =~= dec_str(rest as nat) + digits@.push(
                digit_char(d as int),
            ).reverse());
        }
        digits.push(digit_to_char(d));
        m = rest;
    }
    proof {
        assert(dec_str(m as nat) =~= seq![digit_char(m as int)]);
        assert(digits@.push(digit_char(m as int)).reverse() =~= seq![digit_char(m as int)]
            + digits@.reverse());
        assert(dec_str(n as nat) =~= digits@.push(digit_char(m as int)).reverse());
    }
    digits.push(digit_to_char(m));
    let mut s = String::new();
    let mut i: usize = digits.len();
    while i > 0
        invariant
            0 <= i <= digits@.len(),
            s@.len() == digits@.len() - i,
            forall|k: int| 0 <= k < s@.len() ==> s@[k] == digits@[digits@.len() - 1 - k],
        decreases i,
    {
        i = i - 1;
        push_char(&mut s, digits[i]);
    }
    proof {
        assert(s@ =~= digits@.reverse());
        assert(dec_str(n as nat) =~= digits@.reverse());
    }
    s
}

/// Formats a 32-bit signed integer in decimal.
pub fn i32_string(n: i32) -> (s: String)
    ensures
        s@ == int_str(n as int),
{
    if n >= 0 {
        u32_string(n as u32)
    } else {
        let m64: i64 = -(n as i64);
        let mag: u32 = m64 as u32;
        let mut s = String::new();
        push_char(&mut s, '-');
        let digits = u32_string(mag);
        s.append(digits.as_str());
        proof {
            assert(s@ =~= seq!['-'] + dec_str(mag as nat));
        }
        s
    }
}

/// A line break replaced by a markup break, any other character kept.
pub open spec fn broken_char(c: char) -> Seq<char> {
    if c == '\n' {
        "<br />"@
    } else {
        seq![c]
    }
}

/// The text with every line break replaced by a markup break.
pub open spec fn break_lines(s: Seq<char>) -> Seq<char>
    decreases s.len(),
{
    if s.len() == 0 {
        Seq::empty()
    } else {
        broken_char(s[0]) + break_lines(s.drop_first())
    }
}

proof fn lemma_break_lines_snoc(s: Seq<char>, c: char)
    ensures
        break_lines(s.push(c)) == break_lines(s) + broken_char(c),
    decreases s.len(),
{
    if s.len() == 0 {
        let sp = s.push(c);
        assert(sp.len() == 1 && sp[0] == c);
        assert(sp.drop_first() =~= Seq::<char>::empty());
        assert(break_lines(sp.drop_first()) == Seq::<char>::empty());
        assert(break_lines(sp) =~= broken_char(c));
        assert(break_lines(s) + broken_char(c) =~= broken_char(c));
    } else {
        assert(s.push(c).drop_first() =~= s.drop_first().push(c));
        lemma_break_lines_snoc(s.drop_first(), c);
        assert(break_lines(s.push(c)) =~= break_lines(s) + broken_char(c));
    }
}

/// Replaces every line break in a value by a markup break.
pub fn replace_line_breaks(s: &str) -> (r: String)
    ensures
        r@ == break_lines(s@),
{
    let mut out = String::new();
    for c in it: s.chars()
        invariant
            it.seq() == s@,
            out@ == break_lines(it.seq().take(it.index() as int)),
    {
        proof {
            lemma_break_lines_snoc(it.seq().take(it.index() as int), c);
            assert(it.seq().take(it.index() + 1) =~= it.seq().take(it.index() as int).push(c));
        }
        if c == '\n' {
            out.append("<br />");
        } else {
            push_char(&mut out, c);
        }
        proof {
            assert(out@ =~= break_lines(it.seq().take(it.index() + 1)));
        }
    }
    proof {
        assert(s@.take(s@.len() as int) =~= s@);
    }
    out
}

/// The value of a decimal digit character, or -1 for any other character.
pub open spec fn digit_val(c: char) -> int {
    if c == '0' {
        0
    } else if c == '1' {
        1
    } else if c == '2' {
        2
    } else if c == '3' {
        3
    } else if c == '4' {
        4
    } else if c == '5' {
        5
    } else if c == '6' {
        6
    } else if c == '7' {
        7
    } else if c == '8' {
        8
    } else if c == '9' {
        9
    } else {
        -1
    }
}

pub open spec fn is_dec_digit(c: char) -> bool {
    digit_val(c) >= 0
}

pub open spec fn all_digits(s: Seq<char>) -> bool {
    forall|i: int| 0 <= i < s.len() ==> is_dec_digit(#[trigger] s[i])
}

/// The value of a run of decimal digits, most significant first.
pub open spec fn digits_val(s: Seq<char>) -> int
    decreases s.len(),
{
    if s.len() == 0 {
        0
    } else {
        digits_val(s.drop_last()) * 10 + digit_val(s.last())
    }
}

/// What parsing a decimal integer out of a string yields: an optional
/// sign, then one or more digits, rejected when anything else appears or
/// the value leaves the 32-bit signed range.
pub open spec fn spec_parse_i32(s: Seq<char>) -> Option<i32> {
    let signed = s.len() > 0 && (s[0] == '+' || s[0] == '-');
    let body = if signed {
        s.drop_first()
    } else {
        s
    };
    let neg = s.len() > 0 && s[0] == '-';
    if body.len() == 0 || !all_digits(body) {
        None
    } else {
        let v = if neg {
            -digits_val(body)
        } else {
            digits_val(body)
        };
        if i32::MIN <= v <= i32::MAX {
            Some(v as i32)
        } else {
            None
        }
    }
}

proof fn lemma_digits_val_nonneg(s: Seq<char>)
    requires
        all_digits(s),
    ensures
        digits_val(s) >= 0,
    decreases s.len(),
{
    if s.len() > 0 {
        assert(all_digits(s.drop_last()));
        lemma_digits_val_nonneg(s.drop_last());
    }
}

proof fn lemma_digits_val_snoc(s: Seq<char>, k: int)
    requires
        0 <= k < s.len(),
    ensures
        digits_val(s.take(k + 1)) == digits_val(s.take(k)) * 10 + digit_val(s[k]),
{
    assert(s.take(k + 1).drop_last() =~= s.take(k));
    assert(s.take(k + 1).last() == s[k]);
}

proof fn lemma_digits_val_prefix_le(s: Seq<char>, k: int)
    requires
        all_digits(s),
        0 <= k <= s.len(),
    ensures
        digits_val(s.take(k)) <= digits_val(s),
    decreases s.len() - k,
{
    if k == s.len() {
        assert(s.take(k) =~= s);
    } else {
        assert(all_digits(s.take(k)));
        lemma_digits_val_nonneg(s.take(k));
        lemma_digits_val_snoc(s, k);
        lemma_digits_val_prefix_le(s, k + 1);
    }
}

fn char_digit(c: char) -> (r: Option<u32>)
    ensures
        r is Some <==> is_dec_digit(c),
        r matches Some(d) ==> d == digit_val(c),
{
    match c {
        '0' => Some(0),
        '1' => Some(1),
        '2' => Some(2),
        '3' => Some(3),
        '4' => Some(4),
        '5' => Some(5),
        '6' => Some(6),
        '7' => Some(7),
        '8' => Some(8),
        '9' => Some(9),
        _ => None,
    }
}

/// Parses a decimal integer from a path parameter, exactly as the
/// standard integer parser does: optional sign, then digits only.
pub fn parse_i32(s: &str) -> (r: Option<i32>)
    ensures
        r == spec_parse_i32(s@),
{
    let cs = str_chars(s);
    let n: usize = cs.len();
    let mut idx: usize = 0;
    let mut neg: bool = false;
    if n > 0 && (cs[0] == '+' || cs[0] == '-') {
        neg = cs[0] == '-';
        idx = 1;
    }
    if idx >= n {
        return None;
    }
    let ghost signed = s@.len() > 0 && (s@[0] == '+' || s@[0] == '-');
    let ghost body = if signed {
        s@.drop_first()
    } else {
        s@
    };
    proof {
        if idx == 0 {
            assert(body =~= cs@.skip(0));
        } else {
            assert(body =~= cs@.skip(1));
        }
    }
    let mut acc: i64 = 0;
    let mut i: usize = idx;
    while i < n
        invariant
            idx <= i <= n,
            n == cs@.len(),
            cs@ == s@,
            idx <= 1,
            (idx == 1) == (s@.len() > 0 && (s@[0] == '+' || s@[0] == '-')),
            neg == (s@.len() > 0 && s@[0] == '-'),
            body == (if s@.len() > 0 && (s@[0] == '+' || s@[0] == '-') {
                s@.drop_first()
            } else {
                s@
            }),
            body == cs@.skip(idx as int),
            body.len() == n - idx,
            body.len() > 0,
            all_digits(body.take(i - idx)),
            acc == digits_val(body.take(i - idx)),
            0 <= acc <= 2147483648,
        decreases n - i,
    {
        let c = cs[i];
        proof {
            assert(body[i - idx] == cs@[i as int]);
        }
        match char_digit(c) {
            None => {
                proof {
                    assert(!is_dec_digit(body[i - idx]));
                }
                return None;
            },
            Some(d) => {
                let next: i64 = acc * 10 + d as i64;
                proof {
                    lemma_digits_val_snoc(body, i - idx);
                    assert(all_digits(body.take(i - idx + 1)));
                }
                if next > 2147483648 {
                    proof {
                        if all_digits(body) {
                            lemma_digits_val_prefix_le(body, i - idx + 1);
                        }
                    }
                    return None;
                }
                acc = next;
                i = i + 1;
            },
        }
    }
    proof {
        assert(body.take(i - idx) =~= body);
    }
    if neg {
        Some((-acc) as i32)
    } else {
        if acc > 2147483647 {
            return None;
        }
        Some(acc as i32)
    }
}

} // verus!
