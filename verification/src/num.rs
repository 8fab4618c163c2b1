//! Decimal digit strings: the mathematical model of the numeric attribute
//! values that the XML schema stores as quoted strings, together with
//! executable parsing and printing proved against that model.

use vstd::prelude::*;

use crate::strutil::push_char;

verus! {

/// Is `c` one of the ten ASCII decimal digits?
pub open spec fn is_dec_digit(c: char) -> bool {
    '0' <= c && c <= '9'
}

/// The numeric value of a decimal digit character.
pub open spec fn digit_val(c: char) -> nat
    recommends
        is_dec_digit(c),
{
    (c as nat - '0' as nat) as nat
}

/// The digit character for a value below ten.
pub open spec fn digit_char(d: nat) -> char
    recommends
        d < 10,
{
    if d == 0 {
        '0'
    } else if d == 1 {
        '1'
    } else if d == 2 {
        '2'
    } else if d == 3 {
        '3'
    } else if d == 4 {
        '4'
    } else if d == 5 {
        '5'
    } else if d == 6 {
        '6'
    } else if d == 7 {
        '7'
    } else if d == 8 {
        '8'
    } else {
        '9'
    }
}

/// Does `s` consist of decimal digits only?
pub open spec fn all_dec_digits(s: Seq<char>) -> bool {
    forall|i: int| 0 <= i < s.len() ==> is_dec_digit(#[trigger] s[i])
}

/// The number denoted by a digit string, most significant digit first.
/// An empty string denotes zero.
pub open spec fn dec_val(s: Seq<char>) -> nat
    decreases s.len(),
{
    if s.len() == 0 {
        0
    } else {
        dec_val(s.drop_last()) * 10 + digit_val(s.last())
    }
}

/// The canonical decimal digit string of a number: no sign, no leading
/// zeros, and `"0"` for zero.
pub open spec fn dec_str_of(n: nat) -> Seq<char>
    decreases n,
{
    if n < 10 {
        seq![digit_char(n)]
    } else {
        dec_str_of(n / 10).push(digit_char(n % 10))
    }
}

/// Is `s` the canonical decimal form of the number it denotes: at least one
/// digit, digits only, and no leading zero?
pub open spec fn is_canonical_dec(s: Seq<char>) -> bool {
    &&& s.len() > 0
    &&& all_dec_digits(s)
    &&& (s[0] != '0' || s.len() == 1)
}

/// The value a digit string denotes, as an unsigned 32-bit number: `None`
/// when the string is empty, holds a non-digit, or denotes a value above
/// `u32::MAX`.
pub open spec fn parse_u32_spec(s: Seq<char>) -> Option<u32> {
    if s.len() > 0 && all_dec_digits(s) && dec_val(s) <= u32::MAX {
        Some(dec_val(s) as u32)
    } else {
        None
    }
}

/// As `parse_u32_spec`, for `usize`.
pub open spec fn parse_usize_spec(s: Seq<char>) -> Option<usize> {
    if s.len() > 0 && all_dec_digits(s) && dec_val(s) <= usize::MAX {
        Some(dec_val(s) as usize)
    } else {
        None
    }
}

/// A one-digit string denotes its digit's value.
proof fn lemma_dec_val_singleton(s: Seq<char>)
    requires
        s.len() == 1,
    ensures
        dec_val(s) == digit_val(s[0]),
{
    assert(s.drop_last() =~= Seq::<char>::empty());
    assert(dec_val(Seq::<char>::empty()) == 0);
}

/// A digit string's value only grows as digits are appended on the right.
proof fn lemma_dec_val_prefix_le(s: Seq<char>, i: int)
    requires
        0 <= i <= s.len(),
    ensures
        dec_val(s.take(i)) <= dec_val(s),
    decreases s.len() - i,
{
    if i < s.len() {
        lemma_dec_val_prefix_le(s, i + 1);
        assert(s.take(i + 1).drop_last() =~= s.take(i));
        assert(dec_val(s.take(i + 1)) == dec_val(s.take(i)) * 10 + digit_val(s.take(i + 1).last()));
        assert(dec_val(s.take(i)) <= dec_val(s.take(i)) * 10) by (nonlinear_arith);
    } else {
        assert(s.take(i) =~= s);
    }
}

/// A nonempty digit string without a leading zero denotes at least one.
proof fn lemma_no_leading_zero_positive(s: Seq<char>)
    requires
        s.len() > 0,
        all_dec_digits(s),
        s[0] != '0',
    ensures
        dec_val(s) >= 1,
    decreases s.len(),
{
    if s.len() == 1 {
        assert(digit_val(s[0]) >= 1);
    } else {
        lemma_no_leading_zero_positive(s.drop_last());
        assert(dec_val(s.drop_last()) * 10 >= 10) by (nonlinear_arith)
            requires dec_val(s.drop_last()) >= 1;
    }
}

/// Printing the value of a canonical digit string gives the string back:
/// decimal reading and printing are mutually inverse on canonical forms.
pub proof fn lemma_dec_round_trip(s: Seq<char>)
    requires
        is_canonical_dec(s),
    ensures
        dec_str_of(dec_val(s)) == s,
    decreases s.len(),
{
    if s.len() == 1 {
        lemma_dec_val_singleton(s);
        lemma_digit_char_val(s[0]);
        assert(dec_str_of(dec_val(s)) =~= s);
    } else {
        let t = s.drop_last();
        let d = digit_val(s.last());
        assert(all_dec_digits(t));
        lemma_no_leading_zero_positive(t);
        let v = dec_val(s);
        assert(v == dec_val(t) * 10 + d);
        assert(v / 10 == dec_val(t) && v % 10 == d) by (nonlinear_arith)
            requires v == dec_val(t) * 10 + d, 0 <= d < 10;
        assert(v >= 10) by (nonlinear_arith)
            requires dec_val(t) >= 1, v == dec_val(t) * 10 + d, d >= 0;
        lemma_dec_round_trip(t);
        lemma_digit_char_val(s.last());
        assert(dec_str_of(v) =~= s);
    }
}

/// A digit character is recovered from its value.
proof fn lemma_digit_char_val(c: char)
    requires
        is_dec_digit(c),
    ensures
        digit_char(digit_val(c)) == c,
{
}

/// Printed numbers are canonical digit strings.
pub proof fn lemma_dec_str_canonical(n: nat)
    ensures
        is_canonical_dec(dec_str_of(n)),
        dec_val(dec_str_of(n)) == n,
    decreases n,
{
    if n < 10 {
        assert(dec_str_of(n) =~= seq![digit_char(n)]);
        assert(is_dec_digit(digit_char(n)));
        assert(digit_val(digit_char(n)) == n);
        lemma_dec_val_singleton(dec_str_of(n));
    } else {
        lemma_dec_str_canonical(n / 10);
        let t = dec_str_of(n / 10);
        let s = dec_str_of(n);
        assert(s =~= t.push(digit_char(n % 10)));
        assert(s.drop_last() =~= t);
        assert(is_dec_digit(digit_char(n % 10)));
        assert(digit_val(digit_char(n % 10)) == n % 10);
        assert(forall|i: int| 0 <= i < s.len() ==> is_dec_digit(#[trigger] s[i]));
        assert(n / 10 >= 1) by (nonlinear_arith)
            requires n >= 10;
        if t.len() == 1 {
            lemma_dec_val_singleton(t);
            assert(digit_val(t[0]) >= 1);
            assert(t[0] != '0');
        } else {
            assert(t[0] != '0');
        }
        assert(s[0] == t[0]);
        assert(s[0] != '0');
        assert(dec_val(s) == dec_val(t) * 10 + (n % 10));
        assert(dec_val(t) * 10 + n % 10 == n) by (nonlinear_arith)
            requires dec_val(t) == n / 10;
    }
}

/// The exec digit test, proved against `is_dec_digit`.
pub fn is_digit_char(c: char) -> (r: bool)
    ensures
        r == is_dec_digit(c),
{
    '0' <= c && c <= '9'
}

/// Reads a digit string as a `u32`, as `parse_u32_spec` says: digits only,
/// no sign, `None` on overflow, an empty string, or any other character.
pub fn parse_u32_digits(s: &str) -> (r: Option<u32>)
    ensures
        r == parse_u32_spec(s@),
{
    let n = s.unicode_len();
    if n == 0 {
        return None;
    }
    let mut acc: u32 = 0;
    let mut i: usize = 0;
    while i < n
        invariant
            0 <= i <= n,
            n == s@.len(),
            all_dec_digits(s@.take(i as int)),
            acc == dec_val(s@.take(i as int)),
        decreases n - i,
    {
        let c = s.get_char(i);
        if !is_digit_char(c) {
            return None;
        }
        let d: u32 = (c as u32) - 48;
        assert(d == digit_val(c));
        if acc > (u32::MAX - d) / 10 {
            proof {
                assert(acc * 10 + d > u32::MAX) by (nonlinear_arith)
                    requires acc > (u32::MAX - d) / 10, 0 <= d < 10, acc >= 0;
                assert(s@.take(i + 1).drop_last() =~= s@.take(i as int));
                assert(dec_val(s@.take(i + 1)) > u32::MAX);
                lemma_dec_val_prefix_le(s@, i + 1);
            }
            return None;
        }
        proof {
            assert(s@.take(i + 1).drop_last() =~= s@.take(i as int));
        }
        acc = acc * 10 + d;
        i = i + 1;
    }
    proof {
        assert(s@.take(n as int) =~= s@);
    }
    Some(acc)
}

/// Reads a digit string as a `usize`, as `parse_usize_spec` says.
pub fn parse_usize_digits(s: &str) -> (r: Option<usize>)
    ensures
        r == parse_usize_spec(s@),
{
    let n = s.unicode_len();
    if n == 0 {
        return None;
    }
    let mut acc: usize = 0;
    let mut i: usize = 0;
    while i < n
        invariant
            0 <= i <= n,
            n == s@.len(),
            all_dec_digits(s@.take(i as int)),
            acc == dec_val(s@.take(i as int)),
        decreases n - i,
    {
        let c = s.get_char(i);
        if !is_digit_char(c) {
            return None;
        }
        let d: usize = ((c as u32) - 48) as usize;
        assert(d == digit_val(c));
        if acc > (usize::MAX - d) / 10 {
            proof {
                assert(acc * 10 + d > usize::MAX) by (nonlinear_arith)
                    requires acc > (usize::MAX - d) / 10, 0 <= d < 10, acc >= 0;
                assert(s@.take(i + 1).drop_last() =~= s@.take(i as int));
                assert(dec_val(s@.take(i + 1)) > usize::MAX);
                lemma_dec_val_prefix_le(s@, i + 1);
            }
            return None;
        }
        proof {
            assert(s@.take(i + 1).drop_last() =~= s@.take(i as int));
        }
        acc = acc * 10 + d;
        i = i + 1;
    }
    proof {
        assert(s@.take(n as int) =~= s@);
    }
    Some(acc)
}

/// The exec digit character, proved against `digit_char`.
fn digit_char_of(d: u32) -> (c: char)
    requires
        d < 10,
    ensures
        c == digit_char(d as nat),
{
    if d == 0 {
        '0'
    } else if d == 1 {
        '1'
    } else if d == 2 {
        '2'
    } else if d == 3 {
        '3'
    } else if d == 4 {
        '4'
    } else if d == 5 {
        '5'
    } else if d == 6 {
        '6'
    } else if d == 7 {
        '7'
    } else if d == 8 {
        '8'
    } else {
        '9'
    }
}

/// Prints a `u32` in canonical decimal form.
pub fn u32_to_dec_string(n: u32) -> (s: String)
    ensures
        s@ == dec_str_of(n as nat),
    decreases n,
{
    if n < 10 {
        let mut s = String::new();
        push_char(&mut s, digit_char_of(n));
        proof {
            assert(s@ =~= dec_str_of(n as nat));
        }
        s
    } else {
        let mut s = u32_to_dec_string(n / 10);
        push_char(&mut s, digit_char_of(n % 10));
        s
    }
}

/// Prints a `usize` in canonical decimal form.
pub fn usize_to_dec_string(n: usize) -> (s: String)
    ensures
        s@ == dec_str_of(n as nat),
    decreases n,
{
    if n < 10 {
        let mut s = String::new();
        push_char(&mut s, digit_char_of(n as u32));
        proof {
            assert(s@ =~= dec_str_of(n as nat));
        }
        s
    } else {
        let mut s = usize_to_dec_string(n / 10);
        push_char(&mut s, digit_char_of((n % 10) as u32));
        s
    }
}

} // verus!

