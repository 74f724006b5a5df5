//! Decimal text of integers, as `i32::to_string` writes it and
//! `str::parse::<i32>` reads it.
use vstd::prelude::*;

use crate::text::{str_chars, string_from_chars};

verus! {

pub open spec fn is_digit(c: char) -> bool {
    '0' <= c && c <= '9'
}

pub open spec fn digit_value(c: char) -> int {
    (c as int) - ('0' as int)
}

pub open spec fn digit_char(d: nat) -> char
    recommends
        d < 10,
{
    (('0' as nat) + d) as char
}

pub open spec fn all_digits(s: Seq<char>) -> bool {
    forall|i: int| 0 <= i < s.len() ==> is_digit(#[trigger] s[i])
}

/// The number that a run of decimal digits denotes.
pub open spec fn digits_value(s: Seq<char>) -> int
    decreases s.len(),
{
    if s.len() == 0 {
        0
    } else {
        digits_value(s.drop_last()) * 10 + digit_value(s.last())
    }
}

/// The decimal digits of a natural number, without leading zeros.
pub open spec fn spec_digits(n: nat) -> Seq<char>
    decreases n,
{
    if n < 10 {
        seq![digit_char(n)]
    } else {
        spec_digits(n / 10).push(digit_char(n % 10))
    }
}

/// The text that `i32::to_string` writes: a minus sign for negative numbers,
/// then the digits of the magnitude.
pub open spec fn spec_format_i32(n: i32) -> Seq<char> {
    if n < 0 {
        seq!['-'] + spec_digits((-(n as int)) as nat)
    } else {
        spec_digits(n as nat)
    }
}

/// What `str::parse::<i32>` reads: an optional `+` or `-`, then at least
/// one ASCII digit and nothing else, denoting a number in the range of `i32`.
pub open spec fn spec_parse_i32(s: Seq<char>) -> Option<i32> {
    let neg = s.len() > 0 && s[0] == '-';
    let signed = s.len() > 0 && (s[0] == '-' || s[0] == '+');
    let body = if signed { s.drop_first() } else { s };
    let v = if neg { -digits_value(body) } else { digits_value(body) };
    if body.len() > 0 && all_digits(body) && i32::MIN <= v <= i32::MAX {
        Some(v as i32)
    } else {
        None
    }
}

proof fn lemma_digits_value_grows(s: Seq<char>, i: int, j: int)
    requires
        all_digits(s),
        0 <= i <= j <= s.len(),
    ensures
        0 <= digits_value(s.take(i)) <= digits_value(s.take(j)),
    decreases j - i,
{
    if i < j {
        lemma_digits_value_grows(s, i, j - 1);
        assert(s.take(j).drop_last() =~= s.take(j - 1));
        assert(is_digit(s[j - 1]));
    } else {
        lemma_digits_value_nonneg(s.take(i));
    }
}

proof fn lemma_digits_value_nonneg(s: Seq<char>)
    requires
        all_digits(s),
    ensures
        digits_value(s) >= 0,
    decreases s.len(),
{
    if s.len() > 0 {
        assert(all_digits(s.drop_last()));
        lemma_digits_value_nonneg(s.drop_last());
        assert(is_digit(s.last()));
    }
}

proof fn lemma_spec_digits(n: nat)
    ensures
        spec_digits(n).len() > 0,
        all_digits(spec_digits(n)),
        digits_value(spec_digits(n)) == n,
    decreases n,
{
    assert(digit_value(digit_char(n % 10)) == n % 10);
    if n < 10 {
        let s = spec_digits(n);
        assert(s == seq![digit_char(n)]);
        assert(s.drop_last() =~= Seq::<char>::empty());
        assert(digits_value(s.drop_last()) == 0);
        assert(s.last() == digit_char(n));
        assert(digits_value(s) == n);
    } else {
        lemma_spec_digits(n / 10);
        let s = spec_digits(n);
        assert(s.drop_last() =~= spec_digits(n / 10));
        assert((n / 10) * 10 + n % 10 == n) by (nonlinear_arith);
        assert(s.last() == digit_char(n % 10));
        assert(digits_value(s) == digits_value(s.drop_last()) * 10 + digit_value(s.last()));
        assert forall|i: int| 0 <= i < s.len() implies is_digit(#[trigger] s[i]) by {
            if i < s.len() - 1 {
                assert(s[i] == spec_digits(n / 10)[i]);
            }
        }
    }
}

/// The text that `i32::to_string` writes holds digits and minus signs only.
pub proof fn lemma_format_i32_chars(n: i32)
    ensures
        forall|i: int| 0 <= i < spec_format_i32(n).len() ==>
            (is_digit(#[trigger] spec_format_i32(n)[i]) || spec_format_i32(n)[i] == '-'),
{
    if n < 0 {
        let d = spec_digits((-(n as int)) as nat);
        lemma_spec_digits((-(n as int)) as nat);
        let s = spec_format_i32(n);
        assert forall|i: int| 0 <= i < s.len() implies (is_digit(#[trigger] s[i]) || s[i] == '-') by {
            if i > 0 {
                assert(s[i] == d[i - 1]);
            }
        }
    } else {
        lemma_spec_digits(n as nat);
    }
}

/// Reading back the text that `i32::to_string` writes gives the number.
pub proof fn lemma_parse_format_i32(n: i32)
    ensures
        spec_parse_i32(spec_format_i32(n)) == Some(n),
{
    if n < 0 {
        let m = (-(n as int)) as nat;
        lemma_spec_digits(m);
        let s = spec_format_i32(n);
        assert(s.drop_first() =~= spec_digits(m));
    } else {
        lemma_spec_digits(n as nat);
        let d = spec_digits(n as nat);
        assert(is_digit(d[0]));
    }
}

fn digit_to_char(d: u64) -> (c: char)
    requires
        d < 10,
    ensures
        c == digit_char(d as nat),
{
    if d == 0 { '0' } else if d == 1 { '1' } else if d == 2 { '2' } else if d == 3 { '3' }
    else if d == 4 { '4' } else if d == 5 { '5' } else if d == 6 { '6' } else if d == 7 { '7' }
    else if d == 8 { '8' } else { '9' }
}

fn push_digits(n: u64, out: &mut Vec<char>)
    ensures
        final(out)@ == old(out)@ + spec_digits(n as nat),
    decreases n,
{
    if n >= 10 {
        push_digits(n / 10, out);
    }
    let c = digit_to_char(n % 10);
    out.push(c);
    proof {
        if n >= 10 {
            assert(final(out)@ =~= old(out)@ + spec_digits(n as nat));
        } else {
            assert(final(out)@ =~= old(out)@ + spec_digits(n as nat));
        }
    }
}

/// Writes `n` in decimal, as `i32::to_string` does.
pub fn format_i32(n: i32) -> (res: String)
    ensures
        res@ == spec_format_i32(n),
{
    let mut out: Vec<char> = Vec::new();
    let mag: u64;
    if n < 0 {
        out.push('-');
        mag = (0i64 - (n as i64)) as u64;
    } else {
        mag = n as u64;
    }
    push_digits(mag, &mut out);
    proof {
        if n < 0 {
            assert(out@ =~= seq!['-'] + spec_digits((-(n as int)) as nat));
        } else {
            assert(out@ =~= spec_digits(n as nat));
        }
    }
    string_from_chars(out.as_slice())
}

/// Reads a decimal `i32`, as `str::parse::<i32>` does; `None` where it fails.
pub fn parse_i32(s: &str) -> (res: Option<i32>)
    ensures
        res == spec_parse_i32(s@),
{
    let cs = str_chars(s);
    let n = cs.len();
    let neg = n > 0 && cs[0] == '-';
    let signed = n > 0 && (cs[0] == '-' || cs[0] == '+');
    let start: usize = if signed { 1 } else { 0 };
    let ghost body = if signed { s@.drop_first() } else { s@ };
    if start >= n {
        return None;
    }
    let mut acc: i64 = 0;
    let mut i: usize = start;
    while i < n
        invariant
            cs@ == s@,
            n == cs.len(),
            start <= i <= n,
            start == (if signed { 1usize } else { 0usize }),
            body == s@.subrange(start as int, n as int),
            signed == (s@.len() > 0 && (s@[0] == '-' || s@[0] == '+')),
            neg == (s@.len() > 0 && s@[0] == '-'),
            body == (if signed { s@.drop_first() } else { s@ }),
            forall|j: int| 0 <= j < i - start ==> is_digit(#[trigger] body[j]),
            acc == digits_value(body.take(i - start)),
            0 <= acc <= 2147483648,
        decreases n - i,
    {
        let c = cs[i];
        if !('0' <= c && c <= '9') {
            proof {
                assert(!is_digit(body[i - start]));
                assert(!all_digits(body));
            }
            return None;
        }
        let d = (c as u32 - '0' as u32) as i64;
        let next = acc * 10 + d;
        proof {
            assert(body.take(i + 1 - start).drop_last() =~= body.take(i - start));
            assert(body[i - start] == c);
            assert(digit_value(c) == d);
            assert(next == digits_value(body.take(i + 1 - start)));
        }
        if next > 2147483648 {
            proof {
                assert forall|j: int| 0 <= j < i + 1 - start implies is_digit(#[trigger] body.take(i + 1 - start)[j]) by {}
                if all_digits(body) {
                    lemma_digits_value_grows(body, i + 1 - start, body.len() as int);
                    assert(body.take(body.len() as int) =~= body);
                    assert(digits_value(body) > 2147483648);
                }
            }
            return None;
        }
        acc = next;
        i = i + 1;
    }
    proof {
        assert(body.take(n - start) =~= body);
        assert(all_digits(body));
        assert(body.len() > 0);
    }
    if neg {
        Some((0 - acc) as i32)
    } else if acc <= 2147483647 {
        Some(acc as i32)
    } else {
        None
    }
}

} // verus!
