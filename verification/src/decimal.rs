//! Whole numbers written in decimal, as the standard library prints and
//! reads them.

use vstd::prelude::*;

verus! {

/// The character of the decimal digit `d`.
pub open spec fn digit_char(d: int) -> char {
    (d + 48) as char
}

/// `c` is one of the ten decimal digits.
pub open spec fn is_digit(c: char) -> bool {
    '0' <= c && c <= '9'
}

/// The value of the decimal digit `c`.
pub open spec fn digit_value(c: char) -> int {
    c as int - 48
}

/// The digits of `n`, most significant first, without leading zeros.
pub open spec fn digits_of(n: nat) -> Seq<char>
    decreases n,
{
    if n < 10 {
        seq![digit_char(n as int)]
    } else {
        digits_of(n / 10).push(digit_char((n % 10) as int))
    }
}

/// `n` in decimal: its digits, behind a minus sign when it is negative.
pub open spec fn decimal(n: int) -> Seq<char> {
    if n < 0 {
        seq!['-'] + digits_of((-n) as nat)
    } else {
        digits_of(n as nat)
    }
}

/// The number that a sequence of decimal digits stands for, leading zeros
/// allowed. Nothing for the empty sequence and for one that holds anything
/// but digits.
pub open spec fn digits_value(s: Seq<char>) -> Option<nat>
    decreases s.len(),
{
    if s.len() == 0 {
        None
    } else if !is_digit(s.last()) {
        None
    } else if s.len() == 1 {
        Some(digit_value(s.last()) as nat)
    } else {
        match digits_value(s.drop_last()) {
            Some(high) => Some((high * 10 + digit_value(s.last())) as nat),
            None => None,
        }
    }
}

/// The 64-bit signed number that `s` stands for: an optional sign, then
/// one or more decimal digits, and nothing else; nothing if the number
/// does not fit.
pub open spec fn parse_i64(s: Seq<char>) -> Option<i64> {
    let negative = s.len() > 0 && s[0] == '-';
    let signed = s.len() > 0 && (s[0] == '-' || s[0] == '+');
    let body = if signed {
        s.skip(1)
    } else {
        s
    };
    match digits_value(body) {
        None => None,
        Some(magnitude) => {
            let n = if negative {
                -(magnitude as int)
            } else {
                magnitude as int
            };
            if i64::MIN <= n <= i64::MAX {
                Some(n as i64)
            } else {
                None
            }
        },
    }
}

/// A sequence that holds anything but a digit stands for no number.
proof fn lemma_not_a_number(s: Seq<char>, k: int)
    requires
        0 <= k < s.len(),
        !is_digit(s[k]),
    ensures
        digits_value(s) is None,
    decreases s.len(),
{
    if k < s.len() - 1 {
        assert(s.drop_last()[k] == s[k]);
        lemma_not_a_number(s.drop_last(), k);
    }
}

/// One more digit behind a number multiplies it by ten and adds the digit.
proof fn lemma_append_digit(s: Seq<char>, c: char)
    requires
        digits_value(s) is Some,
        is_digit(c),
    ensures
        digits_value(s.push(c)) == Some((digits_value(s)->0 * 10 + digit_value(c)) as nat),
{
    assert(s.push(c).drop_last() == s);
    assert(s.len() > 0);
}

/// The digits in front of a number stand for a number that is not larger.
proof fn lemma_prefix_not_larger(s: Seq<char>, k: int)
    requires
        digits_value(s) is Some,
        1 <= k <= s.len(),
    ensures
        digits_value(s.take(k)) is Some,
        digits_value(s.take(k))->0 <= digits_value(s)->0,
    decreases s.len() - k,
{
    if k == s.len() {
        assert(s.take(k) == s);
    } else {
        assert(s.drop_last().take(k) == s.take(k));
        lemma_prefix_not_larger(s.drop_last(), k);
    }
}

/// Every character of the digits of a number is a digit.
proof fn lemma_digits_are_digits(n: nat)
    ensures
        digits_of(n).len() > 0,
        forall|i: int| 0 <= i < digits_of(n).len() ==> is_digit(#[trigger] digits_of(n)[i]),
    decreases n,
{
    if n >= 10 {
        lemma_digits_are_digits(n / 10);
    }
}

/// The digits of a number stand for that number.
proof fn lemma_digits_round_trip(n: nat)
    ensures
        digits_value(digits_of(n)) == Some(n),
    decreases n,
{
    if n >= 10 {
        lemma_digits_round_trip(n / 10);
        lemma_append_digit(digits_of(n / 10), digit_char((n % 10) as int));
    }
}

/// Reading what was written gives the number back.
pub proof fn lemma_parse_decimal_round_trip(n: i64)
    ensures
        parse_i64(decimal(n as int)) == Some(n),
{
    let s = decimal(n as int);
    if n < 0 {
        let digits = digits_of((-n) as nat);
        assert(s.skip(1) == digits);
        lemma_digits_round_trip((-n) as nat);
    } else {
        lemma_digits_are_digits(n as nat);
        assert(is_digit(s[0]));
        lemma_digits_round_trip(n as nat);
    }
}

/// What was written holds digits and at most a minus sign in front.
pub proof fn lemma_decimal_characters(n: int)
    ensures
        decimal(n).len() > 0,
        forall|i: int|
            0 <= i < decimal(n).len() ==> is_digit(#[trigger] decimal(n)[i]) || decimal(n)[i]
                == '-',
{
    if n < 0 {
        lemma_digits_are_digits((-n) as nat);
        assert forall|i: int| 0 <= i < decimal(n).len() implies is_digit(
            #[trigger] decimal(n)[i],
        ) || decimal(n)[i] == '-' by {
            if i > 0 {
                assert(decimal(n)[i] == digits_of((-n) as nat)[i - 1]);
            }
        }
    } else {
        lemma_digits_are_digits(n as nat);
    }
}

fn digit(d: u64) -> (c: char)
    requires
        d < 10,
    ensures
        c == digit_char(d as int),
        is_digit(c),
        digit_value(c) == d,
{
    ((d as u8) + 48u8) as char
}

fn push_digits(out: &mut String, n: u64)
    ensures
        final(out)@ == old(out)@ + digits_of(n as nat),
    decreases n,
{
    if n >= 10 {
        push_digits(out, n / 10);
    }
    out.push(digit(n % 10));
}

/// Writes `n` in decimal.
pub fn format_i64(n: i64) -> (text: String)
    ensures
        text@ == decimal(n as int),
{
    let mut text = String::new();
    if n < 0 {
        text.push('-');
        let magnitude: u64 = if n == i64::MIN {
            9223372036854775808u64
        } else {
            (-n) as u64
        };
        push_digits(&mut text, magnitude);
    } else {
        push_digits(&mut text, n as u64);
    }
    text
}

/// Reads a number written in decimal. An optional sign and at least one
/// digit are required; any other character, and a number that does not
/// fit, give nothing.
pub fn parse_decimal(s: &str) -> (number: Option<i64>)
    ensures
        number == parse_i64(s@),
{
    let limit: u64 = 9223372036854775808u64;
    let mut first = true;
    let mut signed = false;
    let mut negative = false;
    let mut seen = false;
    let mut acc: u64 = 0;
    for c in it: s.chars()
        invariant
            it.seq() == s@,
            limit == 9223372036854775808u64,
            first == (it.index() == 0),
            signed == (it.index() > 0 && (s@[0] == '-' || s@[0] == '+')),
            negative == (it.index() > 0 && s@[0] == '-'),
            seen == (it.index() > (if signed { 1int } else { 0int })),
            acc <= limit,
            !seen ==> acc == 0,
            seen ==> digits_value(s@.subrange(if signed { 1int } else { 0int }, it.index() as int))
                == Some(acc as nat),
    {
        let ghost i = it.index() as int;
        let ghost start = if signed { 1int } else { 0int };
        let ghost body = if s@[0] == '-' || s@[0] == '+' { s@.skip(1) } else { s@ };
        if first && (c == '-' || c == '+') {
            signed = true;
            negative = c == '-';
        } else {
            proof {
                assert(body[i - start] == c);
            }
            if !(c >= '0' && c <= '9') {
                proof {
                    lemma_not_a_number(body, i - start);
                }
                return None;
            }
            let d: u64 = (c as u64) - 48;
            let wide: u128 = (acc as u128) * 10 + (d as u128);
            proof {
                let prefix = s@.subrange(start, i);
                assert(s@.subrange(start, i + 1) == prefix.push(c));
                assert(body.take(i + 1 - start) == s@.subrange(start, i + 1));
                if seen {
                    lemma_append_digit(prefix, c);
                } else {
                    assert(prefix.push(c).len() == 1);
                }
                assert(digits_value(body.take(i + 1 - start)) == Some(wide as nat));
                if digits_value(body) is Some {
                    lemma_prefix_not_larger(body, i + 1 - start);
                }
            }
            if wide > limit as u128 {
                return None;
            }
            acc = wide as u64;
            seen = true;
        }
        first = false;
    }
    proof {
        if signed {
            assert(s@.subrange(1, s@.len() as int) == s@.skip(1));
        } else {
            assert(s@.subrange(0, s@.len() as int) == s@);
        }
    }
    if !seen {
        None
    } else if negative {
        if acc == limit {
            Some(i64::MIN)
        } else {
            Some(-(acc as i64))
        }
    } else if acc == limit {
        None
    } else {
        Some(acc as i64)
    }
}

} // verus!
