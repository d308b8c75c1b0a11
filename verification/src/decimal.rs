//! Integers as decimal text.
//!
//! An integer is written with its decimal digits, behind a `-` where it is
//! negative. It is read from an optional sign and at least one digit, and
//! only where the number lies within the bounds that are asked for. Nothing
//! else is accepted: no blank, no separator, no sign without a digit.

use vstd::prelude::*;
use vstd::string::*;

verus! {

/// The character of a digit from 0 to 9.
pub open spec fn digit_char(d: int) -> char {
    if d == 0 {
        '0'
    } else if d == 1 {
        '1'
    } else if d == 2 {
        '2'
    } else if d == 3 {
        '3'
    } else if d == 4 {
        '4'
    } else if d == 5 {
        '5'
    } else if d == 6 {
        '6'
    } else if d == 7 {
        '7'
    } else if d == 8 {
        '8'
    } else {
        '9'
    }
}

/// Whether a character is one of the digits `0` to `9`.
pub open spec fn is_digit(c: char) -> bool {
    '0' <= c <= '9'
}

/// The number that a digit stands for.
pub open spec fn digit_value(c: char) -> int {
    c as int - 48
}

/// The decimal digits of a number, the most significant first.
pub open spec fn digits(n: nat) -> Seq<char>
    decreases n,
{
    if n < 10 {
        seq![digit_char(n as int)]
    } else {
        digits(n / 10).push(digit_char((n % 10) as int))
    }
}

/// The decimal text of an integer.
pub open spec fn int_text(i: int) -> Seq<char> {
    if i < 0 {
        seq!['-'] + digits((-i) as nat)
    } else {
        digits(i as nat)
    }
}

/// Whether a text consists of digits alone.
pub open spec fn all_digits(s: Seq<char>) -> bool {
    forall|i: int| 0 <= i < s.len() ==> is_digit(#[trigger] s[i])
}

/// The number that a text of digits stands for.
pub open spec fn digits_value(s: Seq<char>) -> nat
    decreases s.len(),
{
    if s.len() == 0 {
        0
    } else {
        (digits_value(s.drop_last()) * 10 + digit_value(s.last())) as nat
    }
}

/// The number that a text without a sign stands for: it takes at least one
/// digit, and digits alone.
pub open spec fn magnitude(s: Seq<char>) -> Option<nat> {
    if s.len() > 0 && all_digits(s) {
        Some(digits_value(s))
    } else {
        None
    }
}

/// The number from 0 to `max` that a text stands for: digits, behind a `+`
/// or behind nothing.
pub open spec fn unsigned_parsed(s: Seq<char>, max: int) -> Option<int> {
    let body = if s.len() > 0 && s[0] == '+' {
        s.skip(1)
    } else {
        s
    };
    match magnitude(body) {
        Some(n) => if n <= max {
            Some(n as int)
        } else {
            None
        },
        None => None,
    }
}

/// The number from `min` to `max` that a text stands for: digits, behind a
/// `+`, a `-` or nothing.
pub open spec fn signed_parsed(s: Seq<char>, min: int, max: int) -> Option<int> {
    if s.len() > 0 && s[0] == '-' {
        match magnitude(s.skip(1)) {
            Some(n) => if min <= -n {
                Some(-n)
            } else {
                None
            },
            None => None,
        }
    } else {
        unsigned_parsed(s, max)
    }
}

/// A digit reads back as its number.
pub proof fn lemma_digit_char(d: int)
    requires
        0 <= d <= 9,
    ensures
        is_digit(digit_char(d)),
        digit_value(digit_char(d)) == d,
{
}

/// The digits of a number are digits, at least one, and stand for the
/// number.
pub proof fn lemma_digits_value(n: nat)
    ensures
        digits(n).len() > 0,
        all_digits(digits(n)),
        digits_value(digits(n)) == n,
    decreases n,
{
    if n < 10 {
        lemma_digit_char(n as int);
        let s = digits(n);
        assert(s.drop_last().len() == 0);
        assert(digits_value(s.drop_last()) == 0);
    } else {
        lemma_digits_value(n / 10);
        lemma_digit_char((n % 10) as int);
        let s = digits(n);
        assert(s.drop_last() =~= digits(n / 10));
        assert(s.last() == digit_char((n % 10) as int));
    }
}

/// A number in bounds is read back from its digits.
pub proof fn lemma_unsigned_round_trip(n: nat, max: int)
    requires
        n <= max,
    ensures
        unsigned_parsed(digits(n), max) == Some(n as int),
{
    lemma_digits_value(n);
    assert(is_digit(digits(n)[0]));
}

/// An integer in bounds is read back from its text.
pub proof fn lemma_signed_round_trip(i: int, min: int, max: int)
    requires
        min <= i <= max,
    ensures
        signed_parsed(int_text(i), min, max) == Some(i),
{
    if i < 0 {
        lemma_digits_value((-i) as nat);
        assert(int_text(i).skip(1) =~= digits((-i) as nat));
    } else {
        lemma_digits_value(i as nat);
        assert(is_digit(digits(i as nat)[0]));
    }
}

/// A text of digits stands for no less than any part it begins with.
pub proof fn lemma_digits_value_grows(s: Seq<char>, k: int)
    requires
        all_digits(s),
        0 <= k <= s.len(),
    ensures
        digits_value(s.take(k)) <= digits_value(s),
    decreases s.len() - k,
{
    if k < s.len() {
        lemma_digits_value_grows(s, k + 1);
        assert(s.take(k + 1).drop_last() =~= s.take(k));
        assert(is_digit(s[k]));
        assert(s.take(k + 1).last() == s[k]);
    } else {
        assert(s.take(k) =~= s);
    }
}

/// The one-character string of a digit.
fn digit_str(d: u64) -> (s: &'static str)
    requires
        d <= 9,
    ensures
        s@ == seq![digit_char(d as int)],
{
    proof {
        reveal_strlit("0");
        reveal_strlit("1");
        reveal_strlit("2");
        reveal_strlit("3");
        reveal_strlit("4");
        reveal_strlit("5");
        reveal_strlit("6");
        reveal_strlit("7");
        reveal_strlit("8");
        reveal_strlit("9");
    }
    let s = if d == 0 {
        "0"
    } else if d == 1 {
        "1"
    } else if d == 2 {
        "2"
    } else if d == 3 {
        "3"
    } else if d == 4 {
        "4"
    } else if d == 5 {
        "5"
    } else if d == 6 {
        "6"
    } else if d == 7 {
        "7"
    } else if d == 8 {
        "8"
    } else {
        "9"
    };
    assert(s@ =~= seq![digit_char(d as int)]);
    s
}

/// Appends the digits of a number to a string.
fn push_digits(n: u64, out: &mut String)
    ensures
        final(out)@ == old(out)@ + digits(n as nat),
    decreases n,
{
    if n >= 10 {
        push_digits(n / 10, out);
    }
    out.append(digit_str(n % 10));
    assert(final(out)@ =~= old(out)@ + digits(n as nat));
}

/// Writes a number with its decimal digits.
pub fn write_unsigned(n: u64) -> (s: String)
    ensures
        s@ == digits(n as nat),
{
    let mut s = String::new();
    push_digits(n, &mut s);
    assert(s@ =~= digits(n as nat));
    s
}

/// Writes an integer as decimal text.
pub fn write_signed(i: i64) -> (s: String)
    ensures
        s@ == int_text(i as int),
{
    if i < 0 {
        proof {
            reveal_strlit("-");
        }
        let mut s = "-".to_owned();
        let n: u64 = if i == i64::MIN {
            0x8000_0000_0000_0000u64
        } else {
            (-i) as u64
        };
        push_digits(n, &mut s);
        assert(s@ =~= int_text(i as int));
        s
    } else {
        write_unsigned(i as u64)
    }
}

/// Reads the number from 0 to `max` that the characters from `start` on
/// stand for.
fn parse_digits(text: &str, start: usize, max: u64) -> (value: Option<u64>)
    requires
        text.is_ascii(),
        start <= text@.len(),
    ensures
        match value {
            Some(n) => magnitude(text@.skip(start as int)) == Some(n as nat) && n <= max,
            None => match magnitude(text@.skip(start as int)) {
                Some(n) => n > max,
                None => true,
            },
        },
{
    broadcast use is_ascii_spec_bytes;

    let bytes = text.as_bytes();
    let ghost body = text@.skip(start as int);
    if start == bytes.len() {
        return None;
    }
    let mut n: u64 = 0;
    let mut i: usize = start;
    while i < bytes.len()
        invariant
            text.is_ascii(),
            bytes@ == text.spec_bytes(),
            bytes@.len() == text@.len(),
            body == text@.skip(start as int),
            start <= i <= bytes.len(),
            all_digits(body.take(i - start)),
            n == digits_value(body.take(i - start)),
            n <= max,
        decreases bytes.len() - i,
    {
        let b = bytes[i];
        assert(b == text@[i as int] as u8);
        assert(body[i - start] == text@[i as int]);
        if b < 48 || b > 57 {
            assert(!is_digit(body[i - start]));
            return None;
        }
        let d: u64 = (b - 48) as u64;
        proof {
            assert(body.take(i - start + 1).drop_last() =~= body.take(i - start));
            assert(body.take(i - start + 1).last() == body[i - start]);
            assert(is_digit(body[i - start]));
            assert(digit_value(body[i - start]) == d);
            assert(digits_value(body.take(i - start + 1)) == n * 10 + d);
            assert forall|j: int| 0 <= j < i - start + 1 implies is_digit(
                #[trigger] body.take(i - start + 1)[j],
            ) by {
                if j < i - start {
                    assert(body.take(i - start + 1)[j] == body.take(i - start)[j]);
                }
            }
        }
        if d > max || n > (max - d) / 10 {
            proof {
                assert(n * 10 + d > max);
                if all_digits(body) {
                    lemma_digits_value_grows(body, i - start + 1);
                }
            }
            return None;
        }
        n = n * 10 + d;
        i += 1;
    }
    assert(body.take(i - start) =~= body);
    Some(n)
}

/// Reads a number from 0 to `max`.
pub fn parse_unsigned(text: &str, max: u64) -> (value: Option<u64>)
    ensures
        match value {
            Some(n) => unsigned_parsed(text@, max as int) == Some(n as int),
            None => unsigned_parsed(text@, max as int) is None,
        },
{
    broadcast use is_ascii_spec_bytes;

    if !text.is_ascii() {
        proof {
            lemma_not_ascii(text@);
        }
        return None;
    }
    let bytes = text.as_bytes();
    if bytes.len() > 0 && bytes[0] == 43 {
        assert(text@[0] == '+');
        parse_digits(text, 1, max)
    } else {
        assert(text@.len() > 0 ==> text@[0] != '+');
        assert(text@.skip(0) =~= text@);
        parse_digits(text, 0, max)
    }
}

/// Reads an integer from `min` to `max`.
pub fn parse_signed(text: &str, min: i64, max: i64) -> (value: Option<i64>)
    requires
        min <= 0 <= max,
    ensures
        match value {
            Some(i) => signed_parsed(text@, min as int, max as int) == Some(i as int),
            None => signed_parsed(text@, min as int, max as int) is None,
        },
{
    broadcast use is_ascii_spec_bytes;

    if !text.is_ascii() {
        proof {
            lemma_not_ascii(text@);
        }
        return None;
    }
    let bytes = text.as_bytes();
    if bytes.len() > 0 && bytes[0] == 45 {
        assert(text@[0] == '-');
        let bound: u64 = if min == i64::MIN {
            0x8000_0000_0000_0000u64
        } else {
            (-min) as u64
        };
        match parse_digits(text, 1, bound) {
            Some(n) => if n == 0x8000_0000_0000_0000u64 {
                Some(i64::MIN)
            } else {
                Some(-(n as i64))
            },
            None => None,
        }
    } else {
        assert(text@.len() > 0 ==> text@[0] != '-');
        match parse_unsigned(text, max as u64) {
            Some(n) => Some(n as i64),
            None => None,
        }
    }
}

/// A text with a character outside ASCII stands for no number.
pub proof fn lemma_not_ascii(s: Seq<char>)
    requires
        !vstd::utf8::is_ascii_chars(s),
    ensures
        forall|max: int| #[trigger] unsigned_parsed(s, max) is None,
        forall|min: int, max: int| #[trigger] signed_parsed(s, min, max) is None,
{
    let i = choose|i: int| 0 <= i < s.len() && !('\0' <= #[trigger] s[i] <= '\u{7f}');
    assert(!is_digit(s[i]));
    if i > 0 {
        assert(s.skip(1)[i - 1] == s[i]);
    }
}

} // verus!
