//! Decimal numerals: how a number is written, and how a written number is
//! read back.

use vstd::prelude::*;
use vstd::string::*;

verus! {

/// The character that stands for a digit below ten.
pub open spec fn digit_char(d: nat) -> char {
    if d == 0 {
        '0'
    } else if d == 1 {
        '1'
    } else if d == 2 {
        '2'
    } else if d == 3 {
        '3'
    } else if d == 4 {
        '4'
    } else if d == 5 {
        '5'
    } else if d == 6 {
        '6'
    } else if d == 7 {
        '7'
    } else if d == 8 {
        '8'
    } else {
        '9'
    }
}

pub open spec fn is_digit(c: char) -> bool {
    '0' <= c && c <= '9'
}

/// The digit that a decimal character stands for.
pub open spec fn digit_value(c: char) -> nat
    recommends
        is_digit(c),
{
    (c as int - '0' as int) as nat
}

pub open spec fn all_digits(s: Seq<char>) -> bool {
    forall|i: int| 0 <= i < s.len() ==> is_digit(#[trigger] s[i])
}

/// The number that a run of decimal digits writes; zero for the empty run.
pub open spec fn digits_value(s: Seq<char>) -> nat
    recommends
        all_digits(s),
    decreases s.len(),
{
    if s.len() == 0 {
        0
    } else {
        digits_value(s.drop_last()) * 10 + digit_value(s.last())
    }
}

/// The shortest decimal numeral of `n`.
pub open spec fn decimal(n: nat) -> Seq<char>
    decreases n,
{
    if n < 10 {
        seq![digit_char(n)]
    } else {
        decimal(n / 10).push(digit_char(n % 10))
    }
}

/// The decimal numeral of an integer, with a minus sign where it is negative.
pub open spec fn signed_decimal(i: int) -> Seq<char> {
    if i < 0 {
        seq!['-'] + decimal((-i) as nat)
    } else {
        decimal(i as nat)
    }
}

/// A numeral reads back as the number it was written from.
pub proof fn lemma_decimal_reads_back(n: nat)
    ensures
        decimal(n).len() >= 1,
        all_digits(decimal(n)),
        digits_value(decimal(n)) == n,
    decreases n,
{
    if n < 10 {
        let s = decimal(n);
        assert(digits_value(s.drop_last()) == 0);
    } else {
        lemma_decimal_reads_back(n / 10);
        let s = decimal(n);
        assert(s.drop_last() =~= decimal(n / 10));
        assert(all_digits(s));
    }
}

/// A longer run of digits never writes a smaller number than its beginning.
pub proof fn lemma_digits_value_grows(s: Seq<char>, k: int)
    requires
        0 <= k <= s.len(),
    ensures
        digits_value(s.take(k)) <= digits_value(s),
    decreases s.len(),
{
    if k == s.len() {
        assert(s.take(k) =~= s);
    } else {
        lemma_digits_value_grows(s.drop_last(), k);
        assert(s.drop_last().take(k) =~= s.take(k));
    }
}

fn digit_text(d: u64) -> (t: &'static str)
    requires
        d < 10,
    ensures
        t@ == seq![digit_char(d as nat)],
{
    proof {
        reveal_strlit("0");
        reveal_strlit("1");
        reveal_strlit("2");
        reveal_strlit("3");
        reveal_strlit("4");
        reveal_strlit("5");
        reveal_strlit("6");
        reveal_strlit("7");
        reveal_strlit("8");
        reveal_strlit("9");
    }
    if d == 0 {
        "0"
    } else if d == 1 {
        "1"
    } else if d == 2 {
        "2"
    } else if d == 3 {
        "3"
    } else if d == 4 {
        "4"
    } else if d == 5 {
        "5"
    } else if d == 6 {
        "6"
    } else if d == 7 {
        "7"
    } else if d == 8 {
        "8"
    } else {
        "9"
    }
}

/// Appends the decimal numeral of `n`.
pub fn push_decimal(out: &mut String, n: u64)
    ensures
        final(out)@ == old(out)@ + decimal(n as nat),
    decreases n,
{
    if n >= 10 {
        push_decimal(out, n / 10);
    }
    out.append(digit_text(n % 10));
}

/// Appends the decimal numeral of `i`, with its sign where it is negative.
pub fn push_signed_decimal(out: &mut String, i: i64)
    ensures
        final(out)@ == old(out)@ + signed_decimal(i as int),
{
    if i < 0 {
        proof {
            reveal_strlit("-");
        }
        out.append("-");
        let magnitude: u64 = if i == i64::MIN {
            0x8000_0000_0000_0000
        } else {
            (-i) as u64
        };
        push_decimal(out, magnitude);
    } else {
        push_decimal(out, i as u64);
    }
}

/// The number that a run of digits writes, where it is a run of at least
/// one digit and the number is no larger than `limit`.
pub open spec fn bounded_number(body: Seq<char>, limit: nat) -> Option<nat> {
    if body.len() == 0 || !all_digits(body) || digits_value(body) > limit {
        None
    } else {
        Some(digits_value(body))
    }
}

/// The whole number that a text writes in the range of 32-bit signed
/// integers: one sign at most, then decimal digits, at least one.
pub open spec fn signed_number(t: Seq<char>) -> Option<i32> {
    if t.len() > 0 && t[0] == '-' {
        match bounded_number(t.skip(1), 0x8000_0000) {
            Some(n) => Some((-(n as int)) as i32),
            None => None,
        }
    } else if t.len() > 0 && t[0] == '+' {
        match bounded_number(t.skip(1), 0x7FFF_FFFF) {
            Some(n) => Some(n as i32),
            None => None,
        }
    } else {
        match bounded_number(t, 0x7FFF_FFFF) {
            Some(n) => Some(n as i32),
            None => None,
        }
    }
}

/// A text with a character outside ASCII writes no number, from wherever
/// it is read.
pub proof fn lemma_digits_are_ascii(t: Seq<char>, start: int, limit: nat)
    requires
        0 <= start <= 1,
        start <= t.len(),
        start == 1 ==> '\0' <= t[0] <= '\u{7f}',
        !vstd::utf8::is_ascii_chars(t),
    ensures
        bounded_number(t.skip(start), limit) is None,
{
    let i = choose|i: int| 0 <= i < t.len() && !('\0' <= #[trigger] t[i] <= '\u{7f}');
    let body = t.skip(start);
    assert(!is_digit(body[i - start]));
}

/// Reads the digits of an ASCII text from `start` on as a number up to
/// `limit`.
pub(crate) fn parse_digits(s: &str, start: usize, limit: u64) -> (r: Option<u64>)
    requires
        s.is_ascii(),
        start <= s@.len(),
    ensures
        r == match bounded_number(s@.skip(start as int), limit as nat) {
            Some(n) => Some(n as u64),
            None => None::<u64>,
        },
{
    let ghost t = s@;
    let ghost body = t.skip(start as int);
    proof {
        is_ascii_spec_bytes(s);
    }
    let n = s.as_bytes().len();
    if start == n {
        return None;
    }
    let mut acc: u64 = 0;
    let mut i: usize = start;
    while i < n
        invariant
            start <= i <= n,
            n == t.len(),
            t == s@,
            s.is_ascii(),
            body == t.skip(start as int),
            all_digits(body.take(i - start)),
            acc == digits_value(body.take(i - start)),
            acc <= limit,
        decreases n - i,
    {
        let b = s.get_ascii(i);
        let ghost k = i - start;
        if b < 48 || b > 57 {
            assert(!is_digit(body[k]));
            return None;
        }
        let d: u64 = (b - 48) as u64;
        proof {
            assert(body.take(k + 1).drop_last() =~= body.take(k));
        }
        if d > limit || acc > (limit - d) / 10 {
            proof {
                if all_digits(body) {
                    lemma_digits_value_grows(body, k + 1);
                }
            }
            return None;
        }
        acc = acc * 10 + d;
        proof {
            assert(all_digits(body.take(k + 1)));
        }
        i = i + 1;
    }
    proof {
        assert(body.take(n - start) =~= body);
    }
    Some(acc)
}

/// Reads a whole number as [`signed_number`] defines it.
pub fn parse_i32(s: &str) -> (r: Option<i32>)
    ensures
        r == signed_number(s@),
{
    if !s.is_ascii() {
        proof {
            let t = s@;
            let i = choose|i: int| 0 <= i < t.len() && !('\0' <= #[trigger] t[i] <= '\u{7f}');
            if t[0] == '-' || t[0] == '+' {
                lemma_digits_are_ascii(t, 1, 0x8000_0000);
                lemma_digits_are_ascii(t, 1, 0x7FFF_FFFF);
            } else {
                lemma_digits_are_ascii(t, 0, 0x7FFF_FFFF);
            }
        }
        return None;
    }
    proof {
        is_ascii_spec_bytes(s);
    }
    let n = s.as_bytes().len();
    let first: u8 = if n > 0 {
        s.get_ascii(0)
    } else {
        0
    };
    if n > 0 && first == 45 {
        match parse_digits(s, 1, 0x8000_0000) {
            Some(m) => Some((-(m as i64)) as i32),
            None => None,
        }
    } else if n > 0 && first == 43 {
        match parse_digits(s, 1, 0x7FFF_FFFF) {
            Some(m) => Some(m as i32),
            None => None,
        }
    } else {
        assert(s@.skip(0) =~= s@);
        match parse_digits(s, 0, 0x7FFF_FFFF) {
            Some(m) => Some(m as i32),
            None => None,
        }
    }
}

/// White space as Unicode defines it.
pub open spec fn is_space(c: char) -> bool {
    ||| c == ' '
    ||| ('\u{9}' <= c && c <= '\u{d}')
    ||| c == '\u{85}'
    ||| c == '\u{a0}'
    ||| c == '\u{1680}'
    ||| ('\u{2000}' <= c && c <= '\u{200a}')
    ||| c == '\u{2028}'
    ||| c == '\u{2029}'
    ||| c == '\u{202f}'
    ||| c == '\u{205f}'
    ||| c == '\u{3000}'
}

/// Whether a character is white space.
pub fn is_white_space(c: char) -> (r: bool)
    ensures
        r == is_space(c),
{
    c == ' ' || ('\u{9}' <= c && c <= '\u{d}') || c == '\u{85}' || c == '\u{a0}' || c
        == '\u{1680}' || ('\u{2000}' <= c && c <= '\u{200a}') || c == '\u{2028}' || c
        == '\u{2029}' || c == '\u{202f}' || c == '\u{205f}' || c == '\u{3000}'
}

/// The text from its first character on that is not white space.
pub open spec fn without_leading_space(t: Seq<char>) -> Seq<char>
    decreases t.len(),
{
    if t.len() > 0 && is_space(t[0]) {
        without_leading_space(t.skip(1))
    } else {
        t
    }
}

/// The text up to its last character that is not white space.
pub open spec fn without_trailing_space(t: Seq<char>) -> Seq<char>
    decreases t.len(),
{
    if t.len() > 0 && is_space(t.last()) {
        without_trailing_space(t.drop_last())
    } else {
        t
    }
}

/// The text without the white space at its two ends.
pub open spec fn trimmed(t: Seq<char>) -> Seq<char> {
    without_trailing_space(without_leading_space(t))
}

/// `str::trim` of the standard library, which is documented to give the
/// text with leading and trailing white space removed, white space being
/// the characters with Unicode's property White_Space. The contract says
/// so, with those characters listed in [`is_space`]; it is not proved here.
#[verifier::external_body]
pub(crate) fn trim<'a>(text: &'a str) -> (r: &'a str)
    ensures
        r@ == trimmed(text@),
{
    text.trim()
}

} // verus!
