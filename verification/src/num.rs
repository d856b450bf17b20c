//! Wide integers as decimal text.
//!
//! A 64-bit integer does not survive every JSON number type, so the fields
//! that the schema marks as wide cross the wire as decimal strings. This
//! module reads and writes that text.

use vstd::prelude::*;
use vstd::string::*;

verus! {

/// Why a piece of text is not a 64-bit integer.
#[derive(Debug, Clone, Copy, PartialEq, Eq, Structural)]
pub enum NumError {
    /// The text is not an optionally signed, non-empty run of decimal digits.
    ParseError,
    /// The text is a decimal literal whose value does not fit in 64 bits.
    Overflow,
}

pub open spec fn is_digit(c: char) -> bool {
    '0' <= c && c <= '9'
}

/// The value of one decimal digit.
pub open spec fn digit_value(c: char) -> int {
    c as int - '0' as int
}

/// The character for a value below ten.
pub open spec fn digit_char(d: int) -> char {
    if d == 0 {
        '0'
    } else if d == 1 {
        '1'
    } else if d == 2 {
        '2'
    } else if d == 3 {
        '3'
    } else if d == 4 {
        '4'
    } else if d == 5 {
        '5'
    } else if d == 6 {
        '6'
    } else if d == 7 {
        '7'
    } else if d == 8 {
        '8'
    } else {
        '9'
    }
}

pub open spec fn all_digits(s: Seq<char>) -> bool {
    forall|i: int| 0 <= i < s.len() ==> is_digit(#[trigger] s[i])
}

/// The number that a run of digits denotes, most significant digit first.
pub open spec fn digits_value(s: Seq<char>) -> int
    decreases s.len(),
{
    if s.len() == 0 {
        0
    } else {
        digits_value(s.drop_last()) * 10 + digit_value(s.last())
    }
}

pub open spec fn has_sign(s: Seq<char>) -> bool {
    s.len() > 0 && (s[0] == '-' || s[0] == '+')
}

/// The digits of a literal: the text without its sign.
pub open spec fn magnitude(s: Seq<char>) -> Seq<char> {
    if has_sign(s) {
        s.skip(1)
    } else {
        s
    }
}

/// An optional `+` or `-`, then one decimal digit or more, and nothing else.
pub open spec fn is_literal(s: Seq<char>) -> bool {
    magnitude(s).len() > 0 && all_digits(magnitude(s))
}

/// The number that a literal denotes.
pub open spec fn literal_value(s: Seq<char>) -> int {
    if s.len() > 0 && s[0] == '-' {
        -digits_value(magnitude(s))
    } else {
        digits_value(magnitude(s))
    }
}

/// What reading `s` as a 64-bit integer gives.
pub open spec fn wide_of_text(s: Seq<char>) -> Result<i64, NumError> {
    if !is_literal(s) {
        Err(NumError::ParseError)
    } else if i64::MIN <= literal_value(s) <= i64::MAX {
        Ok(literal_value(s) as i64)
    } else {
        Err(NumError::Overflow)
    }
}

/// The digits of a natural number, without leading zeros; `0` is "0".
pub open spec fn digits_of(m: nat) -> Seq<char>
    decreases m,
{
    if m < 10 {
        seq![digit_char(m as int)]
    } else {
        digits_of(m / 10).push(digit_char((m % 10) as int))
    }
}

/// The canonical text of an integer: a `-` in front of a negative number,
/// no `+`, no leading zeros.
pub open spec fn text_of_wide(n: int) -> Seq<char> {
    if n < 0 {
        seq!['-'] + digits_of((-n) as nat)
    } else {
        digits_of(n as nat)
    }
}

pub proof fn lemma_digit_char(d: int)
    requires
        0 <= d < 10,
    ensures
        is_digit(digit_char(d)),
        digit_value(digit_char(d)) == d,
{
}

/// The digits written for a number are digits, denote that number, and
/// start with a zero only where the number is zero.
pub proof fn lemma_digits_of(m: nat)
    ensures
        digits_of(m).len() >= 1,
        all_digits(digits_of(m)),
        digits_value(digits_of(m)) == m,
        digits_of(m)[0] == '0' ==> m == 0,
        digits_of(m)[0] != '-' && digits_of(m)[0] != '+',
    decreases m,
{
    let s = digits_of(m);
    if m < 10 {
        lemma_digit_char(m as int);
        assert(s.drop_last() =~= Seq::<char>::empty());
        assert(digits_value(s.drop_last()) == 0);
        assert(s.last() == digit_char(m as int));
    } else {
        lemma_digits_of(m / 10);
        lemma_digit_char((m % 10) as int);
        assert(s.drop_last() =~= digits_of(m / 10));
        assert(s[0] == digits_of(m / 10)[0]);
    }
}

/// Reading the canonical text of a 64-bit integer gives the integer back.
pub proof fn lemma_text_round_trip(n: i64)
    ensures
        wide_of_text(text_of_wide(n as int)) == Ok::<i64, NumError>(n),
{
    let s = text_of_wide(n as int);
    if n < 0 {
        let m = (-(n as int)) as nat;
        lemma_digits_of(m);
        assert(s[0] == '-');
        assert(s.skip(1) =~= digits_of(m));
    } else {
        lemma_digits_of(n as nat);
        assert(!has_sign(s));
    }
}

/// The canonical text is a literal with no `+` and no needless zero.
pub proof fn lemma_text_canonical(n: i64)
    ensures
        is_literal(text_of_wide(n as int)),
        (text_of_wide(n as int)[0] == '-') == (n < 0),
        text_of_wide(n as int)[0] != '+',
        magnitude(text_of_wide(n as int)).len() > 1 ==> magnitude(text_of_wide(n as int))[0] != '0',
{
    let s = text_of_wide(n as int);
    if n < 0 {
        let m = (-(n as int)) as nat;
        lemma_digits_of(m);
        assert(s[0] == '-');
        assert(s.skip(1) =~= digits_of(m));
    } else {
        lemma_digits_of(n as nat);
        assert(!has_sign(s));
    }
}

proof fn lemma_digits_value_step(s: Seq<char>, i: int)
    requires
        0 <= i < s.len(),
    ensures
        digits_value(s.take(i + 1)) == digits_value(s.take(i)) * 10 + digit_value(s[i]),
{
    assert(s.take(i + 1).drop_last() =~= s.take(i));
}

/// 2^63: the largest magnitude that a 64-bit literal can have.
pub const WIDE_LIMIT: u64 = 9223372036854775808;

/// Reads a wide integer from its decimal text.
///
/// The text is an optional sign followed by decimal digits; anything else is
/// a `ParseError`, and a literal outside the 64-bit range is an `Overflow`.
pub fn from_str_to_t(s: &str) -> (r: Result<i64, NumError>)
    ensures
        r == wide_of_text(s@),
{
    if !s.is_ascii() {
        proof {
            let k = choose|k: int| 0 <= k < s@.len() && !('\0' <= #[trigger] s@[k] <= '\u{7f}');
            if is_literal(s@) {
                if has_sign(s@) && k > 0 {
                    assert(is_digit(magnitude(s@)[k - 1]));
                } else if !has_sign(s@) {
                    assert(is_digit(magnitude(s@)[k]));
                }
            }
        }
        return Err(NumError::ParseError);
    }
    let bytes = s.as_bytes();
    proof {
        is_ascii_spec_bytes(s);
    }
    let n: usize = bytes.len();
    if n == 0 {
        return Err(NumError::ParseError);
    }
    let negative: bool = bytes[0] == 45u8;
    let start: usize = if bytes[0] == 45u8 || bytes[0] == 43u8 {
        1
    } else {
        0
    };
    assert(has_sign(s@) == (start == 1));
    assert(negative == (s@[0] == '-'));
    let ghost digits = magnitude(s@);
    assert(digits.len() == n - start);
    if start == n {
        return Err(NumError::ParseError);
    }
    let mut acc: u64 = 0;
    let mut over: bool = false;
    let mut i: usize = start;
    while i < n
        invariant
            start <= i <= n,
            n == s@.len(),
            bytes@.len() == n,
            forall|k: int| 0 <= k < n ==> bytes@[k] == s@[k] as u8,
            forall|k: int| 0 <= k < n ==> '\0' <= #[trigger] s@[k] <= '\u{7f}',
            digits == magnitude(s@),
            digits.len() == n - start,
            forall|k: int| 0 <= k < n - start ==> digits[k] == s@[k + start],
            all_digits(digits.take(i - start)),
            !over ==> acc == digits_value(digits.take(i - start)) && acc <= WIDE_LIMIT,
            over ==> digits_value(digits.take(i - start)) > WIDE_LIMIT,
        decreases n - i,
    {
        let b: u8 = bytes[i];
        let ghost c = s@[i as int];
        assert(c == digits[i - start]);
        assert(b == c as u8);
        if b < 48u8 || b > 57u8 {
            assert(!is_digit(c));
            return Err(NumError::ParseError);
        }
        assert(is_digit(c));
        let d: u64 = (b - 48u8) as u64;
        assert(d == digit_value(c));
        proof {
            lemma_digits_value_step(digits, i - start);
            assert forall|k: int| 0 <= k < i - start + 1 implies is_digit(
                #[trigger] digits.take(i - start + 1)[k],
            ) by {
                if k < i - start {
                    assert(digits.take(i - start)[k] == digits[k]);
                }
            }
        }
        if !over {
            if acc > 922337203685477580u64 {
                over = true;
            } else {
                let next: u64 = acc * 10 + d;
                if next > WIDE_LIMIT {
                    over = true;
                } else {
                    acc = next;
                }
            }
        }
        i += 1;
    }
    assert(digits.take(n - start) =~= digits);
    assert(is_literal(s@));
    if over {
        return Err(NumError::Overflow);
    }
    if negative {
        if acc == WIDE_LIMIT {
            Ok(i64::MIN)
        } else {
            Ok(-(acc as i64))
        }
    } else {
        if acc == WIDE_LIMIT {
            Err(NumError::Overflow)
        } else {
            Ok(acc as i64)
        }
    }
}

/// Reads a wide integer that may be absent: no text gives no number.
pub fn from_str_to_opt_t(s: Option<&str>) -> (r: Result<Option<i64>, NumError>)
    ensures
        match s {
            Some(text) => match wide_of_text(text@) {
                Ok(n) => r == Ok::<Option<i64>, NumError>(Some(n)),
                Err(e) => r == Err::<Option<i64>, NumError>(e),
            },
            None => r == Ok::<Option<i64>, NumError>(None),
        },
{
    match s {
        Some(text) => match from_str_to_t(text) {
            Ok(n) => Ok(Some(n)),
            Err(e) => Err(e),
        },
        None => Ok(None),
    }
}

fn digit_text(d: u64) -> (r: &'static str)
    requires
        d < 10,
    ensures
        r@ == seq![digit_char(d as int)],
{
    proof {
        reveal_strlit("0");
        reveal_strlit("1");
        reveal_strlit("2");
        reveal_strlit("3");
        reveal_strlit("4");
        reveal_strlit("5");
        reveal_strlit("6");
        reveal_strlit("7");
        reveal_strlit("8");
        reveal_strlit("9");
    }
    let r = if d == 0 {
        "0"
    } else if d == 1 {
        "1"
    } else if d == 2 {
        "2"
    } else if d == 3 {
        "3"
    } else if d == 4 {
        "4"
    } else if d == 5 {
        "5"
    } else if d == 6 {
        "6"
    } else if d == 7 {
        "7"
    } else if d == 8 {
        "8"
    } else {
        "9"
    };
    assert(r@ =~= seq![digit_char(d as int)]);
    r
}

fn push_digits(out: &mut String, m: u64)
    ensures
        final(out)@ == old(out)@ + digits_of(m as nat),
    decreases m,
{
    if m >= 10 {
        push_digits(out, m / 10);
    }
    let ghost before = out@;
    out.append(digit_text(m % 10));
    proof {
        if m >= 10 {
            assert(out@ =~= old(out)@ + digits_of(m as nat));
        } else {
            assert(out@ =~= old(out)@ + digits_of(m as nat));
        }
    }
}

/// Writes a wide integer as its canonical decimal text.
pub fn to_decimal(n: i64) -> (s: String)
    ensures
        s@ == text_of_wide(n as int),
{
    let mut out = String::new();
    if n < 0 {
        proof {
            reveal_strlit("-");
        }
        out.append("-");
        assert(out@ =~= seq!['-']);
        let m: u64 = ((-(n + 1)) as u64) + 1;
        push_digits(&mut out, m);
    } else {
        push_digits(&mut out, n as u64);
        assert(out@ =~= digits_of(n as nat));
    }
    out
}

} // verus!
