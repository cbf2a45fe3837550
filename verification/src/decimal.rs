//! Decimal numbers as text: reading an unsigned number and writing one.

use vstd::prelude::*;
use vstd::string::*;
use crate::text::to_chars;

verus! {

/// Why a text is not an unsigned decimal number that fits.
#[derive(Debug, Clone, Copy, PartialEq, Eq)]
pub enum ParseFailure {
    /// The text is empty.
    Empty,
    /// A character is not a digit, or no digit follows the sign.
    InvalidDigit,
    /// The number is larger than the target type holds.
    Overflow,
}

impl ParseFailure {
    /// The failure in words.
    pub open spec fn words(self) -> Seq<char> {
        match self {
            ParseFailure::Empty => "cannot parse integer from empty string"@,
            ParseFailure::InvalidDigit => "invalid digit found in string"@,
            ParseFailure::Overflow => "number too large to fit in target type"@,
        }
    }

    /// The failure in words.
    pub fn message(&self) -> (r: &'static str)
        ensures
            r@ == self.words(),
    {
        match self {
            ParseFailure::Empty => "cannot parse integer from empty string",
            ParseFailure::InvalidDigit => "invalid digit found in string",
            ParseFailure::Overflow => "number too large to fit in target type",
        }
    }
}

/// Whether `c` is one of `0` to `9`.
pub open spec fn is_digit(c: char) -> bool {
    '0' <= c <= '9'
}

/// The number that a digit stands for.
pub open spec fn digit_value(c: char) -> int {
    c as int - '0' as int
}

/// The number that a sequence of digits stands for, most significant first.
pub open spec fn digits_value(s: Seq<char>) -> int
    decreases s.len(),
{
    if s.len() == 0 {
        0
    } else {
        digits_value(s.drop_last()) * 10 + digit_value(s.last())
    }
}

/// How many digits `s` begins with.
pub open spec fn digit_run(s: Seq<char>) -> nat
    decreases s.len(),
{
    if s.len() > 0 && is_digit(s[0]) {
        1 + digit_run(s.drop_first())
    } else {
        0
    }
}

/// `s` without one leading `+`.
pub open spec fn unsigned_part(s: Seq<char>) -> Seq<char> {
    if s.len() > 0 && s[0] == '+' {
        s.drop_first()
    } else {
        s
    }
}

/// What reading `s` as an unsigned decimal number of at most `max` gives.
///
/// The text is an optional `+` followed by digits only. The leading digits
/// are read first: a number that grows beyond `max` is an overflow, even
/// where a character that is no digit follows later.
pub open spec fn parse_unsigned(s: Seq<char>, max: int) -> Result<int, ParseFailure> {
    let body = unsigned_part(s);
    let run = body.subrange(0, digit_run(body) as int);
    if s.len() == 0 {
        Err(ParseFailure::Empty)
    } else if digits_value(run) > max {
        Err(ParseFailure::Overflow)
    } else if body.len() == 0 || run.len() < body.len() {
        Err(ParseFailure::InvalidDigit)
    } else {
        Ok(digits_value(body))
    }
}

/// The run of leading digits is never longer than the text.
pub proof fn lemma_digit_run_bound(s: Seq<char>)
    ensures
        digit_run(s) <= s.len(),
    decreases s.len(),
{
    if s.len() > 0 && is_digit(s[0]) {
        lemma_digit_run_bound(s.drop_first());
    }
}

/// A prefix made of digits only lies within the run of leading digits.
proof fn lemma_digit_run_prefix(s: Seq<char>, k: int)
    requires
        0 <= k <= s.len(),
        forall|i: int| 0 <= i < k ==> is_digit(s[i]),
    ensures
        digit_run(s) >= k,
        k < s.len() && !is_digit(s[k]) ==> digit_run(s) == k,
        k == s.len() ==> digit_run(s) == k,
    decreases k,
{
    lemma_digit_run_bound(s);
    if k > 0 {
        let rest = s.drop_first();
        assert forall|i: int| 0 <= i < k - 1 implies is_digit(rest[i]) by {}
        lemma_digit_run_prefix(rest, k - 1);
    }
}

/// Every character of the run of leading digits is a digit.
proof fn lemma_digit_run_digits(s: Seq<char>)
    ensures
        forall|i: int| 0 <= i < digit_run(s) ==> is_digit(#[trigger] s[i]),
    decreases s.len(),
{
    if s.len() > 0 && is_digit(s[0]) {
        let rest = s.drop_first();
        lemma_digit_run_digits(rest);
        lemma_digit_run_bound(rest);
        assert forall|i: int| 0 <= i < digit_run(s) implies is_digit(#[trigger] s[i]) by {
            if i > 0 {
                assert(rest[i - 1] == s[i]);
            }
        }
    }
}

/// The value of digits is not negative.
proof fn lemma_digits_value_nonnegative(s: Seq<char>)
    requires
        forall|i: int| 0 <= i < s.len() ==> is_digit(s[i]),
    ensures
        digits_value(s) >= 0,
    decreases s.len(),
{
    if s.len() > 0 {
        lemma_digits_value_nonnegative(s.drop_last());
    }
}

/// A longer run of digits stands for a number at least as large.
proof fn lemma_digits_value_monotone(s: Seq<char>, j: int, k: int)
    requires
        0 <= j <= k <= s.len(),
        forall|i: int| 0 <= i < k ==> is_digit(s[i]),
    ensures
        digits_value(s.subrange(0, j)) <= digits_value(s.subrange(0, k)),
    decreases k - j,
{
    if j < k {
        lemma_digits_value_monotone(s, j, k - 1);
        let whole = s.subrange(0, k);
        assert(whole.drop_last() =~= s.subrange(0, k - 1));
        lemma_digits_value_nonnegative(s.subrange(0, k - 1));
    }
}

/// Reads `text` as an unsigned decimal number of at most `max`.
pub fn parse_bounded(text: &str, max: u32) -> (r: Result<u32, ParseFailure>)
    ensures
        match r {
            Ok(v) => parse_unsigned(text@, max as int) == Ok::<int, ParseFailure>(v as int),
            Err(e) => parse_unsigned(text@, max as int) == Err::<int, ParseFailure>(e),
        },
{
    let chars = to_chars(text);
    let n: usize = chars.len();
    if n == 0 {
        return Err(ParseFailure::Empty);
    }
    let start: usize = if chars[0] == '+' { 1 } else { 0 };
    let ghost body = unsigned_part(text@);
    let mut acc: u32 = 0;
    let mut i: usize = start;
    while i < n
        invariant
            chars@ == text@,
            n == chars.len(),
            start <= i <= n,
            body == text@.subrange(start as int, n as int),
            body == unsigned_part(text@),
            n > 0,
            forall|k: int| 0 <= k < i - start ==> is_digit(body[k]),
            acc == digits_value(body.subrange(0, i - start)),
            acc <= max,
        decreases n - i,
    {
        let c: char = chars[i];
        if c < '0' || c > '9' {
            proof {
                lemma_digit_run_prefix(body, i - start);
            }
            return Err(ParseFailure::InvalidDigit);
        }
        let d: u32 = (c as u32) - ('0' as u32);
        let ghost next = body.subrange(0, i - start + 1);
        proof {
            assert(next.drop_last() =~= body.subrange(0, i - start));
        }
        let grown: u64 = (acc as u64) * 10 + (d as u64);
        if grown > max as u64 {
            proof {
                lemma_digit_run_prefix(body, i - start + 1);
                lemma_digit_run_bound(body);
                lemma_digit_run_digits(body);
                lemma_digits_value_monotone(
                    body.subrange(0, digit_run(body) as int),
                    i - start + 1,
                    digit_run(body) as int,
                );
                assert(body.subrange(0, digit_run(body) as int).subrange(0, i - start + 1)
                    =~= next);
                assert(body.subrange(0, digit_run(body) as int).subrange(
                    0,
                    digit_run(body) as int,
                ) =~= body.subrange(0, digit_run(body) as int));
            }
            return Err(ParseFailure::Overflow);
        }
        acc = grown as u32;
        i += 1;
    }
    proof {
        lemma_digit_run_prefix(body, n - start);
        assert(body.subrange(0, n - start) =~= body);
    }
    if i == start {
        return Err(ParseFailure::InvalidDigit);
    }
    Ok(acc)
}

/// The character that writes a digit.
pub open spec fn digit_char(d: int) -> char {
    if d == 0 {
        '0'
    } else if d == 1 {
        '1'
    } else if d == 2 {
        '2'
    } else if d == 3 {
        '3'
    } else if d == 4 {
        '4'
    } else if d == 5 {
        '5'
    } else if d == 6 {
        '6'
    } else if d == 7 {
        '7'
    } else if d == 8 {
        '8'
    } else {
        '9'
    }
}

/// A natural number written in decimal, without leading zeros.
pub open spec fn decimal_text(n: nat) -> Seq<char>
    decreases n,
{
    if n < 10 {
        seq![digit_char(n as int)]
    } else {
        decimal_text(n / 10).push(digit_char((n % 10) as int))
    }
}

/// What a written number is made of: digits only, at least one, and they
/// stand for the number.
proof fn lemma_decimal_text_digits(n: nat)
    ensures
        decimal_text(n).len() >= 1,
        forall|i: int| 0 <= i < decimal_text(n).len() ==> is_digit(decimal_text(n)[i]),
        digits_value(decimal_text(n)) == n,
    decreases n,
{
    if n < 10 {
        let text = decimal_text(n);
        assert(digits_value(text.drop_last()) == 0);
    } else {
        lemma_decimal_text_digits(n / 10);
        let head = decimal_text(n / 10);
        let text = head.push(digit_char((n % 10) as int));
        assert(text.drop_last() =~= head);
        assert forall|i: int| 0 <= i < text.len() implies is_digit(text[i]) by {}
    }
}

/// A number that was written is read back as the same number, where the
/// bound admits it.
pub proof fn law_written_number_is_read_back(n: nat, max: int)
    requires
        n <= max,
    ensures
        parse_unsigned(decimal_text(n), max) == Ok::<int, ParseFailure>(n as int),
{
    let text = decimal_text(n);
    lemma_decimal_text_digits(n);
    lemma_digit_run_prefix(text, text.len() as int);
    assert(text.subrange(0, text.len() as int) =~= text);
}

fn digit_text(d: u64) -> (r: &'static str)
    requires
        d < 10,
    ensures
        r@ == seq![digit_char(d as int)],
{
    proof {
        reveal_strlit("0");
        reveal_strlit("1");
        reveal_strlit("2");
        reveal_strlit("3");
        reveal_strlit("4");
        reveal_strlit("5");
        reveal_strlit("6");
        reveal_strlit("7");
        reveal_strlit("8");
        reveal_strlit("9");
    }
    if d == 0 {
        "0"
    } else if d == 1 {
        "1"
    } else if d == 2 {
        "2"
    } else if d == 3 {
        "3"
    } else if d == 4 {
        "4"
    } else if d == 5 {
        "5"
    } else if d == 6 {
        "6"
    } else if d == 7 {
        "7"
    } else if d == 8 {
        "8"
    } else {
        "9"
    }
}

fn append_decimal(out: &mut String, n: u64)
    ensures
        final(out)@ == old(out)@ + decimal_text(n as nat),
    decreases n,
{
    if n >= 10 {
        append_decimal(out, n / 10);
    }
    out.append(digit_text(n % 10));
}

/// Writes `n` in decimal.
pub fn format_unsigned(n: u64) -> (r: String)
    ensures
        r@ == decimal_text(n as nat),
{
    let mut out = String::new();
    append_decimal(&mut out, n);
    out
}

} // verus!
