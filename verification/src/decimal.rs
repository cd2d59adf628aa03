//! Unsigned integers as decimal text, in both directions.

use vstd::prelude::*;
use vstd::string::{StrSliceExecFns, StringExecFns};

verus! {

/// The character that stands for one decimal digit.
pub open spec fn digit_char(d: nat) -> char {
    if d == 0 {
        '0'
    } else if d == 1 {
        '1'
    } else if d == 2 {
        '2'
    } else if d == 3 {
        '3'
    } else if d == 4 {
        '4'
    } else if d == 5 {
        '5'
    } else if d == 6 {
        '6'
    } else if d == 7 {
        '7'
    } else if d == 8 {
        '8'
    } else {
        '9'
    }
}

/// The decimal digits of `n`, most significant first, without leading zeros.
pub open spec fn decimal_digits(n: nat) -> Seq<char>
    decreases n,
{
    if n < 10 {
        seq![digit_char(n)]
    } else {
        decimal_digits(n / 10).push(digit_char(n % 10))
    }
}

fn digit_text(d: u64) -> (r: &'static str)
    requires
        d < 10,
    ensures
        r@ == seq![digit_char(d as nat)],
{
    proof {
        reveal_strlit("0");
        reveal_strlit("1");
        reveal_strlit("2");
        reveal_strlit("3");
        reveal_strlit("4");
        reveal_strlit("5");
        reveal_strlit("6");
        reveal_strlit("7");
        reveal_strlit("8");
        reveal_strlit("9");
    }
    let r = if d == 0 {
        "0"
    } else if d == 1 {
        "1"
    } else if d == 2 {
        "2"
    } else if d == 3 {
        "3"
    } else if d == 4 {
        "4"
    } else if d == 5 {
        "5"
    } else if d == 6 {
        "6"
    } else if d == 7 {
        "7"
    } else if d == 8 {
        "8"
    } else {
        "9"
    };
    assert(r@ =~= seq![digit_char(d as nat)]);
    r
}

/// Writes `n` in decimal.
pub fn decimal_string(n: u64) -> (r: String)
    ensures
        r@ == decimal_digits(n as nat),
    decreases n,
{
    if n < 10 {
        String::from_str(digit_text(n))
    } else {
        let head = decimal_string(n / 10);
        let r = head.concat(digit_text(n % 10));
        assert(r@ =~= decimal_digits(n as nat));
        r
    }
}

/// The decimal text of an integer of either sign: a minus sign before the
/// digits of a negative one.
pub open spec fn signed_digits(n: int) -> Seq<char> {
    if n < 0 {
        "-"@ + decimal_digits((-n) as nat)
    } else {
        decimal_digits(n as nat)
    }
}

/// Writes `n` in decimal, with a minus sign where it is negative.
pub fn signed_string(n: i32) -> (r: String)
    ensures
        r@ == signed_digits(n as int),
{
    if n < 0 {
        let magnitude: u64 = (-(n as i64)) as u64;
        let digits = decimal_string(magnitude);
        String::from_str("-").concat(digits.as_str())
    } else {
        decimal_string(n as u64)
    }
}

/// Why a text is no unsigned decimal number.
#[derive(Clone, Copy, Debug, PartialEq, Eq, Structural)]
pub enum ParseFailure {
    /// The text is empty.
    Empty,
    /// A character is no digit, or no digit follows the sign.
    InvalidDigit,
    /// The digits stand for a number above the largest that fits.
    TooLarge,
}

/// Whether `c` is one of `0` to `9`.
pub open spec fn is_digit(c: char) -> bool {
    48 <= c as u32 <= 57
}

/// The number that the digit `c` stands for.
pub open spec fn digit_value(c: char) -> nat {
    (c as u32 - 48) as nat
}

/// The number that a run of digits stands for, the empty run for 0.
pub open spec fn digits_value(s: Seq<char>) -> nat
    decreases s.len(),
{
    if s.len() == 0 {
        0
    } else {
        digits_value(s.drop_last()) * 10 + digit_value(s.last())
    }
}

/// How many digits stand at the front of `s` before another character or
/// the end.
pub open spec fn digit_run(s: Seq<char>) -> nat
    decreases s.len(),
{
    if s.len() == 0 || !is_digit(s[0]) {
        0
    } else {
        1 + digit_run(s.drop_first())
    }
}

/// The text without the one `+` that may lead it.
pub open spec fn unsigned_body(s: Seq<char>) -> Seq<char> {
    if s.len() > 0 && s[0] == '+' {
        s.drop_first()
    } else {
        s
    }
}

/// The number that `s` stands for, for numbers up to `max`: an optional `+`
/// and then at least one digit, nothing else. The digits are read from the
/// left, so a number that has outgrown `max` is reported before a bad
/// character that follows it.
pub open spec fn parse_unsigned(s: Seq<char>, max: nat) -> Result<nat, ParseFailure> {
    let body = unsigned_body(s);
    let run = digit_run(body);
    if s.len() == 0 {
        Err(ParseFailure::Empty)
    } else if digits_value(body.take(run as int)) > max {
        Err(ParseFailure::TooLarge)
    } else if run < body.len() || run == 0 {
        Err(ParseFailure::InvalidDigit)
    } else {
        Ok(digits_value(body))
    }
}

/// A run of digits that ends at the first other character, or at the end,
/// is the whole run at the front.
pub proof fn lemma_digit_run(s: Seq<char>, i: int)
    requires
        0 <= i <= s.len(),
        forall|j: int| 0 <= j < i ==> is_digit(#[trigger] s[j]),
        i == s.len() || !is_digit(s[i]),
    ensures
        digit_run(s) == i,
    decreases i,
{
    if i > 0 {
        let rest = s.drop_first();
        assert forall|j: int| 0 <= j < i - 1 implies is_digit(#[trigger] rest[j]) by {
            assert(rest[j] == s[j + 1]);
        }
        if i < s.len() {
            assert(rest[i - 1] == s[i]);
        }
        lemma_digit_run(rest, i - 1);
    }
}

/// One more digit multiplies the value by ten and adds the digit.
pub proof fn lemma_digits_value_step(s: Seq<char>, i: int)
    requires
        0 <= i < s.len(),
    ensures
        digits_value(s.take(i + 1)) == digits_value(s.take(i)) * 10 + digit_value(s[i]),
{
    assert(s.take(i + 1).drop_last() =~= s.take(i));
}

/// A longer front of a text stands for no smaller number.
pub proof fn lemma_digits_value_grows(s: Seq<char>, i: int, k: int)
    requires
        0 <= i <= k <= s.len(),
    ensures
        digits_value(s.take(i)) <= digits_value(s.take(k)),
    decreases k - i,
{
    if i < k {
        lemma_digits_value_step(s, k - 1);
        lemma_digits_value_grows(s, i, k - 1);
    }
}

/// A front made of digits alone is no longer than the run of digits.
pub proof fn lemma_digit_run_covers(s: Seq<char>, i: int)
    requires
        0 <= i <= s.len(),
        forall|j: int| 0 <= j < i ==> is_digit(#[trigger] s[j]),
    ensures
        i <= digit_run(s) <= s.len(),
    decreases s.len(),
{
    if s.len() > 0 && is_digit(s[0]) {
        let rest = s.drop_first();
        if i > 0 {
            assert forall|j: int| 0 <= j < i - 1 implies is_digit(#[trigger] rest[j]) by {
                assert(rest[j] == s[j + 1]);
            }
            lemma_digit_run_covers(rest, i - 1);
        } else {
            lemma_digit_run_covers(rest, 0);
        }
    }
}

/// Reads an unsigned decimal number as `u64`'s own `parse` does.
pub fn parse_u64(s: &str) -> (r: Result<u64, ParseFailure>)
    ensures
        match r {
            Ok(n) => parse_unsigned(s@, u64::MAX as nat) == Ok::<nat, ParseFailure>(n as nat),
            Err(e) => parse_unsigned(s@, u64::MAX as nat) == Err::<nat, ParseFailure>(e),
        },
{
    let len: usize = s.unicode_len();
    if len == 0 {
        return Err(ParseFailure::Empty);
    }
    let start: usize = if s.get_char(0) == '+' {
        1
    } else {
        0
    };
    let ghost body = unsigned_body(s@);
    assert(body =~= s@.subrange(start as int, len as int));
    let mut acc: u64 = 0;
    let mut i: usize = start;
    while i < len
        invariant
            start <= i <= len,
            len == s@.len(),
            body == unsigned_body(s@),
            body == s@.subrange(start as int, len as int),
            forall|j: int| 0 <= j < i - start ==> is_digit(#[trigger] body[j]),
            acc as nat == digits_value(body.take(i - start)),
        decreases len - i,
    {
        let c: char = s.get_char(i);
        let code: u32 = c as u32;
        let ghost at: int = i - start;
        assert(body[at] == c);
        if code < 48 || code > 57 {
            proof {
                lemma_digit_run(body, at);
            }
            return Err(ParseFailure::InvalidDigit);
        }
        let d: u64 = (code - 48) as u64;
        proof {
            lemma_digits_value_step(body, at);
        }
        if acc > (u64::MAX - d) / 10 {
            proof {
                let run = digit_run(body) as int;
                assert(digits_value(body.take(at + 1)) > u64::MAX as nat);
                lemma_digit_run_covers(body, at + 1);
                lemma_digits_value_grows(body, at + 1, run);
            }
            return Err(ParseFailure::TooLarge);
        }
        acc = acc * 10 + d;
        i = i + 1;
    }
    proof {
        lemma_digit_run(body, len - start);
        assert(body.take(len - start) =~= body);
    }
    if i == start {
        return Err(ParseFailure::InvalidDigit);
    }
    Ok(acc)
}

} // verus!
