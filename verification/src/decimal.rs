//! Decimal numbers as text: reading the counts of a configuration and
//! writing the durations of a report.
use vstd::prelude::*;
use vstd::string::is_ascii_spec_bytes;
use vstd::utf8::is_ascii_chars;
use crate::error::BenchError;

verus! {

/// `c` is one of the ten decimal digits.
pub open spec fn is_digit(c: char) -> bool {
    '0' <= c <= '9'
}

/// The number that a digit stands for; zero for any other character.
pub open spec fn digit_value(c: char) -> nat {
    if is_digit(c) {
        (c as u32 - '0' as u32) as nat
    } else {
        0
    }
}

/// The number that a run of digits stands for, the first digit weighing most.
pub open spec fn digits_value(t: Seq<char>) -> nat
    decreases t.len(),
{
    if t.len() == 0 {
        0
    } else {
        10 * digits_value(t.drop_last()) + digit_value(t.last())
    }
}

/// `t` holds decimal digits only.
pub open spec fn all_digits(t: Seq<char>) -> bool {
    forall|i: int| 0 <= i < t.len() ==> is_digit(#[trigger] t[i])
}

/// A text without the `+` that it may begin with.
pub open spec fn unsigned_part(t: Seq<char>) -> Seq<char> {
    if t.len() > 0 && t[0] == '+' {
        t.skip(1)
    } else {
        t
    }
}

/// The count that a text stands for: an optional `+`, then one decimal digit
/// or more, and nothing else. Any other text stands for no count.
pub open spec fn count_of(t: Seq<char>) -> Option<nat> {
    let d = unsigned_part(t);
    if d.len() > 0 && all_digits(d) {
        Some(digits_value(d))
    } else {
        None
    }
}

/// The count that a text stands for, if it fits the machine word.
pub open spec fn word_count_of(t: Seq<char>) -> Option<usize> {
    match count_of(t) {
        Some(n) => if n <= usize::MAX {
            Some(n as usize)
        } else {
            None
        },
        None => None,
    }
}

/// The digit for a number below ten.
pub open spec fn digit_char(d: nat) -> char {
    if d == 0 {
        '0'
    } else if d == 1 {
        '1'
    } else if d == 2 {
        '2'
    } else if d == 3 {
        '3'
    } else if d == 4 {
        '4'
    } else if d == 5 {
        '5'
    } else if d == 6 {
        '6'
    } else if d == 7 {
        '7'
    } else if d == 8 {
        '8'
    } else {
        '9'
    }
}

/// A number in decimal digits, without sign, padding or leading zero.
pub open spec fn decimal(n: nat) -> Seq<char>
    decreases n,
{
    if n < 10 {
        seq![digit_char(n)]
    } else {
        decimal(n / 10).push(digit_char(n % 10))
    }
}

/// A run of digits stands for no less than any of its beginnings.
proof fn lemma_digits_value_grows(t: Seq<char>, n: int)
    requires
        0 <= n <= t.len(),
    ensures
        digits_value(t.take(n)) <= digits_value(t),
    decreases t.len(),
{
    if n == t.len() {
        assert(t.take(n) =~= t);
    } else {
        lemma_digits_value_grows(t.drop_last(), n);
        assert(t.drop_last().take(n) =~= t.take(n));
    }
}

/// Reads a count. The text must be an optional `+` and then decimal digits
/// only, and the number must fit the machine word; anything else is a
/// `ConfigParseError`.
pub fn parse_count(s: &str) -> (r: Result<usize, BenchError>)
    ensures
        r == match word_count_of(s@) {
            Some(n) => Ok::<usize, BenchError>(n),
            None => Err::<usize, BenchError>(BenchError::ConfigParseError),
        },
{
    let ghost d: Seq<char> = unsigned_part(s@);
    if !s.is_ascii() {
        proof {
            // A character beyond ASCII is no digit and no sign.
            let bad = choose|i: int| 0 <= i < s@.len() && !('\0' <= #[trigger] s@[i] <= '\u{7f}');
            if s@[0] == '+' {
                assert(!is_digit(d[bad - 1]));
            }
        }
        return Err(BenchError::ConfigParseError);
    }
    proof {
        is_ascii_spec_bytes(s);
    }
    let bytes: &[u8] = s.as_bytes();
    let n: usize = bytes.len();
    let start: usize = if n > 0 && bytes[0] == 0x2b {
        1
    } else {
        0
    };
    if start == n {
        return Err(BenchError::ConfigParseError);
    }
    let mut acc: usize = 0;
    let mut i: usize = start;
    while i < n
        invariant
            start <= i <= n,
            n == s@.len(),
            bytes@ =~= Seq::new(s@.len(), |j: int| s@[j] as u8),
            is_ascii_chars(s@),
            d.len() == n - start,
            forall|j: int| 0 <= j < d.len() ==> d[j] == s@[j + start],
            forall|j: int| 0 <= j < i - start ==> is_digit(#[trigger] d[j]),
            acc == digits_value(d.take(i - start)),
            d == unsigned_part(s@),
        decreases n - i,
    {
        let c: u8 = bytes[i];
        if c < 0x30 || c > 0x39 {
            assert(!is_digit(d[i - start]));
            return Err(BenchError::ConfigParseError);
        }
        let digit: usize = (c - 0x30) as usize;
        proof {
            // The digits read so far, this one included, stand for `10 * acc + digit`,
            // and the whole run stands for no less.
            let next = d.take(i - start + 1);
            assert(next.drop_last() =~= d.take(i - start));
            lemma_digits_value_grows(d, i - start + 1);
        }
        let scaled: usize = match acc.checked_mul(10) {
            Some(x) => x,
            None => {
                return Err(BenchError::ConfigParseError);
            },
        };
        acc = match scaled.checked_add(digit) {
            Some(x) => x,
            None => {
                return Err(BenchError::ConfigParseError);
            },
        };
        i += 1;
    }
    assert(d.take(i - start) =~= d);
    Ok(acc)
}

/// The text of a digit below ten.
fn digit_text(d: u8) -> (text: &'static str)
    requires
        d < 10,
    ensures
        text@ == seq![digit_char(d as nat)],
{
    proof {
        reveal_strlit("0");
        reveal_strlit("1");
        reveal_strlit("2");
        reveal_strlit("3");
        reveal_strlit("4");
        reveal_strlit("5");
        reveal_strlit("6");
        reveal_strlit("7");
        reveal_strlit("8");
        reveal_strlit("9");
    }
    if d == 0 {
        "0"
    } else if d == 1 {
        "1"
    } else if d == 2 {
        "2"
    } else if d == 3 {
        "3"
    } else if d == 4 {
        "4"
    } else if d == 5 {
        "5"
    } else if d == 6 {
        "6"
    } else if d == 7 {
        "7"
    } else if d == 8 {
        "8"
    } else {
        "9"
    }
}

/// Writes `n` in decimal digits at the end of `out`.
pub fn append_decimal(out: &mut String, n: u128)
    ensures
        final(out)@ == old(out)@ + decimal(n as nat),
    decreases n,
{
    if n >= 10 {
        append_decimal(out, n / 10);
    }
    out.append(digit_text((n % 10) as u8));
}

} // verus!
