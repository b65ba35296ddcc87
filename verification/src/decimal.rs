//! Decimal numerals: the text of an unsigned number and the number of a text.
//!
//! The command line of the transcoder carries the trim window as decimal
//! milliseconds, and the progress lines and the clip descriptor carry their
//! numbers as runs of decimal digits. Both directions are defined here over
//! sequences of characters and proved against each other.

use vstd::prelude::*;
use vstd::string::*;

verus! {

/// The character that stands for the digit `d`.
pub open spec fn digit_char(d: nat) -> char {
    if d == 0 {
        '0'
    } else if d == 1 {
        '1'
    } else if d == 2 {
        '2'
    } else if d == 3 {
        '3'
    } else if d == 4 {
        '4'
    } else if d == 5 {
        '5'
    } else if d == 6 {
        '6'
    } else if d == 7 {
        '7'
    } else if d == 8 {
        '8'
    } else {
        '9'
    }
}

/// The decimal numeral of `n`: no sign, no leading zero, `"0"` for zero.
pub open spec fn decimal_digits(n: nat) -> Seq<char>
    decreases n,
{
    if n < 10 {
        seq![digit_char(n)]
    } else {
        decimal_digits(n / 10).push(digit_char(n % 10))
    }
}

/// Whether `c` is one of the ten ASCII digits.
pub open spec fn is_digit(c: char) -> bool {
    '0' <= c && c <= '9'
}

/// The value of the ASCII digit `c`.
pub open spec fn digit_value(c: char) -> nat {
    (c as u8 - 0x30) as nat
}

/// Whether `s` is a non-empty run of ASCII digits.
pub open spec fn is_decimal(s: Seq<char>) -> bool {
    &&& s.len() > 0
    &&& forall|i: int| 0 <= i < s.len() ==> is_digit(#[trigger] s[i])
}

/// The number that a run of ASCII digits denotes, leading zeros allowed.
pub open spec fn decimal_value(s: Seq<char>) -> nat
    decreases s.len(),
{
    if s.len() == 0 {
        0
    } else {
        decimal_value(s.drop_last()) * 10 + digit_value(s.last())
    }
}

/// The number that `s` denotes as a `u64`: `None` when `s` is empty, holds a
/// character that is no ASCII digit, or denotes a number above `u64::MAX`.
pub open spec fn decimal_number(s: Seq<char>) -> Option<u64> {
    if is_decimal(s) && decimal_value(s) <= u64::MAX {
        Some(decimal_value(s) as u64)
    } else {
        None
    }
}

/// A prefix of a run of digits never denotes more than the whole run.
pub proof fn lemma_prefix_value(s: Seq<char>, k: int)
    requires
        0 <= k <= s.len(),
    ensures
        decimal_value(s.take(k)) <= decimal_value(s),
    decreases s.len() - k,
{
    if k < s.len() {
        lemma_prefix_value(s, k + 1);
        assert(s.take(k + 1).drop_last() =~= s.take(k));
    } else {
        assert(s.take(k) =~= s);
    }
}

/// Reading the numeral of `n` gives `n` back.
pub proof fn lemma_decimal_round_trip(n: nat)
    ensures
        is_decimal(decimal_digits(n)),
        decimal_value(decimal_digits(n)) == n,
    decreases n,
{
    if n < 10 {
        let s = decimal_digits(n);
        assert(decimal_value(s.drop_last()) == 0);
    } else {
        lemma_decimal_round_trip(n / 10);
        let s = decimal_digits(n);
        assert(s.drop_last() =~= decimal_digits(n / 10));
    }
}

/// Reading the numeral of a `u64` succeeds and gives the number back.
pub proof fn lemma_number_of_digits(n: u64)
    ensures
        decimal_number(decimal_digits(n as nat)) == Some(n),
{
    lemma_decimal_round_trip(n as nat);
}

/// The one-character text of the digit `d`.
fn digit_text(d: u8) -> (text: &'static str)
    requires
        d < 10,
    ensures
        text@ == seq![digit_char(d as nat)],
{
    proof {
        reveal_strlit("0");
        reveal_strlit("1");
        reveal_strlit("2");
        reveal_strlit("3");
        reveal_strlit("4");
        reveal_strlit("5");
        reveal_strlit("6");
        reveal_strlit("7");
        reveal_strlit("8");
        reveal_strlit("9");
    }
    let text = if d == 0 {
        "0"
    } else if d == 1 {
        "1"
    } else if d == 2 {
        "2"
    } else if d == 3 {
        "3"
    } else if d == 4 {
        "4"
    } else if d == 5 {
        "5"
    } else if d == 6 {
        "6"
    } else if d == 7 {
        "7"
    } else if d == 8 {
        "8"
    } else {
        "9"
    };
    text
}

/// Writes `n` as a decimal numeral.
pub fn format_decimal(n: u64) -> (text: String)
    ensures
        text@ == decimal_digits(n as nat),
    decreases n,
{
    if n < 10 {
        String::from_str(digit_text(n as u8))
    } else {
        let mut text = format_decimal(n / 10);
        text.append(digit_text((n % 10) as u8));
        text
    }
}

/// Reads a decimal numeral. Leading zeros are accepted; a sign, a blank, a
/// digit outside ASCII or a number above `u64::MAX` is not.
pub fn parse_decimal(text: &str) -> (value: Option<u64>)
    ensures
        value == decimal_number(text@),
{
    if !text.is_ascii() {
        return None;
    }
    let n = text.unicode_len();
    if n == 0 {
        return None;
    }
    let mut acc: u64 = 0;
    let mut i: usize = 0;
    while i < n
        invariant
            i <= n,
            n == text@.len(),
            is_ascii(text),
            forall|j: int| 0 <= j < i ==> is_digit(#[trigger] text@[j]),
            acc == decimal_value(text@.take(i as int)),
        decreases n - i,
    {
        let b = text.get_ascii(i);
        if b < 0x30 || b > 0x39 {
            return None;
        }
        let d = (b - 0x30) as u64;
        proof {
            assert(text@.take(i + 1).drop_last() =~= text@.take(i as int));
            lemma_prefix_value(text@, i + 1);
        }
        let shifted = match acc.checked_mul(10) {
            Some(shifted) => shifted,
            None => {
                return None;
            },
        };
        acc = match shifted.checked_add(d) {
            Some(sum) => sum,
            None => {
                return None;
            },
        };
        i += 1;
    }
    assert(text@.take(n as int) =~= text@);
    Some(acc)
}

} // verus!
