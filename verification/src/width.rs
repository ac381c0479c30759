//! The width of the screen: a width given from outside, as text, or else the
//! width that was detected.

use vstd::prelude::*;
use vstd::string::is_ascii_spec_bytes;
use vstd::utf8::is_ascii_chars;

verus! {

/// The ASCII code of `+`.
const PLUS: u8 = 0x2b;

/// The ASCII code of `0`.
const ZERO: u8 = 0x30;

/// The ASCII code of `9`.
const NINE: u8 = 0x39;

/// Whether `c` is one of the ten decimal digits.
pub open spec fn is_digit(c: char) -> bool {
    '0' <= c && c <= '9'
}

/// The value of a decimal digit; 0 for any other character.
pub open spec fn digit_value(c: char) -> nat {
    if is_digit(c) {
        (c as u32 - '0' as u32) as nat
    } else {
        0
    }
}

/// Whether `digits` holds decimal digits only.
pub open spec fn all_digits(digits: Seq<char>) -> bool {
    forall|i: int| 0 <= i < digits.len() ==> is_digit(#[trigger] digits[i])
}

/// The number that `digits` writes in base ten.
pub open spec fn decimal_value(digits: Seq<char>) -> nat
    decreases digits.len(),
{
    if digits.len() == 0 {
        0
    } else {
        10 * decimal_value(digits.drop_last()) + digit_value(digits.last())
    }
}

/// The digits of a number's text: what follows a leading `+`, or all of it.
pub open spec fn unsigned_part(s: Seq<char>) -> Seq<char> {
    if s.len() > 0 && s[0] == '+' {
        s.drop_first()
    } else {
        s
    }
}

/// The number that `s` writes: an optional `+`, then one or more decimal
/// digits and nothing else, of a value that fits the machine word.
pub open spec fn parsed_usize(s: Seq<char>) -> Option<usize> {
    let digits = unsigned_part(s);
    if digits.len() > 0 && all_digits(digits) && decimal_value(digits) <= usize::MAX {
        Some(decimal_value(digits) as usize)
    } else {
        None
    }
}

/// The width to wrap at: `columns` where it is given and writes a positive
/// number, else `term_width`.
pub open spec fn chosen_width(columns: Option<Seq<char>>, term_width: usize) -> usize {
    match columns {
        Some(text) => match parsed_usize(text) {
            Some(cols) => if cols > 0 {
                cols
            } else {
                term_width
            },
            None => term_width,
        },
        None => term_width,
    }
}

/// A number is at least the number that a prefix of its digits writes.
pub proof fn lemma_decimal_value_prefix(digits: Seq<char>, k: int)
    requires
        0 <= k <= digits.len(),
    ensures
        decimal_value(digits.take(k)) <= decimal_value(digits),
    decreases digits.len() - k,
{
    if k == digits.len() {
        assert(digits.take(k) =~= digits);
    } else {
        lemma_decimal_value_prefix(digits, k + 1);
        assert(digits.take(k + 1).drop_last() =~= digits.take(k));
    }
}

/// Text that writes a number holds ASCII characters only.
pub proof fn lemma_number_is_ascii(s: Seq<char>)
    requires
        parsed_usize(s) is Some,
    ensures
        is_ascii_chars(s),
{
    let digits = unsigned_part(s);
    assert forall|i: int| 0 <= i < s.len() implies '\0' <= #[trigger] s[i] <= '\u{7f}' by {
        if s[0] != '+' {
            assert(is_digit(digits[i]));
        } else if i > 0 {
            assert(is_digit(digits[i - 1]));
        }
    }
}

/// Reads a number in base ten: an optional `+`, then digits only.
pub fn parse_usize(s: &str) -> (number: Option<usize>)
    ensures
        number == parsed_usize(s@),
{
    if !s.is_ascii() {
        proof {
            if parsed_usize(s@) is Some {
                lemma_number_is_ascii(s@);
            }
        }
        return None;
    }
    let bytes = s.as_bytes();
    proof {
        is_ascii_spec_bytes(s);
    }
    let n = bytes.len();
    let mut i: usize = 0;
    if n > 0 && bytes[0] == PLUS {
        i = 1;
    }
    let ghost digits = unsigned_part(s@);
    let start = i;
    if i == n {
        return None;
    }
    let mut value: usize = 0;
    while i < n
        invariant
            n == s@.len(),
            n == bytes@.len(),
            is_ascii_chars(s@),
            forall|j: int| 0 <= j < n ==> bytes@[j] == s@[j] as u8,
            start <= i <= n,
            digits == unsigned_part(s@),
            digits == s@.skip(start as int),
            all_digits(digits.take(i - start)),
            value == decimal_value(digits.take(i - start)),
        decreases n - i,
    {
        let byte = bytes[i];
        let ghost k = i - start;
        let ghost c = s@[i as int];
        assert(digits[k] == c);
        if !(ZERO <= byte && byte <= NINE) {
            return None;
        }
        let digit = (byte - ZERO) as usize;
        proof {
            assert(digits.take(k + 1).drop_last() =~= digits.take(k));
            lemma_decimal_value_prefix(digits, k + 1);
        }
        let tens = match value.checked_mul(10) {
            Some(tens) => tens,
            None => {
                return None;
            },
        };
        value = match tens.checked_add(digit) {
            Some(sum) => sum,
            None => {
                return None;
            },
        };
        i += 1;
    }
    assert(digits.take(n - start) =~= digits);
    Some(value)
}

/// Chooses the width to wrap at. `columns` is a width given from outside, as
/// text; it counts where it writes a positive number. `term_width` is the
/// width that was detected.
pub fn out_width(columns: Option<&str>, term_width: usize) -> (width: usize)
    ensures
        width == chosen_width(
            match columns {
                Some(text) => Some(text@),
                None => None,
            },
            term_width,
        ),
{
    match columns {
        Some(text) => match parse_usize(text) {
            Some(cols) => if cols > 0 {
                cols
            } else {
                term_width
            },
            None => term_width,
        },
        None => term_width,
    }
}

} // verus!
