//! Reading a banner's width from the text of a command-line argument.

use vstd::prelude::*;
use vstd::std_specs::iter::IteratorSpec;
use vstd::string::*;

verus! {

/// Whether `c` is one of the decimal digits `0` to `9`.
pub open spec fn is_digit(c: char) -> bool {
    '0' <= c <= '9'
}

/// What the decimal digit `c` stands for.
pub open spec fn digit_value(c: char) -> nat {
    (c as nat - '0' as nat) as nat
}

/// The number that a run of decimal digits denotes.
pub open spec fn decimal(digits: Seq<char>) -> nat
    decreases digits.len(),
{
    if digits.len() == 0 {
        0
    } else {
        decimal(digits.drop_last()) * 10 + digit_value(digits.last())
    }
}

/// Whether `text` holds decimal digits and nothing else.
pub open spec fn all_digits(text: Seq<char>) -> bool {
    forall|i: int| 0 <= i < text.len() ==> is_digit(#[trigger] text[i])
}

/// `text` without the plus sign that may stand in front of a number.
pub open spec fn unsigned_part(text: Seq<char>) -> Seq<char> {
    if text.len() > 0 && text.first() == '+' {
        text.drop_first()
    } else {
        text
    }
}

/// The width that `text` denotes: `text` is an optional plus sign and then
/// one decimal digit or more, and nothing else.
pub open spec fn length_value(text: Seq<char>) -> Option<nat> {
    let digits = unsigned_part(text);
    if digits.len() > 0 && all_digits(digits) {
        Some(decimal(digits))
    } else {
        None
    }
}

/// A run of digits denotes at least as much as any run it begins with.
proof fn lemma_decimal_grows(digits: Seq<char>, n: int)
    requires
        0 <= n <= digits.len(),
    ensures
        decimal(digits.take(n)) <= decimal(digits),
    decreases digits.len() - n,
{
    if n == digits.len() {
        assert(digits.take(n) =~= digits);
    } else {
        lemma_decimal_grows(digits.drop_last(), n);
        assert(digits.drop_last().take(n) =~= digits.take(n));
    }
}

/// Reads a width: `Some` of the number where `text` denotes one that the
/// machine can hold, `None` for every other text.
pub fn parse_length(text: &str) -> (length: Option<usize>)
    ensures
        length == match length_value(text@) {
            Some(n) if n <= usize::MAX => Some(n as usize),
            _ => None,
        },
{
    let mut chars = text.chars();
    let mut first = chars.next();
    let ghost mut skipped: int = 0;
    if first == Some('+') {
        first = chars.next();
        proof {
            skipped = 1;
        }
    }
    let ghost digits = unsigned_part(text@);
    assert(digits =~= text@.skip(skipped));
    let mut value: usize = 0;
    let mut next = first;
    let ghost mut seen: int = 0;
    if next.is_none() {
        return None;
    }
    loop
        invariant
            0 <= seen <= digits.len(),
            digits == unsigned_part(text@),
            next matches Some(c) ==> seen < digits.len() && c == digits[seen],
            next is None ==> seen == digits.len(),
            chars.remaining() == digits.skip(if next is Some { seen + 1 } else { seen }),
            forall|i: int| 0 <= i < seen ==> is_digit(#[trigger] digits[i]),
            value == decimal(digits.take(seen)),
            digits.len() > 0,
        ensures
            seen == digits.len(),
            forall|i: int| 0 <= i < seen ==> is_digit(#[trigger] digits[i]),
            value == decimal(digits),
        decreases digits.len() - seen,
    {
        match next {
            None => {
                assert(digits.take(seen) =~= digits);
                break;
            },
            Some(c) => {
                if c < '0' || c > '9' {
                    assert(!is_digit(digits[seen]));
                    return None;
                }
                let digit: usize = (c as u32 - '0' as u32) as usize;
                proof {
                    let longer = digits.take(seen + 1);
                    assert(longer.drop_last() =~= digits.take(seen));
                    assert(decimal(longer) == value * 10 + digit);
                    lemma_decimal_grows(digits, seen + 1);
                }
                let scaled = match value.checked_mul(10) {
                    Some(v) => v,
                    None => {
                        return None;
                    },
                };
                value = match scaled.checked_add(digit) {
                    Some(v) => v,
                    None => {
                        return None;
                    },
                };
                proof {
                    seen = seen + 1;
                }
                next = chars.next();
            },
        }
    }
    Some(value)
}

} // verus!
