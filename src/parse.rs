//! Reading a countdown length, in whole minutes, from the text a user typed.
use vstd::prelude::*;

verus! {

/// Milliseconds in one minute.
pub const MINUTE_MS: u64 = 60000;

/// `c` is one of the ASCII digits `0` to `9`.
pub open spec fn is_decimal_digit(c: char) -> bool {
    '0' <= c && c <= '9'
}

/// The value of a string of decimal digits, most significant first.
pub open spec fn digits_value(s: Seq<char>) -> nat
    decreases s.len(),
{
    if s.len() == 0 {
        0
    } else {
        digits_value(s.drop_last()) * 10 + (s.last() as int - '0' as int) as nat
    }
}

/// The text with one leading `+`, if there is one, taken off.
pub open spec fn without_plus(s: Seq<char>) -> Seq<char> {
    if s.len() > 0 && s[0] == '+' {
        s.drop_first()
    } else {
        s
    }
}

/// What reading `s` as an unsigned 64-bit decimal gives: an optional `+`,
/// then one or more digits and nothing else, with a value that fits.
pub open spec fn parsed_u64(s: Seq<char>) -> Option<u64> {
    let d = without_plus(s);
    if d.len() > 0 && (forall|i: int| 0 <= i < d.len() ==> is_decimal_digit(#[trigger] d[i]))
        && digits_value(d) <= u64::MAX {
        Some(digits_value(d) as u64)
    } else {
        None
    }
}

/// The countdown length, in milliseconds, that the typed text asks for: its
/// value in minutes, where it reads as a number and the length fits in a `u64`.
pub open spec fn length_from_text(s: Seq<char>) -> Option<u64> {
    match parsed_u64(s) {
        Some(minutes) => if minutes * MINUTE_MS <= u64::MAX {
            Some((minutes * MINUTE_MS) as u64)
        } else {
            None
        },
        None => None,
    }
}

/// Relies on `str::parse::<u64>` (`u64::from_str`): it accepts exactly an
/// optional `+` followed by one or more ASCII digits whose value fits in a
/// `u64`, and returns that value.
#[verifier::external_body]
fn parse_u64(text: &str) -> (r: Option<u64>)
    ensures
        r == parsed_u64(text@),
{
    text.parse::<u64>().ok()
}

/// Reads typed text as a length in whole minutes and returns it in
/// milliseconds; `None` where the text is not a number or the length
/// would not fit.
pub fn length_ms_from_text(text: &str) -> (r: Option<u64>)
    ensures
        r == length_from_text(text@),
{
    match parse_u64(text) {
        Some(minutes) => minutes.checked_mul(MINUTE_MS),
        None => None,
    }
}

} // verus!
