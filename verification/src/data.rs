//! The clock adapter: the current local time as `HH:MM:SS`.

use vstd::prelude::*;

verus! {

/// Whether `c` is a decimal digit.
pub open spec fn clock_digit(c: char) -> bool {
    48 <= c as u32 <= 57
}

/// The shape of a clock reading: exactly eight characters, two digits for
/// the hour, the minute and the second, separated by colons.
pub open spec fn is_clock_text(s: Seq<char>) -> bool {
    &&& s.len() == 8
    &&& s[2] == ':'
    &&& s[5] == ':'
    &&& clock_digit(s[0])
    &&& clock_digit(s[1])
    &&& clock_digit(s[3])
    &&& clock_digit(s[4])
    &&& clock_digit(s[6])
    &&& clock_digit(s[7])
}

/// The current local time of day, formatted as `HH:MM:SS`.
///
/// Relies on chrono's `Local::now` and its `%H:%M:%S` formatting: each of
/// the three fields is written as exactly two zero-padded decimal digits,
/// with colons in between, so the result is always eight characters.
#[verifier::external_body]
pub fn get_time() -> (r: String)
    ensures
        is_clock_text(r@),
{
    let now = chrono::Local::now();
    let time = now.format("%H:%M:%S");

    time.to_string()
}

} // verus!
