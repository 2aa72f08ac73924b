//! The score codec.
//!
//! A rating runs from 0.0 to 10.0 and is kept in one byte, in tenths of a
//! point: 0 to 100. On the display side a rating is a whole number of
//! thousandths of a point, so that 7.25 is `7250`.

use vstd::prelude::*;

verus! {

/// The highest stored score: 10.0, in tenths.
pub const MAX_STORED: u8 = 100;

/// The highest display score: 10.0, in thousandths.
pub const MAX_DISPLAY: i64 = 10_000;

/// Thousandths in one tenth of a point.
pub const DISPLAY_PER_STORED: i64 = 100;

/// A display score held within 0.0 and 10.0.
pub open spec fn clamped(display: int) -> int {
    if display < 0 {
        0
    } else if display > MAX_DISPLAY as int {
        MAX_DISPLAY as int
    } else {
        display
    }
}

/// The stored form of a display score: held within 0.0 and 10.0, then rounded
/// to the nearest tenth, a half going up.
pub open spec fn encoded(display: int) -> int {
    (clamped(display) + 50) / 100
}

/// The display form of a stored score.
pub open spec fn decoded(stored: int) -> int {
    stored * 100
}

/// Stores a display score. Every input is accepted: one outside 0.0 to 10.0 is
/// clamped, never refused.
pub fn encode(display: i64) -> (stored: u8)
    ensures
        stored == encoded(display as int),
        stored <= MAX_STORED,
{
    let held: i64 = if display < 0 {
        0
    } else if display > MAX_DISPLAY {
        MAX_DISPLAY
    } else {
        display
    };
    let tenths: i64 = (held + 50) / DISPLAY_PER_STORED;
    tenths as u8
}

/// The display score that a stored score stands for.
pub fn decode(stored: u8) -> (display: i64)
    ensures
        display == decoded(stored as int),
{
    stored as i64 * DISPLAY_PER_STORED
}

/// The display score of an optional stored score.
pub fn score_display(score: Option<u8>) -> (r: Option<i64>)
    ensures
        r == match score {
            Some(s) => Some(decoded(s as int) as i64),
            None => None,
        },
{
    match score {
        Some(s) => Some(decode(s)),
        None => None,
    }
}

/// Storing a score between 0.0 and 10.0 and reading it back moves it by at
/// most 0.05.
pub proof fn law_round_trip_within_half_a_tenth(display: int)
    requires
        0 <= display <= MAX_DISPLAY,
    ensures
        -50 <= decoded(encoded(display)) - display <= 50,
{
}

/// A stored score of at most 10.0 survives being displayed and stored again.
pub proof fn law_stored_round_trip(stored: int)
    requires
        0 <= stored <= MAX_STORED,
    ensures
        encoded(decoded(stored)) == stored,
{
}

/// Encoding never leaves the range 0 to 100, and it keeps the order of scores.
pub proof fn law_encoded_in_range_and_monotone(a: int, b: int)
    requires
        a <= b,
    ensures
        0 <= encoded(a) <= encoded(b) <= MAX_STORED,
{
}

} // verus!
