//! Readings of the machine's clocks.
//!
//! Nothing is promised of the time that a reading shows: two calls may
//! return anything. The functions that decide on a time take the reading
//! as an argument.

use vstd::prelude::*;
use std::time::Instant;

verus! {

/// Makes `std::time::Instant` known to the verifier, as a value of which
/// nothing is said.
#[verifier::external_type_specification]
#[verifier::external_body]
pub struct ExInstant(Instant);

/// Whether `c` is one of the ten decimal digits.
pub open spec fn is_digit(c: char) -> bool {
    '0' <= c <= '9'
}

/// Whether `text` has the form of a timestamp, `2024-05-01 10:00:00.000`:
/// a year of at least four digits, with a plus sign before it where it has
/// more, then month, day, hour, minute and second of two digits each and
/// the milliseconds of three, set apart by `-`, `-`, a space, `:`, `:` and
/// `.`.
pub open spec fn is_timestamp(text: Seq<char>) -> bool {
    let n = text.len() as int;
    &&& n >= 23
    &&& forall|i: int| 0 < i < n - 19 ==> is_digit(#[trigger] text[i])
    &&& is_digit(text[0]) || (text[0] == '+' && n > 23)
    &&& text[n - 19] == '-'
    &&& is_digit(text[n - 18]) && is_digit(text[n - 17])
    &&& text[n - 16] == '-'
    &&& is_digit(text[n - 15]) && is_digit(text[n - 14])
    &&& text[n - 13] == ' '
    &&& is_digit(text[n - 12]) && is_digit(text[n - 11])
    &&& text[n - 10] == ':'
    &&& is_digit(text[n - 9]) && is_digit(text[n - 8])
    &&& text[n - 7] == ':'
    &&& is_digit(text[n - 6]) && is_digit(text[n - 5])
    &&& text[n - 4] == '.'
    &&& is_digit(text[n - 3]) && is_digit(text[n - 2]) && is_digit(text[n - 1])
}

/// The text that chrono writes for the instant `millis` milliseconds after
/// the start of 1970, in UTC and in the form `%Y-%m-%d %H:%M:%S%.3f`, or
/// nothing where chrono cannot hold that instant.
pub uninterp spec fn stamp_of_millis(millis: i64) -> Option<Seq<char>>;

/// The text for a clock before 1970 or beyond what chrono can hold: the
/// start of 1970.
pub open spec fn epoch_stamp() -> Seq<char> {
    "1970-01-01 00:00:00.000"@
}

/// The timestamp for a clock that shows `millis` milliseconds since the
/// start of 1970: what chrono writes for that instant, and the start of
/// 1970 where chrono cannot hold it.
pub open spec fn stamp_text(millis: nat) -> Seq<char> {
    if millis <= i64::MAX && stamp_of_millis(millis as i64) is Some {
        stamp_of_millis(millis as i64)->0
    } else {
        epoch_stamp()
    }
}

/// Calls `chrono::DateTime::from_timestamp_millis` and, where it gives an
/// instant, formats that as `%Y-%m-%d %H:%M:%S%.3f`. The text is a function
/// of `millis` alone. chrono gives nothing for an instant beyond the years
/// that it can hold. From 1970 on it writes the year with four digits, or
/// with a plus sign and more, and every other field with a fixed number of
/// digits.
#[verifier::external_body]
pub(crate) fn stamp_at(millis: i64) -> (stamp: Option<String>)
    requires
        millis >= 0,
    ensures
        match stamp {
            Some(text) => Some(text@),
            None => None,
        } == stamp_of_millis(millis),
        stamp matches Some(text) ==> is_timestamp(text@),
{
    match chrono::DateTime::from_timestamp_millis(millis) {
        Some(instant) => Some(instant.format("%Y-%m-%d %H:%M:%S%.3f").to_string()),
        None => None,
    }
}

/// Calls `std::time::SystemTime::now` and returns the milliseconds since
/// the start of 1970, or zero where the clock is set before that. The
/// reading depends on the clock, so nothing is promised of it.
#[verifier::external_body]
pub(crate) fn unix_millis_now() -> u128 {
    match std::time::SystemTime::now().duration_since(std::time::UNIX_EPOCH) {
        Ok(since) => since.as_millis(),
        Err(_) => 0,
    }
}

/// The start of 1970 has the form of a timestamp.
proof fn lemma_epoch_stamp_is_timestamp()
    ensures
        is_timestamp(epoch_stamp()),
{
    reveal_strlit("1970-01-01 00:00:00.000");
    let text = epoch_stamp();
    assert(text.len() == 23);
    assert(text[0] == '1' && text[1] == '9' && text[2] == '7' && text[3] == '0');
    assert(text[4] == '-' && text[5] == '0' && text[6] == '1');
    assert(text[7] == '-' && text[8] == '0' && text[9] == '1');
    assert(text[10] == ' ' && text[11] == '0' && text[12] == '0');
    assert(text[13] == ':' && text[14] == '0' && text[15] == '0');
    assert(text[16] == ':' && text[17] == '0' && text[18] == '0');
    assert(text[19] == '.' && text[20] == '0' && text[21] == '0' && text[22] == '0');
}

/// The timestamp for a clock that shows `millis` milliseconds since the
/// start of 1970, in UTC: `2024-05-01 10:00:00.000` for 1714557600000. An
/// instant beyond what chrono can hold is written as the start of 1970.
pub fn timestamp_at(millis: u128) -> (stamp: String)
    ensures
        stamp@ == stamp_text(millis as nat),
        is_timestamp(stamp@),
{
    if millis <= 0x7fff_ffff_ffff_ffff {
        match stamp_at(millis as i64) {
            Some(text) => {
                return text;
            },
            None => {},
        }
    }
    proof {
        lemma_epoch_stamp_is_timestamp();
    }
    "1970-01-01 00:00:00.000".to_owned()
}

/// The timestamp for now, as the system clock shows it. A clock set before
/// 1970 reads as the start of 1970.
pub(crate) fn timestamp_now() -> (stamp: String)
    ensures
        exists|millis: nat| stamp@ == #[trigger] stamp_text(millis),
        is_timestamp(stamp@),
{
    timestamp_at(unix_millis_now())
}

/// Calls `std::time::Instant::now`. The reading is whatever the monotonic
/// clock shows.
#[verifier::external_body]
pub(crate) fn instant_now() -> Instant {
    Instant::now()
}

/// Calls `std::time::Instant::elapsed` on `since` and returns the duration
/// in whole nanoseconds. The reading depends on the clock, so nothing is
/// promised of it.
#[verifier::external_body]
pub(crate) fn elapsed_nanos(since: &Instant) -> u128 {
    since.elapsed().as_nanos()
}

} // verus!
