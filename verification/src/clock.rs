use vstd::prelude::*;

use crate::format::{push_char, push_two_digits, two_digits};

verus! {

/// The time of day of a Unix timestamp, as `HH:MM:SS UTC`.
pub open spec fn utc_clock_text(seconds_since_epoch: nat) -> Seq<char> {
    let day = seconds_since_epoch % 86400;
    two_digits(day / 3600) + seq![':'] + two_digits((day % 3600) / 60) + seq![':'] + two_digits(
        day % 60,
    ) + seq![' ', 'U', 'T', 'C']
}

/// Formats the time of day of a Unix timestamp in UTC, as the overview shows
/// its last refresh.
pub fn format_utc_time(seconds_since_epoch: u64) -> (text: String)
    ensures
        text@ == utc_clock_text(seconds_since_epoch as nat),
{
    let seconds = seconds_since_epoch % 86400;
    let hours = seconds / 3600;
    let minutes = (seconds % 3600) / 60;
    let seconds = seconds % 60;
    let mut text = String::new();
    push_two_digits(&mut text, hours);
    push_char(&mut text, ':');
    push_two_digits(&mut text, minutes);
    push_char(&mut text, ':');
    push_two_digits(&mut text, seconds);
    push_char(&mut text, ' ');
    push_char(&mut text, 'U');
    push_char(&mut text, 'T');
    push_char(&mut text, 'C');
    proof {
        assert(text@ =~= utc_clock_text(seconds_since_epoch as nat));
    }
    text
}

/// Reads the system clock as whole seconds since the Unix epoch, zero for a
/// clock set before the epoch.
/// Calls `SystemTime::now` and `duration_since(UNIX_EPOCH)`; the result depends
/// on the machine's clock, so nothing is stated of it.
#[verifier::external_body]
fn unix_time_seconds() -> u64 {
    std::time::SystemTime::now().duration_since(std::time::UNIX_EPOCH).unwrap_or_default().as_secs()
}

/// The current time of day in UTC, in the format of `format_utc_time`.
pub fn current_utc_time() -> (text: String)
    ensures
        exists|seconds: u64| text@ == utc_clock_text(seconds as nat),
{
    let seconds = unix_time_seconds();
    format_utc_time(seconds)
}

} // verus!
