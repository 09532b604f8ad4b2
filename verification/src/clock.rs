//! The time of the build, as a string literal.
//!
//! The caller reads the clock: the library is handed the seconds that it
//! shows and says what text they give.

use crate::text::{rust_string_literal, string_literal};
use vstd::prelude::*;

verus! {

/// How far the shown time is ahead of UTC, in seconds: eight hours.
pub const OFFSET_SECONDS: i64 = 28800;

/// How the time is written: year, month and day, then hour, minute and
/// second.
pub const TIME_FORMAT: &'static str = "%Y-%m-%d %H:%M:%S";

/// The text that chrono writes for a number of seconds since the start of
/// 1970 in UTC under a format; `None` where chrono has no date for that
/// number or cannot write it.
pub uninterp spec fn civil_text(secs: int, format: Seq<char>) -> Option<Seq<char>>;

/// The time of the build for a clock that shows `now` seconds since the
/// start of 1970 in UTC: the date and time eight hours later, as a string
/// literal; `None` where that time is out of range.
pub open spec fn build_time_text(now: int) -> Option<Seq<char>> {
    if now + OFFSET_SECONDS > i64::MAX {
        None
    } else {
        match civil_text(now + OFFSET_SECONDS, TIME_FORMAT@) {
            Some(t) => Some(string_literal(t)),
            None => None,
        }
    }
}

/// What a build time is as a value: the view of the text, if there is one.
pub open spec fn shown(r: Option<String>) -> Option<Seq<char>> {
    match r {
        Some(s) => Some(s@),
        None => None,
    }
}

/// `chrono::DateTime::from_timestamp`, `DateTime::naive_utc`,
/// `NaiveDateTime::format` and `DelayedFormat::write_to`: the date and time
/// of a number of seconds, written out under the library's one format. The
/// contract names the text, and says that there is none exactly where
/// chrono gives no date or reports that it cannot write.
#[verifier::external_body]
fn format_seconds(secs: i64, format: &str) -> (r: Option<String>)
    requires
        format@ == TIME_FORMAT@,
    ensures
        shown(r) == civil_text(secs as int, format@),
{
    let mut text = String::new();
    match chrono::DateTime::from_timestamp(secs, 0) {
        Some(t) => match t.naive_utc().format(format).write_to(&mut text) {
            Ok(()) => Some(text),
            Err(_) => None,
        },
        None => None,
    }
}

/// The time of the build for a clock that shows `now` seconds since the
/// start of 1970 in UTC: eight hours ahead of UTC, as a string literal.
pub fn build_time(now: i64) -> (r: Option<String>)
    ensures
        shown(r) == build_time_text(now as int),
{
    match now.checked_add(OFFSET_SECONDS) {
        Some(shifted) => match format_seconds(shifted, TIME_FORMAT) {
            Some(t) => Some(rust_string_literal(t.as_str())),
            None => None,
        },
        None => None,
    }
}

} // verus!
