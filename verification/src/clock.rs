//! The library's view of wall-clock time, backed by chrono. Every function
//! here is a trusted boundary: the contracts state only what chrono's own
//! source guarantees of every outcome.

use vstd::prelude::*;
use crate::models::Date;

verus! {

/// The text chrono renders for a UTC second in `%Y-%m-%d %H:%M:%S` format;
/// it depends on the second alone.
pub uninterp spec fn utc_display(secs: int) -> Seq<char>;

/// Relies on chrono's `Utc::now` with `Datelike::{year, month, day}`: the
/// month is 1..=12, the day 1..=31, and the year lies within chrono's
/// bounded calendar range (about plus or minus 262000 years).
#[verifier::external_body]
pub fn today_utc() -> (d: Date)
    ensures
        1 <= d.month <= 12,
        1 <= d.day <= 31,
        -262144 < d.year < 262144,
{
    let now = chrono::Utc::now();
    Date {
        year: chrono::Datelike::year(&now),
        month: chrono::Datelike::month(&now),
        day: chrono::Datelike::day(&now),
    }
}

/// Relies on chrono's `Utc::now` and `DateTime::timestamp`: seconds since
/// the UNIX epoch. Nothing is promised of the value; callers must hold for
/// any second the clock may report.
#[verifier::external_body]
pub fn now_timestamp() -> (t: i64)
{
    chrono::Utc::now().timestamp()
}

/// Relies on chrono's `DateTime::from_timestamp` and `format`: renders a UTC
/// second as `%Y-%m-%d %H:%M:%S` text, a function of the second alone (fixed
/// format, no locale). A second outside chrono's calendar range renders as
/// empty text.
#[verifier::external_body]
pub fn format_timestamp(secs: i64) -> (r: String)
    ensures
        r@ == utc_display(secs as int),
{
    match chrono::DateTime::from_timestamp(secs, 0) {
        Some(t) => t.format("%Y-%m-%d %H:%M:%S").to_string(),
        None => String::new(),
    }
}

} // verus!
