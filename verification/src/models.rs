//! Data model of the dashboard: usage records and snapshots as fetched from
//! the accounting endpoint, the aggregate statistics derived from them, the
//! persisted configuration, cache entries, and the visual theme.
//!
//! All quantities are whole billing units, percentages are hundredths of a
//! percent, money amounts are cents, and timestamps are seconds of UTC time.

use vstd::prelude::*;
use crate::text::{eq_ignore_ascii_case, seq_lower_eq};

verus! {

/// The billing period a snapshot covers: a year, optionally narrowed to a
/// month and a day.
#[derive(Debug, Clone)]
pub struct TimePeriod {
    pub year: i32,
    pub month: Option<u32>,
    pub day: Option<u32>,
}

/// One billing line of a snapshot: a category (model) identifier, the raw
/// quantity used, and the net quantity actually billed after discounts.
#[derive(Debug, Clone)]
pub struct UsageItem {
    pub model: String,
    pub gross_quantity: u64,
    pub net_quantity: u64,
}

/// One fetched copy of usage records as of a point in time, together with the
/// owning account and the billing period.
#[derive(Debug, Clone)]
pub struct UsageData {
    pub time_period: TimePeriod,
    pub user: String,
    pub usage_items: Vec<UsageItem>,
}

/// A calendar date in UTC.
#[derive(Debug, Clone, Copy, PartialEq, Eq, Structural)]
pub struct Date {
    pub year: i32,
    pub month: u32,
    pub day: u32,
}

/// Aggregated usage of one category, with its share of the plan limit in
/// hundredths of a percent.
#[derive(Debug, Clone)]
pub struct ModelUsage {
    pub name: String,
    pub used: u64,
    pub limit: u64,
    pub percentage: u64,
}

/// Aggregate statistics derived from one snapshot: totals, the share of the
/// plan limit, the day the allowance resets, the per-category breakdown in
/// descending order of use, and the estimated overage cost in cents.
#[derive(Debug, Clone)]
pub struct UsageStats {
    pub total_used: u64,
    pub total_limit: u64,
    pub percentage: u64,
    pub reset_date: Date,
    pub models: Vec<ModelUsage>,
    pub estimated_cost: u64,
    pub username: String,
}

/// Persisted user configuration.
#[derive(Debug, Clone)]
pub struct Config {
    pub token: String,
    pub theme: String,
    pub cache_ttl_minutes: u64,
    pub waybar_format: String,
    pub username: Option<String>,
}

impl Default for Config {
    /// An empty token, the dark theme, a five-minute cache TTL, and a plain
    /// percentage output template.
    fn default() -> (r: Self)
        ensures
            r.token@ == Seq::<char>::empty(),
            r.theme@ == "dark"@,
            r.cache_ttl_minutes == 5,
            r.waybar_format@ == "{percentage}%"@,
            r.username is None,
    {
        Config {
            token: String::new(),
            theme: "dark".to_owned(),
            cache_ttl_minutes: 5,
            waybar_format: "{percentage}%".to_owned(),
            username: None,
        }
    }
}

/// The persisted cache record: one snapshot and the UTC second it was
/// fetched at.
#[derive(Debug, Clone)]
pub struct CacheEntry {
    pub data: UsageData,
    pub timestamp: i64,
}

/// Freshness of the persisted snapshot, derived on demand and never stored.
#[derive(Debug)]
pub enum CacheStatus {
    /// The entry exists and its age is within the configured TTL.
    Fresh(UsageData),
    /// The entry exists but its age exceeds the TTL.
    Expired,
    /// No entry is persisted.
    Missing,
    /// An entry is persisted but cannot be read or decoded.
    Corrupted,
}

/// The status-bar output record: display text, hover tooltip, and a CSS
/// class naming the severity of current usage.
#[derive(Debug, Clone)]
pub struct WaybarOutput {
    pub text: String,
    pub tooltip: String,
    pub class: String,
}

/// Available color themes.
#[derive(Debug, Clone, Copy, PartialEq, Eq, Structural)]
pub enum Theme {
    Dark,
    Light,
    Dracula,
    Nord,
    Monokai,
    Gruvbox,
}

/// The theme a name selects, matched case-insensitively; unknown names fall
/// back to the dark theme.
pub open spec fn theme_of_name(s: Seq<char>) -> Theme {
    if seq_lower_eq(s, "light"@) {
        Theme::Light
    } else if seq_lower_eq(s, "dracula"@) {
        Theme::Dracula
    } else if seq_lower_eq(s, "nord"@) {
        Theme::Nord
    } else if seq_lower_eq(s, "monokai"@) {
        Theme::Monokai
    } else if seq_lower_eq(s, "gruvbox"@) {
        Theme::Gruvbox
    } else {
        Theme::Dark
    }
}

/// The canonical lower-case name of a theme.
pub open spec fn theme_name(t: Theme) -> Seq<char> {
    match t {
        Theme::Dark => "dark"@,
        Theme::Light => "light"@,
        Theme::Dracula => "dracula"@,
        Theme::Nord => "nord"@,
        Theme::Monokai => "monokai"@,
        Theme::Gruvbox => "gruvbox"@,
    }
}

impl Theme {
    /// Selects the theme a configuration names, ignoring ASCII case;
    /// unknown names select `Dark`.
    pub fn from_str(s: &str) -> (r: Self)
        ensures
            r == theme_of_name(s@),
    {
        if eq_ignore_ascii_case(s, "light") {
            Theme::Light
        } else if eq_ignore_ascii_case(s, "dracula") {
            Theme::Dracula
        } else if eq_ignore_ascii_case(s, "nord") {
            Theme::Nord
        } else if eq_ignore_ascii_case(s, "monokai") {
            Theme::Monokai
        } else if eq_ignore_ascii_case(s, "gruvbox") {
            Theme::Gruvbox
        } else {
            Theme::Dark
        }
    }

    /// The canonical name of the theme, as persisted in the configuration.
    pub fn as_str(&self) -> (r: &'static str)
        ensures
            r@ == theme_name(*self),
    {
        match self {
            Theme::Dark => "dark",
            Theme::Light => "light",
            Theme::Dracula => "dracula",
            Theme::Nord => "nord",
            Theme::Monokai => "monokai",
            Theme::Gruvbox => "gruvbox",
        }
    }
}

/// Theme names round-trip: parsing the canonical name of any theme yields
/// that theme again.
pub proof fn lemma_theme_name_round_trip(t: Theme)
    ensures
        theme_of_name(theme_name(t)) == t,
{
    reveal_strlit("dark");
    reveal_strlit("light");
    reveal_strlit("dracula");
    reveal_strlit("nord");
    reveal_strlit("monokai");
    reveal_strlit("gruvbox");
    assert("dark"@.len() == 4);
    assert("light"@.len() == 5);
    assert("dracula"@.len() == 7);
    assert("nord"@.len() == 4);
    assert("monokai"@.len() == 7);
    assert("gruvbox"@.len() == 7);
    assert(crate::text::lower_code("dark"@[0]) != crate::text::lower_code("nord"@[0]));
    assert(crate::text::lower_code("monokai"@[0]) != crate::text::lower_code("dracula"@[0]));
    assert(crate::text::lower_code("gruvbox"@[0]) != crate::text::lower_code("dracula"@[0]));
    assert(crate::text::lower_code("gruvbox"@[0]) != crate::text::lower_code("monokai"@[0]));
    assert(!crate::text::seq_lower_eq("dark"@, "nord"@));
    assert(!crate::text::seq_lower_eq("monokai"@, "dracula"@));
    assert(!crate::text::seq_lower_eq("gruvbox"@, "dracula"@));
    assert(!crate::text::seq_lower_eq("gruvbox"@, "monokai"@));
}

/// Whether a proleptic Gregorian year is a leap year.
pub open spec fn spec_is_leap_year(y: int) -> bool {
    (y % 4 == 0 && y % 100 != 0) || y % 400 == 0
}

/// The number of days in a month of the proleptic Gregorian calendar.
pub open spec fn spec_days_in_month(y: int, m: int) -> int {
    if m == 2 {
        if spec_is_leap_year(y) {
            29
        } else {
            28
        }
    } else if m == 4 || m == 6 || m == 9 || m == 11 {
        30
    } else {
        31
    }
}

/// Whether a year is a leap year in the proleptic Gregorian calendar.
pub fn is_leap_year(year: i32) -> (r: bool)
    requires
        0 <= year,
    ensures
        r == spec_is_leap_year(year as int),
{
    (year % 4 == 0 && year % 100 != 0) || year % 400 == 0
}

/// The number of days in the given month.
pub fn days_in_month(year: i32, month: u32) -> (r: u32)
    requires
        0 <= year,
        1 <= month <= 12,
    ensures
        r == spec_days_in_month(year as int, month as int),
{
    if month == 2 {
        if is_leap_year(year) {
            29
        } else {
            28
        }
    } else if month == 4 || month == 6 || month == 9 || month == 11 {
        30
    } else {
        31
    }
}

/// The first day of the calendar month after `d`, wrapping December into
/// January of the next year.
pub fn next_month_start(d: Date) -> (r: Date)
    requires
        1 <= d.month <= 12,
        d.year < i32::MAX,
    ensures
        d.month == 12 ==> r == (Date { year: (d.year + 1) as i32, month: 1, day: 1 }),
        d.month < 12 ==> r == (Date { year: d.year, month: (d.month + 1) as u32, day: 1 }),
{
    if d.month == 12 {
        Date { year: d.year + 1, month: 1, day: 1 }
    } else {
        Date { year: d.year, month: d.month + 1, day: 1 }
    }
}

} // verus!
