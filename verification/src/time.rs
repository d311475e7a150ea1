//! Server time. The game's day starts at 05:00 UTC: a "server day" runs from
//! 05:00 UTC to 05:00 UTC the next morning, and the calendar date, weekday,
//! week and month of a moment are those of the moment five hours earlier.
//!
//! Calendar fields come from `chrono`. The moment five hours earlier is taken
//! in milliseconds before asking `chrono`, which gives the same calendar
//! fields as subtracting five hours from the `chrono` date-time.
use vstd::prelude::*;
use chrono::{Datelike, TimeZone};
use std::time::SystemTime;

verus! {

/// Milliseconds in a day.
pub const DAY_MS: i64 = 86_400_000;

/// The daily reset happens at 05:00 UTC: five hours, in milliseconds.
pub const RESET_OFFSET_MS: i64 = 18_000_000;

/// The daily reset offset in seconds.
pub const RESET_OFFSET_SEC: i64 = 18_000;

/// Timestamps (in milliseconds) within this distance of the epoch have a
/// calendar date; `chrono` covers about 262,000 years on either side.
pub const MAX_TIMESTAMP_MS: i64 = 8_000_000_000_000_000;

/// The calendar fields of a UTC date-time.
#[derive(Clone, Copy, Debug, PartialEq, Eq)]
pub struct CalendarParts {
    /// Whole seconds since 1970-01-01 00:00:00 UTC (rounded down).
    pub unix_seconds: i64,
    pub year: i32,
    /// 1 to 12.
    pub month: u32,
    /// 1 to 31.
    pub day: u32,
    /// 0 for Sunday to 6 for Saturday.
    pub weekday_from_sunday: u32,
}

/// The proleptic Gregorian date `(year, month, day)` of the day `z` days
/// after 1970-01-01 (negative before it): the days are counted in 400-year
/// eras of 146 097 days from 0000-03-01, and within an era in years that
/// begin in March.
pub open spec fn civil_from_days(z: int) -> (int, int, int) {
    let z0 = z + 719_468;
    let era = z0 / 146_097;
    let doe = z0 - era * 146_097;
    let yoe = (doe - doe / 1460 + doe / 36_524 - doe / 146_096) / 365;
    let doy = doe - (365 * yoe + yoe / 4 - yoe / 100);
    let mp = (5 * doy + 2) / 153;
    let d = doy - (153 * mp + 2) / 5 + 1;
    let m = if mp < 10 {
        mp + 3
    } else {
        mp - 9
    };
    let y = yoe + era * 400;
    (if m <= 2 {
        y + 1
    } else {
        y
    }, m, d)
}

/// The day of a UTC millisecond timestamp, counted from 1970-01-01 (rounded
/// down).
pub open spec fn unix_day(ms: int) -> int {
    ms / DAY_MS as int
}

/// The weekday of day `z` after 1970-01-01 (a Thursday), 0 for Sunday.
pub open spec fn weekday_of_day(z: int) -> int {
    (z + 4) % 7
}

/// `chrono`'s `Utc.timestamp_millis_opt(ms).single()`, read out as calendar
/// fields (`timestamp`, `year`, `month`, `day`, `weekday().num_days_from_sunday()`).
/// Claimed, as chrono documents its UTC date-times: a date exists for
/// timestamps within a little more than `MAX_TIMESTAMP_MS` of the epoch
/// (chrono's dates run from 262144 BCE to 262142 CE); its seconds are the
/// timestamp rounded down to whole seconds (chrono converts with
/// `div_euclid`); year, month and day are those of the proleptic Gregorian
/// calendar for the day of the timestamp, and the weekday counts from Sunday.
#[verifier::external_body]
fn utc_calendar_parts(ms: i64) -> (r: Option<CalendarParts>)
    ensures
        -8_100_000_000_000_000 <= ms <= 8_100_000_000_000_000 ==> r is Some,
        r matches Some(p) ==> {
            &&& p.unix_seconds == ms as int / 1000
            &&& p.year == civil_from_days(unix_day(ms as int)).0
            &&& p.month == civil_from_days(unix_day(ms as int)).1
            &&& p.day == civil_from_days(unix_day(ms as int)).2
            &&& p.weekday_from_sunday == weekday_of_day(unix_day(ms as int))
            &&& -262_143 <= p.year <= 262_142
            &&& 1 <= p.month <= 12
            &&& 1 <= p.day <= 31
            &&& p.weekday_from_sunday < 7
        },
{
    match chrono::Utc.timestamp_millis_opt(ms).single() {
        Some(dt) => Some(
            CalendarParts {
                unix_seconds: dt.timestamp(),
                year: dt.year(),
                month: dt.month(),
                day: dt.day(),
                weekday_from_sunday: dt.weekday().num_days_from_sunday(),
            },
        ),
        None => None,
    }
}

/// Rust's integer division, which rounds toward zero.
pub open spec fn trunc_div(a: int, b: int) -> int
    recommends
        b > 0,
{
    if a >= 0 {
        a / b
    } else {
        -((-a) / b)
    }
}

/// The server day of a millisecond timestamp: days since the epoch, counted
/// from the 05:00 UTC resets (Rust division, which rounds toward zero).
pub open spec fn spec_server_day(ms: int) -> int {
    trunc_div(ms - RESET_OFFSET_MS, DAY_MS as int)
}

/// The calendar fields of the server's local date for a timestamp: those of
/// the UTC moment five hours earlier.
pub open spec fn adjusted_parts(ms: i64) -> CalendarParts {
    let x: int = ms - RESET_OFFSET_MS;
    let c = civil_from_days(unix_day(x));
    CalendarParts {
        unix_seconds: (x / 1000) as i64,
        year: c.0 as i32,
        month: c.1 as u32,
        day: c.2 as u32,
        weekday_from_sunday: weekday_of_day(unix_day(x)) as u32,
    }
}

/// The server week of a timestamp: whole days of the adjusted moment (its
/// whole seconds, rounded down, over 86 400, rounded toward zero), shifted so
/// that weeks start on Monday, divided by seven (Rust division).
pub open spec fn spec_server_week(ms: i64) -> int {
    trunc_div(trunc_div((ms - RESET_OFFSET_MS) / 1000, 86_400) + 3, 7)
}

/// The server month of a timestamp, as `year * 100 + month`.
pub open spec fn spec_server_month(ms: i64) -> int {
    adjusted_parts(ms).year * 100 + adjusted_parts(ms).month
}

/// Moments that have a calendar date here.
pub open spec fn in_calendar_range(ms: i64) -> bool {
    -MAX_TIMESTAMP_MS <= ms <= MAX_TIMESTAMP_MS
}

fn adjusted(ms: i64) -> (p: CalendarParts)
    requires
        in_calendar_range(ms),
    ensures
        p == adjusted_parts(ms),
        p.unix_seconds == (ms - RESET_OFFSET_MS) as int / 1000,
        -262_143 <= p.year <= 262_142,
        1 <= p.month <= 12,
        1 <= p.day <= 31,
        p.weekday_from_sunday < 7,
{
    let r = utc_calendar_parts(ms - RESET_OFFSET_MS);
    match r {
        Some(p) => p,
        None => {
            proof {
                assert(false);
            }
            CalendarParts { unix_seconds: 0, year: 0, month: 1, day: 1, weekday_from_sunday: 0 }
        },
    }
}

/// Declared outside types of `std::time` that the clock readings pass through.
#[verifier::external_type_specification]
#[verifier::external_body]
pub struct ExSystemTime(SystemTime);

/// std's `SystemTime::now()`: the current system time. Nothing is claimed of it.
#[verifier::external_body]
fn system_time_now() -> SystemTime {
    SystemTime::now()
}

/// std's `SystemTime::duration_since(UNIX_EPOCH)`, read as whole seconds
/// and sub-second nanoseconds (`Duration::as_secs`, `Duration::subsec_nanos`);
/// `None` where the clock reads earlier than the epoch. Claimed: the
/// nanoseconds are under one second, as std documents `subsec_nanos`.
#[verifier::external_body]
fn since_unix_epoch(t: SystemTime) -> (r: Option<(u64, u32)>)
    ensures
        r matches Some((_, n)) ==> n < 1_000_000_000,
{
    match t.duration_since(SystemTime::UNIX_EPOCH) {
        Ok(d) => Some((d.as_secs(), d.subsec_nanos())),
        Err(_) => None,
    }
}

/// The whole milliseconds of the longest `Duration` (`u64::MAX` seconds and
/// 999 999 999 nanoseconds).
pub const MAX_DURATION_MILLIS: u128 = 18_446_744_073_709_551_615_999;

/// Milliseconds since the epoch from what the clock gives: the whole
/// milliseconds of `seconds` and `nanoseconds`, or 0 where the clock reads
/// earlier than the epoch.
pub fn millis_or_zero(since: Option<(u64, u32)>) -> (r: u128)
    ensures
        since is None ==> r == 0,
        since matches Some((s, n)) ==> r == s * 1000 + n / 1_000_000,
{
    match since {
        Some((secs, nanos)) => {
            let ms: u128 = (nanos / 1_000_000) as u128;
            secs as u128 * 1000 + ms
        },
        None => 0,
    }
}

/// Milliseconds since the Unix epoch by the system clock, or 0 when the clock
/// reads earlier than the epoch.
pub fn cur_time_ms_u128() -> (r: u128)
    ensures
        r <= MAX_DURATION_MILLIS,
{
    let now = system_time_now();
    millis_or_zero(since_unix_epoch(now))
}

/// A millisecond count as a `u64`, truncated as `as u64` truncates.
pub fn millis_u64(ms: u128) -> (r: u64)
    ensures
        r == ms as u64,
{
    #[verifier::truncate]
    (ms as u64)
}

/// A millisecond count as an `i64`, held at `i64::MAX` past it.
pub fn millis_i64(ms: u128) -> (r: i64)
    ensures
        r == (if ms <= i64::MAX {
            ms as int
        } else {
            i64::MAX as int
        }),
{
    if ms <= i64::MAX as u128 {
        ms as i64
    } else {
        i64::MAX
    }
}

/// Milliseconds since the Unix epoch by the system clock, as a `u64`
/// (truncated as `as u64` truncates), or 0 when the clock reads earlier than
/// the epoch.
pub fn time_ms_u64() -> u64 {
    millis_u64(cur_time_ms_u128())
}

/// The server clock and its calendar: days, weeks and months that begin at
/// the 05:00 UTC reset.
pub struct ServerTime;

impl ServerTime {
    /// The current time in milliseconds since the epoch by the system
    /// clock: 0 where the clock reads earlier than the epoch, and `i64::MAX`
    /// past the largest `i64`.
    pub fn now_ms() -> (r: i64)
        ensures
            r >= 0,
    {
        millis_i64(cur_time_ms_u128())
    }

    /// The server day of `now_ms`.
    pub fn server_day(now_ms: i64) -> (d: i64)
        requires
            now_ms >= i64::MIN + RESET_OFFSET_MS,
        ensures
            d == spec_server_day(now_ms as int),
    {
        (now_ms - RESET_OFFSET_MS) / DAY_MS
    }

    /// The day of the month of the server's date at `timestamp_ms`.
    pub fn day_of_month(timestamp_ms: i64) -> (d: u32)
        requires
            in_calendar_range(timestamp_ms),
        ensures
            d == adjusted_parts(timestamp_ms).day,
            1 <= d <= 31,
    {
        adjusted(timestamp_ms).day
    }

    /// Whether two timestamps fall on the same server day.
    pub fn is_same_day(t1: i64, t2: i64) -> (b: bool)
        requires
            t1 >= i64::MIN + RESET_OFFSET_MS,
            t2 >= i64::MIN + RESET_OFFSET_MS,
        ensures
            b == (spec_server_day(t1 as int) == spec_server_day(t2 as int)),
    {
        Self::server_day(t1) == Self::server_day(t2)
    }

    /// Whether `now` falls on a later (or earlier) server day than `last`.
    pub fn is_new_day(last: i64, now: i64) -> (b: bool)
        requires
            last >= i64::MIN + RESET_OFFSET_MS,
            now >= i64::MIN + RESET_OFFSET_MS,
        ensures
            b == (spec_server_day(last as int) != spec_server_day(now as int)),
    {
        !Self::is_same_day(last, now)
    }

    /// The server week of `timestamp_ms`: weeks start on Monday at the reset.
    pub fn server_week(timestamp_ms: i64) -> (w: i32)
        requires
            in_calendar_range(timestamp_ms),
        ensures
            w == spec_server_week(timestamp_ms),
    {
        let p = adjusted(timestamp_ms);
        let days = p.unix_seconds / 86_400;
        ((days + 3) / 7) as i32
    }

    /// Whether two timestamps fall in the same server week.
    pub fn is_same_week(t1: i64, t2: i64) -> (b: bool)
        requires
            in_calendar_range(t1),
            in_calendar_range(t2),
        ensures
            b == (spec_server_week(t1) == spec_server_week(t2)),
    {
        Self::server_week(t1) == Self::server_week(t2)
    }

    /// The weekday of the server's date, 0 for Sunday to 6 for Saturday.
    pub fn server_weekday(timestamp_ms: i64) -> (w: i32)
        requires
            in_calendar_range(timestamp_ms),
        ensures
            w == adjusted_parts(timestamp_ms).weekday_from_sunday,
            0 <= w < 7,
    {
        adjusted(timestamp_ms).weekday_from_sunday as i32
    }

    /// The month of the server's date as `year * 100 + month`.
    pub fn server_month(timestamp_ms: i64) -> (m: i32)
        requires
            in_calendar_range(timestamp_ms),
        ensures
            m == spec_server_month(timestamp_ms),
    {
        let p = adjusted(timestamp_ms);
        p.year * 100 + p.month as i32
    }

    /// Whether two timestamps fall in the same server month.
    pub fn is_same_month(t1: i64, t2: i64) -> (b: bool)
        requires
            in_calendar_range(t1),
            in_calendar_range(t2),
        ensures
            b == (spec_server_month(t1) == spec_server_month(t2)),
    {
        Self::server_month(t1) == Self::server_month(t2)
    }

    /// The server's date at `now_ms`, or `None` where it lies outside the
    /// range of calendar dates.
    pub fn server_date_at(now_ms: i64) -> (p: Option<CalendarParts>)
        ensures
            p is Some <==> in_calendar_range(now_ms),
            p matches Some(d) ==> d == adjusted_parts(now_ms) && 1 <= d.month <= 12 && 1 <= d.day
                <= 31 && d.weekday_from_sunday < 7,
    {
        if -MAX_TIMESTAMP_MS <= now_ms && now_ms <= MAX_TIMESTAMP_MS {
            Some(adjusted(now_ms))
        } else {
            None
        }
    }

    /// The server's current date, or `None` where the clock reads outside
    /// the range of calendar dates.
    pub fn server_date() -> (p: Option<CalendarParts>)
        ensures
            p matches Some(d) ==> (exists|ms: i64| in_calendar_range(ms) && d == adjusted_parts(ms))
                && 1 <= d.month <= 12 && 1 <= d.day <= 31 && d.weekday_from_sunday < 7,
    {
        let now = Self::now_ms();
        let p = Self::server_date_at(now);
        proof {
            if p is Some {
                assert(in_calendar_range(now) && p->0 == adjusted_parts(now));
            }
        }
        p
    }

    /// The current time in whole seconds, as `as i32` truncates it.
    pub fn now_sec_i32() -> i32 {
        let now = Self::now_ms();
        seconds_i32(now)
    }
}

/// Whole seconds of a millisecond timestamp (Rust division), truncated to
/// 32 bits as `as i32` does.
pub fn seconds_i32(ms: i64) -> (s: i32)
    ensures
        s == (trunc_div(ms as int, 1000) as i32),
{
    let secs = ms / 1000;
    #[verifier::truncate]
    (secs as i32)
}

/// Two moments of the same server day, after the first reset of the epoch,
/// fall in the same server week.
pub proof fn lemma_same_day_same_week(t1: i64, t2: i64)
    requires
        RESET_OFFSET_MS <= t1,
        RESET_OFFSET_MS <= t2,
        spec_server_day(t1 as int) == spec_server_day(t2 as int),
    ensures
        spec_server_week(t1) == spec_server_week(t2),
{
    let x1: int = t1 - RESET_OFFSET_MS;
    let x2: int = t2 - RESET_OFFSET_MS;
    vstd::arithmetic::div_mod::lemma_div_denominator(x1, 1000, 86_400);
    vstd::arithmetic::div_mod::lemma_div_denominator(x2, 1000, 86_400);
    assert(1000 * 86_400 == DAY_MS);
    vstd::arithmetic::div_mod::lemma_div_pos_is_pos(x1, 1000);
    vstd::arithmetic::div_mod::lemma_div_pos_is_pos(x2, 1000);
}

/// Two moments of the same server day, after the first reset of the epoch,
/// have the same server date: year, month, day of the month and weekday,
/// and so the same server month.
pub proof fn lemma_same_day_same_date(t1: i64, t2: i64)
    requires
        RESET_OFFSET_MS <= t1,
        RESET_OFFSET_MS <= t2,
        spec_server_day(t1 as int) == spec_server_day(t2 as int),
    ensures
        adjusted_parts(t1).year == adjusted_parts(t2).year,
        adjusted_parts(t1).month == adjusted_parts(t2).month,
        adjusted_parts(t1).day == adjusted_parts(t2).day,
        adjusted_parts(t1).weekday_from_sunday == adjusted_parts(t2).weekday_from_sunday,
        spec_server_month(t1) == spec_server_month(t2),
{
    assert(unix_day(t1 - RESET_OFFSET_MS) == unix_day(t2 - RESET_OFFSET_MS));
}

} // verus!
