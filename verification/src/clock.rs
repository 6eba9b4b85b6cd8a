//! Time as the widget shows it: the live countdown to a quota reset and the
//! local date and time of that reset.
//!
//! Instants are nanoseconds since 1970-01-01T00:00:00 UTC, as `chrono`
//! keeps them (whole seconds plus nanoseconds). The clock and the machine's
//! time zone are read through `chrono`.

use vstd::arithmetic::div_mod::{lemma_fundamental_div_mod, lemma_fundamental_div_mod_converse};
use vstd::prelude::*;

use crate::text::{decimal_value, lemma_zero_padded_reads_back, zero_padded, zero_padded_text};

verus! {

/// Nanoseconds in a second.
pub const NANOS_PER_SEC: i128 = 1_000_000_000;

/// First instant (ns) that `chrono` can hold as a `DateTime`: the start of
/// its first day, 1 January of year -262143.
pub const CHRONO_FIRST_NS: i128 = -8_334_601_228_800_000_000_000;

/// First instant that `chrono` can hold, in whole seconds.
pub const CHRONO_FIRST_SECS: i128 = -8_334_601_228_800;

/// Last instant (ns) that `chrono` can hold as a `DateTime`: the last
/// nanosecond of 31 December 262142.
pub const CHRONO_LAST_NS: i128 = 8_210_266_876_799_999_999_999;

/// An instant that `chrono` can hold, and so show as a local date and time.
pub open spec fn instant_in_range(ns: int) -> bool {
    CHRONO_FIRST_NS <= ns <= CHRONO_LAST_NS
}

/// Whether `chrono` can hold the instant `ns`.
pub fn instant_in_range_ns(ns: i128) -> (b: bool)
    ensures
        b == instant_in_range(ns as int),
{
    CHRONO_FIRST_NS <= ns && ns <= CHRONO_LAST_NS
}

/// A calendar date and wall-clock time in the machine's time zone.
#[derive(Clone, Copy, Debug, PartialEq, Eq, Structural)]
pub struct LocalDateTime {
    pub year: i32,
    /// 1 to 12.
    pub month: u32,
    /// 1 to 31.
    pub day: u32,
    /// 0 to 23.
    pub hour: u32,
    /// 0 to 59.
    pub minute: u32,
    /// 0 to 59.
    pub second: u32,
}

/// Year, month and day of the proleptic Gregorian calendar for the day
/// `days` after 1970-01-01 (negative before it).
pub open spec fn civil_from_days(days: int) -> (int, int, int) {
    let z = days + 719468;
    let era = z / 146097;
    let doe = z - era * 146097;
    let yoe = (doe - doe / 1460 + doe / 36524 - doe / 146096) / 365;
    let doy = doe - (365 * yoe + yoe / 4 - yoe / 100);
    let mp = (5 * doy + 2) / 153;
    let day = doy - (153 * mp + 2) / 5 + 1;
    let month = if mp < 10 {
        mp + 3
    } else {
        mp - 9
    };
    let year = yoe + era * 400 + if month <= 2 {
        1int
    } else {
        0int
    };
    (year, month, day)
}

/// Whether `y` is a leap year of the proleptic Gregorian calendar: divisible
/// by 4, and not by 100 unless by 400.
pub open spec fn is_leap_year(y: int) -> bool {
    (y % 4 == 0 && y % 100 != 0) || y % 400 == 0
}

/// Number of days in month `m` (1 to 12) of year `y`.
pub open spec fn days_in_month(y: int, m: int) -> int {
    if m == 2 {
        if is_leap_year(y) {
            29
        } else {
            28
        }
    } else if m == 4 || m == 6 || m == 9 || m == 11 {
        30
    } else {
        31
    }
}

/// A count of the leap years before year `y`, up to a constant: the number
/// of leap years in the years `a` up to `b - 1` is
/// `leap_years_before(b) - leap_years_before(a)`.
pub open spec fn leap_years_before(y: int) -> int {
    (y - 1) / 4 - (y - 1) / 100 + (y - 1) / 400
}

/// Days in year `y` before the first of month `m` (1 to 12).
pub open spec fn days_before_month(y: int, m: int) -> int {
    let common = if m == 1 {
        0int
    } else if m == 2 {
        31
    } else if m == 3 {
        59
    } else if m == 4 {
        90
    } else if m == 5 {
        120
    } else if m == 6 {
        151
    } else if m == 7 {
        181
    } else if m == 8 {
        212
    } else if m == 9 {
        243
    } else if m == 10 {
        273
    } else if m == 11 {
        304
    } else {
        334
    };
    common + if m > 2 && is_leap_year(y) {
        1int
    } else {
        0int
    }
}

/// The day count, from 1970-01-01, of the date `d`/`m`/`y`: 365 days for
/// each year since 1970, one more for each leap year among them, the days
/// of the earlier months of `y`, and the days of `m` before `d`.
pub open spec fn days_from_civil(y: int, m: int, d: int) -> int {
    365 * (y - 1970) + leap_years_before(y) - leap_years_before(1970) + days_before_month(y, m) + d
        - 1
}

proof fn lemma_year_of_era(doe: int)
    requires
        0 <= doe < 146097,
    ensures
        ({
            let yoe = (doe - doe / 1460 + doe / 36524 - doe / 146096) / 365;
            let doy = doe - (365 * yoe + yoe / 4 - yoe / 100);
            &&& 0 <= yoe <= 399
            &&& 0 <= doy <= 365
            &&& doy == 365 ==> (yoe + 1) % 4 == 0 && ((yoe + 1) % 100 != 0 || yoe == 399)
        }),
{
}

proof fn lemma_leap_count_step(y: int)
    ensures
        leap_years_before(y + 1) == leap_years_before(y) + if is_leap_year(y) {
            1int
        } else {
            0int
        },
{
}

proof fn lemma_leap_count_in_era(era: int, yoe: int)
    requires
        0 <= yoe <= 399,
    ensures
        leap_years_before(400 * era + yoe + 1) == 97 * era + yoe / 4 - yoe / 100,
{
}

proof fn lemma_leap_in_era(era: int, yoe: int)
    requires
        0 <= yoe <= 399,
        (yoe + 1) % 4 == 0 && ((yoe + 1) % 100 != 0 || yoe == 399),
    ensures
        is_leap_year(400 * era + yoe + 1),
{
}

/// `civil_from_days` is the proleptic Gregorian calendar: every day count
/// gives a real date (a month from 1 to 12 and a day that the month has),
/// and counting the days up to that date from 1970-01-01, year by year and
/// month by month, gives the day count back.
pub proof fn lemma_civil_from_days_is_calendar(days: int)
    ensures
        ({
            let date = civil_from_days(days);
            &&& 1 <= date.1 <= 12
            &&& 1 <= date.2 <= days_in_month(date.0, date.1)
            &&& days_from_civil(date.0, date.1, date.2) == days
            &&& -1_000_000_000 <= days <= 1_000_000_000 ==> -10_000_000 <= date.0 <= 10_000_000
        }),
{
    let z = days + 719468;
    let era = z / 146097;
    let doe = z - era * 146097;
    lemma_fundamental_div_mod(z, 146097);
    lemma_year_of_era(doe);
    if -1_000_000_000 <= days <= 1_000_000_000 {
        assert(-20_000 <= era <= 20_000) by (nonlinear_arith)
            requires
                z == 146097 * era + doe,
                0 <= doe < 146097,
                -2_000_000_000 <= z <= 2_000_000_000,
        ;
    }
    let yoe = (doe - doe / 1460 + doe / 36524 - doe / 146096) / 365;
    let doy = doe - (365 * yoe + yoe / 4 - yoe / 100);
    let mp = (5 * doy + 2) / 153;
    let y0 = yoe + era * 400;
    lemma_leap_count_in_era(era, yoe);
    lemma_leap_count_step(y0);
    if doy == 365 {
        lemma_leap_in_era(era, yoe);
    }
    assert(leap_years_before(1970) == 477);
    let date = civil_from_days(days);
    assert(0 <= mp <= 11);
    if mp == 0 {
        assert(date == (y0, 3int, doy + 1));
    } else if mp == 1 {
        assert(date == (y0, 4int, doy - 30));
    } else if mp == 2 {
        assert(date == (y0, 5int, doy - 60));
    } else if mp == 3 {
        assert(date == (y0, 6int, doy - 91));
    } else if mp == 4 {
        assert(date == (y0, 7int, doy - 121));
    } else if mp == 5 {
        assert(date == (y0, 8int, doy - 152));
    } else if mp == 6 {
        assert(date == (y0, 9int, doy - 183));
    } else if mp == 7 {
        assert(date == (y0, 10int, doy - 213));
    } else if mp == 8 {
        assert(date == (y0, 11int, doy - 244));
    } else if mp == 9 {
        assert(date == (y0, 12int, doy - 274));
    } else if mp == 10 {
        assert(date == (y0 + 1, 1int, doy - 305));
    } else {
        assert(date == (y0 + 1, 2int, doy - 336));
    }
}

/// Calendar fields of the instant `ns` seen at a time-zone offset of
/// `offset_secs` seconds east of UTC: the whole second of `ns`, shifted by
/// the offset, split into a day and a time of day.
pub open spec fn shifted_fields(ns: int, offset_secs: int) -> LocalDateTime {
    let secs = ns / 1_000_000_000 + offset_secs;
    let days = secs / 86400;
    let of_day = secs % 86400;
    let date = civil_from_days(days);
    LocalDateTime {
        year: date.0 as i32,
        month: date.1 as u32,
        day: date.2 as u32,
        hour: (of_day / 3600) as u32,
        minute: ((of_day % 3600) / 60) as u32,
        second: (of_day % 60) as u32,
    }
}

/// The local date and time of an instant is a real calendar date and time
/// of day, and it counts exactly the seconds of the instant shifted by the
/// offset: the days from 1970-01-01 to the date, times 86 400, plus the
/// hours, minutes and seconds of the time of day, give the whole seconds of
/// `ns` plus `offset_secs`.
pub proof fn lemma_local_time_is_calendar(ns: int, offset_secs: int)
    requires
        instant_in_range(ns),
        -86_400 < offset_secs < 86_400,
    ensures
        ({
            let t = shifted_fields(ns, offset_secs);
            &&& 1 <= t.month <= 12
            &&& 1 <= t.day <= days_in_month(t.year as int, t.month as int)
            &&& t.hour < 24
            &&& t.minute < 60
            &&& t.second < 60
            &&& days_from_civil(t.year as int, t.month as int, t.day as int) * 86400 + t.hour * 3600
                + t.minute * 60 + t.second == ns / 1_000_000_000 + offset_secs
        }),
{
    let whole = ns / 1_000_000_000;
    assert(-9_000_000_000_000 <= whole <= 9_000_000_000_000) by (nonlinear_arith)
        requires
            whole == ns / 1_000_000_000,
            -9_000_000_000_000_000_000_000 <= ns <= 9_000_000_000_000_000_000_000,
    ;
    let secs = whole + offset_secs;
    let days = secs / 86400;
    let of_day = secs % 86400;
    lemma_fundamental_div_mod(secs, 86400);
    assert(-200_000_000 <= days <= 200_000_000) by (nonlinear_arith)
        requires
            secs == 86400 * days + of_day,
            0 <= of_day < 86400,
            -9_100_000_000_000 <= secs <= 9_100_000_000_000,
    ;
    lemma_civil_from_days_is_calendar(days);
    let date = civil_from_days(days);
    let t = shifted_fields(ns, offset_secs);
    assert(t.year as int == date.0);
    assert(t.month as int == date.1);
    assert(t.day as int == date.2);
    assert((of_day / 3600) * 3600 + ((of_day % 3600) / 60) * 60 + of_day % 60 == of_day);
}

/// An instant together with the offset from UTC at which it is shown, as a
/// `chrono::DateTime<Local>` carries it: the offset is the one the time
/// zone gave when the instant was made.
#[derive(Clone, Copy, Debug, PartialEq, Eq, Structural)]
pub struct ZonedInstant {
    /// Nanoseconds since 1970-01-01T00:00:00 UTC.
    pub ns: i128,
    /// Seconds east of UTC.
    pub offset_secs: i32,
}

/// An instant that `chrono` can hold, at an offset that
/// `chrono::FixedOffset` accepts (less than a day either way).
pub open spec fn zoned_in_range(z: ZonedInstant) -> bool {
    &&& instant_in_range(z.ns as int)
    &&& -86_400 < z.offset_secs < 86_400
}

impl ZonedInstant {
    /// Whether `chrono` can hold the instant and accept the offset.
    pub fn in_range(&self) -> (b: bool)
        ensures
            b == zoned_in_range(*self),
    {
        instant_in_range_ns(self.ns) && -86_400 < self.offset_secs && self.offset_secs < 86_400
    }
}

/// Reads the system clock once through `chrono::Local::now` and returns
/// that instant as whole seconds (`DateTime::timestamp`) and nanoseconds
/// (`DateTime::timestamp_subsec_nanos`), together with the offset from UTC
/// it carries (`FixedOffset::local_minus_utc`). The contract claims what
/// `chrono`'s source shows of every outcome: `Utc::now` panics on a clock
/// before 1970 and builds the instant from a `Duration`, so the seconds are
/// not negative and the nanoseconds below a second; the instant lies in the
/// range `chrono` can hold; the offset is one that `FixedOffset::east_opt`
/// accepts. Which instant and which offset come back depends on the clock
/// and the machine's time zone and is not stated.
#[verifier::external_body]
pub(crate) fn local_now() -> (now: (i64, u32, i32))
    ensures
        0 <= now.0,
        now.1 < NANOS_PER_SEC,
        instant_in_range(now.0 * NANOS_PER_SEC + now.1),
        -86_400 < now.2 < 86_400,
{
    let dt = chrono::Local::now();
    (dt.timestamp(), dt.timestamp_subsec_nanos(), dt.offset().local_minus_utc())
}

/// Floor division and remainder of `a` by `m`: `a == q * m + r` with
/// `0 <= r < m`.
fn floor_div_mod(a: i128, m: i128) -> (qr: (i128, i128))
    requires
        0 < m <= 1_000_000_000,
        -1_000_000_000_000_000_000_000_000_000_000 <= a <= 1_000_000_000_000_000_000_000_000_000_000,
    ensures
        qr.0 == a as int / m as int,
        qr.1 == a as int % m as int,
        0 <= qr.1 < m,
{
    let mu: u128 = m as u128;
    if a >= 0 {
        let au: u128 = a as u128;
        let q: u128 = au / mu;
        let r: u128 = au % mu;
        proof {
            assert(au == q * mu + r && r < mu) by (nonlinear_arith)
                requires
                    q == au / mu,
                    r == au % mu,
                    mu > 0,
            ;
            lemma_fundamental_div_mod_converse(a as int, m as int, q as int, r as int);
        }
        (q as i128, r as i128)
    } else {
        let b: u128 = (-(a + 1)) as u128;
        let q: u128 = b / mu;
        let r: u128 = b % mu;
        proof {
            assert(b == q * mu + r && r < mu) by (nonlinear_arith)
                requires
                    q == b / mu,
                    r == b % mu,
                    mu > 0,
            ;
            assert(q <= b) by (nonlinear_arith)
                requires
                    b == q * mu + r,
                    mu >= 1,
                    r >= 0,
            ;
            assert(a == (-(q as int) - 1) * m + (m - 1 - r)) by (nonlinear_arith)
                requires
                    a == -(b + 1),
                    b == q * mu + r,
                    mu == m,
            ;
            lemma_fundamental_div_mod_converse(a as int, m as int, -(q as int) - 1, m - 1 - r);
        }
        (-(q as i128) - 1, m - 1 - (r as i128))
    }
}

/// Year, month and day of the day `days` after 1970-01-01.
fn civil_from_days_exec(days: i128) -> (date: (i128, i128, i128))
    requires
        -1_000_000_000 <= days <= 1_000_000_000,
    ensures
        date.0 as int == civil_from_days(days as int).0,
        date.1 as int == civil_from_days(days as int).1,
        date.2 as int == civil_from_days(days as int).2,
{
    let z = days + 719468;
    let (era, doe) = floor_div_mod(z, 146097);
    proof {
        lemma_fundamental_div_mod(z as int, 146097);
        assert(-20_000 <= era <= 20_000) by (nonlinear_arith)
            requires
                z == 146097 * era + doe,
                0 <= doe < 146097,
                -2_000_000_000 <= z <= 2_000_000_000,
        ;
    }
    let yoe = (doe - doe / 1460 + doe / 36524 - doe / 146096) / 365;
    let doy = doe - (365 * yoe + yoe / 4 - yoe / 100);
    let mp = (5 * doy + 2) / 153;
    let day = doy - (153 * mp + 2) / 5 + 1;
    let month = if mp < 10 {
        mp + 3
    } else {
        mp - 9
    };
    let year = yoe + era * 400 + if month <= 2 {
        1
    } else {
        0
    };
    (year, month, day)
}

/// Local date and time of the instant `z.ns` at the offset `z.offset_secs`,
/// which is what `chrono` shows for a `DateTime<Local>` (its
/// `overflowing_naive_local`: the UTC date-time plus the stored offset).
pub fn local_time_at(z: &ZonedInstant) -> (t: LocalDateTime)
    requires
        zoned_in_range(*z),
    ensures
        t == shifted_fields(z.ns as int, z.offset_secs as int),
        1 <= t.month <= 12,
        1 <= t.day <= days_in_month(t.year as int, t.month as int),
        t.hour < 24,
        t.minute < 60,
        t.second < 60,
        days_from_civil(t.year as int, t.month as int, t.day as int) * 86400 + t.hour * 3600 + t.minute
            * 60 + t.second == z.ns as int / 1_000_000_000 + z.offset_secs as int,
{
    proof {
        lemma_local_time_is_calendar(z.ns as int, z.offset_secs as int);
    }
    let (whole_secs, _) = floor_div_mod(z.ns, NANOS_PER_SEC);
    proof {
        assert(-9_000_000_000_000 <= whole_secs <= 9_000_000_000_000) by (nonlinear_arith)
            requires
                whole_secs == z.ns as int / 1_000_000_000,
                -9_000_000_000_000_000_000_000 <= z.ns <= 9_000_000_000_000_000_000_000,
        ;
    }
    let secs = whole_secs + (z.offset_secs as i128);
    let (days, of_day) = floor_div_mod(secs, 86400);
    proof {
        assert(-200_000_000 <= days <= 200_000_000) by (nonlinear_arith)
            requires
                days == secs as int / 86400,
                -9_100_000_000_000 <= secs <= 9_100_000_000_000,
        ;
    }
    let date = civil_from_days_exec(days);
    LocalDateTime {
        year: date.0 as i32,
        month: date.1 as u32,
        day: date.2 as u32,
        hour: (of_day / 3600) as u32,
        minute: ((of_day % 3600) / 60) as u32,
        second: (of_day % 60) as u32,
    }
}

/// Two-digit zero-padded field, as `chrono` writes `%H`, `%M`, `%S`, `%d`, `%m`.
pub open spec fn two_digits(n: nat) -> Seq<char> {
    zero_padded(n, 2)
}

/// The year as `chrono` writes `%Y`: four digits, zero-padded, for years 0
/// to 9999; otherwise a sign and at least four digits.
pub open spec fn year_text(y: int) -> Seq<char> {
    if 0 <= y <= 9999 {
        zero_padded(y as nat, 4)
    } else if y > 9999 {
        seq!['+'] + zero_padded(y as nat, 4)
    } else {
        seq!['-'] + zero_padded((-y) as nat, 4)
    }
}

/// `HH:MM:SS DD/MM/YYYY`, the layout `%H:%M:%S %d/%m/%Y`.
pub open spec fn date_time(t: LocalDateTime) -> Seq<char> {
    two_digits(t.hour as nat) + seq![':'] + two_digits(t.minute as nat) + seq![':'] + two_digits(
        t.second as nat,
    ) + seq![' '] + two_digits(t.day as nat) + seq!['/'] + two_digits(t.month as nat) + seq!['/']
        + year_text(t.year as int)
}

/// Whole seconds left on a countdown of `remaining_ns` nanoseconds, as
/// `TimeDelta::num_seconds` counts them; an instant that has passed leaves
/// none.
pub open spec fn whole_seconds_left(remaining_ns: int) -> nat {
    if remaining_ns <= 0 {
        0
    } else {
        (remaining_ns / 1_000_000_000) as nat
    }
}

/// `HH:MM:SS` for `secs` seconds: hours (two digits or more), minutes and
/// seconds.
pub open spec fn clock_text(secs: nat) -> Seq<char> {
    two_digits(secs / 3600) + seq![':'] + two_digits((secs % 3600) / 60) + seq![':'] + two_digits(
        secs % 60,
    )
}

/// The countdown shown for `remaining_ns` nanoseconds until a reset.
pub open spec fn countdown(remaining_ns: int) -> Seq<char> {
    clock_text(whole_seconds_left(remaining_ns))
}

/// Once the reset has passed, the countdown reads `00:00:00`.
pub proof fn lemma_passed_reset_reads_zero(remaining_ns: int)
    requires
        remaining_ns < 1_000_000_000,
    ensures
        countdown(remaining_ns) == "00:00:00"@,
{
    reveal_strlit("00:00:00");
    assert(two_digits(0) =~= seq!['0', '0']);
    assert(countdown(remaining_ns) =~= "00:00:00"@);
}

/// The countdown shows exactly the whole seconds left: its hours, minutes
/// and seconds add back up to them, with minutes and seconds below 60.
pub proof fn lemma_countdown_fields_add_up(remaining_ns: int)
    ensures
        ({
            let secs = whole_seconds_left(remaining_ns);
            &&& (secs / 3600) * 3600 + ((secs % 3600) / 60) * 60 + secs % 60 == secs
            &&& (secs % 3600) / 60 < 60
            &&& secs % 60 < 60
            &&& remaining_ns > 0 ==> secs * 1_000_000_000 <= remaining_ns < secs * 1_000_000_000
                + 1_000_000_000
        }),
{
    let secs = whole_seconds_left(remaining_ns);
    assert((secs / 3600) * 3600 + ((secs % 3600) / 60) * 60 + secs % 60 == secs) by (nonlinear_arith);
    assert((secs % 3600) / 60 < 60) by (nonlinear_arith);
    if remaining_ns > 0 {
        assert(secs * 1_000_000_000 <= remaining_ns < secs * 1_000_000_000 + 1_000_000_000)
            by (nonlinear_arith)
            requires
                secs == remaining_ns / 1_000_000_000,
                remaining_ns > 0,
        ;
    }
}

/// Reading the countdown back gives the time left: its hours, minutes and
/// seconds fields, read as numbers, add up to the whole seconds between now
/// and the reset (none once it has passed), with no wrap at a day; minutes
/// and seconds are two digits below 60, hours at least two digits.
pub proof fn lemma_countdown_reads_back(remaining_ns: int)
    ensures
        ({
            let c = countdown(remaining_ns);
            let h = c.len() - 6;
            &&& h >= 2
            &&& c[h] == ':'
            &&& c[h + 3] == ':'
            &&& decimal_value(c.subrange(h + 1, h + 3)) < 60
            &&& decimal_value(c.subrange(h + 4, h + 6)) < 60
            &&& decimal_value(c.subrange(0, h)) * 3600 + decimal_value(c.subrange(h + 1, h + 3)) * 60
                + decimal_value(c.subrange(h + 4, h + 6)) == if remaining_ns <= 0 {
                0
            } else {
                remaining_ns / 1_000_000_000
            }
        }),
{
    let secs = whole_seconds_left(remaining_ns);
    let hh = secs / 3600;
    let mm = (secs % 3600) / 60;
    let ss = secs % 60;
    lemma_countdown_fields_add_up(remaining_ns);
    lemma_zero_padded_reads_back(hh, 2);
    lemma_zero_padded_reads_back(mm, 2);
    lemma_zero_padded_reads_back(ss, 2);
    let a = two_digits(hh);
    let b = two_digits(mm);
    let e = two_digits(ss);
    let c = countdown(remaining_ns);
    assert(c == a + seq![':'] + b + seq![':'] + e);
    let h = a.len() as int;
    assert(c.subrange(0, h) =~= a);
    assert(c.subrange(h + 1, h + 3) =~= b);
    assert(c.subrange(h + 4, h + 6) =~= e);
}

/// Appends `n` as two or more zero-padded digits.
pub(crate) fn append_two_digits(out: &mut String, n: u128)
    ensures
        final(out)@ == old(out)@ + two_digits(n as nat),
{
    let d = zero_padded_text(n, 2);
    out.append(d.as_str());
}

/// The year `y` as `chrono` writes `%Y`.
pub fn year_digits(y: i32) -> (s: String)
    ensures
        s@ == year_text(y as int),
{
    if 0 <= y && y <= 9999 {
        zero_padded_text(y as u128, 4)
    } else if y > 9999 {
        proof { reveal_strlit("+"); }
        let mut s = String::from_str("+");
        let d = zero_padded_text(y as u128, 4);
        s.append(d.as_str());
        s
    } else {
        proof { reveal_strlit("-"); }
        let mut s = String::from_str("-");
        let magnitude: u128 = (-(y as i64)) as u128;
        let d = zero_padded_text(magnitude, 4);
        s.append(d.as_str());
        s
    }
}

fn append_year(out: &mut String, y: i32)
    ensures
        final(out)@ == old(out)@ + year_text(y as int),
{
    let d = year_digits(y);
    out.append(d.as_str());
}

/// `t` written as `HH:MM:SS DD/MM/YYYY`.
pub fn date_time_text(t: &LocalDateTime) -> (s: String)
    ensures
        s@ == date_time(*t),
{
    proof {
        reveal_strlit(":");
        reveal_strlit(" ");
        reveal_strlit("/");
    }
    let mut s = String::new();
    append_two_digits(&mut s, t.hour as u128);
    s.append(":");
    append_two_digits(&mut s, t.minute as u128);
    s.append(":");
    append_two_digits(&mut s, t.second as u128);
    s.append(" ");
    append_two_digits(&mut s, t.day as u128);
    s.append("/");
    append_two_digits(&mut s, t.month as u128);
    s.append("/");
    append_year(&mut s, t.year);
    s
}

/// The countdown text for `remaining_ns` nanoseconds until a reset:
/// `00:00:00` once the reset has passed, else the whole seconds left as
/// hours, minutes and seconds.
pub fn countdown_text(remaining_ns: i128) -> (s: String)
    ensures
        s@ == countdown(remaining_ns as int),
{
    let secs: u128 = if remaining_ns <= 0 {
        0
    } else {
        (remaining_ns as u128) / 1_000_000_000
    };
    proof { reveal_strlit(":"); }
    let mut s = String::new();
    append_two_digits(&mut s, secs / 3600);
    s.append(":");
    append_two_digits(&mut s, (secs % 3600) / 60);
    s.append(":");
    append_two_digits(&mut s, secs % 60);
    s
}

/// The instant the system clock reads now. The clock is read once; whatever
/// it reads, the instant is not before 1970 and lies in the range `chrono`
/// can hold.
pub fn now_ns() -> (ns: i128)
    ensures
        0 <= ns,
        instant_in_range(ns as int),
{
    let now = local_now();
    (now.0 as i128) * NANOS_PER_SEC + (now.1 as i128)
}

/// Nanoseconds from the current time of the system clock to `reset_at_ns`
/// (negative once it has passed). The clock is read once; whatever it
/// reads, the result is `reset_at_ns` minus an instant that is not before
/// 1970 and that `chrono` can hold.
pub fn remaining_until(reset_at_ns: i128) -> (remaining_ns: i128)
    requires
        instant_in_range(reset_at_ns as int),
    ensures
        0 <= reset_at_ns - remaining_ns,
        instant_in_range(reset_at_ns - remaining_ns),
{
    let now = now_ns();
    reset_at_ns - now
}

/// The countdown to `reset_at_ns` from the current time of the system
/// clock. The clock is read once; whatever it reads, the text is the
/// countdown from an instant that is not before 1970 and that `chrono` can
/// hold.
pub fn fmt_countdown(reset_at_ns: i128) -> (s: String)
    requires
        instant_in_range(reset_at_ns as int),
    ensures
        exists|remaining_ns: int|
            0 <= reset_at_ns - remaining_ns && instant_in_range(reset_at_ns - remaining_ns)
                && #[trigger] countdown(remaining_ns) == s@,
{
    let remaining = remaining_until(reset_at_ns);
    let s = countdown_text(remaining);
    assert(countdown(remaining as int) == s@);
    s
}

} // verus!
