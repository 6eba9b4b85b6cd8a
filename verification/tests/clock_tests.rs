use chrono::{DateTime, FixedOffset, Local, Offset, TimeZone};
use myusage::clock::{
    countdown_text, date_time_text, fmt_countdown, local_time_at, now_ns, remaining_until,
    LocalDateTime, ZonedInstant, CHRONO_FIRST_NS, CHRONO_LAST_NS,
};

const SEC: i128 = 1_000_000_000;

fn at(year: i32, month: u32, day: u32, hour: u32, minute: u32, second: u32) -> LocalDateTime {
    LocalDateTime { year, month, day, hour, minute, second }
}

#[test]
fn countdown_of_a_passed_reset_is_zero() {
    assert_eq!(countdown_text(0), "00:00:00");
    assert_eq!(countdown_text(-5 * SEC), "00:00:00");
    assert_eq!(countdown_text(i128::MIN), "00:00:00");
}

#[test]
fn countdown_drops_partial_seconds() {
    assert_eq!(countdown_text(1), "00:00:00");
    assert_eq!(countdown_text(SEC - 1), "00:00:00");
    assert_eq!(countdown_text(SEC), "00:00:01");
    assert_eq!(countdown_text(60 * SEC - 1), "00:00:59");
}

#[test]
fn countdown_fields() {
    assert_eq!(countdown_text(3_723 * SEC), "01:02:03");
    assert_eq!(countdown_text(5 * 3_600 * SEC), "05:00:00");
    assert_eq!(countdown_text(7 * 24 * 3_600 * SEC), "168:00:00");
    assert_eq!(countdown_text(86_399 * SEC), "23:59:59");
}

#[test]
fn countdown_matches_chrono_durations() {
    for ns in [1_234_567_890_i64, 98_765_432_100_000, 3_599_999_999_999, 360_000_000_000_000_000] {
        let d = chrono::Duration::nanoseconds(ns);
        let total_secs = d.num_seconds();
        let (h, m, s) = (total_secs / 3600, (total_secs % 3600) / 60, total_secs % 60);
        assert_eq!(countdown_text(ns as i128), format!("{h:02}:{m:02}:{s:02}"));
    }
}

#[test]
fn date_time_layout() {
    assert_eq!(date_time_text(&at(2024, 3, 7, 9, 5, 1)), "09:05:01 07/03/2024");
    assert_eq!(date_time_text(&at(1999, 12, 31, 23, 59, 59)), "23:59:59 31/12/1999");
}

#[test]
fn date_time_years_like_chrono() {
    assert_eq!(date_time_text(&at(999, 1, 1, 0, 0, 0)), "00:00:00 01/01/0999");
    assert_eq!(date_time_text(&at(0, 1, 1, 0, 0, 0)), "00:00:00 01/01/0000");
    assert_eq!(date_time_text(&at(-1, 1, 1, 0, 0, 0)), "00:00:00 01/01/-0001");
    assert_eq!(date_time_text(&at(10_000, 1, 1, 0, 0, 0)), "00:00:00 01/01/+10000");
    assert_eq!(date_time_text(&at(-262_143, 1, 1, 0, 0, 0)), "00:00:00 01/01/-262143");
}

fn zoned<Tz: TimeZone>(dt: &DateTime<Tz>) -> ZonedInstant {
    ZonedInstant {
        ns: dt.timestamp() as i128 * SEC + dt.timestamp_subsec_nanos() as i128,
        offset_secs: dt.offset().fix().local_minus_utc(),
    }
}

#[test]
fn date_time_agrees_with_chrono_local() {
    let dt = Local.timestamp_opt(1_700_000_000, 123_456_789).unwrap();
    assert_eq!(
        date_time_text(&local_time_at(&zoned(&dt))),
        dt.format("%H:%M:%S %d/%m/%Y").to_string()
    );
}

#[test]
fn date_time_agrees_with_chrono_at_fixed_offsets() {
    let instants = [
        0_i128,
        -1,
        -86_400 * SEC - 1,
        951_782_400 * SEC, // 2000-02-29
        4_107_542_399 * SEC + 999_999_999,
        -62_135_596_800 * SEC, // 0001-01-01
        -62_135_596_801 * SEC,
        CHRONO_FIRST_NS,
        CHRONO_LAST_NS,
    ];
    for ns in instants {
        for offset in [-86_399, -36_000, -1, 0, 1, 19_800, 50_400, 86_399] {
            let tz = FixedOffset::east_opt(offset).unwrap();
            let dt = tz
                .timestamp_opt(ns.div_euclid(SEC) as i64, ns.rem_euclid(SEC) as u32)
                .unwrap();
            let z = ZonedInstant { ns, offset_secs: offset };
            assert_eq!(
                date_time_text(&local_time_at(&z)),
                dt.format("%H:%M:%S %d/%m/%Y").to_string(),
                "{ns} {offset}"
            );
        }
    }
}

#[test]
fn local_time_fields() {
    // 2023-11-14T22:13:20Z seen at UTC+07:00.
    let t = local_time_at(&ZonedInstant { ns: 1_700_000_000 * SEC, offset_secs: 7 * 3600 });
    assert_eq!(t, at(2023, 11, 15, 5, 13, 20));
    // The offset the instant carries is used, not the machine's.
    let t = local_time_at(&ZonedInstant { ns: 1_700_000_000 * SEC, offset_secs: -5 * 3600 });
    assert_eq!(t, at(2023, 11, 14, 17, 13, 20));
}

#[test]
fn remaining_reads_the_clock() {
    // The epoch has long passed.
    assert!(remaining_until(0) < -1_600_000_000 * SEC);
    assert!(now_ns() > 1_600_000_000 * SEC);
}

#[test]
fn countdown_from_now() {
    assert_eq!(fmt_countdown(0), "00:00:00");
    let text = fmt_countdown(now_ns() + (2 * 3_600 + 30) * SEC);
    assert!(text == "02:00:29" || text == "02:00:28", "{text}");
}
