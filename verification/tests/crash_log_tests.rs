use myusage::clock::{instant_in_range_ns, year_digits, LocalDateTime, CHRONO_FIRST_NS, CHRONO_LAST_NS};
use myusage::crash_log::{log_line_at, log_line_now};

#[test]
fn log_line_layout() {
    let t = LocalDateTime { year: 2025, month: 1, day: 2, hour: 3, minute: 4, second: 5 };
    assert_eq!(log_line_at(&t, "panic: boom"), "[2025-01-02 03:04:05] panic: boom\n");
}

#[test]
fn log_line_now_is_stamped() {
    let line = log_line_now("started");
    assert!(line.starts_with('['));
    assert!(line.ends_with("] started\n"));
    // "[YYYY-MM-DD HH:MM:SS] " is 22 characters for years 1000 to 9999.
    assert_eq!(line.chars().count(), 22 + "started\n".len());
    let now = chrono::Local::now().format("%Y-%m-%d").to_string();
    assert!(line[1..11] == now || line[1..5] == now[0..4]);
}

#[test]
fn years() {
    assert_eq!(year_digits(2025), "2025");
    assert_eq!(year_digits(7), "0007");
    assert_eq!(year_digits(-44), "-0044");
    assert_eq!(year_digits(12345), "+12345");
}

#[test]
fn instant_range() {
    assert!(instant_in_range_ns(0));
    assert!(instant_in_range_ns(CHRONO_FIRST_NS));
    assert!(instant_in_range_ns(CHRONO_LAST_NS));
    assert!(!instant_in_range_ns(CHRONO_LAST_NS + 1));
    assert!(!instant_in_range_ns(CHRONO_FIRST_NS - 1));
    assert!(!instant_in_range_ns(i128::MIN));
}
