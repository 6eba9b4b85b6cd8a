use myusage::autostart::startup_command_text;
use myusage::cli::{parse_args, Mode};
use myusage::config::{settings_or_default, Config, DEFAULT_REFRESH_INTERVAL_SECS};
use myusage::provider::{roll_window, session_note_text};
use myusage::single_instance::is_only_instance;
use myusage::taskbar::{notify_area_rect, taskbar_rect, Rect};
use myusage::theme::{dark_mode_from_setting, is_dark_mode};

#[test]
fn rect_extent() {
    let r = Rect { left: 0, top: 1032, right: 1920, bottom: 1080 };
    assert_eq!(r.width(), 1920);
    assert_eq!(r.height(), 48);
    assert!(r.is_horizontal());
    let v = Rect { left: -60, top: 0, right: 0, bottom: 1080 };
    assert_eq!(v.width(), 60);
    assert!(!v.is_horizontal());
    let square = Rect { left: 0, top: 0, right: 10, bottom: 10 };
    assert!(square.is_horizontal());
}

#[test]
fn no_taskbar_without_the_shell() {
    assert_eq!(taskbar_rect(), None);
    assert_eq!(notify_area_rect(), None);
}

#[test]
fn theme_setting() {
    assert!(dark_mode_from_setting(Some(0)));
    assert!(!dark_mode_from_setting(Some(1)));
    assert!(!dark_mode_from_setting(Some(7)));
    assert!(dark_mode_from_setting(None));
    assert!(is_dark_mode());
}

#[test]
fn default_settings() {
    assert_eq!(Config::default().refresh_interval_secs, 30);
    assert_eq!(DEFAULT_REFRESH_INTERVAL_SECS, 30);
    assert_eq!(settings_or_default(None), Config { refresh_interval_secs: 30 });
    assert_eq!(
        settings_or_default(Some(Config { refresh_interval_secs: 5 })),
        Config { refresh_interval_secs: 5 }
    );
}

#[test]
fn startup_command_runs_hidden() {
    let cmd = startup_command_text("C:\\Users\\me\\AppData\\Local\\MyUsage\\bin\\myusage.exe");
    assert_eq!(cmd, "\"C:\\Users\\me\\AppData\\Local\\MyUsage\\bin\\myusage.exe\" --tray");
    let flag = cmd.rsplit(' ').next().unwrap().to_string();
    assert_eq!(parse_args(&[flag]), Mode::Gui { start_hidden: true });
}

#[test]
fn quota_window_rolls_when_due() {
    assert_eq!(roll_window(1_000, 1_000, 500), Some(1_500));
    assert_eq!(roll_window(2_000, 1_000, 500), Some(2_500));
    assert_eq!(roll_window(999, 1_000, 500), None);
}

#[test]
fn rolled_window_stays_ahead_and_settles() {
    let now = 10_000;
    let next = roll_window(now, 9_000, 5 * 3_600_000).unwrap();
    assert!(next > now);
    assert_eq!(roll_window(now, next, 5 * 3_600_000), None);
}

#[test]
fn session_notes() {
    assert_eq!(
        session_note_text(true, "/home/me/.codex"),
        "พบ session ของ CLI ที่ /home/me/.codex แต่ยังไม่มี API สาธารณะสำหรับดึง % โควตา — แสดงค่าจำลอง"
    );
    assert_eq!(session_note_text(false, "/home/me/.config"), "ไม่พบ session ที่ /home/me/.config — แสดงค่าจำลอง");
}

#[test]
fn single_instance_outcome() {
    assert!(is_only_instance(true, false));
    assert!(!is_only_instance(true, true));
    assert!(is_only_instance(false, true));
    assert!(is_only_instance(false, false));
}
