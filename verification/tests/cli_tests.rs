use myusage::cli::{parse_args, status_report, Mode, StatusEntry};
use myusage::clock::LocalDateTime;

fn args(list: &[&str]) -> Vec<String> {
    list.iter().map(|s| s.to_string()).collect()
}

#[test]
fn no_argument_opens_the_widget() {
    assert_eq!(parse_args(&args(&[])), Mode::Gui { start_hidden: false });
}

#[test]
fn status_spellings() {
    for a in ["--status", "-s", "status"] {
        assert_eq!(parse_args(&args(&[a])), Mode::Status);
    }
}

#[test]
fn help_and_version_spellings() {
    assert_eq!(parse_args(&args(&["--help"])), Mode::Help);
    assert_eq!(parse_args(&args(&["-h"])), Mode::Help);
    assert_eq!(parse_args(&args(&["--version"])), Mode::Version);
    assert_eq!(parse_args(&args(&["-v"])), Mode::Version);
}

#[test]
fn tray_and_hidden_start_hidden() {
    assert_eq!(parse_args(&args(&["--tray"])), Mode::Gui { start_hidden: true });
    assert_eq!(parse_args(&args(&["--hidden"])), Mode::Gui { start_hidden: true });
}

#[test]
fn unknown_argument_opens_the_widget() {
    assert_eq!(parse_args(&args(&["--frobnicate"])), Mode::Gui { start_hidden: false });
    assert_eq!(parse_args(&args(&["STATUS"])), Mode::Gui { start_hidden: false });
    assert_eq!(parse_args(&args(&[""])), Mode::Gui { start_hidden: false });
}

#[test]
fn only_the_first_argument_counts() {
    assert_eq!(parse_args(&args(&["--help", "--status"])), Mode::Help);
    assert_eq!(parse_args(&args(&["x", "--status"])), Mode::Gui { start_hidden: false });
    assert_eq!(parse_args(&args(&["--tray", "-v"])), Mode::Gui { start_hidden: true });
}

#[test]
fn status_report_layout() {
    let entries = vec![
        StatusEntry {
            display_name: "Pro Plan".to_string(),
            percent_left: "68".to_string(),
            reset: Some(LocalDateTime { year: 2024, month: 3, day: 7, hour: 9, minute: 5, second: 1 }),
            note: Some("mock".to_string()),
        },
        StatusEntry {
            display_name: "A very long provider name".to_string(),
            percent_left: "100".to_string(),
            reset: None,
            note: None,
        },
    ];
    let lines = status_report(&entries);
    let rule = "──────────────────────────────────────────────";
    assert_eq!(
        lines,
        vec![
            "MyUsage - AI Usage Status".to_string(),
            rule.to_string(),
            "Pro Plan          68% LEFT   reset: 09:05:01 07/03/2024".to_string(),
            "   * mock".to_string(),
            "A very long provider name   100% LEFT   reset: -".to_string(),
            rule.to_string(),
        ]
    );
}

#[test]
fn status_report_matches_std_formatting() {
    let name = "Plus";
    let left = 5.0_f32;
    let entries = vec![StatusEntry {
        display_name: name.to_string(),
        percent_left: format!("{:.0}", left),
        reset: None,
        note: None,
    }];
    let lines = status_report(&entries);
    assert_eq!(lines[2], format!("{:<14} {:>5.0}% LEFT   reset: {}", name, left, "-"));
}

#[test]
fn status_report_with_no_entries() {
    let lines = status_report(&[]);
    assert_eq!(lines.len(), 3);
    assert_eq!(lines[0], "MyUsage - AI Usage Status");
}
