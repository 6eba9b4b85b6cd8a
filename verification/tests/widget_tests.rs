use myusage::clock::{LocalDateTime, ZonedInstant};
use myusage::widget::{
    chip_tooltip, react, refresh_due, tooltip_text, Palette, ResetView, Rgb, WidgetAction, WidgetEvent,
};

#[test]
fn dark_palette() {
    let p = Palette::for_mode(true);
    assert_eq!(p.panel_fill, Rgb { r: 0x20, g: 0x20, b: 0x20 });
    assert_eq!(p.chip_fill, Rgb { r: 0x2c, g: 0x2c, b: 0x2c });
    assert_eq!(p.text, Rgb { r: 0xe4, g: 0xe4, b: 0xe6 });
}

#[test]
fn light_palette() {
    let p = Palette::for_mode(false);
    assert_eq!(p.panel_fill, Rgb { r: 0xf3, g: 0xf3, b: 0xf3 });
    assert_eq!(p.chip_fill, Rgb { r: 0xe6, g: 0xe6, b: 0xe6 });
    assert_eq!(p.text, Rgb { r: 0x20, g: 0x20, b: 0x22 });
}

#[test]
fn tooltip_without_reset_or_note() {
    assert_eq!(tooltip_text("Plus", "68", None, None), "Plus\n68% LEFT");
}

#[test]
fn tooltip_with_everything() {
    let reset = ResetView {
        remaining_ns: 3_723_000_000_000,
        local: LocalDateTime { year: 2024, month: 3, day: 7, hour: 9, minute: 5, second: 1 },
    };
    assert_eq!(
        tooltip_text("Pro Plan", "82", Some(reset), Some("mock")),
        "Pro Plan\n82% LEFT\nReset Available Remaining: 01:02:03\nคืนโควตา 09:05:01 07/03/2024\nmock"
    );
}

#[test]
fn tooltip_with_only_a_note() {
    assert_eq!(tooltip_text("Plus", "0", None, Some("note")), "Plus\n0% LEFT\nnote");
}

#[test]
fn chip_tooltip_without_reset_is_exact() {
    assert_eq!(chip_tooltip("Plus", "95", None, Some("n")), "Plus\n95% LEFT\nn");
}

#[test]
fn chip_tooltip_with_passed_reset() {
    let reset = ZonedInstant { ns: 1_700_000_000_000_000_000, offset_secs: 7 * 3600 };
    let text = chip_tooltip("Plus", "95", Some(reset), None);
    assert_eq!(
        text,
        "Plus\n95% LEFT\nReset Available Remaining: 00:00:00\nคืนโควตา 05:13:20 15/11/2023"
    );
}

#[test]
fn menu_items() {
    assert_eq!(react(WidgetEvent::ShowItem, false), WidgetAction::Show);
    assert_eq!(react(WidgetEvent::ExitItem, true), WidgetAction::Exit);
    assert_eq!(react(WidgetEvent::OtherItem, true), WidgetAction::Ignore);
}

#[test]
fn autostart_item_toggles() {
    assert_eq!(react(WidgetEvent::AutostartItem, false), WidgetAction::SetAutostart { enable: true });
    assert_eq!(react(WidgetEvent::AutostartItem, true), WidgetAction::SetAutostart { enable: false });
}

#[test]
fn icon_clicks_bring_the_widget_back() {
    assert_eq!(react(WidgetEvent::IconClick, false), WidgetAction::Show);
    assert_eq!(react(WidgetEvent::IconDoubleClick, true), WidgetAction::Show);
    assert_eq!(react(WidgetEvent::OtherIconEvent, true), WidgetAction::Ignore);
}

#[test]
fn closing_hides_instead_of_exiting() {
    assert_eq!(react(WidgetEvent::CloseRequested, false), WidgetAction::Hide { cancel_close: true });
    assert_eq!(react(WidgetEvent::HideButton, true), WidgetAction::Hide { cancel_close: false });
}

#[test]
fn refresh_when_the_interval_has_passed() {
    assert!(refresh_due(30_000_000_000, 30_000_000_000));
    assert!(refresh_due(31_000_000_000, 30_000_000_000));
    assert!(!refresh_due(29_999_999_999, 30_000_000_000));
    assert!(refresh_due(0, 0));
}
