//! What the docked widget shows and how it reacts: the colours for the
//! system theme, the hover text of a provider chip, and what each tray or
//! window event does.

use vstd::prelude::*;

use crate::clock::{
    countdown, countdown_text, date_time, date_time_text, instant_in_range, local_time_at,
    remaining_until, shifted_fields, zoned_in_range, LocalDateTime, ZonedInstant,
};

verus! {

/// A colour as red, green and blue bytes.
#[derive(Clone, Copy, Debug, PartialEq, Eq, Structural)]
pub struct Rgb {
    pub r: u8,
    pub g: u8,
    pub b: u8,
}

/// Neutral colours matched to the tone of the Windows taskbar, so the
/// widget blends into it.
#[derive(Clone, Copy, Debug, PartialEq, Eq, Structural)]
pub struct Palette {
    /// Background of the whole strip.
    pub panel_fill: Rgb,
    /// Background of each provider chip.
    pub chip_fill: Rgb,
    /// Text colour.
    pub text: Rgb,
}

/// The palette for a dark (`dark`) or light system theme.
pub open spec fn palette_for(dark: bool) -> Palette {
    if dark {
        Palette {
            panel_fill: Rgb { r: 0x20, g: 0x20, b: 0x20 },
            chip_fill: Rgb { r: 0x2c, g: 0x2c, b: 0x2c },
            text: Rgb { r: 0xe4, g: 0xe4, b: 0xe6 },
        }
    } else {
        Palette {
            panel_fill: Rgb { r: 0xf3, g: 0xf3, b: 0xf3 },
            chip_fill: Rgb { r: 0xe6, g: 0xe6, b: 0xe6 },
            text: Rgb { r: 0x20, g: 0x20, b: 0x22 },
        }
    }
}

impl Palette {
    /// The palette for a dark (`dark`) or light system theme.
    pub fn for_mode(dark: bool) -> (p: Palette)
        ensures
            p == palette_for(dark),
    {
        if dark {
            Palette {
                panel_fill: Rgb { r: 0x20, g: 0x20, b: 0x20 },
                chip_fill: Rgb { r: 0x2c, g: 0x2c, b: 0x2c },
                text: Rgb { r: 0xe4, g: 0xe4, b: 0xe6 },
            }
        } else {
            Palette {
                panel_fill: Rgb { r: 0xf3, g: 0xf3, b: 0xf3 },
                chip_fill: Rgb { r: 0xe6, g: 0xe6, b: 0xe6 },
                text: Rgb { r: 0x20, g: 0x20, b: 0x22 },
            }
        }
    }
}

/// The reset part of a chip's hover text: nanoseconds left until the
/// reset, and its local date and time.
#[derive(Clone, Copy, Debug, PartialEq, Eq, Structural)]
pub struct ResetView {
    pub remaining_ns: i128,
    pub local: LocalDateTime,
}

/// `v` describes the reset `reset_at` as seen from the current time: the
/// time left is counted from an instant not before 1970 that `chrono` can
/// hold, and the date is the reset's own local date and time at the offset
/// it carries.
pub open spec fn reset_view_of(v: ResetView, reset_at: ZonedInstant) -> bool {
    &&& 0 <= reset_at.ns - v.remaining_ns
    &&& instant_in_range(reset_at.ns - v.remaining_ns)
    &&& v.local == shifted_fields(reset_at.ns as int, reset_at.offset_secs as int)
}

/// Hover text of a provider chip: name, percent left, then the countdown
/// and date of the next reset when known, then the note when there is one,
/// each on its own line.
pub open spec fn tooltip(
    name: Seq<char>,
    percent_left: Seq<char>,
    reset: Option<ResetView>,
    note: Option<Seq<char>>,
) -> Seq<char> {
    let head = name + seq!['\n'] + percent_left + "% LEFT"@;
    let with_reset = match reset {
        Some(v) => head + "\nReset Available Remaining: "@ + countdown(v.remaining_ns as int)
            + seq!['\n'] + "คืนโควตา "@ + date_time(v.local),
        None => head,
    };
    match note {
        Some(n) => with_reset + seq!['\n'] + n,
        None => with_reset,
    }
}

/// The reset part of the hover text is the countdown of the reset's
/// remaining time and its local date, put between the head and the note:
/// the text with a reset is the text without one, with the countdown and
/// the date inserted before the note.
pub proof fn lemma_tooltip_reset_part(
    name: Seq<char>,
    percent_left: Seq<char>,
    v: ResetView,
    note: Option<Seq<char>>,
)
    ensures
        tooltip(name, percent_left, Some(v), None) == tooltip(name, percent_left, None, None)
            + "\nReset Available Remaining: "@ + countdown(v.remaining_ns as int) + seq!['\n']
            + "คืนโควตา "@ + date_time(v.local),
        note matches Some(n) ==> tooltip(name, percent_left, Some(v), note) == tooltip(
            name,
            percent_left,
            Some(v),
            None,
        ) + seq!['\n'] + n,
        note matches Some(n) ==> tooltip(name, percent_left, None, note) == tooltip(
            name,
            percent_left,
            None,
            None,
        ) + seq!['\n'] + n,
{
}

/// The view of an optional text.
pub open spec fn opt_view(s: Option<&str>) -> Option<Seq<char>> {
    match s {
        Some(t) => Some(t@),
        None => None,
    }
}

/// Hover text of a provider chip named `name`, with `percent_left` already
/// rounded to whole digits, the reset part `reset` and the `note`.
pub fn tooltip_text(name: &str, percent_left: &str, reset: Option<ResetView>, note: Option<&str>) -> (s:
    String)
    ensures
        s@ == tooltip(name@, percent_left@, reset, opt_view(note)),
{
    proof {
        reveal_strlit("\n");
    }
    let mut s = String::from_str(name);
    s.append("\n");
    s.append(percent_left);
    s.append("% LEFT");
    match reset {
        Some(v) => {
            s.append("\nReset Available Remaining: ");
            let c = countdown_text(v.remaining_ns);
            s.append(c.as_str());
            s.append("\n");
            s.append("คืนโควตา ");
            let d = date_time_text(&v.local);
            s.append(d.as_str());
        },
        None => {},
    }
    match note {
        Some(n) => {
            s.append("\n");
            s.append(n);
        },
        None => {},
    }
    s
}

/// Hover text of a provider chip whose quota resets at `reset_at`, if
/// known. The countdown is taken from the system clock, which is read once;
/// whatever it reads, the text is the hover text for a reset part that
/// describes that reset, its date shown at the offset the reset carries.
pub fn chip_tooltip(
    name: &str,
    percent_left: &str,
    reset_at: Option<ZonedInstant>,
    note: Option<&str>,
) -> (s: String)
    requires
        reset_at matches Some(z) ==> zoned_in_range(z),
    ensures
        reset_at is None ==> s@ == tooltip(name@, percent_left@, None, opt_view(note)),
        reset_at matches Some(z) ==> exists|v: ResetView|
            reset_view_of(v, z) && #[trigger] tooltip(name@, percent_left@, Some(v), opt_view(note))
                == s@,
{
    match reset_at {
        Some(z) => {
            let remaining_ns = remaining_until(z.ns);
            let local = local_time_at(&z);
            let v = ResetView { remaining_ns, local };
            let s = tooltip_text(name, percent_left, Some(v), note);
            assert(tooltip(name@, percent_left@, Some(v), opt_view(note)) == s@);
            s
        },
        None => tooltip_text(name, percent_left, None, note),
    }
}

/// Something that happened to the tray icon, its menu or the widget window.
#[derive(Clone, Copy, Debug, PartialEq, Eq, Structural)]
pub enum WidgetEvent {
    /// The "open window" tray menu item.
    ShowItem,
    /// The "start with Windows" tray menu item.
    AutostartItem,
    /// The "exit" tray menu item.
    ExitItem,
    /// Any other tray menu item.
    OtherItem,
    /// A click on the tray icon.
    IconClick,
    /// A double click on the tray icon.
    IconDoubleClick,
    /// Any other tray icon event (hover, move, ...).
    OtherIconEvent,
    /// The window was asked to close.
    CloseRequested,
    /// The `×` button on the strip.
    HideButton,
}

/// What the program does about an event.
#[derive(Clone, Copy, Debug, PartialEq, Eq, Structural)]
pub enum WidgetAction {
    /// Make the window visible and focus it.
    Show,
    /// Hide the window to the tray; `cancel_close` when a request to close
    /// the window has to be cancelled first.
    Hide { cancel_close: bool },
    /// Register (`enable`) or unregister starting with Windows.
    SetAutostart { enable: bool },
    /// End the program.
    Exit,
    /// Nothing.
    Ignore,
}

/// The reaction to `event` when starting with Windows is currently
/// `autostart_enabled`.
pub open spec fn reaction(event: WidgetEvent, autostart_enabled: bool) -> WidgetAction {
    match event {
        WidgetEvent::ShowItem => WidgetAction::Show,
        WidgetEvent::AutostartItem => WidgetAction::SetAutostart { enable: !autostart_enabled },
        WidgetEvent::ExitItem => WidgetAction::Exit,
        WidgetEvent::OtherItem => WidgetAction::Ignore,
        WidgetEvent::IconClick => WidgetAction::Show,
        WidgetEvent::IconDoubleClick => WidgetAction::Show,
        WidgetEvent::OtherIconEvent => WidgetAction::Ignore,
        WidgetEvent::CloseRequested => WidgetAction::Hide { cancel_close: true },
        WidgetEvent::HideButton => WidgetAction::Hide { cancel_close: false },
    }
}

/// What to do about `event` when starting with Windows is currently
/// `autostart_enabled`.
pub fn react(event: WidgetEvent, autostart_enabled: bool) -> (action: WidgetAction)
    ensures
        action == reaction(event, autostart_enabled),
{
    match event {
        WidgetEvent::ShowItem => WidgetAction::Show,
        WidgetEvent::AutostartItem => WidgetAction::SetAutostart { enable: !autostart_enabled },
        WidgetEvent::ExitItem => WidgetAction::Exit,
        WidgetEvent::OtherItem => WidgetAction::Ignore,
        WidgetEvent::IconClick => WidgetAction::Show,
        WidgetEvent::IconDoubleClick => WidgetAction::Show,
        WidgetEvent::OtherIconEvent => WidgetAction::Ignore,
        WidgetEvent::CloseRequested => WidgetAction::Hide { cancel_close: true },
        WidgetEvent::HideButton => WidgetAction::Hide { cancel_close: false },
    }
}

/// Whether the providers are due for a refresh: `elapsed_ns` nanoseconds
/// have passed since the last one, and refreshes are `interval_ns` apart.
pub fn refresh_due(elapsed_ns: u128, interval_ns: u128) -> (due: bool)
    ensures
        due == (elapsed_ns >= interval_ns),
{
    elapsed_ns >= interval_ns
}

/// Which events lead to which action: only the "open window" item and
/// clicks on the icon show the widget; only a close request and the `×`
/// button hide it (and only a close request is cancelled); only the
/// autostart item changes starting with Windows, to the opposite of the
/// current setting; only the exit item exits; everything else is ignored.
/// No reaction but the autostart item's depends on the current setting.
pub proof fn lemma_reaction_by_event(event: WidgetEvent, autostart_enabled: bool)
    ensures
        (reaction(event, autostart_enabled) == WidgetAction::Show) <==> (event
            == WidgetEvent::ShowItem || event == WidgetEvent::IconClick || event
            == WidgetEvent::IconDoubleClick),
        (reaction(event, autostart_enabled) is Hide) <==> (event == WidgetEvent::CloseRequested
            || event == WidgetEvent::HideButton),
        reaction(event, autostart_enabled) matches WidgetAction::Hide { cancel_close } ==> (
        cancel_close <==> event == WidgetEvent::CloseRequested),
        (reaction(event, autostart_enabled) is SetAutostart) <==> event
            == WidgetEvent::AutostartItem,
        reaction(event, autostart_enabled) matches WidgetAction::SetAutostart { enable } ==> enable
            == !autostart_enabled,
        (reaction(event, autostart_enabled) == WidgetAction::Exit) <==> event == WidgetEvent::ExitItem,
        (reaction(event, autostart_enabled) == WidgetAction::Ignore) <==> (event
            == WidgetEvent::OtherItem || event == WidgetEvent::OtherIconEvent),
        event != WidgetEvent::AutostartItem ==> reaction(event, autostart_enabled) == reaction(
            event,
            !autostart_enabled,
        ),
{
}

/// Only the tray's exit item ends the program: closing the window or
/// pressing `×` hides it to the tray.
pub proof fn lemma_only_exit_item_exits(event: WidgetEvent, autostart_enabled: bool)
    ensures
        (reaction(event, autostart_enabled) == WidgetAction::Exit) <==> event == WidgetEvent::ExitItem,
        event == WidgetEvent::CloseRequested ==> reaction(event, autostart_enabled)
            == (WidgetAction::Hide { cancel_close: true }),
        event == WidgetEvent::HideButton ==> reaction(event, autostart_enabled)
            == (WidgetAction::Hide { cancel_close: false }),
{
}

/// The autostart item flips the setting: choosing it twice, each time from
/// the state the previous choice set, comes back to where it started.
pub proof fn lemma_autostart_item_toggles(enabled: bool)
    ensures
        reaction(WidgetEvent::AutostartItem, enabled) == (WidgetAction::SetAutostart { enable: !enabled }),
        reaction(WidgetEvent::AutostartItem, !enabled) == (WidgetAction::SetAutostart { enable: enabled }),
{
}

/// Clicking or double-clicking the tray icon brings the widget back, as the
/// "open window" item does.
pub proof fn lemma_icon_clicks_show(autostart_enabled: bool)
    ensures
        reaction(WidgetEvent::IconClick, autostart_enabled) == WidgetAction::Show,
        reaction(WidgetEvent::IconDoubleClick, autostart_enabled) == WidgetAction::Show,
        reaction(WidgetEvent::ShowItem, autostart_enabled) == WidgetAction::Show,
{
}

} // verus!
