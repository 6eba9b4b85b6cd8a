//! Whether the system is in dark or light apps mode, so the widget can use
//! colours that blend into the taskbar behind it.

use vstd::prelude::*;

verus! {

/// Dark mode for the registry value `AppsUseLightTheme` (under
/// `HKCU\Software\Microsoft\Windows\CurrentVersion\Themes\Personalize`), or
/// `None` when it cannot be read: dark unless the value says light, and
/// dark when it is missing.
pub open spec fn dark_for_setting(apps_use_light_theme: Option<u32>) -> bool {
    match apps_use_light_theme {
        Some(light) => light == 0,
        None => true,
    }
}

/// Whether the system theme is dark, given the `AppsUseLightTheme`
/// setting if it could be read.
pub fn dark_mode_from_setting(apps_use_light_theme: Option<u32>) -> (dark: bool)
    ensures
        dark == dark_for_setting(apps_use_light_theme),
{
    match apps_use_light_theme {
        Some(light) => light == 0,
        None => true,
    }
}

/// Whether the system theme is dark. Without the Windows theme settings
/// there is nothing to read, and the widget stays dark.
pub fn is_dark_mode() -> (dark: bool)
    ensures
        dark,
        dark == dark_for_setting(None),
{
    dark_mode_from_setting(None)
}

} // verus!
