//! The Windows taskbar on screen, so the widget can dock on top of it
//! (`Shell_TrayWnd` is the taskbar itself, `TrayNotifyWnd` the clock and
//! notification-icon area at its end).

use vstd::prelude::*;

verus! {

/// A screen rectangle in physical pixels, edges inclusive of `left`/`top`.
#[derive(Clone, Copy, Debug, PartialEq, Eq, Structural)]
pub struct Rect {
    pub left: i32,
    pub top: i32,
    pub right: i32,
    pub bottom: i32,
}

impl Rect {
    /// Horizontal extent, `right - left`.
    pub fn width(&self) -> (w: i32)
        requires
            i32::MIN <= self.right - self.left <= i32::MAX,
        ensures
            w == self.right - self.left,
    {
        self.right - self.left
    }

    /// Vertical extent, `bottom - top`.
    pub fn height(&self) -> (h: i32)
        requires
            i32::MIN <= self.bottom - self.top <= i32::MAX,
        ensures
            h == self.bottom - self.top,
    {
        self.bottom - self.top
    }

    /// A taskbar at least as wide as it is tall lies along the top or
    /// bottom screen edge; the widget then docks beside the notification
    /// area instead of above it.
    pub fn is_horizontal(&self) -> (b: bool)
        requires
            i32::MIN <= self.right - self.left <= i32::MAX,
            i32::MIN <= self.bottom - self.top <= i32::MAX,
        ensures
            b == (self.right - self.left >= self.bottom - self.top),
    {
        self.width() >= self.height()
    }
}

/// Bounding rectangle of the whole taskbar. Without the Windows shell there
/// is no taskbar to find, and none is reported.
pub fn taskbar_rect() -> (r: Option<Rect>)
    ensures
        r is None,
{
    None
}

/// Bounding rectangle of the clock / notification-icon area. Without the
/// Windows shell there is none, and none is reported.
pub fn notify_area_rect() -> (r: Option<Rect>)
    ensures
        r is None,
{
    None
}

} // verus!
