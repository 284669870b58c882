//! One overlay window per monitor, modelled by the values the core reasons
//! about: the platform handle it was created with, the geometry it covers,
//! its fill color, and whether it is currently shown and pinned top-most.
//! The platform shell owns the native resource behind `handle`; every state
//! change recorded here is mirrored by exactly one platform call.

use vstd::prelude::*;
use crate::monitor::MonitorInfo;
use crate::monitor::Rect;

verus! {

/// A borderless, input-capturing window covering one monitor.
///
/// Its geometry is fixed at creation: it exactly matches the monitor
/// descriptor it was created from and is never resized afterwards; layout
/// changes are handled by rebuilding the whole set.
#[derive(Clone, Copy, Debug, PartialEq, Eq, Structural)]
pub struct ColorWindow {
    pub handle: usize,
    pub rect: Rect,
    pub color: u32,
    pub shown: bool,
    pub topmost: bool,
}

impl ColorWindow {
    /// A window freshly created for `monitor`: it covers exactly the
    /// monitor's rectangle, carries the requested fill color, is top-most by
    /// construction, and stays invisible until `show` is called.
    pub fn new(monitor: &MonitorInfo, color: u32, handle: usize) -> (w: ColorWindow)
        ensures
            w == (ColorWindow { handle, rect: monitor.rect, color, shown: false, topmost: true }),
    {
        ColorWindow { handle, rect: monitor.rect, color, shown: false, topmost: true }
    }

    /// Make the window visible and re-assert its top-most position (another
    /// application may have taken it in the meantime); geometry and color
    /// are untouched.
    pub fn show(&mut self)
        ensures
            *final(self) == (ColorWindow { shown: true, topmost: true, ..*old(self) }),
    {
        self.shown = true;
        self.topmost = true;
    }

    /// Make the window invisible; everything else is untouched.
    pub fn hide_window(&mut self)
        ensures
            *final(self) == (ColorWindow { shown: false, ..*old(self) }),
    {
        self.shown = false;
    }

    /// Change the displayed fill color; visibility and geometry are
    /// untouched.
    pub fn set_color(&mut self, color: u32)
        ensures
            *final(self) == (ColorWindow { color, ..*old(self) }),
    {
        self.color = color;
    }
}

/// What an overlay window does with one incoming message.
#[derive(Clone, Copy, Debug, PartialEq, Eq, Structural)]
pub enum OverlayAction {
    /// Repaint: fill the whole client area with the current color.
    Paint,
    /// Keep the system cursor suppressed while the overlay has it.
    SuppressCursor,
    /// A dismiss gesture: ask for the entire overlay set to be hidden.
    Dismiss,
    /// A recognised message with nothing to do.
    Ignore,
    /// Hand the message to the platform's default handling.
    PassOn,
}

/// The window messages and the key the overlay reacts to.
pub const MSG_PAINT: u32 = 0x000F;
pub const MSG_SET_CURSOR: u32 = 0x0020;
pub const MSG_KEY_DOWN: u32 = 0x0100;
pub const MSG_LEFT_BUTTON_DOWN: u32 = 0x0201;
pub const MSG_RIGHT_BUTTON_DOWN: u32 = 0x0204;
pub const KEY_ESCAPE: usize = 0x1B;

/// How an overlay window reacts to the message `msg` with key-or-button
/// datum `wparam`.
pub open spec fn spec_classify_message(msg: u32, wparam: usize) -> OverlayAction {
    if msg == MSG_PAINT {
        OverlayAction::Paint
    } else if msg == MSG_SET_CURSOR {
        OverlayAction::SuppressCursor
    } else if msg == MSG_KEY_DOWN {
        if wparam == KEY_ESCAPE {
            OverlayAction::Dismiss
        } else {
            OverlayAction::Ignore
        }
    } else if msg == MSG_LEFT_BUTTON_DOWN || msg == MSG_RIGHT_BUTTON_DOWN {
        OverlayAction::Dismiss
    } else {
        OverlayAction::PassOn
    }
}

/// Decides what an overlay window does with one incoming message. A click
/// of either button, or the Escape key, is a dismiss gesture; each such
/// message yields exactly one `Dismiss`.
pub fn classify_message(msg: u32, wparam: usize) -> (action: OverlayAction)
    ensures
        action == spec_classify_message(msg, wparam),
        (action is Dismiss) <==> (msg == MSG_LEFT_BUTTON_DOWN || msg == MSG_RIGHT_BUTTON_DOWN
            || (msg == MSG_KEY_DOWN && wparam == KEY_ESCAPE)),
{
    if msg == MSG_PAINT {
        OverlayAction::Paint
    } else if msg == MSG_SET_CURSOR {
        OverlayAction::SuppressCursor
    } else if msg == MSG_KEY_DOWN {
        if wparam == KEY_ESCAPE {
            OverlayAction::Dismiss
        } else {
            OverlayAction::Ignore
        }
    } else if msg == MSG_LEFT_BUTTON_DOWN || msg == MSG_RIGHT_BUTTON_DOWN {
        OverlayAction::Dismiss
    } else {
        OverlayAction::PassOn
    }
}

} // verus!
