//! Rules for showing and hiding windows. The windows themselves belong to
//! the program around the engine; what is decided here is what to do with
//! them.
//!
//! Times are milliseconds on a clock that never runs backwards.

use crate::repeat::{elapsed, elapsed_ms};
use vstd::prelude::*;

verus! {

/// How long after gaining focus a loss of focus is disregarded, in
/// milliseconds.
pub const FOCUS_GRACE_MS: u64 = 100;

/// How long after a loss of focus the mixer is hidden, in milliseconds.
pub const HIDE_DELAY_MS: u64 = 50;

/// How long after the mixer was hidden a click on the tray icon is
/// disregarded, in milliseconds.
pub const TRAY_GRACE_MS: u64 = 300;

/// How far below the top of the screen the overlay is placed, in pixels.
pub const OVERLAY_TOP: i32 = 30;

/// What to do with the mixer window.
#[derive(Clone, Copy, Debug, PartialEq, Eq, Structural)]
pub enum MixerStep {
    /// Leave the window as it is.
    Leave,
    /// Hide the window and announce that it is hidden.
    Hide,
    /// Announce that the window is shown, then show it.
    Show,
    /// Hide the overlay, then show the mixer as under `Show`.
    ShowOverOverlay,
}

/// Shows the mixer if it is hidden and hides it if it is shown.
pub fn toggle_mixer(visible: bool) -> (step: MixerStep)
    ensures
        step == if visible {
            MixerStep::Hide
        } else {
            MixerStep::Show
        },
{
    if visible {
        MixerStep::Hide
    } else {
        MixerStep::Show
    }
}

/// Whether a click at `now` is to be disregarded because the mixer was
/// hidden a moment ago: the click that hides the mixer by taking its focus
/// must not show it again.
pub open spec fn in_tray_grace(last_hidden: Option<u64>, now: u64) -> bool {
    match last_hidden {
        Some(at) => elapsed(now, at) < TRAY_GRACE_MS,
        None => false,
    }
}

/// Decides what a click on the tray icon at `now` does, given when the
/// mixer was last hidden and whether it is shown.
pub fn tray_click(last_hidden: Option<u64>, now: u64, mixer_visible: bool) -> (step: MixerStep)
    ensures
        step == if in_tray_grace(last_hidden, now) {
            MixerStep::Leave
        } else if mixer_visible {
            MixerStep::Hide
        } else {
            MixerStep::ShowOverOverlay
        },
{
    let ignore = match last_hidden {
        Some(at) => elapsed_ms(now, at) < TRAY_GRACE_MS,
        None => false,
    };
    if ignore {
        MixerStep::Leave
    } else if mixer_visible {
        MixerStep::Hide
    } else {
        MixerStep::ShowOverOverlay
    }
}

/// Whether the overlay is to be shown after a volume change was announced:
/// it is unless the mixer is shown, which displays the change itself.
pub fn overlay_wanted(mixer_visible: bool) -> (r: bool)
    ensures
        r == !mixer_visible,
{
    !mixer_visible
}

/// The record of when the mixer window last gained focus.
#[derive(Clone, Copy, Debug, PartialEq, Eq, Structural)]
pub struct FocusTracker {
    pub last_focus: u64,
}

impl FocusTracker {
    /// A tracker for a window made at `now`.
    pub fn new(now: u64) -> (r: FocusTracker)
        ensures
            r.last_focus == now,
    {
        FocusTracker { last_focus: now }
    }

    /// The window gained (`focused`) or lost focus at `now`. Returns
    /// whether the window is to be hidden after [`HIDE_DELAY_MS`], if it is
    /// still shown then: it is when focus was lost more than
    /// [`FOCUS_GRACE_MS`] after it was gained.
    pub fn on_focus_change(&mut self, focused: bool, now: u64) -> (hide: bool)
        ensures
            final(self).last_focus == if focused {
                now
            } else {
                old(self).last_focus
            },
            hide == (!focused && elapsed(now, old(self).last_focus) > FOCUS_GRACE_MS),
    {
        if focused {
            self.last_focus = now;
            false
        } else {
            elapsed_ms(now, self.last_focus) > FOCUS_GRACE_MS
        }
    }
}

/// The height of the taskbar: what is left of the screen's height beside
/// the work area, held to the range of `i32`.
pub open spec fn taskbar_height_of(screen_height: i32, top: i32, bottom: i32) -> int {
    let height = screen_height - (bottom - top);
    if height < i32::MIN {
        i32::MIN as int
    } else if height > i32::MAX {
        i32::MAX as int
    } else {
        height
    }
}

/// Computes the height of the taskbar from the height of the screen and the
/// top and bottom of the work area.
pub fn get_taskbar_height(screen_height: i32, top: i32, bottom: i32) -> (height: i32)
    ensures
        height == taskbar_height_of(screen_height, top, bottom),
{
    let height: i64 = screen_height as i64 - (bottom as i64 - top as i64);
    if height < i32::MIN as i64 {
        i32::MIN
    } else if height > i32::MAX as i64 {
        i32::MAX
    } else {
        height as i32
    }
}

/// A position on the screen, in pixels.
#[derive(Clone, Copy, Debug, PartialEq, Eq, Structural)]
pub struct Position {
    pub x: i32,
    pub y: i32,
}

/// The horizontal position that centres a window on the screen; a window
/// wider than the screen is placed at the left edge.
pub open spec fn centred_x(screen_width: u32, window_width: u32) -> int {
    if window_width >= screen_width {
        0
    } else {
        (screen_width - window_width) / 2
    }
}

/// Places a window at the top of the screen, centred.
pub fn center_window_at_top(screen_width: u32, window_width: u32) -> (position: Position)
    ensures
        position.x == centred_x(screen_width, window_width),
        position.y == OVERLAY_TOP,
{
    let x: u32 = if window_width >= screen_width {
        0
    } else {
        (screen_width - window_width) / 2
    };
    Position { x: x as i32, y: OVERLAY_TOP }
}

/// What to do about the debug console.
#[derive(Clone, Copy, Debug, PartialEq, Eq, Structural)]
pub enum ConsoleStep {
    /// Attach to the console of the parent process, and make a new console
    /// if that fails.
    Attach,
    /// A console is there already; leave it.
    Keep,
    /// Let go of the console.
    Free,
}

/// Decides what to do about the debug console, given whether the
/// configuration asks for one and whether one is there.
pub fn handle_debug_console(show_console: bool, attached: bool) -> (step: ConsoleStep)
    ensures
        step == if !show_console {
            ConsoleStep::Free
        } else if attached {
            ConsoleStep::Keep
        } else {
            ConsoleStep::Attach
        },
{
    if !show_console {
        ConsoleStep::Free
    } else if attached {
        ConsoleStep::Keep
    } else {
        ConsoleStep::Attach
    }
}

/// What to do about starting with the system.
#[derive(Clone, Copy, Debug, PartialEq, Eq, Structural)]
pub enum AutostartStep {
    Enable,
    Disable,
    Leave,
}

/// Decides what to do about starting with the system. At program start the
/// setting is only ever switched on; after a change of configuration it
/// follows the configuration both ways.
pub fn handle_enable_autostart(autostart: bool, at_start: bool) -> (step: AutostartStep)
    ensures
        step == if autostart {
            AutostartStep::Enable
        } else if at_start {
            AutostartStep::Leave
        } else {
            AutostartStep::Disable
        },
{
    if autostart {
        AutostartStep::Enable
    } else if at_start {
        AutostartStep::Leave
    } else {
        AutostartStep::Disable
    }
}

} // verus!
