//! Names of the events that the engine publishes to the user interface.

use vstd::prelude::*;

verus! {

/// An event that the engine announces to its listeners.
#[derive(Clone, Copy, Debug, PartialEq, Eq, Structural)]
pub enum AppEvent {
    VolumeChange,
    MixerVisibilityChange,
    ConfigChange,
    ThemeChange,
    WindowHidden,
}

impl AppEvent {
    /// The channel name of each event, as a sequence of characters.
    pub open spec fn name(self) -> Seq<char> {
        match self {
            AppEvent::VolumeChange => "volume-change-event"@,
            AppEvent::MixerVisibilityChange => "mixer-visibility-change-event"@,
            AppEvent::ConfigChange => "config-change-event"@,
            AppEvent::ThemeChange => "theme-change-event"@,
            AppEvent::WindowHidden => "window-hidden-event"@,
        }
    }

    /// Returns the channel name under which the event is published.
    pub fn as_str(&self) -> (s: &'static str)
        ensures
            s@ == self.name(),
    {
        match self {
            AppEvent::VolumeChange => "volume-change-event",
            AppEvent::MixerVisibilityChange => "mixer-visibility-change-event",
            AppEvent::ConfigChange => "config-change-event",
            AppEvent::ThemeChange => "theme-change-event",
            AppEvent::WindowHidden => "window-hidden-event",
        }
    }
}

} // verus!
