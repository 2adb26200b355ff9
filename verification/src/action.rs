//! The actions that an input can resolve to.

use crate::text::str_eq;
use vstd::prelude::*;

verus! {

/// What the engine is asked to do once an input has been recognised. The
/// volume actions name the session they apply to.
#[derive(Debug)]
pub enum Action {
    VolumeUp(String),
    VolumeDown(String),
    ToggleMute(String),
    ToggleMixerWindow,
}

/// An [`Action`] with its session name as a sequence of characters.
pub enum ActionView {
    VolumeUp(Seq<char>),
    VolumeDown(Seq<char>),
    ToggleMute(Seq<char>),
    ToggleMixerWindow,
}

impl View for Action {
    type V = ActionView;

    open spec fn view(&self) -> ActionView {
        match self {
            Action::VolumeUp(session) => ActionView::VolumeUp(session@),
            Action::VolumeDown(session) => ActionView::VolumeDown(session@),
            Action::ToggleMute(session) => ActionView::ToggleMute(session@),
            Action::ToggleMixerWindow => ActionView::ToggleMixerWindow,
        }
    }
}

impl Clone for Action {
    fn clone(&self) -> (r: Action)
        ensures
            r@ == self@,
    {
        match self {
            Action::VolumeUp(session) => Action::VolumeUp(session.clone()),
            Action::VolumeDown(session) => Action::VolumeDown(session.clone()),
            Action::ToggleMute(session) => Action::ToggleMute(session.clone()),
            Action::ToggleMixerWindow => Action::ToggleMixerWindow,
        }
    }
}

/// The action that a configured action name asks for on `session`. The
/// known names are `VolumeUp`, `VolumeDown` and `ToggleMute`, written
/// exactly so.
pub open spec fn named_action(action: Seq<char>, session: Seq<char>) -> Option<ActionView> {
    if action == "VolumeUp"@ {
        Some(ActionView::VolumeUp(session))
    } else if action == "VolumeDown"@ {
        Some(ActionView::VolumeDown(session))
    } else if action == "ToggleMute"@ {
        Some(ActionView::ToggleMute(session))
    } else {
        None
    }
}

/// The name of the session that the media keys act on.
pub open spec fn media_session() -> Seq<char> {
    "master"@
}

/// Makes the name of the session that the media keys act on.
pub fn media_session_name() -> (name: String)
    ensures
        name@ == media_session(),
{
    "master".to_owned()
}

impl Action {
    /// Reads a configured action name. An unknown name gives nothing.
    pub fn from_name(action: &str, session: &str) -> (r: Option<Action>)
        ensures
            match r {
                Some(found) => named_action(action@, session@) == Some(found@),
                None => named_action(action@, session@) is None,
            },
    {
        if str_eq(action, "VolumeUp") {
            Some(Action::VolumeUp(session.to_owned()))
        } else if str_eq(action, "VolumeDown") {
            Some(Action::VolumeDown(session.to_owned()))
        } else if str_eq(action, "ToggleMute") {
            Some(Action::ToggleMute(session.to_owned()))
        } else {
            None
        }
    }

    /// Whether two actions are the same action on the same session.
    pub fn same(&self, other: &Action) -> (r: bool)
        ensures
            r == (self@ == other@),
    {
        match (self, other) {
            (Action::VolumeUp(a), Action::VolumeUp(b)) => str_eq(a.as_str(), b.as_str()),
            (Action::VolumeDown(a), Action::VolumeDown(b)) => str_eq(a.as_str(), b.as_str()),
            (Action::ToggleMute(a), Action::ToggleMute(b)) => str_eq(a.as_str(), b.as_str()),
            (Action::ToggleMixerWindow, Action::ToggleMixerWindow) => true,
            _ => false,
        }
    }
}

} // verus!
