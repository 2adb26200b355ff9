//! The state of one audio session as the volume service reports it.

use vstd::prelude::*;

verus! {

/// One audio session: its name, its volume in percent, whether it is muted,
/// and its icon as encoded text where it has one.
#[derive(Debug)]
pub struct AudioSession {
    pub name: String,
    pub volume: i32,
    pub mute: bool,
    pub icon: Option<String>,
}

pub struct AudioSessionView {
    pub name: Seq<char>,
    pub volume: i32,
    pub mute: bool,
    pub icon: Option<Seq<char>>,
}

impl View for AudioSession {
    type V = AudioSessionView;

    open spec fn view(&self) -> AudioSessionView {
        AudioSessionView {
            name: self.name@,
            volume: self.volume,
            mute: self.mute,
            icon: match self.icon {
                Some(icon) => Some(icon@),
                None => None,
            },
        }
    }
}

impl Clone for AudioSession {
    fn clone(&self) -> (r: AudioSession)
        ensures
            r@ == self@,
    {
        AudioSession {
            name: self.name.clone(),
            volume: self.volume,
            mute: self.mute,
            icon: match &self.icon {
                Some(icon) => Some(icon.clone()),
                None => None,
            },
        }
    }
}

impl AudioSession {
    /// Makes the record of a session from what was read of it.
    pub fn from_session(name: &str, volume: i32, mute: bool, icon: Option<String>) -> (r:
        AudioSession)
        ensures
            r.name@ == name@,
            r.volume == volume,
            r.mute == mute,
            r.icon == icon,
    {
        AudioSession { name: name.to_owned(), volume, mute, icon }
    }
}

} // verus!
