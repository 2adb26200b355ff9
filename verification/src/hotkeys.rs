//! The media keys as global hotkeys: how a hotkey event is recognised and
//! what it sets off, with press-and-hold repetition for the volume keys.

use crate::action::{media_session, media_session_name, Action, ActionView};
use crate::repeat::{RepeatState, RepeatTiming};
use global_hotkey::hotkey::{Code, HotKey, Modifiers};
use vstd::prelude::*;

verus! {

/// One of the three media keys that the engine takes over.
#[derive(Clone, Copy, Debug, PartialEq, Eq, Structural)]
pub enum MediaKey {
    VolumeUp,
    VolumeDown,
    VolumeMute,
}

/// The modifier that is held together with a media key. Each media key is
/// registered once bare and once with each single modifier. `Super` is the
/// Windows or command key.
#[derive(Clone, Copy, Debug, PartialEq, Eq, Structural)]
pub enum KeyModifier {
    Bare,
    Control,
    Alt,
    Shift,
    Super,
}

/// The identifier under which the hotkey system reports the hotkey made of
/// `modifier` and `key`.
pub uninterp spec fn hotkey_id(modifier: KeyModifier, key: MediaKey) -> u32;

/// Whether `id` is the identifier of the hotkey made of `modifier` and
/// `key` and of no other.
pub open spec fn identifies(id: u32, modifier: KeyModifier, key: MediaKey) -> bool {
    forall|m: KeyModifier, k: MediaKey| hotkey_id(m, k) == id <==> m == modifier && k == key
}

/// Asks `global_hotkey::hotkey::HotKey::new` for the hotkey of a modifier
/// and a media key, and returns its identifier. The identifier is computed
/// from the two arguments alone: the bits of the modifier stand above the
/// number of the key. The contract names it and claims that no two of the
/// fifteen hotkeys share one.
#[verifier::external_body]
fn hotkey_id_of(modifier: KeyModifier, key: MediaKey) -> (id: u32)
    ensures
        id == hotkey_id(modifier, key),
        identifies(id, modifier, key),
{
    let mods = match modifier {
        KeyModifier::Bare => None,
        KeyModifier::Control => Some(Modifiers::CONTROL),
        KeyModifier::Alt => Some(Modifiers::ALT),
        KeyModifier::Shift => Some(Modifiers::SHIFT),
        KeyModifier::Super => Some(Modifiers::META),
    };
    let code = match key {
        MediaKey::VolumeUp => Code::AudioVolumeUp,
        MediaKey::VolumeDown => Code::AudioVolumeDown,
        MediaKey::VolumeMute => Code::AudioVolumeMute,
    };
    HotKey::new(mods, code).id
}

/// The identifiers of the five hotkeys registered for `key`: bare, then with
/// control, alt, shift and super.
pub open spec fn ids_for(key: MediaKey) -> Seq<u32> {
    seq![
        hotkey_id(KeyModifier::Bare, key),
        hotkey_id(KeyModifier::Control, key),
        hotkey_id(KeyModifier::Alt, key),
        hotkey_id(KeyModifier::Shift, key),
        hotkey_id(KeyModifier::Super, key),
    ]
}

/// The modifier at position `i` of the list of a key's hotkeys.
pub open spec fn modifier_at(i: int) -> KeyModifier {
    if i == 0 {
        KeyModifier::Bare
    } else if i == 1 {
        KeyModifier::Control
    } else if i == 2 {
        KeyModifier::Alt
    } else if i == 3 {
        KeyModifier::Shift
    } else {
        KeyModifier::Super
    }
}

/// The hotkey of a modifier and a key is in the list of the key.
proof fn lemma_listed(modifier: KeyModifier, key: MediaKey)
    ensures
        ids_for(key).contains(hotkey_id(modifier, key)),
{
    let i: int = match modifier {
        KeyModifier::Bare => 0,
        KeyModifier::Control => 1,
        KeyModifier::Alt => 2,
        KeyModifier::Shift => 3,
        KeyModifier::Super => 4,
    };
    assert(ids_for(key)[i] == hotkey_id(modifier, key));
}

/// The media key that a reported identifier belongs to, given the
/// identifiers registered for each key. The volume-up list is consulted
/// first, then volume-down, then mute.
pub open spec fn classified(id: u32, up: Seq<u32>, down: Seq<u32>, mute: Seq<u32>) -> Option<
    MediaKey,
> {
    if up.contains(id) {
        Some(MediaKey::VolumeUp)
    } else if down.contains(id) {
        Some(MediaKey::VolumeDown)
    } else if mute.contains(id) {
        Some(MediaKey::VolumeMute)
    } else {
        None
    }
}

fn contains_id(ids: &Vec<u32>, id: u32) -> (r: bool)
    ensures
        r == ids@.contains(id),
{
    let mut i: usize = 0;
    while i < ids.len()
        invariant
            i <= ids@.len(),
            forall|k: int| 0 <= k < i ==> ids@[k] != id,
        decreases ids@.len() - i,
    {
        if ids[i] == id {
            return true;
        }
        i = i + 1;
    }
    false
}

/// Tells which media key a reported hotkey identifier belongs to.
pub fn classify_hotkey(id: u32, up: &Vec<u32>, down: &Vec<u32>, mute: &Vec<u32>) -> (r: Option<
    MediaKey,
>)
    ensures
        r == classified(id, up@, down@, mute@),
{
    if contains_id(up, id) {
        Some(MediaKey::VolumeUp)
    } else if contains_id(down, id) {
        Some(MediaKey::VolumeDown)
    } else if contains_id(mute, id) {
        Some(MediaKey::VolumeMute)
    } else {
        None
    }
}

/// The identifiers of all registered media hotkeys.
pub struct MediaHotkeys {
    pub volume_up: Vec<u32>,
    pub volume_down: Vec<u32>,
    pub mute: Vec<u32>,
}

fn ids_of(key: MediaKey) -> (ids: Vec<u32>)
    ensures
        ids@ == ids_for(key),
        forall|m: KeyModifier| identifies(hotkey_id(m, key), m, key),
{
    let mut ids: Vec<u32> = Vec::new();
    ids.push(hotkey_id_of(KeyModifier::Bare, key));
    ids.push(hotkey_id_of(KeyModifier::Control, key));
    ids.push(hotkey_id_of(KeyModifier::Alt, key));
    ids.push(hotkey_id_of(KeyModifier::Shift, key));
    ids.push(hotkey_id_of(KeyModifier::Super, key));
    ids
}

impl MediaHotkeys {
    /// The lists hold the identifiers of the fifteen hotkeys: each media key
    /// bare and with each modifier.
    pub open spec fn registered(&self) -> bool {
        &&& self.volume_up@ == ids_for(MediaKey::VolumeUp)
        &&& self.volume_down@ == ids_for(MediaKey::VolumeDown)
        &&& self.mute@ == ids_for(MediaKey::VolumeMute)
    }

    /// Every one of the fifteen hotkeys is recognised as the key it was
    /// registered for, whatever the modifier.
    pub open spec fn recognises_all(&self) -> bool {
        forall|m: KeyModifier, k: MediaKey|
            classified(
                #[trigger] hotkey_id(m, k),
                self.volume_up@,
                self.volume_down@,
                self.mute@,
            ) == Some(k)
    }

    /// The identifiers of the fifteen hotkeys.
    pub fn new() -> (r: MediaHotkeys)
        ensures
            r.registered(),
            r.recognises_all(),
    {
        let r = MediaHotkeys {
            volume_up: ids_of(MediaKey::VolumeUp),
            volume_down: ids_of(MediaKey::VolumeDown),
            mute: ids_of(MediaKey::VolumeMute),
        };
        proof {
            assert forall|m: KeyModifier, k: MediaKey|
                classified(
                    #[trigger] hotkey_id(m, k),
                    r.volume_up@,
                    r.volume_down@,
                    r.mute@,
                ) == Some(k) by {
                lemma_listed(m, k);
                assert(identifies(hotkey_id(m, k), m, k));
                assert forall|other: MediaKey| other != k implies !ids_for(other).contains(
                    hotkey_id(m, k),
                ) by {
                    if ids_for(other).contains(hotkey_id(m, k)) {
                        let i = choose|i: int|
                            0 <= i < ids_for(other).len() && ids_for(other)[i] == hotkey_id(m, k);
                        assert(hotkey_id(modifier_at(i), other) == hotkey_id(m, k));
                    }
                }
            }
        }
        r
    }

    /// Tells which media key a reported identifier belongs to.
    pub fn classify(&self, id: u32) -> (r: Option<MediaKey>)
        ensures
            r == classified(id, self.volume_up@, self.volume_down@, self.mute@),
    {
        classify_hotkey(id, &self.volume_up, &self.volume_down, &self.mute)
    }
}

/// The repetition state of the two volume keys.
#[derive(Clone, Copy, Debug, PartialEq, Eq, Structural)]
pub struct HotkeyState {
    pub volume_up: RepeatState,
    pub volume_down: RepeatState,
}

/// The action that a media key stands for.
pub open spec fn media_action(key: MediaKey) -> ActionView {
    match key {
        MediaKey::VolumeUp => ActionView::VolumeUp(media_session()),
        MediaKey::VolumeDown => ActionView::VolumeDown(media_session()),
        MediaKey::VolumeMute => ActionView::ToggleMute(media_session()),
    }
}

fn action_of(key: MediaKey) -> (action: Action)
    ensures
        action@ == media_action(key),
{
    match key {
        MediaKey::VolumeUp => Action::VolumeUp(media_session_name()),
        MediaKey::VolumeDown => Action::VolumeDown(media_session_name()),
        MediaKey::VolumeMute => Action::ToggleMute(media_session_name()),
    }
}

impl HotkeyState {
    /// The state after `key` went down (`pressed`) or came up at `now`.
    pub open spec fn after_hotkey(self, key: MediaKey, pressed: bool, now: u64) -> HotkeyState {
        match key {
            MediaKey::VolumeUp => HotkeyState {
                volume_up: if pressed {
                    self.volume_up.after_press(now)
                } else {
                    self.volume_up.after_release()
                },
                ..self
            },
            MediaKey::VolumeDown => HotkeyState {
                volume_down: if pressed {
                    self.volume_down.after_press(now)
                } else {
                    self.volume_down.after_release()
                },
                ..self
            },
            MediaKey::VolumeMute => self,
        }
    }

    /// Whether a transition of `key` fires its action: a press of a volume
    /// key that was up, or any press of the mute key.
    pub open spec fn hotkey_fires(self, key: MediaKey, pressed: bool) -> bool {
        pressed && match key {
            MediaKey::VolumeUp => !self.volume_up.active(),
            MediaKey::VolumeDown => !self.volume_down.active(),
            MediaKey::VolumeMute => true,
        }
    }

    /// The actions that a poll at `now` fires: volume-up if it is due, then
    /// volume-down if it is due.
    pub open spec fn tick_actions(self, timing: RepeatTiming, now: u64) -> Seq<ActionView> {
        let up = if self.volume_up.due(timing, now) {
            seq![media_action(MediaKey::VolumeUp)]
        } else {
            Seq::<ActionView>::empty()
        };
        let down = if self.volume_down.due(timing, now) {
            seq![media_action(MediaKey::VolumeDown)]
        } else {
            Seq::<ActionView>::empty()
        };
        up + down
    }

    /// The state with both volume keys up.
    pub fn new() -> (s: HotkeyState)
        ensures
            s == (HotkeyState { volume_up: RepeatState::idle(), volume_down: RepeatState::idle() }),
    {
        HotkeyState { volume_up: RepeatState::new(), volume_down: RepeatState::new() }
    }

    /// Handles a transition of a media key at `now` and returns the action
    /// that fires, if one does.
    pub fn on_hotkey(&mut self, key: MediaKey, pressed: bool, now: u64) -> (fired: Option<Action>)
        ensures
            *final(self) == old(self).after_hotkey(key, pressed, now),
            match fired {
                Some(action) => {
                    &&& old(self).hotkey_fires(key, pressed)
                    &&& action@ == media_action(key)
                },
                None => !old(self).hotkey_fires(key, pressed),
            },
    {
        let fire = match key {
            MediaKey::VolumeUp => {
                if pressed {
                    self.volume_up.press(now)
                } else {
                    self.volume_up.release();
                    false
                }
            },
            MediaKey::VolumeDown => {
                if pressed {
                    self.volume_down.press(now)
                } else {
                    self.volume_down.release();
                    false
                }
            },
            MediaKey::VolumeMute => pressed,
        };
        if fire {
            Some(action_of(key))
        } else {
            None
        }
    }

    /// The ticker polls at `now`. Returns the actions that fire again.
    pub fn tick(&mut self, timing: RepeatTiming, now: u64) -> (fired: Vec<Action>)
        ensures
            final(self).volume_up == old(self).volume_up.after_tick(timing, now),
            final(self).volume_down == old(self).volume_down.after_tick(timing, now),
            fired@.map_values(|a: Action| a@) == old(self).tick_actions(timing, now),
    {
        let mut fired: Vec<Action> = Vec::new();
        if self.volume_up.tick(timing, now) {
            fired.push(action_of(MediaKey::VolumeUp));
        }
        if self.volume_down.tick(timing, now) {
            fired.push(action_of(MediaKey::VolumeDown));
        }
        fired
    }
}

} // verus!
