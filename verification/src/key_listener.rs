//! The hotkey registry: which chords are watched, what each one triggers,
//! and what a key transition sets off.

use crate::action::{media_session, media_session_name, Action, ActionView};
use crate::config::{Config, ConfigView};
use crate::key::{parsed_chord, satisfied, Key, KeyChord, KeyView};
use crate::key_state::{after_key_event, PressedKeys};
use crate::keycodes::{KeyCode, VK_VOLUME_DOWN, VK_VOLUME_MUTE, VK_VOLUME_UP};
use crate::text::lemma_split_on_nonempty;
use vstd::prelude::*;

verus! {

/// One registered hotkey: the chord to watch, whether the key event is to be
/// withheld from other programs when the chord matches, and the action to
/// trigger.
pub struct HookData {
    pub chord: KeyChord,
    pub should_block: bool,
    pub action: Action,
}

pub struct HookView {
    pub chord: Seq<KeyView>,
    pub should_block: bool,
    pub action: ActionView,
}

impl View for HookData {
    type V = HookView;

    open spec fn view(&self) -> HookView {
        HookView { chord: self.chord@, should_block: self.should_block, action: self.action@ }
    }
}

impl HookData {
    pub fn new(chord: KeyChord, should_block: bool, action: Action) -> (hook: HookData)
        ensures
            hook@ == (HookView { chord: chord@, should_block, action: action@ }),
    {
        HookData { chord, should_block, action }
    }
}

/// What one key transition sets off.
pub struct HookOutcome {
    /// The actions of the hooks whose chords are satisfied, in the order of
    /// registration.
    pub fired: Vec<Action>,
    /// Whether the key event is to be withheld from other programs.
    pub block: bool,
}

/// The actions of those of `hooks` whose chords `pressed` satisfies, in
/// order. Every satisfied hook fires; there is no priority among them.
pub open spec fn fired_actions(hooks: Seq<HookView>, pressed: Set<KeyCode>) -> Seq<ActionView>
    decreases hooks.len(),
{
    if hooks.len() == 0 {
        Seq::<ActionView>::empty()
    } else {
        let init = fired_actions(hooks.drop_last(), pressed);
        if satisfied(hooks.last().chord, pressed) {
            init.push(hooks.last().action)
        } else {
            init
        }
    }
}

/// Whether some hook that asks for blocking has its chord satisfied.
pub open spec fn blocks(hooks: Seq<HookView>, pressed: Set<KeyCode>) -> bool {
    exists|i: int|
        0 <= i < hooks.len() && (#[trigger] hooks[i]).should_block && satisfied(
            hooks[i].chord,
            pressed,
        )
}

/// The three media-key hooks that every registry holds.
pub open spec fn media_hooks() -> Seq<HookView> {
    seq![
        HookView {
            chord: seq![KeyView { name: "VolumeUp"@, vk_code: VK_VOLUME_UP }],
            should_block: true,
            action: ActionView::VolumeUp(media_session()),
        },
        HookView {
            chord: seq![KeyView { name: "VolumeDown"@, vk_code: VK_VOLUME_DOWN }],
            should_block: true,
            action: ActionView::VolumeDown(media_session()),
        },
        HookView {
            chord: seq![KeyView { name: "VolumeMute"@, vk_code: VK_VOLUME_MUTE }],
            should_block: true,
            action: ActionView::ToggleMute(media_session()),
        },
    ]
}

/// The hook for the mixer window: present when a hotkey is configured and
/// every key name in it is known.
pub open spec fn mixer_hooks(config: ConfigView) -> Seq<HookView> {
    match config.mixer.hotkey {
        Some(hotkey) => match parsed_chord(hotkey) {
            Some(chord) => seq![
                HookView { chord, should_block: true, action: ActionView::ToggleMixerWindow },
            ],
            None => Seq::<HookView>::empty(),
        },
        None => Seq::<HookView>::empty(),
    }
}

/// The table that a configuration calls for: the mixer hotkey, if there is a
/// usable one, then the three media keys.
pub open spec fn hooks_for(config: ConfigView) -> Seq<HookView> {
    mixer_hooks(config) + media_hooks()
}

/// Whether a configured mixer hotkey can be used. A configuration without
/// one is in order.
pub open spec fn hotkey_usable(config: ConfigView) -> bool {
    match config.mixer.hotkey {
        Some(hotkey) => parsed_chord(hotkey) is Some,
        None => true,
    }
}

/// Tells whether the mixer hotkey that `config` names can be used: every
/// key name in it is known. A configuration without a mixer hotkey is in
/// order.
pub fn mixer_hotkey_usable(config: &Config) -> (r: bool)
    ensures
        r == hotkey_usable(config@),
{
    match &config.mixer.hotkey {
        Some(hotkey) => KeyChord::from_string(hotkey.as_str()).is_some(),
        None => true,
    }
}

/// The registry of hotkeys together with the record of held keys.
pub struct KeyListener {
    hooks: Vec<HookData>,
    pressed: PressedKeys,
}

impl KeyListener {
    /// The registered hooks in the order of registration.
    pub closed spec fn hooks(&self) -> Seq<HookView> {
        self.hooks@.map_values(|h: HookData| h@)
    }

    /// The keys that are held.
    pub closed spec fn pressed(&self) -> Set<KeyCode> {
        self.pressed@
    }

    /// Every registered chord has at least one key.
    pub open spec fn well_formed(&self) -> bool {
        forall|i: int|
            0 <= i < self.hooks().len() ==> (#[trigger] self.hooks()[i]).chord.len() > 0
    }

    /// A listener with no hook and no key held.
    pub fn new() -> (r: KeyListener)
        ensures
            r.well_formed(),
            r.hooks() == Seq::<HookView>::empty(),
            r.pressed() == Set::<KeyCode>::empty(),
    {
        let r = KeyListener { hooks: Vec::new(), pressed: PressedKeys::new() };
        r
    }

    /// Adds a hook at the end of the table. A chord without keys can never be
    /// satisfied, so it is refused and the table stays as it is.
    pub fn register(
        &mut self,
        key_chord: KeyChord,
        should_block: bool,
        action: Action,
    ) -> (accepted: bool)
        ensures
            accepted == (key_chord@.len() > 0),
            final(self).pressed() == old(self).pressed(),
            final(self).hooks() == if accepted {
                old(self).hooks().push(
                    HookView { chord: key_chord@, should_block, action: action@ },
                )
            } else {
                old(self).hooks()
            },
            old(self).well_formed() ==> final(self).well_formed(),
    {
        if key_chord.is_empty() {
            return false;
        }
        let hook = HookData::new(key_chord, should_block, action);
        self.hooks.push(hook);
        true
    }

    /// Removes every hook. The record of held keys stays.
    pub fn unregister_all(&mut self)
        ensures
            final(self).hooks() == Seq::<HookView>::empty(),
            final(self).pressed() == old(self).pressed(),
    {
        self.hooks.clear();
    }

    /// The number of registered hooks.
    pub fn len(&self) -> (n: usize)
        ensures
            n == self.hooks().len(),
    {
        self.hooks.len()
    }

    /// The keys that are held, each once, in no particular order.
    pub fn snapshot(&self) -> (r: Vec<KeyCode>)
        ensures
            r@.no_duplicates(),
            r@.to_set() == self.pressed(),
    {
        self.pressed.snapshot()
    }

    /// Handles one key transition: updates the record of held keys, then
    /// fires every hook whose chord the new record satisfies.
    pub fn on_key_event(&mut self, code: KeyCode, down: bool) -> (outcome: HookOutcome)
        ensures
            final(self).hooks() == old(self).hooks(),
            final(self).pressed() == after_key_event(old(self).pressed(), code, down),
            outcome.fired@.map_values(|a: Action| a@) == fired_actions(
                old(self).hooks(),
                final(self).pressed(),
            ),
            outcome.block == blocks(old(self).hooks(), final(self).pressed()),
    {
        self.pressed.on_key_event(code, down);
        let mut fired: Vec<Action> = Vec::new();
        let mut block = false;
        let mut i: usize = 0;
        while i < self.hooks.len()
            invariant
                i <= self.hooks@.len(),
                fired@.map_values(|a: Action| a@) == fired_actions(
                    self.hooks().take(i as int),
                    self.pressed(),
                ),
                block == blocks(self.hooks().take(i as int), self.pressed()),
            decreases self.hooks@.len() - i,
        {
            let ghost before = self.hooks().take(i as int);
            let ghost after = self.hooks().take(i + 1);
            proof {
                assert(after.drop_last() =~= before);
            }
            let hook = &self.hooks[i];
            let hit = self.pressed.satisfies(&hook.chord);
            if hit {
                fired.push(hook.action.clone());
                if hook.should_block {
                    block = true;
                }
            }
            proof {
                let pressed = self.pressed();
                if blocks(before, pressed) {
                    let k = choose|k: int|
                        0 <= k < before.len() && (#[trigger] before[k]).should_block && satisfied(
                            before[k].chord,
                            pressed,
                        );
                    assert(after[k] == before[k]);
                }
                if blocks(after, pressed) {
                    let k = choose|k: int|
                        0 <= k < after.len() && (#[trigger] after[k]).should_block && satisfied(
                            after[k].chord,
                            pressed,
                        );
                    assert(k < i ==> before[k] == after[k]);
                }
            }
            i = i + 1;
        }
        assert(self.hooks().take(i as int) =~= self.hooks());
        HookOutcome { fired, block }
    }

    /// Replaces the whole table by the one that `config` calls for. Returns
    /// whether the configured mixer hotkey could be used; if it could not,
    /// the table holds the media keys alone.
    pub fn rebuild(&mut self, config: &Config) -> (usable: bool)
        ensures
            final(self).well_formed(),
            final(self).hooks() == hooks_for(config@),
            final(self).pressed() == old(self).pressed(),
            usable == hotkey_usable(config@),
    {
        self.unregister_all();
        let mut usable = true;
        match &config.mixer.hotkey {
            Some(hotkey) => {
                match KeyChord::from_string(hotkey.as_str()) {
                    Some(chord) => {
                        proof {
                            lemma_split_on_nonempty(hotkey@, '+');
                        }
                        self.register(chord, true, Action::ToggleMixerWindow);
                    },
                    None => {
                        usable = false;
                    },
                }
            },
            None => {},
        }
        self.register(
            media_chord("VolumeUp", VK_VOLUME_UP),
            true,
            Action::VolumeUp(media_session_name()),
        );
        self.register(
            media_chord("VolumeDown", VK_VOLUME_DOWN),
            true,
            Action::VolumeDown(media_session_name()),
        );
        self.register(
            media_chord("VolumeMute", VK_VOLUME_MUTE),
            true,
            Action::ToggleMute(media_session_name()),
        );
        usable
    }
}

fn media_chord(name: &str, code: KeyCode) -> (chord: KeyChord)
    ensures
        chord@ == seq![KeyView { name: name@, vk_code: code }],
{
    let mut keys: Vec<Key> = Vec::new();
    keys.push(Key::new(name.to_owned(), code));
    let chord = KeyChord::new(keys);
    chord
}

} // verus!
