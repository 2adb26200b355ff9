//! The engine: the one object that owns the hotkey registry, the repetition
//! state, the debouncer and the serial reconciler, and through which every
//! input passes.
//!
//! The engine decides; it performs nothing. Each method takes one input
//! together with the time it happened and returns what is to be done. The
//! registry and the cache are replaced in one step when the configuration
//! changes, so an input sees either the old tables or the new ones, never a
//! mixture.

use crate::action::{Action, ActionView};
use crate::config::Config;
use crate::debounce::{after_request, let_through, permitted, ActionDebouncer};
use crate::hotkeys::{classified, media_action, HotkeyState, MediaHotkeys};
use crate::key_listener::{
    blocks, fired_actions, hooks_for, hotkey_usable, HookOutcome, HookView, KeyListener,
};
use crate::keybinds::{
    all_bindings, bind_views, keybind_actions, matched_keybinds, parse_keybinds, Keybind,
    KeybindView,
};
use crate::key_state::after_key_event;
use crate::keycodes::KeyCode;
use crate::reconciler::{
    LineError, ReconcilerState, SerialReconciler, VolumeUpdate, VolumeUpdateView,
};
use crate::repeat::{RepeatState, RepeatTiming, HOLD_DELAY_MS, REPEAT_INTERVAL_MS};
use crate::serial::{ReaderState, SerialReader};
use crate::text::{decode_lossy, utf8_lossy};
use vstd::prelude::*;

verus! {

/// What a chunk of serial bytes led to.
pub enum SerialOutcome {
    /// No line was due.
    Waiting,
    /// A line was due and was skipped for the reason given.
    Skipped(LineError),
    /// A line was due and asks for these changes.
    Updated(Vec<VolumeUpdate>),
}

pub enum SerialOutcomeView {
    Waiting,
    Skipped(LineError),
    Updated(Seq<VolumeUpdateView>),
}

impl View for SerialOutcome {
    type V = SerialOutcomeView;

    open spec fn view(&self) -> SerialOutcomeView {
        match self {
            SerialOutcome::Waiting => SerialOutcomeView::Waiting,
            SerialOutcome::Skipped(e) => SerialOutcomeView::Skipped(*e),
            SerialOutcome::Updated(updates) => SerialOutcomeView::Updated(
                updates@.map_values(|u: VolumeUpdate| u@),
            ),
        }
    }
}

/// What the line that is due, if any, leads to: its bytes are read as text
/// with ill-formed sequences replaced, and the text is reconciled.
pub open spec fn serial_outcome(
    reconciler: ReconcilerState,
    due: Option<Seq<u8>>,
) -> SerialOutcomeView {
    match due {
        None => SerialOutcomeView::Waiting,
        Some(bytes) => match reconciler.line_outcome(utf8_lossy(bytes)) {
            Ok(updates) => SerialOutcomeView::Updated(updates),
            Err(e) => SerialOutcomeView::Skipped(e),
        },
    }
}

/// The reconciler after the line that is due, if any.
pub open spec fn reconciled(reconciler: ReconcilerState, due: Option<Seq<u8>>) -> ReconcilerState {
    match due {
        None => reconciler,
        Some(bytes) => reconciler.after_line(utf8_lossy(bytes)),
    }
}

/// The actions that a key transition asks for: those of the hooks whose
/// chords are satisfied once the key is recorded, and, if the key went down,
/// those of the session bindings that it sets off.
pub open spec fn key_requests(
    hooks: Seq<HookView>,
    binds: Seq<KeybindView>,
    pressed: Set<KeyCode>,
    code: KeyCode,
    down: bool,
) -> Seq<ActionView> {
    fired_actions(hooks, pressed) + if down {
        keybind_actions(binds, code, pressed)
    } else {
        Seq::<ActionView>::empty()
    }
}

/// The engine's parts.
pub struct Engine {
    pub listener: KeyListener,
    pub keybinds: Vec<Keybind>,
    pub media: MediaHotkeys,
    pub hotkeys: HotkeyState,
    pub timing: RepeatTiming,
    pub debouncer: ActionDebouncer,
    pub reader: SerialReader,
    pub reconciler: SerialReconciler,
}

impl Engine {
    /// An engine for `config`: the registry holds the hotkeys that the
    /// configuration calls for, no key is held, nothing has been accepted
    /// yet, and the serial connection counts as new. Whether the configured
    /// mixer hotkey could be used is told by
    /// [`mixer_hotkey_usable`](crate::key_listener::mixer_hotkey_usable).
    pub fn new(config: &Config) -> (engine: Engine)
        ensures
            engine.listener.well_formed(),
            engine.listener.hooks() == hooks_for(config@),
            engine.listener.pressed() == Set::<KeyCode>::empty(),
            bind_views(engine.keybinds@) == all_bindings(config@.sessions),
            engine.media.registered(),
            engine.media.recognises_all(),
            engine.hotkeys == (HotkeyState {
                volume_up: RepeatState::idle(),
                volume_down: RepeatState::idle(),
            }),
            engine.timing == (RepeatTiming {
                hold_delay_ms: HOLD_DELAY_MS,
                repeat_interval_ms: REPEAT_INTERVAL_MS,
            }),
            engine.debouncer@ == Map::<ActionView, u64>::empty(),
            engine.reader@ == ReaderState::fresh(),
            engine.reconciler@ == ReconcilerState::connected(config@.sessions),
    {
        let mut listener = KeyListener::new();
        listener.rebuild(config);
        Engine {
            listener,
            keybinds: parse_keybinds(config),
            media: MediaHotkeys::new(),
            hotkeys: HotkeyState::new(),
            timing: RepeatTiming::standard(),
            debouncer: ActionDebouncer::new(),
            reader: SerialReader::new(),
            reconciler: SerialReconciler::new(config),
        }
    }

    /// Handles one key transition at `now`. The record of held keys is
    /// brought up to date, every hook whose chord is then satisfied asks
    /// for its action, a key that went down sets off the session bindings
    /// it belongs to, and the requests pass the debouncer one by one.
    pub fn on_key_event(&mut self, code: KeyCode, down: bool, now: u64) -> (outcome: HookOutcome)
        ensures
            final(self).listener.hooks() == old(self).listener.hooks(),
            final(self).listener.pressed() == after_key_event(
                old(self).listener.pressed(),
                code,
                down,
            ),
            (final(self).debouncer@, outcome.fired@.map_values(|a: Action| a@)) == let_through(
                old(self).debouncer@,
                key_requests(
                    old(self).listener.hooks(),
                    bind_views(old(self).keybinds@),
                    final(self).listener.pressed(),
                    code,
                    down,
                ),
                now,
            ),
            outcome.block == blocks(old(self).listener.hooks(), final(self).listener.pressed()),
            final(self).keybinds == old(self).keybinds,
            final(self).media == old(self).media,
            final(self).hotkeys == old(self).hotkeys,
            final(self).timing == old(self).timing,
            final(self).reader == old(self).reader,
            final(self).reconciler == old(self).reconciler,
    {
        let raw = self.listener.on_key_event(code, down);
        let mut requests = raw.fired;
        if down {
            let ghost hooked = requests@.map_values(|a: Action| a@);
            let held = self.listener.snapshot();
            let mut bound = matched_keybinds(&self.keybinds, code, &held);
            let ghost set_off = bound@.map_values(|a: Action| a@);
            requests.append(&mut bound);
            assert(requests@.map_values(|a: Action| a@) =~= hooked + set_off);
        } else {
            assert(requests@.map_values(|a: Action| a@) + Seq::<ActionView>::empty()
                =~= requests@.map_values(|a: Action| a@));
        }
        let fired = self.debouncer.filter(requests, now);
        HookOutcome { fired, block: raw.block }
    }

    /// Handles one event of the global hotkey system at `now`: the hotkey
    /// with identifier `id` went down (`pressed`) or came up. An identifier
    /// that belongs to none of the media hotkeys changes nothing. Otherwise
    /// the repetition state follows the key, and the action that fires, if
    /// one does, passes the debouncer.
    pub fn on_hotkey_event(&mut self, id: u32, pressed: bool, now: u64) -> (fired: Option<Action>)
        ensures
            final(self).listener == old(self).listener,
            final(self).keybinds == old(self).keybinds,
            final(self).media == old(self).media,
            final(self).timing == old(self).timing,
            final(self).reader == old(self).reader,
            final(self).reconciler == old(self).reconciler,
            match classified(
                id,
                old(self).media.volume_up@,
                old(self).media.volume_down@,
                old(self).media.mute@,
            ) {
                None => {
                    &&& fired is None
                    &&& final(self).hotkeys == old(self).hotkeys
                    &&& final(self).debouncer@ == old(self).debouncer@
                },
                Some(key) => {
                    &&& final(self).hotkeys == old(self).hotkeys.after_hotkey(key, pressed, now)
                    &&& if old(self).hotkeys.hotkey_fires(key, pressed) {
                        &&& final(self).debouncer@ == after_request(
                            old(self).debouncer@,
                            media_action(key),
                            now,
                        )
                        &&& match fired {
                            Some(action) => action@ == media_action(key) && permitted(
                                old(self).debouncer@,
                                media_action(key),
                                now,
                            ),
                            None => !permitted(old(self).debouncer@, media_action(key), now),
                        }
                    } else {
                        &&& fired is None
                        &&& final(self).debouncer@ == old(self).debouncer@
                    }
                },
            },
    {
        let key = match self.media.classify(id) {
            Some(key) => key,
            None => {
                return None;
            },
        };
        match self.hotkeys.on_hotkey(key, pressed, now) {
            Some(action) => {
                if self.debouncer.permit(&action, now) {
                    Some(action)
                } else {
                    None
                }
            },
            None => None,
        }
    }

    /// The ticker polls at `now`. Returns the actions that fire again
    /// because their keys are still held.
    pub fn tick(&mut self, now: u64) -> (fired: Vec<Action>)
        ensures
            final(self).hotkeys.volume_up == old(self).hotkeys.volume_up.after_tick(
                old(self).timing,
                now,
            ),
            final(self).hotkeys.volume_down == old(self).hotkeys.volume_down.after_tick(
                old(self).timing,
                now,
            ),
            fired@.map_values(|a: Action| a@) == old(self).hotkeys.tick_actions(
                old(self).timing,
                now,
            ),
            final(self).listener == old(self).listener,
            final(self).keybinds == old(self).keybinds,
            final(self).media == old(self).media,
            final(self).timing == old(self).timing,
            final(self).debouncer == old(self).debouncer,
            final(self).reader == old(self).reader,
            final(self).reconciler == old(self).reconciler,
    {
        let timing = self.timing;
        self.hotkeys.tick(timing, now)
    }

    /// Polls the serial reader at `now` and takes in a chunk of serial bytes
    /// that arrived at `now`; an empty chunk stands for a read that timed
    /// out. If the poll hands out a line, the line is reconciled.
    pub fn on_serial_bytes(&mut self, chunk: &[u8], now: u64) -> (outcome: SerialOutcome)
        ensures
            final(self).reader@ == old(self).reader@.polled(now).received(chunk@, now),
            final(self).reconciler@ == reconciled(
                old(self).reconciler@,
                old(self).reader@.due_line(now),
            ),
            outcome@ == serial_outcome(old(self).reconciler@, old(self).reader@.due_line(now)),
            final(self).listener == old(self).listener,
            final(self).keybinds == old(self).keybinds,
            final(self).media == old(self).media,
            final(self).hotkeys == old(self).hotkeys,
            final(self).timing == old(self).timing,
            final(self).debouncer == old(self).debouncer,
    {
        match self.reader.push_bytes(chunk, now) {
            None => SerialOutcome::Waiting,
            Some(bytes) => {
                let line = decode_lossy(bytes.as_slice());
                match self.reconciler.reconcile_line(line.as_str()) {
                    Ok(updates) => SerialOutcome::Updated(updates),
                    Err(e) => SerialOutcome::Skipped(e),
                }
            },
        }
    }

    /// Puts a new configuration in force: the registry is rebuilt,
    /// the session bindings are read anew, and the serial connection counts
    /// as made anew, with nothing buffered and the cache primed afresh. The
    /// record of held keys stays. Returns whether the configured mixer
    /// hotkey could be used.
    pub fn on_config_change(&mut self, config: &Config) -> (usable: bool)
        ensures
            usable == hotkey_usable(config@),
            final(self).listener.well_formed(),
            final(self).listener.hooks() == hooks_for(config@),
            final(self).listener.pressed() == old(self).listener.pressed(),
            bind_views(final(self).keybinds@) == all_bindings(config@.sessions),
            final(self).reader@ == ReaderState::fresh(),
            final(self).reconciler@ == ReconcilerState::connected(config@.sessions),
            final(self).media == old(self).media,
            final(self).hotkeys == old(self).hotkeys,
            final(self).timing == old(self).timing,
            final(self).debouncer == old(self).debouncer,
    {
        let usable = self.listener.rebuild(config);
        self.keybinds = parse_keybinds(config);
        self.reader.reset();
        self.reconciler.reset(config);
        usable
    }
}

} // verus!
