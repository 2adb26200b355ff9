//! The record of the keys that are held down at this moment.

use crate::key::{law_satisfied_iff_every_key_pressed, satisfied, KeyChord, KeyView};
use crate::keycodes::KeyCode;
use std::collections::HashSet;
use vstd::prelude::*;

verus! {

broadcast use vstd::std_specs::hash::group_hash_axioms;

/// The set of keys that are currently held. A key enters the set when it
/// goes down and leaves it when it comes up.
pub struct PressedKeys {
    keys: HashSet<KeyCode>,
}

impl View for PressedKeys {
    type V = Set<KeyCode>;

    closed spec fn view(&self) -> Set<KeyCode> {
        self.keys@
    }
}

/// The pressed set after one key transition.
pub open spec fn after_key_event(pressed: Set<KeyCode>, code: KeyCode, down: bool) -> Set<KeyCode> {
    if down {
        pressed.insert(code)
    } else {
        pressed.remove(code)
    }
}

/// One key transition: the key's code, and whether it went down.
pub struct KeyEvent {
    pub code: KeyCode,
    pub down: bool,
}

/// The pressed set after a sequence of key transitions, starting with no
/// key held.
pub open spec fn pressed_after(events: Seq<KeyEvent>) -> Set<KeyCode>
    decreases events.len(),
{
    if events.len() == 0 {
        Set::<KeyCode>::empty()
    } else {
        after_key_event(pressed_after(events.drop_last()), events.last().code, events.last().down)
    }
}

/// The most recent transition of `code` in `events` exists and is a press.
pub open spec fn last_went_down(events: Seq<KeyEvent>, code: KeyCode) -> bool {
    exists|i: int|
        0 <= i < events.len() && (#[trigger] events[i]).code == code && events[i].down
            && forall|j: int| i < j < events.len() ==> (#[trigger] events[j]).code != code
}

/// After any sequence of transitions, a key is in the pressed set exactly
/// when its most recent transition was a press.
pub proof fn law_held_iff_last_went_down(events: Seq<KeyEvent>, code: KeyCode)
    ensures
        pressed_after(events).contains(code) <==> last_went_down(events, code),
    decreases events.len(),
{
    if events.len() > 0 {
        let init = events.drop_last();
        let last = events.last();
        law_held_iff_last_went_down(init, code);
        if last.code == code {
            if !last.down && last_went_down(events, code) {
                let i = choose|i: int|
                    0 <= i < events.len() && (#[trigger] events[i]).code == code && events[i].down
                        && forall|j: int|
                        i < j < events.len() ==> (#[trigger] events[j]).code != code;
                assert(events[events.len() - 1].code == code);
            }
        } else {
            if last_went_down(init, code) {
                let i = choose|i: int|
                    0 <= i < init.len() && (#[trigger] init[i]).code == code && init[i].down
                        && forall|j: int| i < j < init.len() ==> (#[trigger] init[j]).code != code;
                assert forall|j: int| i < j < events.len() implies (#[trigger] events[j]).code
                    != code by {
                    if j < init.len() {
                        assert(events[j] == init[j]);
                    }
                }
            }
            if last_went_down(events, code) {
                let i = choose|i: int|
                    0 <= i < events.len() && (#[trigger] events[i]).code == code && events[i].down
                        && forall|j: int|
                        i < j < events.len() ==> (#[trigger] events[j]).code != code;
                assert(init[i] == events[i]);
            }
        }
    }
}

/// After any sequence of key transitions, a chord that has keys is satisfied
/// exactly when every one of its keys was last seen going down.
pub proof fn law_chord_satisfied_iff_keys_held(keys: Seq<KeyView>, events: Seq<KeyEvent>)
    requires
        keys.len() > 0,
    ensures
        satisfied(keys, pressed_after(events)) <==> forall|i: int|
            0 <= i < keys.len() ==> last_went_down(events, #[trigger] keys[i].vk_code),
{
    law_satisfied_iff_every_key_pressed(keys, pressed_after(events));
    assert forall|i: int| 0 <= i < keys.len() implies (pressed_after(events).contains(
        #[trigger] keys[i].vk_code,
    ) <==> last_went_down(events, keys[i].vk_code)) by {
        law_held_iff_last_went_down(events, keys[i].vk_code);
    }
}

/// The codes in `set`, each once, in no particular order.
pub fn codes_in(set: &HashSet<KeyCode>) -> (r: Vec<KeyCode>)
    ensures
        r@.no_duplicates(),
        r@.to_set() == set@,
{
    let mut out: Vec<KeyCode> = Vec::new();
    for code in it: set.iter()
        invariant
            it.seq().unref().to_set() == set@,
            it.seq().no_duplicates(),
            out@ =~= it.seq().unref().take(it.index()),
            it.index() == it.seq().len() ==> out@ == it.seq().unref(),
    {
        out.push(*code);
        assert(it.index() + 1 == it.seq().len() ==> it.seq().unref().take(it.index() + 1)
            =~= it.seq().unref());
    }
    out
}

impl PressedKeys {
    /// A tracker with no key held.
    pub fn new() -> (r: PressedKeys)
        ensures
            r@ == Set::<KeyCode>::empty(),
    {
        PressedKeys { keys: HashSet::new() }
    }

    /// Records that `code` went down or came up.
    pub fn on_key_event(&mut self, code: KeyCode, down: bool)
        ensures
            final(self)@ == after_key_event(old(self)@, code, down),
    {
        if down {
            self.keys.insert(code);
        } else {
            self.keys.remove(&code);
        }
    }

    /// Whether `code` is held.
    pub fn contains(&self, code: KeyCode) -> (r: bool)
        ensures
            r == self@.contains(code),
    {
        self.keys.contains(&code)
    }

    /// Forgets every key.
    pub fn clear(&mut self)
        ensures
            final(self)@ == Set::<KeyCode>::empty(),
    {
        self.keys.clear();
    }

    /// The keys that are held, each once, in no particular order.
    pub fn snapshot(&self) -> (r: Vec<KeyCode>)
        ensures
            r@.no_duplicates(),
            r@.to_set() == self@,
    {
        codes_in(&self.keys)
    }

    /// Whether `chord` has keys and every one of them is held. A chord
    /// without keys is never satisfied.
    pub fn satisfies(&self, chord: &KeyChord) -> (r: bool)
        ensures
            r == chord.is_satisfied(self@),
    {
        if chord.keys.len() == 0 {
            return false;
        }
        let mut i: usize = 0;
        while i < chord.keys.len()
            invariant
                i <= chord.keys@.len(),
                forall|k: int| 0 <= k < i ==> self@.contains(#[trigger] chord@[k].vk_code),
            decreases chord.keys@.len() - i,
        {
            if !self.keys.contains(&chord.keys[i].vk_code) {
                proof {
                    assert(chord.codes().contains(chord@[i as int].vk_code));
                }
                return false;
            }
            i = i + 1;
        }
        true
    }
}

} // verus!
