//! Key bindings of sessions: the chords that the configuration attaches to
//! a session, and the actions that a key event sets off through them.

use crate::action::{named_action, Action, ActionView};
use crate::config::{Config, KeybindConfig, KeybindConfigView, SessionConfig, SessionConfigView};
use crate::keyboard::{
    chord_codes, is_chord_pressed, is_modifier, is_modifier_key, parse_key_chord,
};
use crate::keycodes::KeyCode;
use std::collections::HashSet;
use vstd::prelude::*;

verus! {

broadcast use vstd::std_specs::hash::group_hash_axioms;

/// One binding: the keys of its chord, the name of the action and the name
/// of the session.
pub struct Keybind {
    pub chord: HashSet<KeyCode>,
    pub action: String,
    pub session: String,
}

pub struct KeybindView {
    pub chord: Set<KeyCode>,
    pub action: Seq<char>,
    pub session: Seq<char>,
}

impl View for Keybind {
    type V = KeybindView;

    open spec fn view(&self) -> KeybindView {
        KeybindView { chord: self.chord@, action: self.action@, session: self.session@ }
    }
}

/// The bindings that come from the list `keybinds` of the session called
/// `session`, in order. A binding whose chord names no known key is left
/// out.
pub open spec fn bindings_from(session: Seq<char>, keybinds: Seq<KeybindConfigView>) -> Seq<
    KeybindView,
>
    decreases keybinds.len(),
{
    if keybinds.len() == 0 {
        Seq::<KeybindView>::empty()
    } else {
        let init = bindings_from(session, keybinds.drop_last());
        let chord = chord_codes(keybinds.last().key);
        if chord == Set::<KeyCode>::empty() {
            init
        } else {
            init.push(KeybindView { chord, action: keybinds.last().action, session })
        }
    }
}

/// The bindings of one session.
pub open spec fn session_bindings(session: SessionConfigView) -> Seq<KeybindView> {
    match session.keybinds {
        Some(keybinds) => bindings_from(session.name, keybinds),
        None => Seq::<KeybindView>::empty(),
    }
}

/// The bindings of all sessions, session by session.
pub open spec fn all_bindings(sessions: Seq<SessionConfigView>) -> Seq<KeybindView>
    decreases sessions.len(),
{
    if sessions.len() == 0 {
        Seq::<KeybindView>::empty()
    } else {
        all_bindings(sessions.drop_last()) + session_bindings(sessions.last())
    }
}

/// The views of a list of bindings.
pub open spec fn bind_views(binds: Seq<Keybind>) -> Seq<KeybindView> {
    binds.map_values(|b: Keybind| b@)
}

fn push_session_keybinds(out: &mut Vec<Keybind>, session: &SessionConfig)
    ensures
        bind_views(final(out)@) == bind_views(old(out)@) + session_bindings(session@),
{
    let ghost start = bind_views(out@);
    match &session.keybinds {
        None => {
        },
        Some(keybinds) => {
            let ghost configured = keybinds@.map_values(|k: KeybindConfig| k@);
            let mut i: usize = 0;
            while i < keybinds.len()
                invariant
                    i <= keybinds@.len(),
                    configured == keybinds@.map_values(|k: KeybindConfig| k@),
                    bind_views(out@) == start + bindings_from(
                        session.name@,
                        configured.take(i as int),
                    ),
                decreases keybinds@.len() - i,
            {
                let ghost shown = bind_views(out@);
                proof {
                    assert(configured.take(i + 1).drop_last() =~= configured.take(i as int));
                }
                let chord = parse_key_chord(keybinds[i].key.as_str());
                if !chord.is_empty() {
                    let bind = Keybind {
                        chord,
                        action: keybinds[i].action.clone(),
                        session: session.name.clone(),
                    };
                    out.push(bind);
                    assert(bind_views(out@) =~= shown.push(
                        KeybindView {
                            chord: chord_codes(keybinds@[i as int].key@),
                            action: keybinds@[i as int].action@,
                            session: session.name@,
                        },
                    ));
                    assert(bind_views(out@) =~= start + bindings_from(
                        session.name@,
                        configured.take(i + 1),
                    ));
                } else {
                    assert(bind_views(out@) =~= start + bindings_from(
                        session.name@,
                        configured.take(i + 1),
                    ));
                }
                i = i + 1;
            }
            assert(configured.take(i as int) =~= configured);
        },
    }
}

/// Reads every key binding of every session once, in the order of the
/// configuration.
pub fn parse_keybinds(config: &Config) -> (binds: Vec<Keybind>)
    ensures
        bind_views(binds@) == all_bindings(config@.sessions),
{
    let mut out: Vec<Keybind> = Vec::new();
    let mut j: usize = 0;
    while j < config.sessions.len()
        invariant
            j <= config.sessions@.len(),
            bind_views(out@) == all_bindings(config@.sessions.take(j as int)),
        decreases config.sessions@.len() - j,
    {
        proof {
            assert(config@.sessions.take(j + 1).drop_last() =~= config@.sessions.take(j as int));
        }
        push_session_keybinds(&mut out, &config.sessions[j]);
        j = j + 1;
    }
    assert(config@.sessions.take(j as int) =~= config@.sessions);
    out
}

/// Whether a binding is set off by the key `event` while `pressed` are
/// held: the key belongs to the chord and the whole chord is held.
pub open spec fn binding_matches(bind: KeybindView, event: KeyCode, pressed: Set<KeyCode>) -> bool {
    bind.chord.contains(event) && bind.chord.subset_of(pressed)
}

/// The actions of the bindings among `binds` that the key `event` sets off,
/// in order. A binding whose action name is unknown sets off nothing.
pub open spec fn bound_actions(
    binds: Seq<KeybindView>,
    event: KeyCode,
    pressed: Set<KeyCode>,
) -> Seq<ActionView>
    decreases binds.len(),
{
    if binds.len() == 0 {
        Seq::<ActionView>::empty()
    } else {
        let init = bound_actions(binds.drop_last(), event, pressed);
        let bind = binds.last();
        match named_action(bind.action, bind.session) {
            Some(action) => if binding_matches(bind, event, pressed) {
                init.push(action)
            } else {
                init
            },
            None => init,
        }
    }
}

/// The actions that a key event sets off through the bindings. A modifier
/// key on its own sets off nothing; it only takes part in the chords of
/// other keys.
pub open spec fn keybind_actions(
    binds: Seq<KeybindView>,
    event: KeyCode,
    pressed: Set<KeyCode>,
) -> Seq<ActionView> {
    if is_modifier(event) {
        Seq::<ActionView>::empty()
    } else {
        bound_actions(binds, event, pressed)
    }
}

/// The action that a configured action name asks for on a session.
pub fn handle_action(action: &str, session_name: &str) -> (r: Option<Action>)
    ensures
        match r {
            Some(found) => named_action(action@, session_name@) == Some(found@),
            None => named_action(action@, session_name@) is None,
        },
{
    Action::from_name(action, session_name)
}

/// Works out the actions that the key `event` sets off while the keys
/// `pressed` are held.
pub fn matched_keybinds(binds: &Vec<Keybind>, event: KeyCode, pressed: &Vec<KeyCode>) -> (fired:
    Vec<Action>)
    ensures
        fired@.map_values(|a: Action| a@) == keybind_actions(
            bind_views(binds@),
            event,
            pressed@.to_set(),
        ),
{
    let mut fired: Vec<Action> = Vec::new();
    if is_modifier_key(event) {
        return fired;
    }
    let mut i: usize = 0;
    while i < binds.len()
        invariant
            i <= binds@.len(),
            fired@.map_values(|a: Action| a@) == bound_actions(
                bind_views(binds@).take(i as int),
                event,
                pressed@.to_set(),
            ),
        decreases binds@.len() - i,
    {
        proof {
            assert(bind_views(binds@).take(i + 1).drop_last() =~= bind_views(binds@).take(i as int));
        }
        let bind = &binds[i];
        if bind.chord.contains(&event) && is_chord_pressed(&bind.chord, pressed) {
            assert(!bind.chord@.is_empty()) by {
                assert(bind.chord@.contains(event));
            }
            match handle_action(bind.action.as_str(), bind.session.as_str()) {
                Some(action) => {
                    fired.push(action);
                },
                None => {},
            }
        }
        i = i + 1;
    }
    assert(bind_views(binds@).take(i as int) =~= bind_views(binds@));
    fired
}

} // verus!
