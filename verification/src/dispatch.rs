//! The action dispatcher: what each action does to the audio sessions and
//! what is announced afterwards.
//!
//! An action is worked out on a snapshot of the sessions. The outcome names
//! the change to carry out on the sessions themselves and the one session
//! state to announce. An action on a session that does not exist does
//! nothing and announces nothing.

use crate::action::{Action, ActionView};
use crate::audio_session::{AudioSession, AudioSessionView};
use crate::reconciler::{VolumeUpdate, VolumeUpdateView};
use crate::text::strings_view;
use crate::volume_service::{
    clamp_volume, clamped, first_named, get_session, get_session_mute, get_session_volume,
    lemma_first_named_in_range, lemma_meant_after_change, lemma_meant_in_range, meant,
    set_session_mute, set_session_volume, toggled_mute, views, with_mute, with_volume, Change,
    NOT_FOUND,
};
use vstd::prelude::*;

verus! {

/// By how many percent one press of a volume key changes the volume.
pub const VOLUME_STEP: i32 = 2;

/// The change to carry out on the audio sessions.
#[derive(Debug)]
pub enum Effect {
    /// Set the volume of the sessions at these positions, in percent.
    SetVolume { sessions: Vec<usize>, volume: i32 },
    /// Set the mute state of the sessions at these positions.
    SetMute { sessions: Vec<usize>, mute: bool },
    /// Show the mixer window if it is hidden, and hide it if it is shown.
    ToggleMixer,
    /// Nothing is to be done.
    Nothing,
}

pub enum EffectView {
    SetVolume { sessions: Seq<usize>, volume: i32 },
    SetMute { sessions: Seq<usize>, mute: bool },
    ToggleMixer,
    Nothing,
}

impl View for Effect {
    type V = EffectView;

    open spec fn view(&self) -> EffectView {
        match self {
            Effect::SetVolume { sessions, volume } => EffectView::SetVolume {
                sessions: sessions@,
                volume: *volume,
            },
            Effect::SetMute { sessions, mute } => EffectView::SetMute {
                sessions: sessions@,
                mute: *mute,
            },
            Effect::ToggleMixer => EffectView::ToggleMixer,
            Effect::Nothing => EffectView::Nothing,
        }
    }
}

/// What an action comes to: the change to carry out and the session state
/// to announce, if any. At most one state is announced for one action.
#[derive(Debug)]
pub struct Dispatched {
    pub effect: Effect,
    pub notification: Option<AudioSession>,
}

pub struct DispatchedView {
    pub effect: EffectView,
    pub notification: Option<AudioSessionView>,
}

impl View for Dispatched {
    type V = DispatchedView;

    open spec fn view(&self) -> DispatchedView {
        DispatchedView {
            effect: self.effect@,
            notification: match self.notification {
                Some(session) => Some(session@),
                None => None,
            },
        }
    }
}

/// The volume after one step from `volume`, held to the range from 0 to
/// 100.
pub open spec fn stepped(volume: i32, step: i32) -> i32 {
    let wanted = volume + step;
    if wanted < 0 {
        0
    } else if wanted > 100 {
        100
    } else {
        wanted as i32
    }
}

/// Computes the volume after one step, held to the range from 0 to 100.
pub fn step_volume(volume: i32, step: i32) -> (r: i32)
    ensures
        r == stepped(volume, step),
        r == clamped(r),
{
    let wanted: i64 = volume as i64 + step as i64;
    if wanted < 0 {
        0
    } else if wanted > 100 {
        100
    } else {
        wanted as i32
    }
}

/// The volume of the first session called `name`, or [`NOT_FOUND`].
pub open spec fn volume_of(sessions: Seq<AudioSessionView>, name: Seq<char>) -> i32 {
    if first_named(sessions, name, 0) >= 0 {
        sessions[first_named(sessions, name, 0)].volume
    } else {
        NOT_FOUND
    }
}

/// The first of the sessions that `name` means, if it means any.
pub open spec fn first_meant(
    sessions: Seq<AudioSessionView>,
    name: Seq<char>,
    defined: Seq<Seq<char>>,
) -> Option<AudioSessionView> {
    let all = meant(sessions, name, defined);
    if all.len() > 0 {
        Some(sessions[all[0] as int])
    } else {
        None
    }
}

/// The sessions and the outcome after the volume of `name` was stepped by
/// `step`. Where the volume of the session cannot be found, nothing
/// happens.
pub open spec fn after_step(
    sessions: Seq<AudioSessionView>,
    name: Seq<char>,
    defined: Seq<Seq<char>>,
    step: i32,
) -> (Seq<AudioSessionView>, DispatchedView) {
    let current = volume_of(sessions, name);
    if current == NOT_FOUND {
        (sessions, DispatchedView { effect: EffectView::Nothing, notification: None })
    } else {
        let volume = stepped(current, step);
        let changed = with_volume(sessions, name, defined, volume);
        (
            changed,
            DispatchedView {
                effect: EffectView::SetVolume { sessions: meant(sessions, name, defined), volume },
                notification: first_meant(changed, name, defined),
            },
        )
    }
}

/// The sessions and the outcome after the mute state of `name` was
/// flipped. Where the name means no session, nothing happens.
pub open spec fn after_toggle(
    sessions: Seq<AudioSessionView>,
    name: Seq<char>,
    defined: Seq<Seq<char>>,
) -> (Seq<AudioSessionView>, DispatchedView) {
    let all = meant(sessions, name, defined);
    if all.len() == 0 {
        (sessions, DispatchedView { effect: EffectView::Nothing, notification: None })
    } else {
        let mute = toggled_mute(sessions, name);
        let changed = with_mute(sessions, name, defined, mute);
        (
            changed,
            DispatchedView {
                effect: EffectView::SetMute { sessions: all, mute },
                notification: first_meant(changed, name, defined),
            },
        )
    }
}

/// The sessions and the outcome after `action`.
pub open spec fn after_action(
    sessions: Seq<AudioSessionView>,
    action: ActionView,
    defined: Seq<Seq<char>>,
) -> (Seq<AudioSessionView>, DispatchedView) {
    match action {
        ActionView::VolumeUp(name) => after_step(sessions, name, defined, VOLUME_STEP),
        ActionView::VolumeDown(name) => after_step(sessions, name, defined, (-VOLUME_STEP) as i32),
        ActionView::ToggleMute(name) => after_toggle(sessions, name, defined),
        ActionView::ToggleMixerWindow => (
            sessions,
            DispatchedView { effect: EffectView::ToggleMixer, notification: None },
        ),
    }
}

fn step_session(
    sessions: &mut Vec<AudioSession>,
    session_name: &str,
    defined: &Vec<String>,
    step: i32,
) -> (r: Dispatched)
    ensures
        (views(final(sessions)@), r@) == after_step(
            views(old(sessions)@),
            session_name@,
            strings_view(defined@),
            step,
        ),
{
    let current = get_session_volume(sessions, session_name);
    proof {
        lemma_first_named_in_range(views(sessions@), session_name@, 0);
    }
    if current == NOT_FOUND {
        return Dispatched { effect: Effect::Nothing, notification: None };
    }
    let volume = step_volume(current, step);
    let changed = set_session_volume(sessions, session_name, volume, defined);
    let notification = get_session(sessions, session_name, defined);
    let count = sessions.len();
    proof {
        let all = meant(views(sessions@), session_name@, strings_view(defined@));
        if all.len() > 0 {
            lemma_meant_in_range(
                views(sessions@),
                session_name@,
                strings_view(defined@),
                views(sessions@).len() as int,
            );
        }
    }
    Dispatched { effect: Effect::SetVolume { sessions: changed, volume }, notification }
}

/// Raises the volume of `session_name` by one step.
pub fn handle_session_up(
    sessions: &mut Vec<AudioSession>,
    session_name: &str,
    defined: &Vec<String>,
) -> (r: Dispatched)
    ensures
        (views(final(sessions)@), r@) == after_step(
            views(old(sessions)@),
            session_name@,
            strings_view(defined@),
            VOLUME_STEP,
        ),
{
    step_session(sessions, session_name, defined, VOLUME_STEP)
}

/// Lowers the volume of `session_name` by one step.
pub fn handle_session_down(
    sessions: &mut Vec<AudioSession>,
    session_name: &str,
    defined: &Vec<String>,
) -> (r: Dispatched)
    ensures
        (views(final(sessions)@), r@) == after_step(
            views(old(sessions)@),
            session_name@,
            strings_view(defined@),
            (-VOLUME_STEP) as i32,
        ),
{
    step_session(sessions, session_name, defined, -VOLUME_STEP)
}

/// Flips the mute state of `session_name`.
pub fn handle_session_toggle_mute(
    sessions: &mut Vec<AudioSession>,
    session_name: &str,
    defined: &Vec<String>,
) -> (r: Dispatched)
    ensures
        (views(final(sessions)@), r@) == after_toggle(
            views(old(sessions)@),
            session_name@,
            strings_view(defined@),
        ),
{
    let ghost before = views(sessions@);
    let ghost names = strings_view(defined@);
    let count = sessions.len();
    let mute = !get_session_mute(sessions, session_name);
    proof {
        lemma_first_named_in_range(before, session_name@, 0);
    }
    let changed = set_session_mute(sessions, session_name, mute, defined);
    if changed.len() == 0 {
        proof {
            lemma_meant_in_range(before, session_name@, names, before.len() as int);
        }
        return Dispatched { effect: Effect::Nothing, notification: None };
    }
    let notification = get_session(sessions, session_name, defined);
    proof {
        let all = meant(views(sessions@), session_name@, names);
        if all.len() > 0 {
            lemma_meant_in_range(
                views(sessions@),
                session_name@,
                names,
                views(sessions@).len() as int,
            );
        }
    }
    Dispatched { effect: Effect::SetMute { sessions: changed, mute }, notification }
}

/// The state of a session, if there is a session.
pub open spec fn session_view(session: Option<AudioSession>) -> Option<AudioSessionView> {
    match session {
        Some(found) => Some(found@),
        None => None,
    }
}

/// What a change asked for over the serial line comes to.
pub struct Applied {
    /// The sessions afterwards.
    pub sessions: Seq<AudioSessionView>,
    /// The changes to carry out on the sessions themselves, in order.
    pub effects: Seq<EffectView>,
    /// The session state to announce, if any.
    pub notification: Option<AudioSessionView>,
}

/// The sessions and the outcome after `update`. The mute state is set
/// first, then the volume, held to the range from 0 to 100. The state of the
/// first session that is meant is announced if the update asks for it.
/// Where the name means no session, nothing changes and nothing is
/// announced.
pub open spec fn after_update(
    sessions: Seq<AudioSessionView>,
    update: VolumeUpdateView,
    defined: Seq<Seq<char>>,
) -> Applied {
    let all = meant(sessions, update.session, defined);
    let volume = clamped(update.volume as i32);
    if all.len() == 0 {
        Applied { sessions, effects: Seq::<EffectView>::empty(), notification: None }
    } else {
        let changed = with_volume(
            with_mute(sessions, update.session, defined, update.mute),
            update.session,
            defined,
            volume,
        );
        Applied {
            sessions: changed,
            effects: seq![
                EffectView::SetMute { sessions: all, mute: update.mute },
                EffectView::SetVolume { sessions: all, volume },
            ],
            notification: if update.notify {
                first_meant(changed, update.session, defined)
            } else {
                None
            },
        }
    }
}

/// Carries out on the snapshot a change that the serial line asked for, and
/// tells what is to be done on the sessions themselves and what is to be
/// announced.
pub fn apply_update(
    sessions: &mut Vec<AudioSession>,
    update: &VolumeUpdate,
    defined: &Vec<String>,
) -> (r: (Vec<Effect>, Option<AudioSession>))
    ensures
        ({
            let wanted = after_update(views(old(sessions)@), update@, strings_view(defined@));
            &&& views(final(sessions)@) == wanted.sessions
            &&& r.0@.map_values(|e: Effect| e@) == wanted.effects
            &&& session_view(r.1) == wanted.notification
        }),
{
    let ghost before = views(sessions@);
    let ghost names = strings_view(defined@);
    let ghost name = update.session@;
    let count = sessions.len();
    proof {
        assert(before.len() == count);
        lemma_meant_in_range(before, name, names, before.len() as int);
    }
    let muted = set_session_mute(sessions, update.session.as_str(), update.mute, defined);
    if muted.len() == 0 {
        proof {
            assert(views(sessions@) =~= before);
        }
        let nothing: Vec<Effect> = Vec::new();
        assert(nothing@.map_values(|e: Effect| e@) =~= Seq::<EffectView>::empty());
        return (nothing, None);
    }
    let ghost after_mute = views(sessions@);
    let volume = clamp_volume(update.volume as i32);
    let set = set_session_volume(sessions, update.session.as_str(), volume, defined);
    let ghost changed = views(sessions@);
    proof {
        lemma_meant_after_change(
            before,
            name,
            names,
            Change::Mute(update.mute),
            name,
            before.len() as int,
        );
        lemma_meant_after_change(
            after_mute,
            name,
            names,
            Change::Volume(volume),
            name,
            after_mute.len() as int,
        );
        lemma_meant_in_range(changed, name, names, changed.len() as int);
    }
    let notification = if update.notify {
        let found = get_session(sessions, update.session.as_str(), defined);
        proof {
            let all = meant(changed, name, names);
            assert(changed[all[0] as int] == sessions@[all[0] as int]@);
        }
        found
    } else {
        None
    };
    let mut effects: Vec<Effect> = Vec::new();
    effects.push(Effect::SetMute { sessions: muted, mute: update.mute });
    effects.push(Effect::SetVolume { sessions: set, volume });
    proof {
        assert(effects@.map_values(|e: Effect| e@) =~= seq![
            EffectView::SetMute { sessions: meant(before, name, names), mute: update.mute },
            EffectView::SetVolume { sessions: meant(before, name, names), volume },
        ]);
    }
    (effects, notification)
}

/// Carries out `action` on the snapshot and tells what is to be done on the
/// sessions themselves and what is to be announced.
pub fn dispatch(action: &Action, sessions: &mut Vec<AudioSession>, defined: &Vec<String>) -> (r:
    Dispatched)
    ensures
        (views(final(sessions)@), r@) == after_action(
            views(old(sessions)@),
            action@,
            strings_view(defined@),
        ),
{
    match action {
        Action::VolumeUp(name) => handle_session_up(sessions, name.as_str(), defined),
        Action::VolumeDown(name) => handle_session_down(sessions, name.as_str(), defined),
        Action::ToggleMute(name) => handle_session_toggle_mute(sessions, name.as_str(), defined),
        Action::ToggleMixerWindow => Dispatched { effect: Effect::ToggleMixer, notification: None },
    }
}

} // verus!
