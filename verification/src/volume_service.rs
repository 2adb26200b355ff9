//! The rules of the volume service, worked out on a snapshot of the audio
//! sessions.
//!
//! Session names are matched without regard to case. The reserved name
//! `other` stands for every session that is not one of the configured ones.
//! The functions that change something change the snapshot and report which
//! sessions they changed, so that the same change can be carried out on the
//! sessions themselves.

use crate::audio_session::{AudioSession, AudioSessionView};
use crate::text::{lowercase_of, str_eq, strings_view, to_lowercase};
use vstd::prelude::*;

verus! {

/// What [`get_session_volume`] returns where no session has the name.
pub const NOT_FOUND: i32 = i32::MIN;

/// Whether the session with the lower-case name `key` is meant by the
/// lower-case query `query`, given the lower-case names of the configured
/// sessions.
pub open spec fn is_meant(key: Seq<char>, query: Seq<char>, defined: Seq<Seq<char>>) -> bool {
    if query == "other"@ {
        !defined.contains(key)
    } else {
        key == query
    }
}

/// Whether the session at `i` is meant by `name`.
pub open spec fn meant_at(
    sessions: Seq<AudioSessionView>,
    i: int,
    name: Seq<char>,
    defined: Seq<Seq<char>>,
) -> bool {
    is_meant(lowercase_of(sessions[i].name), lowercase_of(name), defined)
}

/// The positions among the first `n` sessions of those that `name` means,
/// in rising order.
pub open spec fn meant_upto(
    sessions: Seq<AudioSessionView>,
    name: Seq<char>,
    defined: Seq<Seq<char>>,
    n: int,
) -> Seq<usize>
    decreases n,
{
    if n <= 0 {
        Seq::<usize>::empty()
    } else {
        let init = meant_upto(sessions, name, defined, n - 1);
        if meant_at(sessions, n - 1, name, defined) {
            init.push((n - 1) as usize)
        } else {
            init
        }
    }
}

/// The positions of the sessions that `name` means, in rising order.
pub open spec fn meant(
    sessions: Seq<AudioSessionView>,
    name: Seq<char>,
    defined: Seq<Seq<char>>,
) -> Seq<usize> {
    meant_upto(sessions, name, defined, sessions.len() as int)
}

/// The position of the first session from `from` on whose name is `name`
/// but for case, or `-1`.
pub open spec fn first_named(sessions: Seq<AudioSessionView>, name: Seq<char>, from: int) -> int
    decreases sessions.len() - from,
{
    if from < 0 || from >= sessions.len() {
        -1
    } else if lowercase_of(sessions[from].name) == lowercase_of(name) {
        from
    } else {
        first_named(sessions, name, from + 1)
    }
}

/// The views of a list of sessions.
pub open spec fn views(sessions: Seq<AudioSession>) -> Seq<AudioSessionView> {
    sessions.map_values(|s: AudioSession| s@)
}

/// The volume in percent that a request for `volume` sets: the request held
/// to the range from 0 to 100.
pub open spec fn clamped(volume: i32) -> i32 {
    if volume < 0 {
        0
    } else if volume > 100 {
        100
    } else {
        volume
    }
}

/// Holds a requested volume to the range from 0 to 100.
pub fn clamp_volume(volume: i32) -> (r: i32)
    ensures
        r == clamped(volume),
{
    if volume < 0 {
        0
    } else if volume > 100 {
        100
    } else {
        volume
    }
}

fn contains_name(names: &Vec<String>, name: &str) -> (r: bool)
    ensures
        r == strings_view(names@).contains(name@),
{
    let ghost shown = strings_view(names@);
    let mut i: usize = 0;
    while i < names.len()
        invariant
            i <= names@.len(),
            shown == strings_view(names@),
            forall|k: int| 0 <= k < i ==> shown[k] != name@,
        decreases names@.len() - i,
    {
        if str_eq(names[i].as_str(), name) {
            assert(shown[i as int] == name@);
            return true;
        }
        i = i + 1;
    }
    false
}

/// The positions of the sessions that `session_name` means, in rising
/// order. `defined` holds the lower-case names of the configured sessions.
pub fn select_sessions(
    sessions: &Vec<AudioSession>,
    session_name: &str,
    defined: &Vec<String>,
) -> (r: Vec<usize>)
    ensures
        r@ == meant(views(sessions@), session_name@, strings_view(defined@)),
{
    let query = to_lowercase(session_name);
    let others = str_eq(query.as_str(), "other");
    let mut out: Vec<usize> = Vec::new();
    let mut i: usize = 0;
    while i < sessions.len()
        invariant
            i <= sessions@.len(),
            query@ == lowercase_of(session_name@),
            others == (query@ == "other"@),
            out@ == meant_upto(
                views(sessions@),
                session_name@,
                strings_view(defined@),
                i as int,
            ),
        decreases sessions@.len() - i,
    {
        let key = to_lowercase(sessions[i].name.as_str());
        let hit = if others {
            !contains_name(defined, key.as_str())
        } else {
            str_eq(key.as_str(), query.as_str())
        };
        if hit {
            out.push(i);
        }
        i = i + 1;
    }
    out
}

fn find_named(sessions: &Vec<AudioSession>, session_name: &str) -> (r: Option<usize>)
    ensures
        match r {
            Some(i) => i == first_named(views(sessions@), session_name@, 0) && i < sessions@.len(),
            None => first_named(views(sessions@), session_name@, 0) == -1,
        },
{
    let query = to_lowercase(session_name);
    let mut i: usize = 0;
    while i < sessions.len()
        invariant
            i <= sessions@.len(),
            query@ == lowercase_of(session_name@),
            first_named(views(sessions@), session_name@, 0) == first_named(
                views(sessions@),
                session_name@,
                i as int,
            ),
        decreases sessions@.len() - i,
    {
        let key = to_lowercase(sessions[i].name.as_str());
        if str_eq(key.as_str(), query.as_str()) {
            return Some(i);
        }
        i = i + 1;
    }
    None
}

/// The sessions without repeated names: of several sessions with one name,
/// only the first is kept.
pub open spec fn first_of_each_name(sessions: Seq<AudioSessionView>) -> Seq<AudioSessionView>
    decreases sessions.len(),
{
    if sessions.len() == 0 {
        Seq::<AudioSessionView>::empty()
    } else {
        let init = first_of_each_name(sessions.drop_last());
        if exists|k: int| 0 <= k < init.len() && (#[trigger] init[k]).name == sessions.last().name {
            init
        } else {
            init.push(sessions.last())
        }
    }
}

/// All sessions, one for each name.
pub fn get_all_sessions(sessions: &Vec<AudioSession>) -> (r: Vec<AudioSession>)
    ensures
        views(r@) == first_of_each_name(views(sessions@)),
{
    let mut out: Vec<AudioSession> = Vec::new();
    let mut i: usize = 0;
    while i < sessions.len()
        invariant
            i <= sessions@.len(),
            views(out@) == first_of_each_name(views(sessions@).take(i as int)),
        decreases sessions@.len() - i,
    {
        let ghost shown = views(out@);
        proof {
            assert(views(sessions@).take(i + 1).drop_last() =~= views(sessions@).take(i as int));
        }
        let mut known = false;
        let mut k: usize = 0;
        while k < out.len()
            invariant
                k <= out@.len(),
                i < sessions@.len(),
                shown == views(out@),
                known == exists|j: int|
                    0 <= j < k && (#[trigger] shown[j]).name == sessions@[i as int].name@,
            decreases out@.len() - k,
        {
            if str_eq(out[k].name.as_str(), sessions[i].name.as_str()) {
                assert(shown[k as int].name == sessions@[i as int].name@);
                known = true;
            }
            k = k + 1;
        }
        if !known {
            out.push(sessions[i].clone());
        }
        i = i + 1;
    }
    assert(views(sessions@).take(i as int) =~= views(sessions@));
    out
}

/// The volume of the first session called `session_name`, or [`NOT_FOUND`]
/// if there is none.
pub fn get_session_volume(sessions: &Vec<AudioSession>, session_name: &str) -> (volume: i32)
    ensures
        volume == if first_named(views(sessions@), session_name@, 0) >= 0 {
            sessions@[first_named(views(sessions@), session_name@, 0)].volume
        } else {
            NOT_FOUND
        },
{
    match find_named(sessions, session_name) {
        Some(i) => sessions[i].volume,
        None => NOT_FOUND,
    }
}

/// Whether the first session called `session_name` is muted; `false` if
/// there is none.
pub fn get_session_mute(sessions: &Vec<AudioSession>, session_name: &str) -> (mute: bool)
    ensures
        mute == if first_named(views(sessions@), session_name@, 0) >= 0 {
            sessions@[first_named(views(sessions@), session_name@, 0)].mute
        } else {
            false
        },
{
    match find_named(sessions, session_name) {
        Some(i) => sessions[i].mute,
        None => false,
    }
}

/// The sessions that `session_name` means, in order.
pub fn get_sessions(sessions: &Vec<AudioSession>, session_name: &str, defined: &Vec<String>) -> (r:
    Vec<AudioSession>)
    ensures
        r@.len() == meant(views(sessions@), session_name@, strings_view(defined@)).len(),
        forall|k: int|
            0 <= k < r@.len() ==> (#[trigger] r@[k])@ == sessions@[meant(
                views(sessions@),
                session_name@,
                strings_view(defined@),
            )[k] as int]@,
{
    let picked = select_sessions(sessions, session_name, defined);
    let count = sessions.len();
    proof {
        lemma_meant_in_range(
            views(sessions@),
            session_name@,
            strings_view(defined@),
            sessions@.len() as int,
        );
    }
    let mut out: Vec<AudioSession> = Vec::new();
    let mut k: usize = 0;
    while k < picked.len()
        invariant
            k <= picked@.len(),
            forall|j: int| 0 <= j < picked@.len() ==> (#[trigger] picked@[j]) < sessions@.len(),
            out@.len() == k,
            forall|j: int| 0 <= j < k ==> (#[trigger] out@[j])@ == sessions@[picked@[j] as int]@,
        decreases picked@.len() - k,
    {
        out.push(sessions[picked[k]].clone());
        k = k + 1;
    }
    out
}

/// The first session that `session_name` means, if it means any.
pub fn get_session(sessions: &Vec<AudioSession>, session_name: &str, defined: &Vec<String>) -> (r:
    Option<AudioSession>)
    ensures
        ({
            let all = meant(views(sessions@), session_name@, strings_view(defined@));
            match r {
                Some(session) => all.len() > 0 && session@ == sessions@[all[0] as int]@,
                None => all.len() == 0,
            }
        }),
{
    let picked = select_sessions(sessions, session_name, defined);
    let count = sessions.len();
    proof {
        lemma_meant_in_range(
            views(sessions@),
            session_name@,
            strings_view(defined@),
            sessions@.len() as int,
        );
    }
    if picked.len() == 0 {
        None
    } else {
        Some(sessions[picked[0]].clone())
    }
}

/// The positions that `meant_upto` gives are below `n`, rise strictly, and
/// are exactly the positions below `n` that are meant.
pub proof fn lemma_meant_in_range(
    sessions: Seq<AudioSessionView>,
    name: Seq<char>,
    defined: Seq<Seq<char>>,
    n: int,
)
    requires
        0 <= n <= sessions.len() <= usize::MAX,
    ensures
        forall|j: int|
            0 <= j < meant_upto(sessions, name, defined, n).len() ==> (#[trigger] meant_upto(
                sessions,
                name,
                defined,
                n,
            )[j]) < n,
        forall|i: int|
            0 <= i < n ==> (meant_at(sessions, i, name, defined) <==> meant_upto(
                sessions,
                name,
                defined,
                n,
            ).contains(i as usize)),
    decreases n,
{
    if n > 0 {
        lemma_meant_in_range(sessions, name, defined, n - 1);
        let init = meant_upto(sessions, name, defined, n - 1);
        let all = meant_upto(sessions, name, defined, n);
        assert forall|i: int| 0 <= i < n implies (meant_at(sessions, i, name, defined)
            <==> all.contains(i as usize)) by {
            if meant_at(sessions, n - 1, name, defined) {
                if i == n - 1 {
                    assert(all[init.len() as int] == i as usize);
                } else {
                    if init.contains(i as usize) {
                        let j = choose|j: int| 0 <= j < init.len() && init[j] == i as usize;
                        assert(all[j] == i as usize);
                    }
                }
            }
        }
    }
}

/// A change to make to a session.
#[derive(Clone, Copy, Debug, PartialEq, Eq, Structural)]
pub enum Change {
    /// Set the volume, in percent.
    Volume(i32),
    /// Set the mute state.
    Mute(bool),
}

/// A session after `change`.
pub open spec fn changed(session: AudioSessionView, change: Change) -> AudioSessionView {
    match change {
        Change::Volume(volume) => AudioSessionView { volume, ..session },
        Change::Mute(mute) => AudioSessionView { mute, ..session },
    }
}

/// The sessions after `change` was made to those that `name` means. The
/// other sessions stay as they are.
pub open spec fn with_change(
    sessions: Seq<AudioSessionView>,
    name: Seq<char>,
    defined: Seq<Seq<char>>,
    change: Change,
) -> Seq<AudioSessionView> {
    Seq::new(
        sessions.len(),
        |i: int|
            if meant_at(sessions, i, name, defined) {
                changed(sessions[i], change)
            } else {
                sessions[i]
            },
    )
}

/// A change of volume or of mute state leaves the names as they are, so the
/// same sessions are meant after it as before.
pub proof fn lemma_meant_after_change(
    sessions: Seq<AudioSessionView>,
    name: Seq<char>,
    defined: Seq<Seq<char>>,
    change: Change,
    other: Seq<char>,
    n: int,
)
    requires
        0 <= n <= sessions.len(),
    ensures
        meant_upto(with_change(sessions, name, defined, change), other, defined, n) == meant_upto(
            sessions,
            other,
            defined,
            n,
        ),
    decreases n,
{
    if n > 0 {
        lemma_meant_after_change(sessions, name, defined, change, other, n - 1);
        assert(with_change(sessions, name, defined, change)[n - 1].name == sessions[n - 1].name);
    }
}

/// The sessions after the volume of those that `name` means was set to
/// `volume`.
pub open spec fn with_volume(
    sessions: Seq<AudioSessionView>,
    name: Seq<char>,
    defined: Seq<Seq<char>>,
    volume: i32,
) -> Seq<AudioSessionView> {
    with_change(sessions, name, defined, Change::Volume(volume))
}

/// The sessions after the mute state of those that `name` means was set to
/// `mute`.
pub open spec fn with_mute(
    sessions: Seq<AudioSessionView>,
    name: Seq<char>,
    defined: Seq<Seq<char>>,
    mute: bool,
) -> Seq<AudioSessionView> {
    with_change(sessions, name, defined, Change::Mute(mute))
}

fn change_one(session: &AudioSession, change: Change) -> (r: AudioSession)
    ensures
        r@ == changed(session@, change),
{
    let mut copy = session.clone();
    match change {
        Change::Volume(volume) => {
            copy.volume = volume;
        },
        Change::Mute(mute) => {
            copy.mute = mute;
        },
    }
    copy
}

fn change_sessions(
    sessions: &mut Vec<AudioSession>,
    session_name: &str,
    defined: &Vec<String>,
    change: Change,
) -> (picked: Vec<usize>)
    ensures
        picked@ == meant(views(old(sessions)@), session_name@, strings_view(defined@)),
        views(final(sessions)@) == with_change(
            views(old(sessions)@),
            session_name@,
            strings_view(defined@),
            change,
        ),
{
    let picked = select_sessions(sessions, session_name, defined);
    let ghost before = views(sessions@);
    let ghost names = strings_view(defined@);
    let count = sessions.len();
    proof {
        lemma_meant_in_range(before, session_name@, names, before.len() as int);
    }
    let mut k: usize = 0;
    while k < picked.len()
        invariant
            k <= picked@.len(),
            before.len() <= usize::MAX,
            picked@ == meant(before, session_name@, names),
            forall|j: int| 0 <= j < picked@.len() ==> (#[trigger] picked@[j]) < before.len(),
            sessions@.len() == before.len(),
            forall|i: int|
                0 <= i < before.len() ==> (#[trigger] sessions@[i])@ == if exists|j: int|
                    0 <= j < k && picked@[j] == i {
                    changed(before[i], change)
                } else {
                    before[i]
                },
        decreases picked@.len() - k,
    {
        let at = picked[k];
        let session = change_one(&sessions[at], change);
        sessions.set(at, session);
        proof {
            assert forall|i: int| 0 <= i < before.len() implies (#[trigger] sessions@[i])@
                == if exists|j: int| 0 <= j < k + 1 && picked@[j] == i {
                changed(before[i], change)
            } else {
                before[i]
            } by {
                if i == at {
                    if exists|j: int| 0 <= j < k && picked@[j] == i {
                        assert(changed(changed(before[i], change), change) == changed(
                            before[i],
                            change,
                        ));
                    }
                }
            }
        }
        k = k + 1;
    }
    proof {
        assert forall|i: int| 0 <= i < before.len() implies views(sessions@)[i] == with_change(
            before,
            session_name@,
            names,
            change,
        )[i] by {
        }
    }
    picked
}

/// Sets the volume of every session that `session_name` means to `volume`,
/// held to the range from 0 to 100, and returns the positions of the
/// sessions that were set. Where the name means no session nothing changes
/// and the result is empty.
pub fn set_session_volume(
    sessions: &mut Vec<AudioSession>,
    session_name: &str,
    volume: i32,
    defined: &Vec<String>,
) -> (changed: Vec<usize>)
    ensures
        changed@ == meant(views(old(sessions)@), session_name@, strings_view(defined@)),
        views(final(sessions)@) == with_volume(
            views(old(sessions)@),
            session_name@,
            strings_view(defined@),
            clamped(volume),
        ),
{
    change_sessions(sessions, session_name, defined, Change::Volume(clamp_volume(volume)))
}

/// Sets the mute state of every session that `session_name` means and
/// returns the positions of the sessions that were set. Where the name
/// means no session nothing changes and the result is empty.
pub fn set_session_mute(
    sessions: &mut Vec<AudioSession>,
    session_name: &str,
    mute: bool,
    defined: &Vec<String>,
) -> (changed: Vec<usize>)
    ensures
        changed@ == meant(views(old(sessions)@), session_name@, strings_view(defined@)),
        views(final(sessions)@) == with_mute(
            views(old(sessions)@),
            session_name@,
            strings_view(defined@),
            mute,
        ),
{
    change_sessions(sessions, session_name, defined, Change::Mute(mute))
}

/// The mute state that a toggle sets: the opposite of that of the first
/// session called `name`; muted, if there is no such session.
pub open spec fn toggled_mute(sessions: Seq<AudioSessionView>, name: Seq<char>) -> bool {
    if first_named(sessions, name, 0) >= 0 {
        !sessions[first_named(sessions, name, 0)].mute
    } else {
        true
    }
}

/// Flips the mute state of the sessions that `session_name` means and
/// returns the positions of the sessions that were set. All of them get the
/// opposite of the state of the first session with that name.
pub fn toggle_session_mute(
    sessions: &mut Vec<AudioSession>,
    session_name: &str,
    defined: &Vec<String>,
) -> (changed: Vec<usize>)
    ensures
        changed@ == meant(views(old(sessions)@), session_name@, strings_view(defined@)),
        views(final(sessions)@) == with_mute(
            views(old(sessions)@),
            session_name@,
            strings_view(defined@),
            toggled_mute(views(old(sessions)@), session_name@),
        ),
{
    let mute = get_session_mute(sessions, session_name);
    proof {
        lemma_first_named_in_range(views(sessions@), session_name@, 0);
    }
    set_session_mute(sessions, session_name, !mute, defined)
}

/// What `first_named` gives is `-1` or a position from `from` on.
pub proof fn lemma_first_named_in_range(sessions: Seq<AudioSessionView>, name: Seq<char>, from: int)
    requires
        0 <= from,
    ensures
        first_named(sessions, name, from) == -1 || from <= first_named(sessions, name, from)
            < sessions.len(),
    decreases sessions.len() - from,
{
    if from < sessions.len() && lowercase_of(sessions[from].name) != lowercase_of(name) {
        lemma_first_named_in_range(sessions, name, from + 1);
    }
}

} // verus!
