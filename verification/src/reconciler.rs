//! The serial line reconciler.
//!
//! A record is a line of fields separated by `|`, one signed decimal number
//! per field in the range from -100 to 100. The field at position `i`
//! belongs to the session whose slot is `i`. A negative number means the
//! session is muted, and its magnitude is the volume to restore.
//!
//! The reconciler compares each field with the value it saw last for that
//! session and asks for a change only where they differ. The first record
//! after a connection is made only brings the cache up to date: its changes
//! are carried out but not announced.

use crate::cache::{cached, SessionVolumeCache};
use crate::config::{Config, SessionConfigView};
use crate::text::{
    chars_of, lowercase_of, parse_i32_span, parse_i32_spec, split_on, split_span, to_lowercase,
    trim_span, trim_str, trimmed, Span,
};
use vstd::prelude::*;

verus! {

/// Why a record was skipped. A record that is skipped changes nothing.
#[derive(Clone, Copy, Debug, PartialEq, Eq, Structural)]
pub enum LineError {
    /// No session is configured for the slot of this field.
    NoSession { field: usize },
    /// This field is not a signed decimal number that fits in 32 bits.
    NotANumber { field: usize },
}

/// A configured session as the reconciler sees it.
pub struct SessionSlot {
    /// The session's name as configured.
    pub name: String,
    /// The name trimmed and in lower case: the key under which the
    /// session's value is cached.
    pub key: String,
    /// The position in a record of the field that belongs to the session.
    pub index: usize,
}

pub struct SlotView {
    pub name: Seq<char>,
    pub key: Seq<char>,
    pub index: usize,
}

impl View for SessionSlot {
    type V = SlotView;

    open spec fn view(&self) -> SlotView {
        SlotView { name: self.name@, key: self.key@, index: self.index }
    }
}

/// The key under which a session's value is cached: session names are
/// compared without regard to case or surrounding white space.
pub open spec fn session_key(name: Seq<char>) -> Seq<char> {
    lowercase_of(trimmed(name))
}

/// The slot of the session at `position` in the configured list: its
/// encoder index if one is configured, and else its position.
pub open spec fn slot_index(session: SessionConfigView, position: int) -> usize {
    match session.encoder {
        Some(encoder) => encoder as usize,
        None => position as usize,
    }
}

/// The slots of a list of configured sessions.
pub open spec fn slots_of(sessions: Seq<SessionConfigView>) -> Seq<SlotView> {
    Seq::new(
        sessions.len(),
        |j: int|
            SlotView {
                name: sessions[j].name,
                key: session_key(sessions[j].name),
                index: slot_index(sessions[j], j),
            },
    )
}

/// The cache at connection time: every configured session at zero.
pub open spec fn initial_cache(slots: Seq<SlotView>) -> Map<Seq<char>, i32>
    decreases slots.len(),
{
    if slots.len() == 0 {
        Map::<Seq<char>, i32>::empty()
    } else {
        initial_cache(slots.drop_last()).insert(slots.last().key, 0)
    }
}

/// The first session from position `from` on whose slot is `field`.
pub open spec fn first_slot(slots: Seq<SlotView>, field: int, from: int) -> Option<int>
    decreases slots.len() - from,
{
    if from < 0 || from >= slots.len() {
        None
    } else if slots[from].index == field {
        Some(from)
    } else {
        first_slot(slots, field, from + 1)
    }
}

/// The session that the field at position `field` belongs to. Where several
/// sessions claim one slot, the first in the list has it.
pub open spec fn resolved(slots: Seq<SlotView>, field: int) -> Option<int> {
    first_slot(slots, field, 0)
}

/// One field of a record, read: the session it belongs to and its value.
#[derive(Clone, Copy, Debug, PartialEq, Eq, Structural)]
pub struct Target {
    pub session: usize,
    pub value: i32,
}

/// What the fields of a record ask for, or the reason why the record is
/// skipped. The fields are read in order and the first one at fault decides;
/// a field without a session is reported before one that is no number.
pub open spec fn targets_of(slots: Seq<SlotView>, fields: Seq<Seq<char>>) -> Result<
    Seq<Target>,
    LineError,
>
    decreases fields.len(),
{
    if fields.len() == 0 {
        Ok(Seq::<Target>::empty())
    } else {
        let field = fields.len() - 1;
        match targets_of(slots, fields.drop_last()) {
            Err(e) => Err(e),
            Ok(targets) => match resolved(slots, field) {
                None => Err(LineError::NoSession { field: field as usize }),
                Some(session) => match parse_i32_spec(trimmed(fields.last())) {
                    None => Err(LineError::NotANumber { field: field as usize }),
                    Some(value) => Ok(targets.push(Target { session: session as usize, value })),
                },
            },
        }
    }
}

/// The fields of a record: the line is trimmed and cut at every `|`.
pub open spec fn fields_of(line: Seq<char>) -> Seq<Seq<char>> {
    split_on(trimmed(line), '|')
}

/// What a record asks for, or the reason why it is skipped.
pub open spec fn line_targets(slots: Seq<SlotView>, line: Seq<char>) -> Result<
    Seq<Target>,
    LineError,
> {
    targets_of(slots, fields_of(line))
}

/// The volume in percent that a value stands for: its magnitude, and at
/// most 100.
pub open spec fn percent_of(value: i32) -> u8 {
    let magnitude = if value < 0 {
        -(value as int)
    } else {
        value as int
    };
    if magnitude > 100 {
        100u8
    } else {
        magnitude as u8
    }
}

/// A change to carry out on the volume service.
pub struct VolumeUpdate {
    /// The session's name as configured.
    pub session: String,
    /// The mute state to set.
    pub mute: bool,
    /// The volume to set, in percent.
    pub volume: u8,
    /// Whether the resulting state is to be announced.
    pub notify: bool,
}

pub struct VolumeUpdateView {
    pub session: Seq<char>,
    pub mute: bool,
    pub volume: u8,
    pub notify: bool,
}

impl View for VolumeUpdate {
    type V = VolumeUpdateView;

    open spec fn view(&self) -> VolumeUpdateView {
        VolumeUpdateView {
            session: self.session@,
            mute: self.mute,
            volume: self.volume,
            notify: self.notify,
        }
    }
}

/// The change that a new value for a session calls for.
pub open spec fn update_for(slot: SlotView, value: i32, notify: bool) -> VolumeUpdateView {
    VolumeUpdateView { session: slot.name, mute: value < 0, volume: percent_of(value), notify }
}

/// The cache and the changes after the cache has been brought up to date
/// with `targets`, one after the other. A value equal to the cached one
/// asks for nothing.
pub open spec fn applied(
    cache: Map<Seq<char>, i32>,
    slots: Seq<SlotView>,
    targets: Seq<Target>,
    notify: bool,
) -> (Map<Seq<char>, i32>, Seq<VolumeUpdateView>)
    decreases targets.len(),
{
    if targets.len() == 0 {
        (cache, Seq::<VolumeUpdateView>::empty())
    } else {
        let (so_far, updates) = applied(cache, slots, targets.drop_last(), notify);
        let target = targets.last();
        let slot = slots[target.session as int];
        if cached(so_far, slot.key) == target.value {
            (so_far, updates)
        } else {
            (
                so_far.insert(slot.key, target.value),
                updates.push(update_for(slot, target.value, notify)),
            )
        }
    }
}

/// What the reconciler holds.
pub struct ReconcilerState {
    /// The configured sessions.
    pub slots: Seq<SlotView>,
    /// The last value seen for each session, by cache key.
    pub cache: Map<Seq<char>, i32>,
    /// Whether no record has been processed since the connection was made.
    pub first_line: bool,
}

impl ReconcilerState {
    /// The state at connection time for a list of configured sessions: every
    /// session at zero, no record processed yet.
    pub open spec fn connected(sessions: Seq<SessionConfigView>) -> ReconcilerState {
        ReconcilerState {
            slots: slots_of(sessions),
            cache: initial_cache(slots_of(sessions)),
            first_line: true,
        }
    }

    /// The changes that a record asks for, or the reason why it is skipped.
    /// Changes are announced unless the record is the first since the
    /// connection was made.
    pub open spec fn line_outcome(self, line: Seq<char>) -> Result<
        Seq<VolumeUpdateView>,
        LineError,
    > {
        match line_targets(self.slots, line) {
            Ok(targets) => Ok(applied(self.cache, self.slots, targets, !self.first_line).1),
            Err(e) => Err(e),
        }
    }

    /// The state after a record. A record that is skipped leaves the state
    /// as it was.
    pub open spec fn after_line(self, line: Seq<char>) -> ReconcilerState {
        match line_targets(self.slots, line) {
            Ok(targets) => ReconcilerState {
                slots: self.slots,
                cache: applied(self.cache, self.slots, targets, !self.first_line).0,
                first_line: false,
            },
            Err(_) => self,
        }
    }
}

/// The changes that come out of a record, if it is not skipped.
pub open spec fn updates_view(r: Result<Vec<VolumeUpdate>, LineError>) -> Result<
    Seq<VolumeUpdateView>,
    LineError,
> {
    match r {
        Ok(updates) => Ok(updates@.map_values(|u: VolumeUpdate| u@)),
        Err(e) => Err(e),
    }
}

/// Each target of a record names a configured session, and the target at
/// position `k` names a session whose slot is `k`.
pub proof fn lemma_targets_name_their_slots(slots: Seq<SlotView>, fields: Seq<Seq<char>>)
    requires
        slots.len() <= usize::MAX,
    ensures
        match targets_of(slots, fields) {
            Ok(targets) => {
                &&& targets.len() == fields.len()
                &&& forall|k: int|
                    0 <= k < targets.len() ==> 0 <= (#[trigger] targets[k]).session < slots.len()
                        && slots[targets[k].session as int].index == k
            },
            Err(_) => true,
        },
    decreases fields.len(),
{
    if fields.len() > 0 {
        lemma_targets_name_their_slots(slots, fields.drop_last());
        let field = fields.len() - 1;
        lemma_first_slot(slots, field, 0);
        match (targets_of(slots, fields.drop_last()), targets_of(slots, fields)) {
            (Ok(init), Ok(targets)) => {
            },
            _ => {},
        }
    }
}

proof fn lemma_first_slot(slots: Seq<SlotView>, field: int, from: int)
    requires
        0 <= from,
    ensures
        match first_slot(slots, field, from) {
            Some(j) => from <= j < slots.len() && slots[j].index == field,
            None => forall|j: int| from <= j < slots.len() ==> (#[trigger] slots[j]).index != field,
        },
    decreases slots.len() - from,
{
    if from < slots.len() && slots[from].index != field {
        lemma_first_slot(slots, field, from + 1);
    }
}

/// Every change that comes out of a record carries the same `notify` flag.
pub proof fn lemma_applied_notify(
    cache: Map<Seq<char>, i32>,
    slots: Seq<SlotView>,
    targets: Seq<Target>,
    notify: bool,
)
    ensures
        forall|i: int|
            0 <= i < applied(cache, slots, targets, notify).1.len() ==> (#[trigger] applied(
                cache,
                slots,
                targets,
                notify,
            ).1[i]).notify == notify,
    decreases targets.len(),
{
    if targets.len() > 0 {
        lemma_applied_notify(cache, slots, targets.drop_last(), notify);
        let init = applied(cache, slots, targets.drop_last(), notify).1;
    }
}

/// No two sessions share a cache key.
pub open spec fn distinct_keys(slots: Seq<SlotView>) -> bool {
    forall|i: int, j: int|
        0 <= i < slots.len() && 0 <= j < slots.len() && i != j ==> (#[trigger] slots[i]).key != (
        #[trigger] slots[j]).key
}

/// The targets name configured sessions, no two of them the same one.
pub open spec fn distinct_sessions(slots: Seq<SlotView>, targets: Seq<Target>) -> bool {
    &&& forall|k: int| 0 <= k < targets.len() ==> 0 <= (#[trigger] targets[k]).session < slots.len()
    &&& forall|k: int, l: int|
        0 <= k < targets.len() && 0 <= l < targets.len() && k != l ==> (#[trigger] targets[k]).session
            != (#[trigger] targets[l]).session
}

proof fn lemma_applied_holds_targets(
    cache: Map<Seq<char>, i32>,
    slots: Seq<SlotView>,
    targets: Seq<Target>,
    notify: bool,
)
    requires
        distinct_keys(slots),
        distinct_sessions(slots, targets),
    ensures
        forall|k: int|
            0 <= k < targets.len() ==> cached(
                applied(cache, slots, targets, notify).0,
                slots[(#[trigger] targets[k]).session as int].key,
            ) == targets[k].value,
        forall|key: Seq<char>|
            (forall|k: int|
                0 <= k < targets.len() ==> slots[(#[trigger] targets[k]).session as int].key != key)
                ==> cached(applied(cache, slots, targets, notify).0, key) == cached(cache, key),
    decreases targets.len(),
{
    if targets.len() > 0 {
        let init = targets.drop_last();
        lemma_applied_holds_targets(cache, slots, init, notify);
        let after = applied(cache, slots, targets, notify).0;
        assert forall|k: int| 0 <= k < targets.len() implies cached(
            after,
            slots[(#[trigger] targets[k]).session as int].key,
        ) == targets[k].value by {
            if k < init.len() {
                assert(init[k] == targets[k]);
            }
        }
    }
}

proof fn lemma_applied_is_quiet(
    cache: Map<Seq<char>, i32>,
    slots: Seq<SlotView>,
    targets: Seq<Target>,
    notify: bool,
)
    requires
        forall|k: int|
            0 <= k < targets.len() ==> cached(cache, slots[(#[trigger] targets[k]).session as int].key)
                == targets[k].value,
    ensures
        applied(cache, slots, targets, notify) == (cache, Seq::<VolumeUpdateView>::empty()),
    decreases targets.len(),
{
    if targets.len() > 0 {
        let init = targets.drop_last();
        lemma_applied_is_quiet(cache, slots, init, notify);
    }
}

/// A record that is fed in twice in a row changes nothing the second time:
/// no change is asked for, nothing is announced and the state stays as the
/// first time left it. This holds where no two configured sessions share a
/// name.
pub proof fn law_same_line_twice_is_quiet(state: ReconcilerState, line: Seq<char>)
    requires
        state.slots.len() <= usize::MAX,
        distinct_keys(state.slots),
    ensures
        state.after_line(line).after_line(line) == state.after_line(line),
        match state.after_line(line).line_outcome(line) {
            Ok(updates) => updates.len() == 0,
            Err(_) => true,
        },
{
    let slots = state.slots;
    match line_targets(slots, line) {
        Ok(targets) => {
            lemma_targets_name_their_slots(slots, fields_of(line));
            assert(distinct_sessions(slots, targets));
            lemma_applied_holds_targets(state.cache, slots, targets, !state.first_line);
            lemma_applied_is_quiet(
                applied(state.cache, slots, targets, !state.first_line).0,
                slots,
                targets,
                true,
            );
        },
        Err(_) => {},
    }
}

/// The first record after a connection is made is never announced, whatever
/// it holds.
pub proof fn law_first_line_is_not_announced(state: ReconcilerState, line: Seq<char>)
    requires
        state.first_line,
    ensures
        match state.line_outcome(line) {
            Ok(updates) => forall|i: int|
                0 <= i < updates.len() ==> !(#[trigger] updates[i]).notify,
            Err(_) => true,
        },
{
    match line_targets(state.slots, line) {
        Ok(targets) => {
            lemma_applied_notify(state.cache, state.slots, targets, false);
        },
        Err(_) => {},
    }
}

/// The sign of a value carries the mute state and its magnitude the volume.
/// Where a session stands at an unmuted volume from 1 to 100, the negative
/// of that value mutes it and keeps the volume to restore, and the value
/// itself then unmutes it and restores exactly that volume.
pub proof fn law_mute_sign_round_trip(
    cache: Map<Seq<char>, i32>,
    slots: Seq<SlotView>,
    session: usize,
    volume: i32,
    notify: bool,
)
    requires
        session < slots.len(),
        0 < volume <= 100,
        cached(cache, slots[session as int].key) == volume,
    ensures
        ({
            let slot = slots[session as int];
            let mute = seq![Target { session, value: (-volume) as i32 }];
            let restore = seq![Target { session, value: volume }];
            let muted = applied(cache, slots, mute, notify);
            let restored = applied(muted.0, slots, restore, notify);
            &&& muted.1 == seq![
                VolumeUpdateView { session: slot.name, mute: true, volume: volume as u8, notify },
            ]
            &&& cached(muted.0, slot.key) == -volume
            &&& restored.1 == seq![
                VolumeUpdateView { session: slot.name, mute: false, volume: volume as u8, notify },
            ]
            &&& cached(restored.0, slot.key) == volume
        }),
{
    let slot = slots[session as int];
    let mute = seq![Target { session, value: (-volume) as i32 }];
    let restore = seq![Target { session, value: volume }];
    assert(mute.drop_last() =~= Seq::<Target>::empty());
    assert(restore.drop_last() =~= Seq::<Target>::empty());
    let muted = applied(cache, slots, mute, notify);
    assert(applied(cache, slots, mute.drop_last(), notify).1 =~= Seq::<VolumeUpdateView>::empty());
    assert(muted.1 =~= seq![update_for(slot, (-volume) as i32, notify)]);
    let restored = applied(muted.0, slots, restore, notify);
    assert(applied(muted.0, slots, restore.drop_last(), notify).1 =~= Seq::<
        VolumeUpdateView,
    >::empty());
    assert(restored.1 =~= seq![update_for(slot, volume, notify)]);
}

/// Computes the volume in percent that a value stands for.
pub fn percent(value: i32) -> (p: u8)
    ensures
        p == percent_of(value),
{
    if value > 100 || value < -100 {
        100
    } else if value < 0 {
        (-value) as u8
    } else {
        value as u8
    }
}

/// Computes the cache key of a session name.
pub fn session_key_of(name: &str) -> (key: String)
    ensures
        key@ == session_key(name@),
{
    to_lowercase(trim_str(name))
}

/// The reconciler's state: the configured sessions, the last value seen for
/// each, and whether a record has been processed since the connection was
/// made.
pub struct SerialReconciler {
    slots: Vec<SessionSlot>,
    cache: SessionVolumeCache,
    first_line: bool,
}

impl View for SerialReconciler {
    type V = ReconcilerState;

    closed spec fn view(&self) -> ReconcilerState {
        ReconcilerState {
            slots: self.slots@.map_values(|s: SessionSlot| s@),
            cache: self.cache@,
            first_line: self.first_line,
        }
    }
}

impl SerialReconciler {
    /// The state at connection time for the sessions of `config`: every
    /// session at zero, no record processed yet.
    pub fn new(config: &Config) -> (r: SerialReconciler)
        ensures
            r@ == ReconcilerState::connected(config@.sessions),
    {
        let mut slots: Vec<SessionSlot> = Vec::new();
        let mut cache = SessionVolumeCache::new();
        let ghost wanted = slots_of(config@.sessions);
        let mut j: usize = 0;
        while j < config.sessions.len()
            invariant
                j <= config.sessions@.len(),
                wanted == slots_of(config@.sessions),
                slots@.map_values(|s: SessionSlot| s@) == wanted.take(j as int),
                cache@ == initial_cache(wanted.take(j as int)),
            decreases config.sessions@.len() - j,
        {
            let session = &config.sessions[j];
            let key = session_key_of(session.name.as_str());
            let index: usize = match session.encoder {
                Some(encoder) => encoder as usize,
                None => j,
            };
            proof {
                assert(wanted.take(j + 1).drop_last() =~= wanted.take(j as int));
            }
            cache.set(key.as_str(), 0);
            slots.push(SessionSlot { name: session.name.clone(), key, index });
            j = j + 1;
        }
        assert(wanted.take(j as int) =~= wanted);
        SerialReconciler { slots, cache, first_line: true }
    }

    /// Starts afresh for a connection made anew with the sessions of
    /// `config`.
    pub fn reset(&mut self, config: &Config)
        ensures
            final(self)@ == ReconcilerState::connected(config@.sessions),
    {
        *self = SerialReconciler::new(config);
    }

    /// The value last seen for the session called `session`, or zero if none
    /// was seen.
    pub fn cached_value(&self, session: &str) -> (value: i32)
        ensures
            value == cached(self@.cache, session_key(session@)),
    {
        let key = session_key_of(session);
        self.cache.get(key.as_str())
    }

    /// Whether the next record only primes the cache.
    pub fn is_first_line(&self) -> (r: bool)
        ensures
            r == self@.first_line,
    {
        self.first_line
    }

    fn resolve(&self, field: usize) -> (r: Option<usize>)
        ensures
            match r {
                Some(j) => resolved(self@.slots, field as int) == Some(j as int) && j
                    < self@.slots.len(),
                None => resolved(self@.slots, field as int) is None,
            },
    {
        let mut j: usize = 0;
        while j < self.slots.len()
            invariant
                j <= self.slots@.len(),
                resolved(self@.slots, field as int) == first_slot(
                    self@.slots,
                    field as int,
                    j as int,
                ),
            decreases self.slots@.len() - j,
        {
            if self.slots[j].index == field {
                return Some(j);
            }
            j = j + 1;
        }
        None
    }

    /// Reads a record into targets without touching the state.
    pub fn read_line(&self, line: &str) -> (r: Result<Vec<Target>, LineError>)
        ensures
            match r {
                Ok(targets) => line_targets(self@.slots, line@) == Ok::<Seq<Target>, LineError>(
                    targets@,
                ),
                Err(e) => line_targets(self@.slots, line@) == Err::<Seq<Target>, LineError>(e),
            },
    {
        let chars = chars_of(line);
        let whole = Span { start: 0, end: chars.len() };
        assert(whole.of(chars@) =~= line@);
        let body = trim_span(&chars, whole);
        let spans = split_span(&chars, body, '|');
        let ghost fields = fields_of(line@);
        let mut targets: Vec<Target> = Vec::new();
        let mut k: usize = 0;
        while k < spans.len()
            invariant
                k <= spans@.len(),
                fields == fields_of(line@),
                fields.len() == spans@.len(),
                forall|i: int| 0 <= i < spans@.len() ==> (#[trigger] spans@[i]).within(chars@.len()),
                forall|i: int| 0 <= i < spans@.len() ==> (#[trigger] spans@[i]).of(chars@) == fields[i],
                targets_of(self@.slots, fields.take(k as int)) == Ok::<Seq<Target>, LineError>(
                    targets@,
                ),
            decreases spans@.len() - k,
        {
            let ghost seen = fields.take(k as int);
            let ghost next = fields.take(k + 1);
            proof {
                assert(next.drop_last() =~= seen);
                lemma_rest_is_skipped(self@.slots, fields, k + 1);
            }
            let session = match self.resolve(k) {
                Some(session) => session,
                None => {
                    return Err(LineError::NoSession { field: k });
                },
            };
            let field_span = trim_span(&chars, spans[k]);
            let value = match parse_i32_span(&chars, field_span) {
                Some(value) => value,
                None => {
                    return Err(LineError::NotANumber { field: k });
                },
            };
            targets.push(Target { session, value });
            k = k + 1;
        }
        assert(fields.take(k as int) =~= fields);
        Ok(targets)
    }

    /// Processes one record. A record that cannot be read is skipped as a
    /// whole and leaves the state as it was. Otherwise each field whose
    /// value differs from the cached one updates the cache and asks for a
    /// change, in field order; the changes are announced unless this is the
    /// first record since the connection was made.
    pub fn reconcile_line(&mut self, line: &str) -> (r: Result<Vec<VolumeUpdate>, LineError>)
        ensures
            final(self)@ == old(self)@.after_line(line@),
            updates_view(r) == old(self)@.line_outcome(line@),
            match r {
                Ok(updates) => forall|i: int|
                    0 <= i < updates@.len() ==> (#[trigger] updates@[i]).notify == !old(
                        self,
                    )@.first_line,
                Err(_) => true,
            },
    {
        let targets = match self.read_line(line) {
            Ok(targets) => targets,
            Err(e) => {
                return Err(e);
            },
        };
        let sessions = self.slots.len();
        proof {
            lemma_targets_name_their_slots(self@.slots, fields_of(line@));
        }
        let notify = !self.first_line;
        let ghost start = self@.cache;
        let ghost slots = self@.slots;
        let mut updates: Vec<VolumeUpdate> = Vec::new();
        let mut i: usize = 0;
        while i < targets.len()
            invariant
                i <= targets@.len(),
                slots == self@.slots,
                forall|k: int|
                    0 <= k < targets@.len() ==> 0 <= (#[trigger] targets@[k]).session < slots.len(),
                (self@.cache, updates@.map_values(|u: VolumeUpdate| u@)) == applied(
                    start,
                    slots,
                    targets@.take(i as int),
                    notify,
                ),
                forall|k: int| 0 <= k < updates@.len() ==> (#[trigger] updates@[k]).notify == notify,
            decreases targets@.len() - i,
        {
            let target = targets[i];
            let ghost shown = updates@.map_values(|u: VolumeUpdate| u@);
            proof {
                assert(targets@.take(i + 1).drop_last() =~= targets@.take(i as int));
            }
            let slot = &self.slots[target.session];
            if self.cache.get(slot.key.as_str()) != target.value {
                self.cache.set(slot.key.as_str(), target.value);
                let update = VolumeUpdate {
                    session: slot.name.clone(),
                    mute: target.value < 0,
                    volume: percent(target.value),
                    notify,
                };
                updates.push(update);
                assert(updates@.map_values(|u: VolumeUpdate| u@) =~= shown.push(
                    update_for(slots[target.session as int], target.value, notify),
                ));
            }
            i = i + 1;
        }
        assert(targets@.take(i as int) =~= targets@);
        self.first_line = false;
        Ok(updates)
    }
}

/// Once a prefix of the fields is at fault, so is the whole record, with the
/// same error.
proof fn lemma_rest_is_skipped(slots: Seq<SlotView>, fields: Seq<Seq<char>>, n: int)
    requires
        0 <= n <= fields.len(),
    ensures
        targets_of(slots, fields.take(n)) is Err ==> targets_of(slots, fields) == targets_of(
            slots,
            fields.take(n),
        ),
    decreases fields.len() - n,
{
    if n < fields.len() {
        assert(fields.take(n + 1).drop_last() =~= fields.take(n));
        lemma_rest_is_skipped(slots, fields, n + 1);
    } else {
        assert(fields.take(n) =~= fields);
    }
}

} // verus!
