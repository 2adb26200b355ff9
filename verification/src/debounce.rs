//! Suppression of double fires.
//!
//! The same physical key press can reach the engine through more than one
//! listener. A request for an action that comes within the debounce window
//! of the last accepted request for the same action is dropped; it is not
//! kept for later.

use crate::action::{Action, ActionView};
use crate::assoc::{
    lemma_pairs_map_lookup, lemma_pairs_map_push, lemma_pairs_map_update, lookup, pairs_map,
};
use crate::repeat::{elapsed, elapsed_ms};
use vstd::prelude::*;

verus! {

/// The length of the debounce window, in milliseconds.
pub const ACTION_DEBOUNCE_MS: u64 = 100;

/// When an action was last accepted.
pub struct Accepted {
    pub action: Action,
    pub at: u64,
}

/// Whether a request for `action` at `now` is let through, given when each
/// action was last accepted: it is unless the action was accepted less than
/// the debounce window ago.
pub open spec fn permitted(seen: Map<ActionView, u64>, action: ActionView, now: u64) -> bool {
    match lookup(seen, action) {
        Some(at) => elapsed(now, at) >= ACTION_DEBOUNCE_MS,
        None => true,
    }
}

/// The record after a request for `action` at `now`: an accepted request is
/// recorded, a dropped one leaves no trace.
pub open spec fn after_request(seen: Map<ActionView, u64>, action: ActionView, now: u64) -> Map<
    ActionView,
    u64,
> {
    if permitted(seen, action, now) {
        seen.insert(action, now)
    } else {
        seen
    }
}

/// The record of when each action was last accepted.
pub struct ActionDebouncer {
    entries: Vec<Accepted>,
}

impl ActionDebouncer {
    closed spec fn pairs(&self) -> Seq<(ActionView, u64)> {
        self.entries@.map_values(|e: Accepted| (e.action@, e.at))
    }
}

impl View for ActionDebouncer {
    type V = Map<ActionView, u64>;

    closed spec fn view(&self) -> Map<ActionView, u64> {
        pairs_map(self.pairs())
    }
}

impl ActionDebouncer {
    /// A debouncer that has accepted nothing yet.
    pub fn new() -> (r: ActionDebouncer)
        ensures
            r@ == Map::<ActionView, u64>::empty(),
    {
        let r = ActionDebouncer { entries: Vec::new() };
        r
    }

    /// Decides on a request for `action` at `now`.
    pub fn permit(&mut self, action: &Action, now: u64) -> (accepted: bool)
        ensures
            accepted == permitted(old(self)@, action@, now),
            final(self)@ == after_request(old(self)@, action@, now),
    {
        let ghost pairs = self.pairs();
        let mut i: usize = 0;
        while i < self.entries.len()
            invariant
                i <= self.entries@.len(),
                pairs == self.pairs(),
                pairs == old(self).pairs(),
                forall|k: int| 0 <= k < i ==> (#[trigger] pairs[k]).0 != action@,
            decreases self.entries@.len() - i,
        {
            if self.entries[i].action.same(action) {
                proof {
                    lemma_pairs_map_lookup(pairs, action@, i as int);
                }
                if elapsed_ms(now, self.entries[i].at) >= ACTION_DEBOUNCE_MS {
                    self.entries.set(i, Accepted { action: action.clone(), at: now });
                    proof {
                        assert(self.pairs() =~= pairs.update(i as int, (action@, now)));
                        lemma_pairs_map_update(pairs, i as int, action@, now);
                    }
                    return true;
                } else {
                    return false;
                }
            }
            i = i + 1;
        }
        proof {
            lemma_pairs_map_lookup(pairs, action@, i as int);
        }
        self.entries.push(Accepted { action: action.clone(), at: now });
        proof {
            assert(self.pairs() =~= pairs.push((action@, now)));
            lemma_pairs_map_push(pairs, action@, now);
        }
        true
    }
}

/// The record, and the actions let through, after requests for each of
/// `actions` in turn at `now`.
pub open spec fn let_through(seen: Map<ActionView, u64>, actions: Seq<ActionView>, now: u64) -> (
    Map<ActionView, u64>,
    Seq<ActionView>,
)
    decreases actions.len(),
{
    if actions.len() == 0 {
        (seen, Seq::<ActionView>::empty())
    } else {
        let (so_far, kept) = let_through(seen, actions.drop_last(), now);
        let action = actions.last();
        (
            after_request(so_far, action, now),
            if permitted(so_far, action, now) {
                kept.push(action)
            } else {
                kept
            },
        )
    }
}

impl ActionDebouncer {
    /// Decides on a request for each of `actions` in turn at `now` and
    /// returns those that are let through, in order.
    pub fn filter(&mut self, actions: Vec<Action>, now: u64) -> (kept: Vec<Action>)
        ensures
            (final(self)@, kept@.map_values(|a: Action| a@)) == let_through(
                old(self)@,
                actions@.map_values(|a: Action| a@),
                now,
            ),
    {
        let ghost wanted = actions@.map_values(|a: Action| a@);
        let mut kept: Vec<Action> = Vec::new();
        let mut i: usize = 0;
        while i < actions.len()
            invariant
                i <= actions@.len(),
                wanted == actions@.map_values(|a: Action| a@),
                (self@, kept@.map_values(|a: Action| a@)) == let_through(
                    old(self)@,
                    wanted.take(i as int),
                    now,
                ),
            decreases actions@.len() - i,
        {
            proof {
                assert(wanted.take(i + 1).drop_last() =~= wanted.take(i as int));
            }
            if self.permit(&actions[i], now) {
                kept.push(actions[i].clone());
            }
            i = i + 1;
        }
        assert(wanted.take(i as int) =~= wanted);
        kept
    }
}

/// Of two requests for the same action, the second is dropped if it comes
/// within the debounce window of the first and the first was accepted.
pub proof fn law_second_request_in_window_is_dropped(
    seen: Map<ActionView, u64>,
    action: ActionView,
    first_at: u64,
    second_at: u64,
)
    requires
        permitted(seen, action, first_at),
        elapsed(second_at, first_at) < ACTION_DEBOUNCE_MS,
    ensures
        !permitted(after_request(seen, action, first_at), action, second_at),
        after_request(after_request(seen, action, first_at), action, second_at) == after_request(
            seen,
            action,
            first_at,
        ),
{
}

/// A request for one action never stands in the way of another action.
pub proof fn law_actions_are_debounced_apart(
    seen: Map<ActionView, u64>,
    action: ActionView,
    other: ActionView,
    at: u64,
    now: u64,
)
    requires
        action != other,
    ensures
        permitted(after_request(seen, action, at), other, now) == permitted(seen, other, now),
{
}

} // verus!
