//! The per-conversation state and the store that keeps it.

use vstd::prelude::*;
use std::collections::HashMap;

use crate::action::Kind;

verus! {

/// Where a conversation stands: idle, or waiting for a reply of some kind.
#[derive(Clone, Copy, Debug, PartialEq, Eq, Structural)]
pub enum State {
    Idle,
    /// A title to search for is expected.
    AwaitingTitle { kind: Kind },
    /// A rating of item `item_id` is expected.
    AwaitingRating { kind: Kind, item_id: i64 },
}

/// The state of conversation `id` in `m`: an absent conversation is idle.
pub open spec fn state_in(m: Map<i64, State>, id: i64) -> State {
    if m.contains_key(id) {
        m[id]
    } else {
        State::Idle
    }
}

/// The state of every conversation, keyed by conversation id.
pub struct ConversationStore {
    slots: HashMap<i64, State>,
}

impl View for ConversationStore {
    type V = Map<i64, State>;

    closed spec fn view(&self) -> Map<i64, State> {
        self.slots@
    }
}

impl ConversationStore {
    /// A store in which every conversation is idle.
    pub fn new() -> (r: ConversationStore)
        ensures
            r@ == Map::<i64, State>::empty(),
    {
        ConversationStore { slots: HashMap::new() }
    }

    /// The state of conversation `id`.
    pub fn get(&self, id: i64) -> (r: State)
        ensures
            r == state_in(self@, id),
    {
        broadcast use vstd::std_specs::hash::group_hash_axioms;
        match self.slots.get(&id) {
            Some(s) => *s,
            None => State::Idle,
        }
    }

    /// Puts conversation `id` in state `s`, replacing what it held.
    pub fn set(&mut self, id: i64, s: State)
        ensures
            final(self)@ == old(self)@.insert(id, s),
    {
        broadcast use vstd::std_specs::hash::group_hash_axioms;
        self.slots.insert(id, s);
    }

    /// Returns conversation `id` to idle.
    pub fn clear(&mut self, id: i64)
        ensures
            final(self)@ == old(self)@.remove(id),
    {
        broadcast use vstd::std_specs::hash::group_hash_axioms;
        self.slots.remove(&id);
    }
}

/// Writing the state of one conversation never changes what another one reads.
pub proof fn lemma_isolation(m: Map<i64, State>, id: i64, s: State, other: i64)
    requires
        id != other,
    ensures
        state_in(m.insert(id, s), other) == state_in(m, other),
        state_in(m.remove(id), other) == state_in(m, other),
{
}

/// A conversation reads back the state last written to it, and an idle one
/// after it is cleared.
pub proof fn lemma_read_own_write(m: Map<i64, State>, id: i64, s: State)
    ensures
        state_in(m.insert(id, s), id) == s,
        state_in(m.remove(id), id) == State::Idle,
{
}

} // verus!
