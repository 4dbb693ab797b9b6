//! The session record.

use crate::headers::State;
use vstd::prelude::*;

verus! {

/// The identity that the log gives a record when it stores it.
#[derive(Clone, Copy, Debug, PartialEq, Eq, Hash)]
pub struct RecordId {
    /// The identity, as its twelve bytes.
    pub bytes: [u8; 12],
}

/// One record of a session. A record is never changed once it is stored: a
/// change of state makes a new record that points back at the one before.
#[derive(Clone, Debug, PartialEq, Eq)]
pub struct RPGState {
    /// `None` until the log has stored the record.
    pub id: Option<RecordId>,
    /// The state of the character, in its persisted form.
    pub state: State,
    /// `false` marks a chain that has ended.
    pub active: bool,
    /// The chat message that the session lives on.
    pub message: u64,
    /// The user who may drive the session.
    pub owner: u64,
    /// The place of the record in its chain, from 0.
    pub iteration: i32,
    /// The record before this one; `None` for the first.
    pub previous: Option<RecordId>,
}

impl RPGState {
    /// The first record of a session: active, at iteration 0, without a
    /// predecessor, and not yet stored.
    pub fn new(message: u64, owner: u64, state: State) -> (session: RPGState)
        ensures
            session == Self::first(message, owner, state),
    {
        RPGState { id: None, state, active: true, message, owner, iteration: 0, previous: None }
    }

    /// What [`RPGState::new`] gives.
    pub open spec fn first(message: u64, owner: u64, state: State) -> RPGState {
        RPGState { id: None, state, active: true, message, owner, iteration: 0, previous: None }
    }

    /// The record that follows `self` once its state has changed to `state`:
    /// one iteration further, pointing back at `self`, not yet stored, and
    /// otherwise the same.
    pub open spec fn successor(self, state: State) -> RPGState {
        RPGState {
            id: None,
            state,
            active: self.active,
            message: self.message,
            owner: self.owner,
            iteration: (self.iteration + 1) as i32,
            previous: self.id,
        }
    }

    /// `self` with its state replaced and nothing else touched.
    pub open spec fn holding(self, state: State) -> RPGState {
        RPGState { state, ..self }
    }

    /// `self` as the log stored it, under `id`.
    pub open spec fn stored(self, id: RecordId) -> RPGState {
        RPGState { id: Some(id), ..self }
    }

    /// Makes the record that follows this one.
    pub fn advance(self, state: State) -> (next: RPGState)
        requires
            self.iteration < i32::MAX,
        ensures
            next == self.successor(state),
    {
        let mut next = self;
        next.previous = next.id.take();
        next.iteration = next.iteration + 1;
        next.state = state;
        next
    }
}

} // verus!
