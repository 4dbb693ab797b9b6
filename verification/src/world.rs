//! The engine at work: the store, the log, and the sessions that are claimed,
//! taken together, and how they move when the engine is used as it is meant
//! to be.
//!
//! The moves are those of a caller that keeps to the engine's answers: it
//! works on a session only while it holds the claim, it finishes a claim with
//! the newest record that the log holds at that moment, and it stores no
//! record but the first of a new message and the successor of a claimed
//! session. Under such a caller the log grows by strict succession: every
//! record stored extends the newest record of its message by exactly one
//! iteration.

use crate::headers::State;
use crate::holder::claim_answer;
use crate::holder::claim_effect;
use crate::holder::release_effect;
use crate::holder::resolve_answer;
use crate::holder::resolve_effect;
use crate::holder::stores;
use crate::holder::Claim;
use crate::holder::Slot;
use crate::holder::Store;
use crate::log::lemma_newest_is_greatest;
use crate::log::lemma_newest_push;
use crate::log::newest;
use crate::models::RPGState;
use crate::models::RecordId;
use vstd::prelude::*;

verus! {

/// What there is at one moment.
pub struct World {
    /// The store.
    pub store: Store,
    /// The log.
    pub records: Seq<RPGState>,
    /// The sessions that are claimed and not yet released, by message.
    pub claimed: Map<u64, RPGState>,
}

/// What can happen.
pub enum Event {
    /// A reaction comes in and the cache is asked.
    Claim { message: u64, user: u64 },
    /// The log was read for a claim that the cache could not answer, and the
    /// claim is finished with the newest record of the message.
    Resolve { message: u64, user: u64 },
    /// The log could not be read for such a claim.
    Unread { message: u64 },
    /// The action on a claimed session changed nothing that counts; the
    /// session goes back with the state that the action left.
    Keep { message: u64, state: State },
    /// The action on a claimed session changed its state; the next record
    /// was stored under `id` and shown, and the session goes back with it.
    Publish { message: u64, state: State, id: RecordId },
    /// The work on a claimed session failed. With `stored`, the next record
    /// had gone into the log before the failure.
    Fail { message: u64, stored: Option<(State, RecordId)> },
    /// A session is started on a message that has none: its first record is
    /// stored and put at hand.
    Start { message: u64, owner: u64, state: State, id: RecordId },
}

/// Two records that differ in their state at most.
pub open spec fn akin(a: RPGState, b: RPGState) -> bool {
    a == b.holding(a.state)
}

/// Whether `record` extends the log `before` it by strict succession: it is
/// the first record of its message, or it follows the newest record of its
/// message, one iteration further and pointing back at it, with the same
/// owner.
pub open spec fn extends(before: Seq<RPGState>, record: RPGState) -> bool {
    match newest(before, record.message) {
        None => record.iteration == 0 && record.previous is None,
        Some(last) => {
            &&& record.iteration == last.iteration + 1
            &&& record.previous == last.id
            &&& record.owner == last.owner
        },
    }
}

/// The log grew by strict succession: every record extended the log as it
/// was when the record was stored.
pub open spec fn linear(records: Seq<RPGState>) -> bool {
    forall|at: int| 0 <= at < records.len() ==> extends(records.subrange(0, at), #[trigger] records[at])
}

/// The number of records that the log holds of a message.
pub open spec fn stored_of(records: Seq<RPGState>, message: u64) -> nat
    decreases records.len(),
{
    if records.len() == 0 {
        0
    } else if records.last().message == message {
        stored_of(records.drop_last(), message) + 1
    } else {
        stored_of(records.drop_last(), message)
    }
}

/// In a log that grew by strict succession, the newest record of a message
/// is the one that was stored last, and its iteration tells how many records
/// of the message came before it: the iterations of a message run from 0
/// upwards without a gap and without a repetition.
pub proof fn law_succession_counts(records: Seq<RPGState>, message: u64)
    requires
        linear(records),
    ensures
        match newest(records, message) {
            Some(last) => last.iteration + 1 == stored_of(records, message),
            None => stored_of(records, message) == 0,
        },
        records.len() > 0 && records.last().message == message ==> newest(records, message)
            == Some(records.last()),
    decreases records.len(),
{
    if records.len() > 0 {
        let front = records.drop_last();
        assert forall|at: int| 0 <= at < front.len() implies extends(
            front.subrange(0, at),
            #[trigger] front[at],
        ) by {
            assert(front.subrange(0, at) =~= records.subrange(0, at));
        }
        law_succession_counts(front, message);
    }
}

impl World {
    /// The world before anything happened.
    pub open spec fn start(size: usize) -> World {
        World {
            store: Store { entries: Map::empty(), lockout: Set::empty(), size },
            records: Seq::empty(),
            claimed: Map::empty(),
        }
    }

    /// What holds of the world about one message.
    pub open spec fn sound_at(self, message: u64) -> bool {
        &&& self.store.locked(message) <==> self.claimed.dom().contains(message)
        &&& self.store.slot(message) matches Slot::Present(session) ==> session.active
            && newest(self.records, message) is Some && akin(
            session,
            newest(self.records, message).unwrap(),
        )
        &&& self.claimed.dom().contains(message) ==> self.claimed[message].active && newest(
            self.records,
            message,
        ) is Some && akin(self.claimed[message], newest(self.records, message).unwrap())
    }

    /// What holds of the world at every moment: a message is locked exactly
    /// while a session on it is claimed; what is at hand or claimed is the
    /// newest record of its message, but for the state that an action
    /// without a change may have left; and the log grew by strict
    /// succession.
    pub open spec fn sound(self) -> bool {
        &&& linear(self.records)
        &&& forall|message: u64| #[trigger] self.sound_at(message)
    }

    /// Whether `event` can take the world from `self` to `after`.
    pub open spec fn moves(self, event: Event, after: World) -> bool {
        match event {
            Event::Claim { message, user } => {
                &&& claim_effect(self.store, message, user, after.store)
                &&& after.records == self.records
                &&& after.claimed == match claim_answer(self.store, message, user) {
                    Claim::Claimed(session) => self.claimed.insert(message, session),
                    _ => self.claimed,
                }
            },
            Event::Resolve { message, user } => {
                &&& resolve_effect(
                    self.store,
                    message,
                    user,
                    newest(self.records, message),
                    after.store,
                )
                &&& after.records == self.records
                &&& after.claimed == match resolve_answer(
                    self.store,
                    message,
                    user,
                    newest(self.records, message),
                ) {
                    Claim::Claimed(session) => self.claimed.insert(message, session),
                    _ => self.claimed,
                }
            },
            Event::Unread { message } => {
                &&& after.store.same(self.store.evict(message))
                &&& after.records == self.records
                &&& after.claimed == self.claimed
            },
            Event::Keep { message, state } => {
                &&& self.claimed.dom().contains(message)
                &&& release_effect(
                    self.store,
                    message,
                    Some(self.claimed[message].holding(state)),
                    after.store,
                )
                &&& after.records == self.records
                &&& after.claimed == self.claimed.remove(message)
            },
            Event::Publish { message, state, id } => {
                &&& self.claimed.dom().contains(message)
                &&& self.claimed[message].iteration < i32::MAX
                &&& release_effect(
                    self.store,
                    message,
                    Some(self.claimed[message].successor(state).stored(id)),
                    after.store,
                )
                &&& after.records == self.records.push(
                    self.claimed[message].successor(state).stored(id),
                )
                &&& after.claimed == self.claimed.remove(message)
            },
            Event::Fail { message, stored } => {
                &&& self.claimed.dom().contains(message)
                &&& release_effect(self.store, message, None, after.store)
                &&& after.records == match stored {
                    Some((state, id)) => self.records.push(
                        self.claimed[message].successor(state).stored(id),
                    ),
                    None => self.records,
                }
                &&& stored is Some ==> self.claimed[message].iteration < i32::MAX
                &&& after.claimed == self.claimed.remove(message)
            },
            Event::Start { message, owner, state, id } => {
                &&& newest(self.records, message) is None
                &&& !self.claimed.dom().contains(message)
                &&& after.store.size == self.store.size
                &&& after.store.lockout =~= self.store.lockout
                &&& stores(
                    self.store.entries,
                    message,
                    Some(RPGState::first(message, owner, state).stored(id)),
                    after.store.entries,
                )
                &&& after.records == self.records.push(
                    RPGState::first(message, owner, state).stored(id),
                )
                &&& after.claimed == self.claimed
            },
        }
    }
}

/// A log that grew by strict succession still did after one more record
/// that extends it.
proof fn lemma_linear_push(records: Seq<RPGState>, record: RPGState)
    requires
        linear(records),
        extends(records, record),
    ensures
        linear(records.push(record)),
{
    let grown = records.push(record);
    assert forall|at: int| 0 <= at < grown.len() implies extends(
        grown.subrange(0, at),
        #[trigger] grown[at],
    ) by {
        if at < records.len() {
            assert(grown.subrange(0, at) =~= records.subrange(0, at));
        } else {
            assert(grown.subrange(0, at) =~= records);
        }
    }
}

/// What is claimed or at hand for a message stays the newest of its message
/// when a record of another message is stored.
proof fn lemma_sound_elsewhere(before: World, after: World, record: RPGState, message: u64)
    requires
        before.sound_at(message),
        record.message != message,
        after.records == before.records.push(record),
        after.store.locked(message) == before.store.locked(message),
        after.claimed.dom().contains(message) == before.claimed.dom().contains(message),
        after.claimed.dom().contains(message) ==> after.claimed[message] == before.claimed[message],
        after.store.slot(message) is Present ==> after.store.slot(message) == before.store.slot(
            message,
        ),
    ensures
        after.sound_at(message),
{
    lemma_newest_push(before.records, record, message);
}

/// The world is sound before anything happens, and whatever happens to a
/// sound world leaves it sound.
///
/// So every record that is ever stored extends the newest record of its
/// message by exactly one iteration, and the newest record of a message is
/// always the one that was stored last.
pub proof fn law_the_world_stays_sound(before: World, event: Event, after: World, size: usize)
    requires
        before.sound(),
        before.moves(event, after),
    ensures
        World::start(size).sound(),
        after.sound(),
{
    assert forall|message: u64| #[trigger] World::start(size).sound_at(message) by {}
    match event {
        Event::Claim { message, user } => {
            assert forall|other: u64| #[trigger] after.sound_at(other) by {
                assert(before.sound_at(other));
            }
        },
        Event::Resolve { message, user } => {
            assert forall|other: u64| #[trigger] after.sound_at(other) by {
                assert(before.sound_at(other));
            }
        },
        Event::Unread { message } => {
            assert forall|other: u64| #[trigger] after.sound_at(other) by {
                assert(before.sound_at(other));
            }
        },
        Event::Keep { message, state } => {
            assert forall|other: u64| #[trigger] after.sound_at(other) by {
                assert(before.sound_at(other));
            }
        },
        Event::Publish { message, state, id } => {
            let record = before.claimed[message].successor(state).stored(id);
            assert(before.sound_at(message));
            lemma_newest_is_greatest(before.records, message);
            lemma_linear_push(before.records, record);
            assert forall|other: u64| #[trigger] after.sound_at(other) by {
                if other != message {
                    lemma_sound_elsewhere(before, after, record, other);
                }
            }
        },
        Event::Fail { message, stored } => {
            assert(before.sound_at(message));
            match stored {
                Some((state, id)) => {
                    let record = before.claimed[message].successor(state).stored(id);
                    lemma_newest_is_greatest(before.records, message);
                    lemma_linear_push(before.records, record);
                    assert forall|other: u64| #[trigger] after.sound_at(other) by {
                        if other != message {
                            lemma_sound_elsewhere(before, after, record, other);
                        }
                    }
                },
                None => {
                    assert forall|other: u64| #[trigger] after.sound_at(other) by {
                        assert(before.sound_at(other));
                    }
                },
            }
        },
        Event::Start { message, owner, state, id } => {
            let record = RPGState::first(message, owner, state).stored(id);
            lemma_linear_push(before.records, record);
            assert forall|other: u64| #[trigger] after.sound_at(other) by {
                assert(before.sound_at(other));
                if other != message {
                    lemma_sound_elsewhere(before, after, record, other);
                }
            }
        },
    }
}

/// A stranger moves nothing: where a user reacts who does not own the
/// session on the message, neither the cache's answer nor the log's grants a
/// claim, so the log stays as it is, no session is claimed, no message is
/// locked, and every session at hand stays at hand as it is.
pub proof fn law_a_stranger_moves_nothing(before: World, message: u64, user: u64, after: World)
    requires
        before.sound(),
        newest(before.records, message) matches Some(record) ==> record.owner != user,
        before.moves(Event::Claim { message, user }, after) || before.moves(
            Event::Resolve { message, user },
            after,
        ),
    ensures
        !(claim_answer(before.store, message, user) is Claimed),
        !(resolve_answer(before.store, message, user, newest(before.records, message)) is Claimed),
        after.records == before.records,
        after.claimed == before.claimed,
        after.store.lockout =~= before.store.lockout,
        forall|other: u64|
            #![trigger after.store.slot(other)]
            after.store.slot(other) is Present ==> after.store.slot(other) == before.store.slot(
                other,
            ),
{
    assert(before.sound_at(message));
}

} // verus!
