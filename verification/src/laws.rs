//! What holds of the engine as a whole, proved from the contracts of its
//! parts.

use crate::headers::State;
use crate::holder::claim_answer;
use crate::holder::claim_effect;
use crate::holder::release_effect;
use crate::holder::resolve_answer;
use crate::holder::resolve_effect;
use crate::holder::stores;
use crate::holder::Claim;
use crate::holder::Slot;
use crate::holder::Store;
use crate::log::lemma_newest_push;
use crate::log::newest;
use crate::models::RPGState;
use crate::models::RecordId;
use crate::rpg::committed;
use crate::rpg::settled;
use vstd::prelude::*;

verus! {

/// One call on the store, with its arguments.
pub enum Call {
    /// [`RPGStateHolder::claim`](crate::holder::RPGStateHolder::claim).
    Claim { message: u64, user: u64 },
    /// [`RPGStateHolder::resolve`](crate::holder::RPGStateHolder::resolve)
    /// with what the log gave.
    Resolve { message: u64, user: u64, found: Option<RPGState> },
    /// `resolve` with a failure to read the log.
    Forget { message: u64 },
    /// [`RPGStateHolder::release`](crate::holder::RPGStateHolder::release).
    Release { message: u64, outcome: Option<RPGState> },
    /// [`RPGStateHolder::insert`](crate::holder::RPGStateHolder::insert).
    Insert { session: RPGState },
}

impl Call {
    /// Whether the store may pass from `before` to `after` in this call.
    pub open spec fn leads(self, before: Store, after: Store) -> bool {
        match self {
            Call::Claim { message, user } => claim_effect(before, message, user, after),
            Call::Resolve { message, user, found } => resolve_effect(
                before,
                message,
                user,
                found,
                after,
            ),
            Call::Forget { message } => after.same(before.evict(message)),
            Call::Release { message, outcome } => release_effect(before, message, outcome, after),
            Call::Insert { session } => after.size == before.size && after.lockout
                =~= before.lockout && stores(
                before.entries,
                session.message,
                Some(session),
                after.entries,
            ),
        }
    }

    /// Whether this call, made on `before`, grants a claim on `message`.
    pub open spec fn grants(self, before: Store, message: u64) -> bool {
        match self {
            Call::Claim { message: asked, user } => asked == message && claim_answer(
                before,
                asked,
                user,
            ) is Claimed,
            Call::Resolve { message: asked, user, found } => asked == message && resolve_answer(
                before,
                asked,
                user,
                found,
            ) is Claimed,
            _ => false,
        }
    }

    /// Whether this call releases `message`.
    pub open spec fn releases(self, message: u64) -> bool {
        self matches Call::Release { message: freed, .. } && freed == message
    }
}

/// A run of the store: `states[i]` is the store before `calls[i]`, and
/// `states[i + 1]` the store after it.
pub open spec fn run(states: Seq<Store>, calls: Seq<Call>) -> bool {
    &&& states.len() == calls.len() + 1
    &&& forall|i: int| 0 <= i < calls.len() ==> (#[trigger] calls[i]).leads(states[i], states[i + 1])
}

/// A message that is locked stays locked until it is released.
proof fn lemma_locked_until_released(
    states: Seq<Store>,
    calls: Seq<Call>,
    from: int,
    to: int,
    message: u64,
)
    requires
        run(states, calls),
        0 <= from <= to <= calls.len(),
        states[from].locked(message),
        forall|i: int| from <= i < to ==> !(#[trigger] calls[i]).releases(message),
    ensures
        states[to].locked(message),
    decreases to - from,
{
    if from < to {
        lemma_locked_until_released(states, calls, from, to - 1, message);
        assert(!calls[to - 1].releases(message));
    }
}

/// Mutual exclusion, message by message: in every run of the store, if two
/// calls both grant a claim on the same message, the message was released
/// between them.
pub proof fn law_one_claim_at_a_time(
    states: Seq<Store>,
    calls: Seq<Call>,
    first: int,
    second: int,
    message: u64,
)
    requires
        run(states, calls),
        0 <= first < second < calls.len(),
        calls[first].grants(states[first], message),
        calls[second].grants(states[second], message),
    ensures
        exists|between: int| first < between < second && (#[trigger] calls[between]).releases(message),
{
    if forall|i: int| first + 1 <= i < second ==> !(#[trigger] calls[i]).releases(message) {
        lemma_locked_until_released(states, calls, first + 1, second, message);
    }
}

/// Only the owner is granted a claim, and only on an active record when the
/// log is asked. Whoever else asks gets no session, locks nothing, and
/// leaves every session in the store as it was; the only trace is the slot
/// that a claim reserves while the log is read.
pub proof fn law_only_the_owner_claims(
    before: Store,
    message: u64,
    user: u64,
    found: Option<RPGState>,
    after: Store,
)
    ensures
        claim_answer(before, message, user) matches Claim::Claimed(session) ==> session.owner
            == user,
        resolve_answer(before, message, user, found) matches Claim::Claimed(session)
            ==> session.owner == user && session.active && found == Some(session),
        before.slot(message) matches Slot::Present(session) && session.owner != user
            && claim_effect(before, message, user, after) ==> after.same(before),
        found matches Some(session) && session.owner != user && resolve_effect(
            before,
            message,
            user,
            found,
            after,
        ) ==> after.same(before),
        !(claim_answer(before, message, user) is Claimed) && claim_effect(
            before,
            message,
            user,
            after,
        ) ==> after.lockout =~= before.lockout && forall|other: u64|
            #![trigger after.slot(other)]
            after.slot(other) is Present ==> after.slot(other) == before.slot(other),
{
}

/// The answer that a user gets in the end when nothing interrupts: that of
/// the cache, or, where the cache cannot tell, that of the log.
pub open spec fn served(store: Store, records: Seq<RPGState>, message: u64, user: u64) -> Claim {
    match claim_answer(store, message, user) {
        Claim::Unresolved => resolve_answer(store, message, user, newest(records, message)),
        answer => answer,
    }
}

/// The cache agrees with the log about `message`: if the session is at hand,
/// it is active and is the newest record of the message.
pub open spec fn agrees(store: Store, records: Seq<RPGState>, message: u64) -> bool {
    store.slot(message) matches Slot::Present(session) ==> session.active && newest(
        records,
        message,
    ) == Some(session)
}

/// The cache agrees with the log about every message.
pub open spec fn coherent(store: Store, records: Seq<RPGState>) -> bool {
    forall|message: u64| #[trigger] agrees(store, records, message)
}

/// The log holds a record of `message` that `user` could claim.
pub open spec fn claimable(records: Seq<RPGState>, message: u64, user: u64) -> bool {
    newest(records, message) matches Some(session) && session.active && session.owner == user
}

/// The log's answer follows the chain: where `session` is the newest record
/// of its message and a change of state is accepted, the record that the
/// change makes is at iteration one more, points back at `session`, keeps
/// message, owner and activity, and, once stored, is the newest record of
/// the message. Records of other messages stay the newest of theirs.
pub proof fn law_newest_follows_the_chain(
    records: Seq<RPGState>,
    session: RPGState,
    state: State,
    id: RecordId,
    other: u64,
)
    requires
        newest(records, session.message) == Some(session),
        session.iteration < i32::MAX,
    ensures
        session.successor(state).iteration == session.iteration + 1,
        session.successor(state).previous == session.id,
        session.successor(state).message == session.message,
        session.successor(state).owner == session.owner,
        session.successor(state).active == session.active,
        newest(records.push(session.successor(state).stored(id)), session.message) == Some(
            session.successor(state).stored(id),
        ),
        other != session.message ==> newest(records.push(session.successor(state).stored(id)), other)
            == newest(records, other),
{
    let record = session.successor(state).stored(id);
    lemma_newest_push(records, record, session.message);
    lemma_newest_push(records, record, other);
}

/// A failure heals. Say a change of `session` was accepted and its record
/// went into the log, but the edit of the message failed. Then the work
/// counts as failed, the release leaves the message unlocked and unknown to
/// the cache, and the owner's next claim is answered from the log with the
/// record that was stored: the engine goes on from what the log holds.
pub proof fn law_failure_heals<D, G>(
    before: Store,
    after: Store,
    records: Seq<RPGState>,
    session: RPGState,
    state: State,
    id: RecordId,
    removals: Seq<Result<(), G>>,
    refusal: G,
)
    requires
        session.active,
        session.iteration < i32::MAX,
        newest(records, session.message) == Some(session),
        release_effect(before, session.message, None, after),
    ensures
        settled(
            removals,
            committed::<D, G>(session.successor(state), Ok(id), Err(refusal)),
        ) is Err,
        !after.locked(session.message),
        after.slot(session.message) is Unknown,
        served(
            after,
            records.push(session.successor(state).stored(id)),
            session.message,
            session.owner,
        ) == Claim::Claimed(session.successor(state).stored(id)),
{
    lemma_newest_push(records, session.successor(state).stored(id), session.message);
}

/// Eviction cannot be seen: where what the cache holds of a message agrees
/// with the log, a claim on the message gets the same answer whether the
/// cache still holds the message or has dropped it.
///
/// Left out is the one case in which the cache speaks against the log: the
/// slot says that there is nothing to hand out, while the log holds a record
/// that this user could claim.
pub proof fn law_eviction_is_unobservable(
    store: Store,
    records: Seq<RPGState>,
    message: u64,
    user: u64,
)
    requires
        agrees(store, records, message),
        !(store.slot(message) is Absent && !store.locked(message) && claimable(
            records,
            message,
            user,
        )),
    ensures
        served(store.evict(message), records, message, user) == served(
            store,
            records,
            message,
            user,
        ),
{
}

/// Publishing keeps the cache in agreement with the log: when the record of
/// an accepted change is stored behind the others and the session is then
/// released with that record, a cache that agreed with the log still does.
pub proof fn law_publication_keeps_coherence(
    before: Store,
    after: Store,
    records: Seq<RPGState>,
    record: RPGState,
)
    requires
        coherent(before, records),
        record.active,
        newest(records, record.message) matches Some(earlier) ==> earlier.iteration
            <= record.iteration,
        release_effect(before, record.message, Some(record), after),
    ensures
        coherent(after, records.push(record)),
        after.slot(record.message) == Slot::Present(record),
        !after.locked(record.message),
{
    assert forall|message: u64| #[trigger] agrees(after, records.push(record), message) by {
        lemma_newest_push(records, record, message);
        if message != record.message {
            assert(agrees(before, records, message));
        }
    }
}

} // verus!
