//! The session coordinator: what to do with a reaction, step by step.
//!
//! Handling one reaction runs through these decisions, with the caller's
//! input and output between them:
//!
//! 1. [`reaction_add`] drops what is not meant for the engine and claims the
//!    session. Where the cache cannot answer, the caller reads the newest
//!    record from the log and calls [`RPGStateHolder::resolve`].
//! 2. With the session claimed, the caller reads the state's menu and runs the
//!    action. [`operate_on_state`] says whether there is anything to publish.
//! 3. The caller removes the old markers and, at the same time, renders the
//!    new state, stores the record and edits the message. [`commit`] and
//!    [`settle`] say which failure, if any, comes to the surface.
//! 4. The caller adds the markers of the new menu, first to last.
//! 5. [`unlock`] releases the session, whatever happened.
//!
//! A session starts outside this run: the caller picks the character's name
//! ([`character_name`](crate::names::character_name)), sends the message,
//! makes the first record ([`RPGState::new`]), stores it while it adds the
//! markers ([`commit`]), and puts the session at hand
//! ([`RPGStateHolder::insert`]).

use crate::headers::markers;
use crate::headers::menu;
use crate::headers::symbols;
use crate::headers::Action;
use crate::headers::Reactions;
use crate::holder::claim_answer;
use crate::holder::claim_effect;
use crate::holder::release_effect;
use crate::holder::Claim;
use crate::holder::RPGStateHolder;
use crate::models::RPGState;
use crate::models::RecordId;
use std::collections::HashSet;
use vstd::prelude::*;

verus! {

/// What a user reacted with.
#[derive(Clone, Debug, PartialEq, Eq)]
pub enum ReactionType {
    /// A symbol of the platform's own, by its identity.
    Custom(u64),
    /// A symbol written out as text.
    Unicode(String),
}

/// A reaction that was added to a chat message.
#[derive(Clone, Debug, PartialEq, Eq)]
pub struct Reaction {
    /// The channel of the message.
    pub channel_id: u64,
    /// The message that was reacted to.
    pub message_id: u64,
    /// Who reacted. Not every event says.
    pub user_id: Option<u64>,
    /// What was reacted with.
    pub emoji: ReactionType,
}

/// Whether a reaction is for the engine at all: it is a written-out symbol,
/// it says who reacted, that is not the engine's own user, and the channel is
/// one in which the engine is active.
pub open spec fn admitted(reaction: Reaction, me: u64, channels: Set<u64>) -> bool {
    &&& reaction.emoji is Unicode
    &&& reaction.user_id is Some
    &&& reaction.user_id.unwrap() != me
    &&& channels.contains(reaction.channel_id)
}

/// Takes in a reaction: drops it (`None`) unless it is [`admitted`], and
/// otherwise claims the session on its message for the user who reacted.
///
/// A dropped reaction leaves the store untouched.
pub fn reaction_add(
    holder: &mut RPGStateHolder,
    channels: &HashSet<u64>,
    me: u64,
    reaction: &Reaction,
) -> (claim: Option<Claim>)
    ensures
        admitted(*reaction, me, channels@) ==> claim == Some(
            claim_answer(old(holder)@, reaction.message_id, reaction.user_id.unwrap()),
        ) && claim_effect(
            old(holder)@,
            reaction.message_id,
            reaction.user_id.unwrap(),
            final(holder)@,
        ),
        !admitted(*reaction, me, channels@) ==> claim is None && final(holder)@ == old(holder)@,
{
    match &reaction.emoji {
        ReactionType::Unicode(_) => {},
        ReactionType::Custom(_) => {
            return None;
        },
    }
    let user = match reaction.user_id {
        Some(user) => user,
        None => {
            return None;
        },
    };
    if user == me {
        return None;
    }
    if !channels.contains(&reaction.channel_id) {
        return None;
    }
    Some(holder.claim(reaction.message_id, user))
}

/// What an action on a claimed session asks for.
#[derive(Clone, Debug, PartialEq, Eq)]
pub enum Step {
    /// Nothing changed that anyone can see: nothing is stored, nothing is
    /// published. The session goes back as it is here.
    Unchanged(RPGState),
    /// The state changed. `record` is the next record of the chain, to be
    /// stored and shown; `withdraw` are the markers of the old menu, to be
    /// removed.
    Changed { record: RPGState, withdraw: Vec<&'static str> },
}

/// Decides what follows from an action.
///
/// `old_menu` is the menu that the state offered before the action ran, and
/// `outcome` what the action gave. After `NoChange` and `BadReact` the session
/// keeps its place in the chain and holds the state that came back. After
/// `Changed` the chain grows by one record.
pub fn operate_on_state(session: RPGState, old_menu: &Reactions, outcome: Action) -> (step: Step)
    requires
        outcome is Changed ==> session.iteration < i32::MAX,
    ensures
        match outcome {
            Action::NoChange(state) => step matches Step::Unchanged(kept) && kept
                == session.holding(state),
            Action::BadReact(state) => step matches Step::Unchanged(kept) && kept
                == session.holding(state),
            Action::Changed(state) => step matches Step::Changed { record, withdraw } && record
                == session.successor(state) && withdraw@ == symbols(menu(*old_menu)),
        },
{
    let mut session = session;
    match outcome {
        Action::NoChange(state) => {
            session.state = state;
            Step::Unchanged(session)
        },
        Action::BadReact(state) => {
            session.state = state;
            Step::Unchanged(session)
        },
        Action::Changed(state) => {
            let record = session.advance(state);
            Step::Changed { record, withdraw: markers(old_menu) }
        },
    }
}

/// Why the work on a claimed session failed.
#[derive(Clone, Debug, PartialEq, Eq)]
pub enum Failure<D, G> {
    /// The log could not be read or written.
    DataAccess(D),
    /// The chat platform refused a call.
    Gateway(G),
}

/// What storing a record and showing it, made side by side, come to: the
/// record as stored if both went well, else the failure of the log if it
/// failed, else that of the platform.
pub open spec fn committed<D, G>(record: RPGState, saved: Result<RecordId, D>, shown: Result<(), G>) -> Result<RPGState, Failure<D, G>> {
    match saved {
        Err(failure) => Err(Failure::DataAccess(failure)),
        Ok(id) => match shown {
            Err(failure) => Err(Failure::Gateway(failure)),
            Ok(()) => Ok(record.stored(id)),
        },
    }
}

/// Joins the outcome of storing `record` with that of showing it. Both have
/// run to their end when this is called; the record counts as published only
/// if both succeeded.
pub fn commit<D, G>(record: RPGState, saved: Result<RecordId, D>, shown: Result<(), G>) -> (done: Result<RPGState, Failure<D, G>>)
    ensures
        done == committed(record, saved, shown),
{
    match saved {
        Err(failure) => Err(Failure::DataAccess(failure)),
        Ok(id) => match shown {
            Err(failure) => Err(Failure::Gateway(failure)),
            Ok(()) => {
                let mut record = record;
                record.id = Some(id);
                Ok(record)
            },
        },
    }
}

/// The failure of the first call that failed, if any did.
pub open spec fn first_failure<G>(calls: Seq<Result<(), G>>) -> Option<G>
    decreases calls.len(),
{
    if calls.len() == 0 {
        None
    } else {
        match calls.first() {
            Err(failure) => Some(failure),
            Ok(()) => first_failure(calls.drop_first()),
        }
    }
}

/// What the removal of the old markers and the publication, made side by
/// side, come to: the first failed removal, else the publication's outcome.
pub open spec fn settled<T, D, G>(removals: Seq<Result<(), G>>, published: Result<T, Failure<D, G>>) -> Result<T, Failure<D, G>> {
    match first_failure(removals) {
        Some(failure) => Err(Failure::Gateway(failure)),
        None => published,
    }
}

/// [`first_failure`] of a sequence with one more call at its end.
pub proof fn lemma_first_failure_push<G>(calls: Seq<Result<(), G>>, last: Result<(), G>)
    ensures
        first_failure(calls.push(last)) == match first_failure(calls) {
            Some(failure) => Some(failure),
            None => match last {
                Err(failure) => Some(failure),
                Ok(()) => None,
            },
        },
    decreases calls.len(),
{
    if calls.len() == 0 {
        assert(calls.push(last).drop_first() =~= calls);
    } else {
        assert(calls.push(last).drop_first() =~= calls.drop_first().push(last));
        lemma_first_failure_push(calls.drop_first(), last);
    }
}

/// Joins the outcomes of the removals, in the order of the markers, with the
/// outcome of the publication. All have run to their end when this is called.
pub fn settle<T, D, G>(removals: Vec<Result<(), G>>, published: Result<T, Failure<D, G>>) -> (done: Result<T, Failure<D, G>>)
    ensures
        done == settled(removals@, published),
{
    let mut removals = removals;
    let ghost all = removals@;
    let mut failed: Option<G> = None;
    while removals.len() > 0
        invariant
            first_failure(all) == match first_failure(removals@) {
                Some(failure) => Some(failure),
                None => failed,
            },
        decreases removals@.len(),
    {
        let ghost before = removals@;
        let last = removals.pop();
        proof {
            assert(before == removals@.push(last.unwrap()));
            lemma_first_failure_push(removals@, last.unwrap());
        }
        match last {
            Some(Err(failure)) => {
                failed = Some(failure);
            },
            _ => {},
        }
    }
    match failed {
        Some(failure) => Err(Failure::Gateway(failure)),
        None => published,
    }
}

/// Releases the session on `message` after the work on it has ended, well or
/// badly, and hands a failure on.
///
/// After success the session is at hand for the next reaction. After a
/// failure the cache forgets the message, so that the next reaction starts
/// from what the log holds.
pub fn unlock<E>(holder: &mut RPGStateHolder, message: u64, worked: Result<RPGState, E>) -> (done: Result<(), E>)
    ensures
        match worked {
            Ok(session) => done is Ok && release_effect(
                old(holder)@,
                message,
                Some(session),
                final(holder)@,
            ),
            Err(failure) => done == Err::<(), E>(failure) && release_effect(
                old(holder)@,
                message,
                None,
                final(holder)@,
            ),
        },
{
    match worked {
        Ok(session) => {
            holder.release(message, Some(session));
            Ok(())
        },
        Err(failure) => {
            holder.release(message, None);
            Err(failure)
        },
    }
}

} // verus!
