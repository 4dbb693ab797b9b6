//! The session store: a bounded cache of sessions by chat message, and the
//! set of messages that are being changed right now.
//!
//! Every method is one short critical section: it reads and writes the store
//! and nothing else. The caller holds the store behind a mutex and performs
//! all input and output between the calls, without the mutex.

use crate::models::RPGState;
use cache_2q::Cache;
use std::collections::HashSet;
use std::hash::BuildHasher;
use std::hash::Hash;
use vstd::prelude::*;

verus! {

/// Trusted: `cache_2q::Cache`, a bounded map that drops old entries to make
/// room for new ones. Verus does not look into it; what it holds is named by
/// [`cache_entries`].
#[verifier::external_type_specification]
#[verifier::external_body]
#[verifier::reject_recursive_types(K)]
#[verifier::reject_recursive_types(V)]
#[verifier::reject_recursive_types(S)]
pub struct ExCache<K: Eq + Hash, V, S: BuildHasher>(Cache<K, V, S>);

/// What a cache holds for each message: `None` where a lookup found no
/// session that could be claimed, `Some` where a session is at hand.
pub type Entries = Map<u64, Option<RPGState>>;

/// The entries that a cache holds at the moment (its recent and its frequent
/// entries together; the keys it merely remembers are not entries).
pub uninterp spec fn cache_entries(cache: Cache<u64, Option<RPGState>>) -> Entries;

/// The size that a cache was made for: it holds up to as many recent and as
/// many frequent entries.
pub uninterp spec fn cache_size(cache: Cache<u64, Option<RPGState>>) -> usize;

/// How storing `value` under `key` changes what a bounded cache holds: the key
/// then maps to the value; a key that was held before is simply overwritten;
/// a new key may push other entries out, and those that stay are unchanged.
pub open spec fn stores(before: Entries, key: u64, value: Option<RPGState>, after: Entries) -> bool {
    &&& after.dom().contains(key)
    &&& after[key] == value
    &&& before.dom().contains(key) ==> after =~= before.insert(key, value)
    &&& forall|other: u64|
        other != key && #[trigger] after.dom().contains(other) ==> before.dom().contains(other)
            && after[other] == before[other]
}

/// Trusted: `Cache::new` makes an empty cache. It panics on size 0, which the
/// precondition excludes.
#[verifier::external_body]
fn cache_new(size: usize) -> (cache: Cache<u64, Option<RPGState>>)
    requires
        size > 0,
    ensures
        cache_entries(cache) == Entries::empty(),
        cache_size(cache) == size,
{
    Cache::new(size)
}

/// Trusted: `Cache::insert` returns the value that the key had, if any, and
/// stores the new one. Where the key was held, nothing else changes; where it
/// was not, the cache may drop another entry to make room.
#[verifier::external_body]
fn cache_insert(cache: &mut Cache<u64, Option<RPGState>>, key: u64, value: Option<RPGState>) -> (previous: Option<Option<RPGState>>)
    ensures
        previous == cache_entries(*old(cache)).get(key),
        stores(cache_entries(*old(cache)), key, value, cache_entries(*final(cache))),
        cache_size(*final(cache)) == cache_size(*old(cache)),
{
    cache.insert(key, value)
}

/// Trusted: `Cache::remove` takes the key's entry out and returns its value,
/// if there was one. No other entry changes.
#[verifier::external_body]
fn cache_remove(cache: &mut Cache<u64, Option<RPGState>>, key: u64) -> (previous: Option<Option<RPGState>>)
    ensures
        previous == cache_entries(*old(cache)).get(key),
        cache_entries(*final(cache)) == cache_entries(*old(cache)).remove(key),
        cache_size(*final(cache)) == cache_size(*old(cache)),
{
    cache.remove(&key)
}

/// Trusted: `Cache::len` counts the entries held. They are never more than
/// the recent and the frequent entries that the cache was made for.
#[verifier::external_body]
fn cache_len(cache: &Cache<u64, Option<RPGState>>) -> (count: usize)
    ensures
        count == cache_entries(*cache).dom().len(),
        count <= 2 * cache_size(*cache),
{
    cache.len()
}

/// Trusted: `Cache::peek` returns the key's value, if the cache holds one,
/// and leaves the cache as it is.
#[verifier::external_body]
fn cache_peek(cache: &Cache<u64, Option<RPGState>>, key: u64) -> (held: Option<&Option<RPGState>>)
    ensures
        held is Some <==> cache_entries(*cache).dom().contains(key),
        held matches Some(value) ==> *value == cache_entries(*cache)[key],
{
    cache.peek(&key)
}

/// What the cache knows of a message.
#[derive(Clone, Copy, Debug, PartialEq, Eq)]
pub enum Slot<S> {
    /// The cache has no entry: only the log can tell.
    Unknown,
    /// A lookup was made, or is being made, and gave no session to hand out.
    Absent,
    /// The session is at hand.
    Present(S),
}

/// The size for which a store's cache is made by default.
pub const CACHE_SIZE: usize = 128;

/// The store as a mathematical value.
pub struct Store {
    /// What the cache holds.
    pub entries: Entries,
    /// The messages that are being changed.
    pub lockout: Set<u64>,
    /// The size that the cache was made for.
    pub size: usize,
}

impl Store {
    /// What the cache knows of `message`.
    pub open spec fn slot(self, message: u64) -> Slot<RPGState> {
        if !self.entries.dom().contains(message) {
            Slot::Unknown
        } else {
            match self.entries[message] {
                None => Slot::Absent,
                Some(session) => Slot::Present(session),
            }
        }
    }

    /// Whether a change of the session on `message` is in flight.
    pub open spec fn locked(self, message: u64) -> bool {
        self.lockout.contains(message)
    }

    /// The store after the cache has dropped what it held for `message`.
    pub open spec fn evict(self, message: u64) -> Store {
        Store { entries: self.entries.remove(message), lockout: self.lockout, size: self.size }
    }

    /// Same entries, same lockout, same size.
    pub open spec fn same(self, other: Store) -> bool {
        self.entries =~= other.entries && self.lockout =~= other.lockout && self.size == other.size
    }
}

/// The answer to a request for exclusive access to a session.
#[derive(Clone, Debug, PartialEq, Eq)]
pub enum Claim {
    /// Access is granted; the session is the caller's until it is released.
    Claimed(RPGState),
    /// Another change of the session is in flight. To be ignored silently.
    Busy,
    /// There is no such session, or it has ended, or it is someone else's.
    Rejected,
    /// The cache cannot tell. A slot is reserved; the caller reads the log
    /// and comes back with what it found.
    Unresolved,
}

/// A session was started on a message for which an active session was
/// already at hand.
#[derive(Clone, Debug, PartialEq, Eq)]
pub struct DuplicateSession {
    /// The message on which the session was started.
    pub message: u64,
    /// The session that was at hand before.
    pub previous: RPGState,
}

/// The answer of [`RPGStateHolder::claim`], from the store as it was.
pub open spec fn claim_answer(store: Store, message: u64, user: u64) -> Claim {
    if store.locked(message) {
        Claim::Busy
    } else {
        match store.slot(message) {
            Slot::Present(session) => if session.owner == user {
                Claim::Claimed(session)
            } else {
                Claim::Rejected
            },
            Slot::Absent => Claim::Rejected,
            Slot::Unknown => Claim::Unresolved,
        }
    }
}

/// The store after [`RPGStateHolder::claim`]. A granted claim locks the
/// message and takes the session out of its slot. A claim that the cache
/// cannot answer reserves the slot. Every other claim changes nothing.
pub open spec fn claim_effect(before: Store, message: u64, user: u64, after: Store) -> bool {
    after.size == before.size && match claim_answer(before, message, user) {
        Claim::Claimed(_) => after.lockout =~= before.lockout.insert(message) && after.entries
            =~= before.entries.insert(message, None),
        Claim::Busy => after.same(before),
        Claim::Rejected => after.same(before),
        Claim::Unresolved => after.lockout =~= before.lockout && stores(
            before.entries,
            message,
            None,
            after.entries,
        ),
    }
}

/// The answer of [`RPGStateHolder::resolve`] when the log was read: the
/// newest record is claimed if there is one, it is active, and it is the
/// user's, unless the message was locked in the meantime.
pub open spec fn resolve_answer(store: Store, message: u64, user: u64, found: Option<RPGState>) -> Claim {
    if store.locked(message) {
        Claim::Busy
    } else {
        match found {
            Some(session) => if session.active && session.owner == user {
                Claim::Claimed(session)
            } else {
                Claim::Rejected
            },
            None => Claim::Rejected,
        }
    }
}

/// The store after [`RPGStateHolder::resolve`] when the log was read: a
/// granted claim locks the message, and nothing else changes.
pub open spec fn resolve_effect(before: Store, message: u64, user: u64, found: Option<RPGState>, after: Store) -> bool {
    after.size == before.size && match resolve_answer(before, message, user, found) {
        Claim::Claimed(_) => after.lockout =~= before.lockout.insert(message) && after.entries
            =~= before.entries,
        _ => after.same(before),
    }
}

/// The store after [`RPGStateHolder::release`]: the message is unlocked; on
/// success the session is at hand, on failure the cache forgets the message.
pub open spec fn release_effect(before: Store, message: u64, outcome: Option<RPGState>, after: Store) -> bool {
    &&& after.size == before.size
    &&& after.lockout =~= before.lockout.remove(message)
    &&& match outcome {
        Some(session) => stores(before.entries, message, Some(session), after.entries),
        None => after.entries =~= before.entries.remove(message),
    }
}

/// The session that makes a newly started one a duplicate, if there is one.
pub open spec fn collides(store: Store, message: u64) -> Option<RPGState> {
    match store.slot(message) {
        Slot::Present(previous) => if previous.active {
            Some(previous)
        } else {
            None
        },
        _ => None,
    }
}

/// The bounded cache of sessions and the lockout set.
pub struct RPGStateHolder {
    cache: Cache<u64, Option<RPGState>>,
    lockout: HashSet<u64>,
}

impl View for RPGStateHolder {
    type V = Store;

    closed spec fn view(&self) -> Store {
        Store {
            entries: cache_entries(self.cache),
            lockout: self.lockout@,
            size: cache_size(self.cache),
        }
    }
}

impl RPGStateHolder {
    /// An empty store whose cache is made for `size` recent and `size`
    /// frequent sessions.
    pub fn new(size: usize) -> (holder: RPGStateHolder)
        requires
            size > 0,
        ensures
            holder@.entries == Entries::empty(),
            holder@.lockout == Set::<u64>::empty(),
            holder@.size == size,
    {
        RPGStateHolder { cache: cache_new(size), lockout: HashSet::new() }
    }

    /// The number of messages that the cache holds. The cache is bounded: it
    /// never holds more than twice the size it was made for.
    pub fn len(&self) -> (count: usize)
        ensures
            count == self@.entries.dom().len(),
            count <= 2 * self@.size,
    {
        cache_len(&self.cache)
    }

    /// Asks for exclusive access to the session on `message` for `user`, as
    /// far as the cache can answer.
    pub fn claim(&mut self, message: u64, user: u64) -> (claim: Claim)
        ensures
            claim == claim_answer(old(self)@, message, user),
            claim_effect(old(self)@, message, user, final(self)@),
    {
        if self.lockout.contains(&message) {
            return Claim::Busy;
        }
        match cache_insert(&mut self.cache, message, None) {
            Some(Some(session)) => {
                if session.owner != user {
                    cache_insert(&mut self.cache, message, Some(session));
                    Claim::Rejected
                } else {
                    self.lockout.insert(message);
                    Claim::Claimed(session)
                }
            },
            Some(None) => Claim::Rejected,
            None => Claim::Unresolved,
        }
    }

    /// Finishes a claim that the cache could not answer, with what the log
    /// gave for the message: its newest record, or a failure to read.
    ///
    /// A failure forgets the message, so that the next claim reads the log
    /// again, and is handed back.
    pub fn resolve<E>(&mut self, message: u64, user: u64, found: Result<Option<RPGState>, E>) -> (claim: Result<Claim, E>)
        ensures
            match found {
                Ok(newest) => claim == Ok::<Claim, E>(resolve_answer(old(self)@, message, user, newest))
                    && resolve_effect(old(self)@, message, user, newest, final(self)@),
                Err(failure) => claim == Err::<Claim, E>(failure) && final(self)@.same(old(self)@.evict(message)),
            },
    {
        match found {
            Err(failure) => {
                cache_remove(&mut self.cache, message);
                Err(failure)
            },
            Ok(newest) => {
                if self.lockout.contains(&message) {
                    return Ok(Claim::Busy);
                }
                match newest {
                    Some(session) => {
                        if !session.active || session.owner != user {
                            Ok(Claim::Rejected)
                        } else {
                            self.lockout.insert(message);
                            Ok(Claim::Claimed(session))
                        }
                    },
                    None => Ok(Claim::Rejected),
                }
            },
        }
    }

    /// Gives up exclusive access to the session on `message`.
    ///
    /// With `Some`, the change succeeded and the session is kept at hand.
    /// With `None`, it failed and the cache forgets the message, so that the
    /// next claim reads the log again. Either way the message is unlocked.
    pub fn release(&mut self, message: u64, outcome: Option<RPGState>)
        ensures
            release_effect(old(self)@, message, outcome, final(self)@),
    {
        match outcome {
            Some(session) => {
                cache_insert(&mut self.cache, message, Some(session));
            },
            None => {
                cache_remove(&mut self.cache, message);
            },
        }
        self.lockout.remove(&message);
    }

    /// Puts a newly started session at hand.
    ///
    /// The session is stored in any case. If an active session was already at
    /// hand for the message, that session is handed back as the error.
    pub fn insert(&mut self, session: RPGState) -> (started: Result<(), DuplicateSession>)
        ensures
            final(self)@.size == old(self)@.size,
            final(self)@.lockout =~= old(self)@.lockout,
            stores(old(self)@.entries, session.message, Some(session), final(self)@.entries),
            match collides(old(self)@, session.message) {
                Some(previous) => started == Err::<(), DuplicateSession>(
                    DuplicateSession { message: session.message, previous },
                ),
                None => started is Ok,
            },
    {
        let message = session.message;
        match cache_insert(&mut self.cache, message, Some(session)) {
            Some(Some(previous)) => {
                if previous.active {
                    Err(DuplicateSession { message, previous })
                } else {
                    Ok(())
                }
            },
            _ => Ok(()),
        }
    }

    /// Whether a change of the session on `message` is in flight.
    pub fn is_locked(&self, message: u64) -> (locked: bool)
        ensures
            locked == self@.locked(message),
    {
        self.lockout.contains(&message)
    }

    /// What the cache knows of `message`. Looking does not touch the cache.
    pub fn peek(&self, message: u64) -> (held: Slot<&RPGState>)
        ensures
            match self@.slot(message) {
                Slot::Unknown => held is Unknown,
                Slot::Absent => held is Absent,
                Slot::Present(session) => held == Slot::Present(&session),
            },
    {
        match cache_peek(&self.cache, message) {
            None => Slot::Unknown,
            Some(value) => match value {
                None => Slot::Absent,
                Some(session) => Slot::Present(session),
            },
        }
    }
}

impl Default for RPGStateHolder {
    /// An empty store whose cache is made for [`CACHE_SIZE`] recent and as
    /// many frequent sessions.
    fn default() -> (holder: RPGStateHolder)
        ensures
            holder@.entries == Entries::empty(),
            holder@.lockout == Set::<u64>::empty(),
            holder@.size == CACHE_SIZE,
    {
        RPGStateHolder::new(CACHE_SIZE)
    }
}

} // verus!
