//! The session log: every record of every session, in the order in which
//! they were stored. Records are appended and never changed.
//!
//! The log proper lives outside the engine. This module states what it is
//! asked for, the newest record of a message, and gives a log in memory that
//! answers as a persistent one must.

use crate::models::RPGState;
use vstd::prelude::*;

verus! {

/// The newest record of `message`: among the records of the message, one of
/// the greatest iteration; among several of those, the one stored last.
pub open spec fn newest(records: Seq<RPGState>, message: u64) -> Option<RPGState>
    decreases records.len(),
{
    if records.len() == 0 {
        None
    } else {
        let earlier = newest(records.drop_last(), message);
        let last = records.last();
        if last.message == message && (earlier is None || earlier.unwrap().iteration
            <= last.iteration) {
            Some(last)
        } else {
            earlier
        }
    }
}

/// The place of the newest record of `message` among `records`, if there is
/// one.
pub open spec fn newest_at(records: Seq<RPGState>, message: u64) -> Option<int>
    decreases records.len(),
{
    if records.len() == 0 {
        None
    } else {
        let earlier = newest_at(records.drop_last(), message);
        let last = records.last();
        if last.message == message && (earlier is None || records[earlier.unwrap()].iteration
            <= last.iteration) {
            Some(records.len() - 1)
        } else {
            earlier
        }
    }
}

/// [`newest_at`] gives a place within the log, and [`newest`] is the record
/// at that place.
pub proof fn lemma_newest_at(records: Seq<RPGState>, message: u64)
    ensures
        match newest_at(records, message) {
            Some(at) => 0 <= at < records.len() && newest(records, message) == Some(records[at]),
            None => newest(records, message) is None,
        },
    decreases records.len(),
{
    if records.len() > 0 {
        lemma_newest_at(records.drop_last(), message);
    }
}

/// What [`newest`] finds is a record of the message that no record of the
/// message exceeds in iteration; it finds nothing only where the message has
/// no record.
pub proof fn lemma_newest_is_greatest(records: Seq<RPGState>, message: u64)
    ensures
        match newest(records, message) {
            Some(found) => {
                &&& records.contains(found)
                &&& found.message == message
                &&& forall|i: int|
                    0 <= i < records.len() && #[trigger] records[i].message == message
                        ==> records[i].iteration <= found.iteration
            },
            None => forall|i: int| 0 <= i < records.len() ==> #[trigger] records[i].message != message,
        },
    decreases records.len(),
{
    if records.len() > 0 {
        let front = records.drop_last();
        lemma_newest_is_greatest(front, message);
        assert(forall|i: int| 0 <= i < front.len() ==> front[i] == records[i]);
    }
}

/// Storing a record changes the newest record of its own message only; and
/// it becomes the newest of that message if no record of the message is
/// further in the chain.
pub proof fn lemma_newest_push(records: Seq<RPGState>, record: RPGState, message: u64)
    ensures
        record.message != message ==> newest(records.push(record), message) == newest(
            records,
            message,
        ),
        record.message == message && (newest(records, message) matches Some(earlier)
            ==> earlier.iteration <= record.iteration) ==> newest(records.push(record), message)
            == Some(record),
{
    assert(records.push(record).drop_last() =~= records);
}

/// A log of session records in memory.
pub struct SessionLog {
    records: Vec<RPGState>,
}

impl View for SessionLog {
    type V = Seq<RPGState>;

    closed spec fn view(&self) -> Seq<RPGState> {
        self.records@
    }
}

impl SessionLog {
    /// A log without records.
    pub fn new() -> (log: SessionLog)
        ensures
            log@ == Seq::<RPGState>::empty(),
    {
        SessionLog { records: Vec::new() }
    }

    /// The number of records stored.
    pub fn len(&self) -> (count: usize)
        ensures
            count == self@.len(),
    {
        self.records.len()
    }

    /// Stores a record behind all the others.
    pub fn append(&mut self, record: RPGState)
        ensures
            final(self)@ == old(self)@.push(record),
    {
        self.records.push(record);
    }

    /// The newest record of `message`.
    pub fn latest(&self, message: u64) -> (found: Option<&RPGState>)
        ensures
            match found {
                Some(record) => newest(self@, message) == Some(*record),
                None => newest(self@, message) is None,
            },
    {
        let mut best: Option<usize> = None;
        let mut i: usize = 0;
        while i < self.records.len()
            invariant
                i <= self.records@.len(),
                match best {
                    Some(at) => at < i && newest_at(self.records@.subrange(0, i as int), message)
                        == Some(at as int),
                    None => newest_at(self.records@.subrange(0, i as int), message) is None,
                },
            decreases self.records@.len() - i,
        {
            assert(self.records@.subrange(0, i + 1).drop_last() == self.records@.subrange(
                0,
                i as int,
            ));
            let better = self.records[i].message == message && match best {
                Some(at) => self.records[at].iteration <= self.records[i].iteration,
                None => true,
            };
            if better {
                best = Some(i);
            }
            i += 1;
        }
        assert(self.records@.subrange(0, i as int) == self.records@);
        proof {
            lemma_newest_at(self.records@, message);
        }
        match best {
            Some(at) => Some(&self.records[at]),
            None => None,
        }
    }
}

} // verus!
