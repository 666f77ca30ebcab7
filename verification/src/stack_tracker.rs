//! A bounded log of the writes that instructions made to the stack, each with
//! the kind of instruction that made it.

use std::collections::VecDeque;
use vstd::prelude::*;

verus! {

/// What caused a write to the stack.
#[derive(Copy, Clone, Debug, PartialEq, Eq, Structural)]
pub enum StackWriteKind {
    Call,
    Push,
    Interrupt,
    Manual,
    Unknown,
}

/// One written stack byte: its address, the cause, and the address of the
/// instruction that wrote it.
#[derive(Copy, Clone, Debug)]
pub struct StackWrite {
    pub addr: u16,
    pub kind: StackWriteKind,
    pub pc: u16,
}

/// The log, oldest entry first. It never grows beyond `max_events` entries
/// (beyond one entry, where `max_events` is zero).
pub struct StackTracker {
    writes: VecDeque<StackWrite>,
    max_events: usize,
}

/// The log after one more entry: a full log loses its oldest entry first.
pub open spec fn recorded(log: Seq<StackWrite>, limit: int, entry: StackWrite) -> Seq<StackWrite> {
    if log.len() >= limit && log.len() > 0 {
        log.drop_first().push(entry)
    } else {
        log.push(entry)
    }
}

/// The kind of the newest entry for `addr`, if the log has one.
pub open spec fn newest_for(log: Seq<StackWrite>, addr: u16) -> Option<StackWriteKind>
    decreases log.len(),
{
    if log.len() == 0 {
        None
    } else if log.last().addr == addr {
        Some(log.last().kind)
    } else {
        newest_for(log.drop_last(), addr)
    }
}

impl StackTracker {
    /// The entries of the log, oldest first.
    pub closed spec fn view(&self) -> Seq<StackWrite> {
        self.writes@
    }

    /// The number of entries that the log was made to hold.
    pub closed spec fn limit(&self) -> int {
        self.max_events as int
    }

    pub fn max_events(&self) -> (n: usize)
        ensures
            n == self.limit(),
    {
        self.max_events
    }

    pub fn new(max_events: usize) -> (t: Self)
        ensures
            t@ == Seq::<StackWrite>::empty(),
            t.limit() == max_events,
    {
        StackTracker { writes: VecDeque::new(), max_events }
    }

    pub fn clear(&mut self)
        ensures
            final(self)@ == Seq::<StackWrite>::empty(),
            final(self).limit() == old(self).limit(),
    {
        self.writes.clear();
    }

    /// The number of entries in the log.
    pub fn len(&self) -> (n: usize)
        ensures
            n == self@.len(),
    {
        self.writes.len()
    }

    /// Appends an entry; a log that is full drops its oldest entry.
    pub fn record(&mut self, addr: u16, kind: StackWriteKind, pc: u16)
        ensures
            final(self)@ == recorded(
                old(self)@,
                old(self).limit(),
                (StackWrite { addr, kind, pc }),
            ),
            final(self).limit() == old(self).limit(),
    {
        if self.writes.len() >= self.max_events {
            let _ = self.writes.pop_front();
        }
        self.writes.push_back(StackWrite { addr, kind, pc });
    }

    /// The cause of the newest write to `addr` that the log still holds.
    pub fn last_write_to(&self, addr: u16) -> (found: Option<StackWriteKind>)
        ensures
            found == newest_for(self@, addr),
    {
        let mut i: usize = self.writes.len();
        assert(self.writes@.take(i as int) =~= self.writes@);
        while i > 0
            invariant
                i <= self.writes@.len(),
                newest_for(self.writes@, addr) == newest_for(self.writes@.take(i as int), addr),
            decreases i,
        {
            i = i - 1;
            let entry = &self.writes[i];
            proof {
                let prefix = self.writes@.take(i as int + 1);
                assert(prefix.last() == self.writes@[i as int]);
                assert(prefix.drop_last() =~= self.writes@.take(i as int));
            }
            if entry.addr == addr {
                return Some(entry.kind);
            }
        }
        proof {
            assert(self.writes@.take(0).len() == 0);
        }
        None
    }
}

/// A log that has just recorded a write to `addr` answers with that write's
/// kind.
pub proof fn lemma_newest_after_record(log: Seq<StackWrite>, limit: int, entry: StackWrite)
    ensures
        newest_for(recorded(log, limit, entry), entry.addr) == Some(entry.kind),
{
    assert(recorded(log, limit, entry).last() == entry);
}

/// Recording keeps the log within its limit.
pub proof fn lemma_recorded_len(log: Seq<StackWrite>, limit: int, entry: StackWrite)
    requires
        log.len() <= limit || log.len() <= 1,
    ensures
        recorded(log, limit, entry).len() <= limit || recorded(log, limit, entry).len() <= 1,
{
}

} // verus!
