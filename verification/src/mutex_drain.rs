//! The synchronization adapter: exclusive access around a sink that is not
//! safe for concurrent use.
//!
//! `log` acquires exclusive access, forwards the record, and releases. A
//! lock found poisoned — a prior holder failed while holding it — is
//! surfaced as its own error rather than silently proceeding: corrupted
//! interleaved output must never mask the original failure.

use vstd::prelude::*;

use crate::kv::KvPair;
use crate::record::Record;
use crate::record::snapshot_of;
use crate::record::snapshot_record;
use crate::async_drain::Sink;

verus! {

/// Error returned by the synchronization adapter.
#[derive(Debug, PartialEq, Eq)]
pub enum MutexDrainError {
    /// The exclusive-access primitive was poisoned by an earlier failure
    /// while held; nothing was forwarded.
    Mutex,
    /// The wrapped sink itself failed; carries the sink's message.
    Drain(String),
}

impl MutexDrainError {
    /// The error's description.
    pub open spec fn spec_message(self) -> Seq<char> {
        match self {
            MutexDrainError::Mutex => "MutexError"@,
            MutexDrainError::Drain(m) => m@,
        }
    }

    /// The error's description: the poisoning notice, or the wrapped sink's
    /// own message.
    pub fn message(&self) -> (r: String)
        ensures
            r@ == self.spec_message(),
    {
        match self {
            MutexDrainError::Mutex => "MutexError".to_owned(),
            MutexDrainError::Drain(m) => m.clone(),
        }
    }
}

/// A sink wrapped with exclusive access. One execution context at a time
/// reaches the sink; `poisoned` records that an earlier holder failed while
/// holding the lock.
#[derive(Debug)]
pub struct MutexDrain {
    /// The wrapped sink.
    pub drain: Sink,
    /// Whether the exclusive-access primitive is poisoned.
    pub poisoned: bool,
}

impl MutexDrain {
    /// Wraps `d` for exclusive access; the lock starts out clean.
    pub fn new(d: Sink) -> (m: Self)
        ensures
            m.drain == d,
            !m.poisoned,
    {
        MutexDrain { drain: d, poisoned: false }
    }

    /// Acquires exclusive access, forwards one record (snapshotted under
    /// `logger_values`) to the wrapped sink, and releases. A poisoned lock
    /// is surfaced as [`MutexDrainError::Mutex`] with nothing forwarded; a
    /// sink failure is surfaced as [`MutexDrainError::Drain`].
    pub fn log(&mut self, record: &Record, logger_values: &Vec<KvPair>) -> (r: Result<
        (),
        MutexDrainError,
    >)
        ensures
            old(self).poisoned ==> {
                &&& r == Err::<(), MutexDrainError>(MutexDrainError::Mutex)
                &&& *final(self) == *old(self)
            },
            !old(self).poisoned && old(self).drain.infallible() ==> {
                &&& r is Ok
                &&& final(self).drain.events@.len() == old(self).drain.events@.len() + 1
                &&& final(self).drain.events@.drop_last() == old(self).drain.events@
                &&& snapshot_of(final(self).drain.events@.last(), *record, logger_values@)
                &&& final(self).drain.fault == old(self).drain.fault
                &&& final(self).poisoned == old(self).poisoned
            },
            !old(self).poisoned && !old(self).drain.infallible() ==> {
                &&& r == Err::<(), MutexDrainError>(
                    MutexDrainError::Drain(old(self).drain.fault->Some_0),
                )
                &&& *final(self) == *old(self)
            },
    {
        if self.poisoned {
            return Err(MutexDrainError::Mutex);
        }
        let snap = snapshot_record(record, logger_values);
        let r = self.drain.consume(snap);
        proof {
            if old(self).drain.infallible() {
                assert(self.drain.events@.drop_last() =~= old(self).drain.events@);
            }
        }
        match r {
            Ok(()) => Ok(()),
            Err(m) => Err(MutexDrainError::Drain(m)),
        }
    }
}

} // verus!
