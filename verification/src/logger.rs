//! Logger handles: an immutable reference to a sink plus an accumulated
//! key-value chain.
//!
//! A handle never changes once built; deriving a child appends extra context
//! to a copy of the chain and shares the parent's sink. Cloning is exact, so
//! a scope-stack frame, a closure capture and the handle they came from all
//! denote the same logger.

use vstd::prelude::*;

use crate::kv::KvPair;
use crate::kv::clone_kv_list;

verus! {

/// Whether two handles denote the same logger: the same sink and the same
/// accumulated chain.
pub open spec fn handle_eq(a: LoggerHandle, b: LoggerHandle) -> bool {
    &&& a.sink_id == b.sink_id
    &&& a.chain@ == b.chain@
}

/// An immutable logger handle: which sink it feeds, and the key-value
/// context accumulated along its derivation chain, oldest first.
#[derive(Debug)]
pub struct LoggerHandle {
    /// Identifies the shared sink this handle feeds. Deriving never changes
    /// it; the sink lives as long as its longest holder.
    pub sink_id: usize,
    /// The inherited key-value chain, in derivation order.
    pub chain: Vec<KvPair>,
}

impl Clone for LoggerHandle {
    /// Cloning preserves the handle (reference-count-style sharing: both
    /// copies denote the same sink and the same chain).
    fn clone(&self) -> (r: Self)
        ensures
            handle_eq(r, *self),
    {
        LoggerHandle { sink_id: self.sink_id, chain: clone_kv_list(&self.chain) }
    }
}

impl LoggerHandle {
    /// A root handle feeding `sink_id`, with `kv` as its initial context.
    pub fn root(sink_id: usize, kv: Vec<KvPair>) -> (l: Self)
        ensures
            l.sink_id == sink_id,
            l.chain == kv,
    {
        LoggerHandle { sink_id, chain: kv }
    }

    /// Derives a child handle: it shares this handle's sink and carries this
    /// handle's chain with `extra_kv` appended. The parent is not changed.
    pub fn new(&self, extra_kv: Vec<KvPair>) -> (child: Self)
        ensures
            child.sink_id == self.sink_id,
            child.chain@ == self.chain@ + extra_kv@,
    {
        let mut chain = clone_kv_list(&self.chain);
        let mut extra = extra_kv;
        let ghost extra0 = extra@;
        let mut i: usize = 0;
        while i < extra.len()
            invariant
                i <= extra.len(),
                extra@ == extra0,
                chain@ == self.chain@ + extra0.take(i as int),
            decreases extra.len() - i,
        {
            chain.push(extra[i].clone());
            assert(chain@ == self.chain@ + extra0.take(i + 1 as int));
            i = i + 1;
        }
        assert(extra0.take(extra0.len() as int) == extra0);
        LoggerHandle { sink_id: self.sink_id, chain }
    }
}

} // verus!
