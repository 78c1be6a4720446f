//! Laws of the offload engine's overflow accounting.
//!
//! A burst is a run of `log` calls with no consumer progress in between.
//! Over any burst against a fresh engine, the channel fills in enqueue
//! order, everything past the capacity is dropped, and the drop counter
//! keeps an exact account of every lost snapshot — the overflowing records
//! and the diagnostic reports that overflowed with them — so no drop is ever
//! silently forgotten, only delayed.

use vstd::prelude::*;

use crate::async_drain::Async;
use crate::async_drain::diag_snapshot_of;
use crate::kv::KvPair;
use crate::record::Record;
use crate::record::Snapshot;
use crate::record::snapshot_of;

verus! {

/// A fresh engine: empty channel of capacity `cap`, nothing dropped yet,
/// consumer running.
pub open spec fn fresh_async(a: Async, cap: usize) -> bool {
    &&& a.core.chan.queue@ == Seq::<Snapshot>::empty()
    &&& a.core.chan.cap == cap
    &&& a.core.state is Running
    &&& a.dropped == 0
    &&& a.wf()
}

/// Whether `states` traces a burst: each consecutive pair is one `log` call
/// of the matching record under `chain`, with no consumer progress between
/// the calls.
pub open spec fn burst_linked(states: Seq<Async>, records: Seq<Record>, chain: Seq<KvPair>) -> bool {
    forall|i: int|
        0 <= i < records.len() ==> #[trigger] Async::log_transition(
            states[i],
            states[i + 1],
            records[i],
            chain,
            Ok(()),
        )
}

/// Overflow accounting over a burst of `records.len()` calls against a
/// fresh engine of capacity `cap`:
/// - the sink sees nothing during the burst (no consumer progress);
/// - the first `cap` records fill the channel in enqueue order;
/// - with at most `cap` calls, nothing is dropped;
/// - past the capacity, every further call loses its record and, from the
///   second loss on, one overflowed diagnostic with it, so after
///   `cap + k` calls (`k >= 1`) the counter reads `2 * k - 1`: `k` lost
///   records plus `k - 1` lost diagnostics. For `k == 1` the counter is
///   exactly the number of lost records.
pub proof fn lemma_overflow_accounting(
    states: Seq<Async>,
    records: Seq<Record>,
    chain: Seq<KvPair>,
    cap: usize,
)
    requires
        states.len() == records.len() + 1,
        fresh_async(states[0], cap),
        burst_linked(states, records, chain),
    ensures
        states.last().core.sink == states[0].core.sink,
        states.last().core.state is Running,
        states.last().core.chan.cap == cap,
        records.len() <= cap ==> {
            &&& states.last().dropped == 0
            &&& states.last().core.chan.queue@.len() == records.len()
        },
        records.len() > cap ==> {
            &&& states.last().dropped == 2 * (records.len() - cap) - 1
            &&& states.last().core.chan.queue@.len() == cap
        },
        forall|i: int|
            0 <= i < records.len() && i < cap ==> snapshot_of(
                #[trigger] states.last().core.chan.queue@[i],
                records[i],
                chain,
            ),
    decreases records.len(),
{
    if records.len() == 0 {
    } else {
        let m = records.len() - 1;
        let prev_states = states.take(m + 1);
        let prev_records = records.take(m);
        assert(prev_states[0] == states[0]);
        assert forall|i: int|
            0 <= i < prev_records.len() implies #[trigger] Async::log_transition(
            prev_states[i],
            prev_states[i + 1],
            prev_records[i],
            chain,
            Ok(()),
        ) by {
            assert(Async::log_transition(states[i], states[i + 1], records[i], chain, Ok(())));
        }
        lemma_overflow_accounting(prev_states, prev_records, chain, cap);
        let pre = states[m];
        let post = states[m + 1];
        assert(prev_states.last() == pre);
        assert(Async::log_transition(pre, post, records[m], chain, Ok(())));
        if m < cap {
            assert(post.core.chan.queue@.drop_last() == pre.core.chan.queue@);
            assert forall|i: int|
                0 <= i < records.len() && i < cap implies snapshot_of(
                #[trigger] states.last().core.chan.queue@[i],
                records[i],
                chain,
            ) by {
                if i < m {
                    assert(snapshot_of(pre.core.chan.queue@[i], prev_records[i], chain));
                    assert(post.core.chan.queue@[i] == pre.core.chan.queue@[i]);
                } else {
                    assert(post.core.chan.queue@.last() == post.core.chan.queue@[m]);
                }
            }
        } else {
            assert(!pre.core.can_enqueue());
            assert forall|i: int|
                0 <= i < records.len() && i < cap implies snapshot_of(
                #[trigger] states.last().core.chan.queue@[i],
                records[i],
                chain,
            ) by {
                assert(snapshot_of(pre.core.chan.queue@[i], prev_records[i], chain));
            }
        }
    }
}

/// The delayed report comes first: when a `log` call finds drops pending
/// and the channel has room for both messages, the diagnostic stating the
/// count is enqueued immediately before the new record. Since the consumer
/// forwards the queue to the sink in order, the sink observes the report
/// before the record.
pub proof fn lemma_report_precedes_record(pre: Async, post: Async, rec: Record, chain: Seq<KvPair>)
    requires
        Async::log_transition(pre, post, rec, chain, Ok(())),
        pre.dropped > 0,
        pre.core.can_enqueue(),
        pre.core.chan.queue@.len() + 1 < pre.core.chan.cap,
    ensures
        post.core.chan.queue@.len() >= 2,
        diag_snapshot_of(
            post.core.chan.queue@[post.core.chan.queue@.len() - 2],
            pre.dropped,
            chain,
        ),
        snapshot_of(post.core.chan.queue@[post.core.chan.queue@.len() - 1], rec, chain),
        post.dropped == 0,
{
}

} // verus!
