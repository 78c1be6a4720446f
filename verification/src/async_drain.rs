//! The asynchronous offload engine.
//!
//! Producers hand owned snapshots to a bounded channel; one consumer drains
//! the channel in FIFO order and forwards every snapshot to the wrapped sink.
//! A full channel never blocks a producer: the snapshot is dropped and
//! counted, and the count is reported through a synthetic diagnostic record
//! as soon as the channel has room again. Teardown enqueues a shutdown
//! message behind every accepted record and runs the consumer until it has
//! handed all of them to the sink: flush, then stop.
//!
//! The consumer runs on its own OS thread in a deployed system; that thread,
//! unverified, drives [`AsyncCore::worker_step`] in a loop and performs the
//! blocking join that the teardown functions here model.

use vstd::prelude::*;

use crate::channel::AsyncMsg;
use crate::channel::Channel;
use crate::kv::KvPair;
use crate::kv::Value;
use crate::level::Level;
use crate::record::Record;
use crate::record::Snapshot;
use crate::record::SourceLocation;
use crate::record::snapshot_of;
use crate::record::snapshot_record;

verus! {

/// Errors reported by the offload engine.
#[derive(Debug, PartialEq, Eq)]
pub enum AsyncError {
    /// The bounded channel was full (or no longer accepting): the snapshot
    /// was dropped. Never surfaced by [`Async`], which recovers locally.
    Full,
    /// A fatal fault: the engine's internal synchronization failed. Carries
    /// a description of the fault.
    Fatal(String),
}

/// Result alias for engine operations.
pub type AsyncResult<T> = Result<T, AsyncError>;

/// The channel capacity used when the builder is not told otherwise.
pub const DEFAULT_CHAN_SIZE: usize = 128;

/// A sink addressed through its `consume` capability: it appends each
/// snapshot it is handed to the stream of observed events, unless it is
/// faulty, in which case it rejects everything with its fault message.
///
/// The offload engine only accepts a sink whose fault is `None`: a sink that
/// can genuinely fail must be composed behind a translation layer before it
/// enters the engine.
#[derive(Debug, PartialEq, Eq)]
pub struct Sink {
    /// Every snapshot this sink has consumed, in consumption order.
    pub events: Vec<Snapshot>,
    /// `None` for a sink that cannot fail; `Some(message)` for one that
    /// rejects every record with `message`.
    pub fault: Option<String>,
}

impl Sink {
    /// Whether this sink is contractually infallible.
    pub open spec fn infallible(self) -> bool {
        self.fault is None
    }

    /// A sink that consumes everything and has observed nothing yet.
    pub fn new() -> (s: Self)
        ensures
            s.events@ == Seq::<Snapshot>::empty(),
            s.infallible(),
    {
        Sink { events: Vec::new(), fault: None }
    }

    /// A sink that rejects every record with `message`: stands for a sink
    /// composed into the pipeline in violation of the infallibility
    /// contract.
    pub fn faulty(message: String) -> (s: Self)
        ensures
            s.events@ == Seq::<Snapshot>::empty(),
            s.fault == Some(message),
    {
        Sink { events: Vec::new(), fault: Some(message) }
    }

    /// Consumes one snapshot: appends it to the observed stream, or rejects
    /// it with the fault message.
    pub fn consume(&mut self, s: Snapshot) -> (r: Result<(), String>)
        ensures
            old(self).infallible() ==> {
                &&& r is Ok
                &&& final(self).events@ == old(self).events@.push(s)
                &&& final(self).fault == old(self).fault
            },
            !old(self).infallible() ==> {
                &&& r == Err::<(), String>(old(self).fault->Some_0)
                &&& *final(self) == *old(self)
            },
    {
        match &self.fault {
            None => {
                self.events.push(s);
                Ok(())
            },
            Some(message) => Err(message.clone()),
        }
    }
}

/// The consumer's lifecycle: it runs, is asked to shut down, and has
/// terminated once the shutdown message has been processed. `Joined` is
/// terminal.
#[derive(Clone, Copy, Debug, PartialEq, Eq, Structural)]
pub enum WorkerState {
    /// The consumer accepts and forwards records.
    Running,
    /// A shutdown message has been enqueued behind every accepted record; no
    /// further record is accepted.
    ShutdownRequested,
    /// The consumer has processed the shutdown message and terminated.
    Joined,
}

/// The core of the offload engine: the bounded channel, the wrapped sink the
/// consumer forwards to, and the consumer's lifecycle state.
pub struct AsyncCore {
    /// The bounded producer/consumer channel.
    pub chan: Channel,
    /// The wrapped sink; contractually infallible.
    pub sink: Sink,
    /// The consumer's lifecycle state.
    pub state: WorkerState,
    /// Whether teardown of this handle itself joins the consumer. `false`
    /// when a separate guard owns the join.
    pub owns_join: bool,
}

impl AsyncCore {
    /// Well-formed: the channel respects its bound, the wrapped sink honors
    /// the infallibility contract, and the shutdown message is in flight
    /// exactly while shutdown has been requested and not yet processed.
    pub open spec fn wf(self) -> bool {
        &&& self.chan.wf()
        &&& self.sink.infallible()
        &&& (self.chan.fin <==> self.state is ShutdownRequested)
    }

    /// Whether a snapshot handed to the engine right now would be accepted:
    /// the consumer is running and the channel has a free slot.
    pub open spec fn can_enqueue(self) -> bool {
        self.state is Running && self.chan.queue@.len() < self.chan.cap
    }

    /// The parts of the engine that a producer-side operation never touches.
    pub open spec fn same_engine(pre: AsyncCore, post: AsyncCore) -> bool {
        &&& post.sink == pre.sink
        &&& post.state == pre.state
        &&& post.owns_join == pre.owns_join
        &&& post.chan.cap == pre.chan.cap
    }

    /// How `send` transforms the engine: the snapshot is appended when the
    /// engine can accept it, and dropped with `Full` otherwise.
    pub open spec fn send_transition(
        pre: AsyncCore,
        post: AsyncCore,
        s: Snapshot,
        r: AsyncResult<()>,
    ) -> bool {
        &&& Self::same_engine(pre, post)
        &&& if pre.can_enqueue() {
            &&& r is Ok
            &&& post.chan.queue@ == pre.chan.queue@.push(s)
        } else {
            &&& r == Err::<(), AsyncError>(AsyncError::Full)
            &&& post.chan.queue@ == pre.chan.queue@
        }
    }

    /// How `log` transforms the engine: like `send`, with the accepted
    /// snapshot being the owned copy of `rec` under `chain`.
    pub open spec fn log_transition(
        pre: AsyncCore,
        post: AsyncCore,
        rec: Record,
        chain: Seq<KvPair>,
        r: AsyncResult<()>,
    ) -> bool {
        &&& Self::same_engine(pre, post)
        &&& if pre.can_enqueue() {
            &&& r is Ok
            &&& post.chan.queue@.len() == pre.chan.queue@.len() + 1
            &&& post.chan.queue@.drop_last() == pre.chan.queue@
            &&& snapshot_of(post.chan.queue@.last(), rec, chain)
        } else {
            &&& r == Err::<(), AsyncError>(AsyncError::Full)
            &&& post.chan.queue@ == pre.chan.queue@
        }
    }

    /// A fresh engine as a builder constructs it.
    pub open spec fn fresh(self, sink: Sink, cap: usize, owns_join: bool) -> bool {
        &&& self.chan.queue@ == Seq::<Snapshot>::empty()
        &&& self.chan.cap == cap
        &&& self.sink == sink
        &&& self.state is Running
        &&& self.owns_join == owns_join
        &&& self.wf()
    }

    /// A core with default parameters whose own teardown joins the consumer.
    pub fn new(drain: Sink) -> (c: Self)
        requires
            drain.infallible(),
        ensures
            c.fresh(drain, DEFAULT_CHAN_SIZE, true),
    {
        AsyncCoreBuilder::new(drain).build()
    }

    /// A builder over `drain`, for choosing the channel capacity or the
    /// teardown mode.
    pub fn custom(drain: Sink) -> (b: AsyncCoreBuilder)
        requires
            drain.infallible(),
        ensures
            b.sink == drain,
            b.cap == DEFAULT_CHAN_SIZE,
            b.wf(),
    {
        AsyncCoreBuilder::new(drain)
    }

    /// Hands one snapshot to the consumer: a non-blocking enqueue. On a full
    /// (or no longer accepting) channel the snapshot is dropped and `Full`
    /// comes back; the caller is never blocked.
    pub fn send(&mut self, s: Snapshot) -> (r: AsyncResult<()>)
        requires
            old(self).wf(),
        ensures
            final(self).wf(),
            Self::send_transition(*old(self), *final(self), s, r),
    {
        match self.state {
            WorkerState::Running => self.chan.try_send(s),
            _ => Err(AsyncError::Full),
        }
    }

    /// Builds the owned snapshot of `record` under `logger_values` (never
    /// touching the sink) and hands it to the consumer without blocking.
    pub fn log(&mut self, record: &Record, logger_values: &Vec<KvPair>) -> (r: AsyncResult<()>)
        requires
            old(self).wf(),
        ensures
            final(self).wf(),
            Self::log_transition(*old(self), *final(self), *record, logger_values@, r),
    {
        let snap = snapshot_record(record, logger_values);
        let r = self.send(snap);
        proof {
            if old(self).can_enqueue() {
                assert(self.chan.queue@.drop_last() =~= old(self).chan.queue@);
            }
        }
        r
    }

    /// One iteration of the consumer loop: forward the oldest waiting
    /// snapshot to the sink, or, once nothing waits and shutdown was
    /// requested, process the shutdown message and terminate.
    pub fn worker_step(&mut self)
        requires
            old(self).wf(),
        ensures
            final(self).wf(),
            final(self).chan.cap == old(self).chan.cap,
            final(self).owns_join == old(self).owns_join,
            final(self).sink.fault == old(self).sink.fault,
            old(self).chan.queue@.len() > 0 ==> {
                &&& final(self).chan.queue@ == old(self).chan.queue@.drop_first()
                &&& final(self).sink.events@ == old(self).sink.events@.push(
                    old(self).chan.queue@[0],
                )
                &&& final(self).state == old(self).state
            },
            old(self).chan.queue@.len() == 0 && old(self).state is ShutdownRequested ==> {
                &&& final(self).chan.queue@ == old(self).chan.queue@
                &&& final(self).sink.events@ == old(self).sink.events@
                &&& final(self).state is Joined
            },
            old(self).chan.queue@.len() == 0 && !(old(self).state is ShutdownRequested)
                ==> *final(self) == *old(self),
    {
        match self.chan.pop_msg() {
            Some(AsyncMsg::Record(s)) => {
                let _ = self.sink.consume(s);
            },
            Some(AsyncMsg::Finish) => {
                self.state = WorkerState::Joined;
            },
            None => {},
        }
    }

    /// Runs the consumer until it has processed the pending shutdown
    /// message: every snapshot that was waiting reaches the sink, exactly
    /// once, in enqueue order, and only then does the consumer terminate.
    fn run_worker_to_join(&mut self)
        requires
            old(self).wf(),
            old(self).state is ShutdownRequested,
        ensures
            final(self).wf(),
            final(self).chan.cap == old(self).chan.cap,
            final(self).owns_join == old(self).owns_join,
            final(self).sink.fault == old(self).sink.fault,
            final(self).sink.events@ == old(self).sink.events@ + old(self).chan.queue@,
            final(self).chan.queue@ == Seq::<Snapshot>::empty(),
            final(self).state is Joined,
    {
        while self.chan.len() > 0
            invariant
                self.wf(),
                self.state is ShutdownRequested,
                self.chan.cap == old(self).chan.cap,
                self.owns_join == old(self).owns_join,
                self.sink.fault == old(self).sink.fault,
                self.sink.events@ + self.chan.queue@ == old(self).sink.events@ + old(
                    self,
                ).chan.queue@,
            decreases self.chan.queue@.len(),
        {
            let ghost before_events = self.sink.events@;
            let ghost before_queue = self.chan.queue@;
            self.worker_step();
            assert(self.sink.events@ + self.chan.queue@ =~= before_events + before_queue);
        }
        assert(self.sink.events@ =~= old(self).sink.events@ + old(self).chan.queue@);
        self.worker_step();
        assert(self.chan.queue@ =~= Seq::<Snapshot>::empty());
    }

    /// Graceful teardown of a core that owns the join: request shutdown,
    /// then wait until the consumer has handed every accepted snapshot to
    /// the sink and terminated. A core whose join a guard owns, or one
    /// already torn down, is left untouched.
    pub fn finish(&mut self)
        requires
            old(self).wf(),
        ensures
            final(self).wf(),
            old(self).owns_join && old(self).state is Running ==> {
                &&& final(self).sink.events@ == old(self).sink.events@ + old(self).chan.queue@
                &&& final(self).chan.queue@ == Seq::<Snapshot>::empty()
                &&& final(self).state is Joined
                &&& final(self).chan.cap == old(self).chan.cap
                &&& final(self).owns_join == old(self).owns_join
                &&& final(self).sink.fault == old(self).sink.fault
            },
            !(old(self).owns_join && old(self).state is Running) ==> *final(self) == *old(self),
    {
        if self.owns_join {
            match self.state {
                WorkerState::Running => {
                    self.chan.send_finish();
                    self.state = WorkerState::ShutdownRequested;
                    self.run_worker_to_join();
                },
                _ => {},
            }
        }
    }
}

/// Builder for an [`AsyncCore`]: fixes the wrapped sink, the channel
/// capacity, and the teardown mode.
#[derive(Debug)]
pub struct AsyncCoreBuilder {
    /// The sink the consumer will forward to; contractually infallible.
    pub sink: Sink,
    /// The channel capacity the engine will be built with; at least 1.
    pub cap: usize,
}

impl AsyncCoreBuilder {
    /// Well-formed: a positive capacity over an infallible sink.
    pub open spec fn wf(self) -> bool {
        1 <= self.cap && self.sink.infallible()
    }

    /// A builder over `drain` with the default channel capacity.
    fn new(drain: Sink) -> (b: Self)
        requires
            drain.infallible(),
        ensures
            b.sink == drain,
            b.cap == DEFAULT_CHAN_SIZE,
            b.wf(),
    {
        AsyncCoreBuilder { sink: drain, cap: DEFAULT_CHAN_SIZE }
    }

    /// Chooses the bounded channel capacity: how many snapshots may wait for
    /// the consumer before further ones are dropped and counted.
    pub fn chan_size(self, cap: usize) -> (b: Self)
        requires
            cap >= 1,
        ensures
            b.sink == self.sink,
            b.cap == cap,
            self.wf() ==> b.wf(),
    {
        AsyncCoreBuilder { sink: self.sink, cap }
    }

    /// Builds the core. Same as [`Self::build_no_guard`].
    pub fn build(self) -> (c: AsyncCore)
        requires
            self.wf(),
        ensures
            c.fresh(self.sink, self.cap, true),
    {
        self.build_no_guard()
    }

    /// Builds a core whose own teardown joins the consumer.
    pub fn build_no_guard(self) -> (c: AsyncCore)
        requires
            self.wf(),
        ensures
            c.fresh(self.sink, self.cap, true),
    {
        AsyncCore {
            chan: Channel::new(self.cap),
            sink: self.sink,
            state: WorkerState::Running,
            owns_join: true,
        }
    }

    /// Builds a core together with the guard that owns the join: tearing
    /// down the guard flushes and joins the consumer; tearing down the core
    /// itself does not.
    pub fn build_with_guard(self) -> (r: (AsyncCore, AsyncGuard))
        requires
            self.wf(),
        ensures
            r.0.fresh(self.sink, self.cap, false),
            r.1.active,
    {
        let core = AsyncCore {
            chan: Channel::new(self.cap),
            sink: self.sink,
            state: WorkerState::Running,
            owns_join: false,
        };
        (core, AsyncGuard { active: true })
    }
}

/// Guard for guaranteed flushing: tearing it down requests shutdown and
/// blocks until the consumer has handed every accepted snapshot to the sink.
/// It acts at most once, however often teardown is attempted.
#[derive(Debug)]
pub struct AsyncGuard {
    /// Whether this guard still owns the join. Cleared by the first
    /// teardown; a later teardown finds nothing to do.
    pub active: bool,
}

impl AsyncGuard {
    /// Guaranteed flush-and-join teardown. On the first call for a running
    /// engine, the sink observes every snapshot the channel was holding,
    /// exactly once, in enqueue order, before this returns, and the consumer
    /// terminates. Any later call finds the join gone and changes nothing:
    /// it neither rejoins a joined consumer nor blocks.
    pub fn finish(&mut self, core: &mut AsyncCore)
        requires
            old(core).wf(),
        ensures
            final(core).wf(),
            old(self).active && old(core).state is Running ==> {
                &&& final(core).sink.events@ == old(core).sink.events@ + old(core).chan.queue@
                &&& final(core).chan.queue@ == Seq::<Snapshot>::empty()
                &&& final(core).state is Joined
                &&& final(core).chan.cap == old(core).chan.cap
                &&& final(core).owns_join == old(core).owns_join
                &&& final(core).sink.fault == old(core).sink.fault
                &&& !final(self).active
            },
            old(self).active && !(old(core).state is Running) ==> {
                &&& *final(core) == *old(core)
                &&& !final(self).active
            },
            !old(self).active ==> {
                &&& *final(core) == *old(core)
                &&& *final(self) == *old(self)
            },
    {
        if self.active {
            self.active = false;
            match core.state {
                WorkerState::Running => {
                    core.chan.send_finish();
                    core.state = WorkerState::ShutdownRequested;
                    core.run_worker_to_join();
                },
                _ => {},
            }
        }
    }
}

/// The message of the synthetic diagnostic record that reports dropped
/// snapshots.
pub open spec fn overflow_msg() -> Seq<char> {
    "slog-async: logger dropped messages due to channel overflow"@
}

/// The tag carried by every record the engine itself emits.
pub open spec fn engine_tag() -> Seq<char> {
    "slog-async"@
}

/// Whether `s` is the synthetic diagnostic snapshot reporting `count`
/// dropped records, emitted under the inherited chain `chain`.
pub open spec fn diag_snapshot_of(s: Snapshot, count: usize, chain: Seq<KvPair>) -> bool {
    &&& s.level == Level::Error
    &&& s.tag@ == engine_tag()
    &&& s.msg@ == overflow_msg()
    &&& s.kv@.len() == 1
    &&& s.kv@[0].key@ == "count"@
    &&& s.kv@[0].val == Value::U64(count as u64)
    &&& s.chain@ == chain
}

/// Builds the synthetic diagnostic record stating that `count` snapshots
/// were dropped since the last successful report.
fn make_overflow_record(count: usize) -> (r: Record)
    ensures
        r.level == Level::Error,
        r.tag@ == engine_tag(),
        r.msg@ == overflow_msg(),
        r.kv@.len() == 1,
        r.kv@[0].key@ == "count"@,
        r.kv@[0].val == Value::U64(count as u64),
{
    let mut kv: Vec<KvPair> = Vec::new();
    kv.push(KvPair { key: "count".to_owned(), val: Value::U64(count as u64) });
    Record {
        level: Level::Error,
        msg: "slog-async: logger dropped messages due to channel overflow".to_owned(),
        location: SourceLocation {
            module: "async_drain".to_owned(),
            file: "async_drain".to_owned(),
            line: 0,
        },
        tag: "slog-async".to_owned(),
        kv,
    }
}

/// Builder for an [`Async`] drain.
#[derive(Debug)]
pub struct AsyncBuilder {
    /// The underlying core builder.
    pub core: AsyncCoreBuilder,
}

impl AsyncBuilder {
    /// Well-formed: the underlying core builder is.
    pub open spec fn wf(self) -> bool {
        self.core.wf()
    }

    /// A builder over `drain` with the default channel capacity.
    fn new(drain: Sink) -> (b: Self)
        requires
            drain.infallible(),
        ensures
            b.core.sink == drain,
            b.core.cap == DEFAULT_CHAN_SIZE,
            b.wf(),
    {
        AsyncBuilder { core: AsyncCoreBuilder::new(drain) }
    }

    /// Chooses the bounded channel capacity.
    pub fn chan_size(self, cap: usize) -> (b: Self)
        requires
            cap >= 1,
        ensures
            b.core.sink == self.core.sink,
            b.core.cap == cap,
            self.wf() ==> b.wf(),
    {
        AsyncBuilder { core: self.core.chan_size(cap) }
    }

    /// Completes building. Same as [`Self::build_no_guard`].
    pub fn build(self) -> (a: Async)
        requires
            self.wf(),
        ensures
            a.core.fresh(self.core.sink, self.core.cap, true),
            a.dropped == 0,
    {
        Async { core: self.core.build_no_guard(), dropped: 0 }
    }

    /// Completes building a drain whose own teardown joins the consumer.
    pub fn build_no_guard(self) -> (a: Async)
        requires
            self.wf(),
        ensures
            a.core.fresh(self.core.sink, self.core.cap, true),
            a.dropped == 0,
    {
        Async { core: self.core.build_no_guard(), dropped: 0 }
    }

    /// Completes building a drain together with the guard that owns the
    /// flush-and-join.
    pub fn build_with_guard(self) -> (r: (Async, AsyncGuard))
        requires
            self.wf(),
        ensures
            r.0.core.fresh(self.core.sink, self.core.cap, false),
            r.0.dropped == 0,
            r.1.active,
    {
        let (core, guard) = self.core.build_with_guard();
        (Async { core, dropped: 0 }, guard)
    }
}

/// The full asynchronous drain: the core engine plus the drop counter that
/// accounts for snapshots a full channel forced it to discard. Overflow is
/// never surfaced to the logging call site: it is recorded here and reported
/// through a synthetic diagnostic record once the channel has room again.
pub struct Async {
    /// The offload engine.
    pub core: AsyncCore,
    /// How many snapshots failed to enqueue since the last successful
    /// diagnostic report. A dropped diagnostic counts itself.
    pub dropped: usize,
}

impl Async {
    /// Well-formed: the core is.
    pub open spec fn wf(self) -> bool {
        self.core.wf()
    }

    /// How `push_dropped` transforms the drain. With nothing to report it
    /// does nothing. Otherwise it tries to enqueue one diagnostic record
    /// stating the count: on success the counter returns to zero; on an
    /// overflowing channel the count is added back plus one for the dropped
    /// diagnostic itself, so drops are delayed, never forgotten.
    pub open spec fn push_dropped_transition(
        pre: Async,
        post: Async,
        chain: Seq<KvPair>,
        r: AsyncResult<()>,
    ) -> bool {
        &&& AsyncCore::same_engine(pre.core, post.core)
        &&& r is Ok
        &&& if pre.dropped == 0 {
            &&& post.core.chan.queue@ == pre.core.chan.queue@
            &&& post.dropped == 0
        } else if pre.core.can_enqueue() {
            &&& post.core.chan.queue@.len() == pre.core.chan.queue@.len() + 1
            &&& post.core.chan.queue@.drop_last() == pre.core.chan.queue@
            &&& diag_snapshot_of(post.core.chan.queue@.last(), pre.dropped, chain)
            &&& post.dropped == 0
        } else {
            &&& post.core.chan.queue@ == pre.core.chan.queue@
            &&& post.dropped == pre.dropped + 1
        }
    }

    /// How `log` transforms the drain: first the pending-drops report, then
    /// the record itself, each a non-blocking enqueue, each dropped and
    /// counted when the channel is full. The call site never sees overflow.
    pub open spec fn log_transition(
        pre: Async,
        post: Async,
        rec: Record,
        chain: Seq<KvPair>,
        r: AsyncResult<()>,
    ) -> bool {
        &&& AsyncCore::same_engine(pre.core, post.core)
        &&& r is Ok
        &&& if pre.dropped == 0 {
            if pre.core.can_enqueue() {
                // No report pending; the record goes straight in.
                &&& post.core.chan.queue@.len() == pre.core.chan.queue@.len() + 1
                &&& post.core.chan.queue@.drop_last() == pre.core.chan.queue@
                &&& snapshot_of(post.core.chan.queue@.last(), rec, chain)
                &&& post.dropped == 0
            } else {
                // The record is the first drop.
                &&& post.core.chan.queue@ == pre.core.chan.queue@
                &&& post.dropped == 1
            }
        } else {
            if pre.core.can_enqueue() {
                if pre.core.chan.queue@.len() + 1 < pre.core.chan.cap && pre.core.state
                    is Running {
                    // Diagnostic and record both fit, in that order.
                    &&& post.core.chan.queue@.len() == pre.core.chan.queue@.len() + 2
                    &&& post.core.chan.queue@.take(pre.core.chan.queue@.len() as int)
                        == pre.core.chan.queue@
                    &&& diag_snapshot_of(
                        post.core.chan.queue@[pre.core.chan.queue@.len() as int],
                        pre.dropped,
                        chain,
                    )
                    &&& snapshot_of(post.core.chan.queue@.last(), rec, chain)
                    &&& post.dropped == 0
                } else {
                    // The diagnostic took the last slot; the record itself
                    // becomes the next drop to report.
                    &&& post.core.chan.queue@.len() == pre.core.chan.queue@.len() + 1
                    &&& post.core.chan.queue@.drop_last() == pre.core.chan.queue@
                    &&& diag_snapshot_of(post.core.chan.queue@.last(), pre.dropped, chain)
                    &&& post.dropped == 1
                }
            } else {
                // Neither the diagnostic nor the record could go: the count
                // grows by the lost diagnostic and the lost record.
                &&& post.core.chan.queue@ == pre.core.chan.queue@
                &&& post.dropped == pre.dropped + 2
            }
        }
    }

    /// A drain with default parameters whose own teardown joins the
    /// consumer.
    pub fn default(drain: Sink) -> (a: Self)
        requires
            drain.infallible(),
        ensures
            a.core.fresh(drain, DEFAULT_CHAN_SIZE, true),
            a.dropped == 0,
    {
        AsyncBuilder::new(drain).build()
    }

    /// A builder over `drain`, for choosing the channel capacity or the
    /// teardown mode. The wrapped drain must be contractually infallible:
    /// there is no way to hand an error back.
    pub fn new(drain: Sink) -> (b: AsyncBuilder)
        requires
            drain.infallible(),
        ensures
            b.core.sink == drain,
            b.core.cap == DEFAULT_CHAN_SIZE,
            b.wf(),
    {
        AsyncBuilder::new(drain)
    }

    /// Reports pending drops, if any, by enqueueing one synthetic diagnostic
    /// record under `logger_values`. A report that itself overflows is added
    /// back into the counter (plus one for the diagnostic), never lost.
    fn push_dropped(&mut self, logger_values: &Vec<KvPair>) -> (r: AsyncResult<()>)
        requires
            old(self).wf(),
            old(self).dropped < usize::MAX,
        ensures
            final(self).wf(),
            Self::push_dropped_transition(*old(self), *final(self), logger_values@, r),
    {
        let dropped = self.dropped;
        self.dropped = 0;
        if dropped > 0 {
            let rec = make_overflow_record(dropped);
            match self.core.log(&rec, logger_values) {
                Ok(()) => {},
                Err(AsyncError::Full) => {
                    self.dropped = dropped + 1;
                    return Ok(());
                },
                Err(e) => {
                    return Err(e);
                },
            }
        }
        Ok(())
    }

    /// Logs one record without ever blocking or surfacing overflow: reports
    /// pending drops first, then enqueues the record's owned snapshot; on a
    /// full channel the snapshot is dropped and counted instead.
    pub fn log(&mut self, record: &Record, logger_values: &Vec<KvPair>) -> (r: AsyncResult<()>)
        requires
            old(self).wf(),
            old(self).dropped + 2 <= usize::MAX,
        ensures
            final(self).wf(),
            Self::log_transition(*old(self), *final(self), *record, logger_values@, r),
    {
        match self.push_dropped(logger_values) {
            Ok(()) => {},
            Err(e) => {
                return Err(e);
            },
        }
        let ghost mid = *self;
        let r = self.core.log(record, logger_values);
        match r {
            Ok(()) => {},
            Err(AsyncError::Full) => {
                self.dropped = self.dropped + 1;
            },
            Err(e) => {
                return Err(e);
            },
        }
        proof {
            if old(self).dropped > 0 && old(self).core.can_enqueue() && mid.core.can_enqueue() {
                assert(self.core.chan.queue@.take(old(self).core.chan.queue@.len() as int)
                    =~= old(self).core.chan.queue@);
            }
        }
        Ok(())
    }

    /// Teardown-time report: flushes any pending drop count into a
    /// diagnostic record emitted under an empty inherited chain. The core's
    /// own teardown is separate.
    pub fn finish(&mut self) -> (r: AsyncResult<()>)
        requires
            old(self).wf(),
            old(self).dropped < usize::MAX,
        ensures
            final(self).wf(),
            Self::push_dropped_transition(
                *old(self),
                *final(self),
                Seq::<KvPair>::empty(),
                r,
            ),
    {
        let empty: Vec<KvPair> = Vec::new();
        self.push_dropped(&empty)
    }
}

} // verus!
