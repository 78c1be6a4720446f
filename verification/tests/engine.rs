//! Offload engine behavior: overflow accounting, the deferred diagnostic,
//! flush-on-teardown, and idempotent teardown.

use co_slog::async_drain::Async;
use co_slog::async_drain::AsyncCore;
use co_slog::async_drain::AsyncError;
use co_slog::async_drain::DEFAULT_CHAN_SIZE;
use co_slog::async_drain::Sink;
use co_slog::async_drain::WorkerState;
use co_slog::kv::KvPair;
use co_slog::kv::Value;
use co_slog::level::Level;
use co_slog::record::Record;
use co_slog::record::SourceLocation;
use co_slog::record::snapshot_record;

fn record(msg: &str) -> Record {
    Record {
        level: Level::Info,
        msg: msg.to_owned(),
        location: SourceLocation { module: "tests".to_owned(), file: "engine".to_owned(), line: 1 },
        tag: String::new(),
        kv: Vec::new(),
    }
}

const OVERFLOW_MSG: &str = "slog-async: logger dropped messages due to channel overflow";

#[test]
fn overflow_scenario_capacity_one() {
    // Capacity 1; two log calls with no consumer progress in between: the
    // second drops and the counter reads 1. Once the consumer has
    // progressed, the next log call puts the "1 dropped" diagnostic into the
    // sink's stream before anything later.
    let mut a = Async::new(Sink::new()).chan_size(1).build();
    let chain: Vec<KvPair> = Vec::new();

    a.log(&record("first"), &chain).unwrap();
    a.log(&record("second"), &chain).unwrap();
    assert_eq!(a.dropped, 1);

    a.core.worker_step();
    assert_eq!(a.core.sink.events.len(), 1);

    // With room for only one message, the diagnostic takes the slot and the
    // new record becomes the next delayed drop: nothing is forgotten.
    a.log(&record("third"), &chain).unwrap();
    assert_eq!(a.dropped, 1);
    a.core.worker_step();

    let events = &a.core.sink.events;
    assert_eq!(events.len(), 2);
    assert_eq!(events[0].msg, "first");
    assert_eq!(events[1].msg, OVERFLOW_MSG);
    assert_eq!(events[1].level, Level::Error);
    assert_eq!(events[1].tag, "slog-async");
    assert_eq!(events[1].kv, vec![KvPair { key: "count".to_owned(), val: Value::U64(1) }]);
}

#[test]
fn diagnostic_precedes_next_record() {
    // With room for both, the diagnostic reporting the drop count is
    // enqueued before the record whose log call triggered the report.
    let mut a = Async::new(Sink::new()).chan_size(2).build();
    let chain: Vec<KvPair> = Vec::new();

    a.log(&record("one"), &chain).unwrap();
    a.log(&record("two"), &chain).unwrap();
    a.log(&record("lost"), &chain).unwrap();
    assert_eq!(a.dropped, 1);

    a.core.worker_step();
    a.core.worker_step();
    a.log(&record("four"), &chain).unwrap();
    assert_eq!(a.dropped, 0);
    a.core.worker_step();
    a.core.worker_step();

    let events = &a.core.sink.events;
    assert_eq!(events.len(), 4);
    assert_eq!(events[0].msg, "one");
    assert_eq!(events[1].msg, "two");
    assert_eq!(events[2].msg, OVERFLOW_MSG);
    assert_eq!(events[2].kv, vec![KvPair { key: "count".to_owned(), val: Value::U64(1) }]);
    assert_eq!(events[3].msg, "four");
}

#[test]
fn burst_overflow_counts() {
    // A burst of capacity + 1 attempts: exactly one fails and the counter
    // reads 1 right after the burst.
    let mut a = Async::new(Sink::new()).chan_size(3).build();
    let chain: Vec<KvPair> = Vec::new();
    for i in 0..4 {
        a.log(&record(&format!("r{}", i)), &chain).unwrap();
    }
    assert_eq!(a.dropped, 1);
    assert_eq!(a.core.chan.len(), 3);
    assert_eq!(a.core.sink.events.len(), 0);

    // Two further attempts against the still-full channel each lose their
    // record and an overflowed diagnostic with it: the counter accounts for
    // every one of them.
    a.log(&record("r4"), &chain).unwrap();
    assert_eq!(a.dropped, 3);
    a.log(&record("r5"), &chain).unwrap();
    assert_eq!(a.dropped, 5);
}

#[test]
fn flush_on_teardown() {
    // Guarded teardown: every successfully enqueued snapshot reaches the
    // sink exactly once, in enqueue order, before the teardown returns.
    let (mut a, mut guard) = Async::new(Sink::new()).chan_size(8).build_with_guard();
    let chain: Vec<KvPair> = Vec::new();
    a.log(&record("one"), &chain).unwrap();
    a.log(&record("two"), &chain).unwrap();
    a.log(&record("three"), &chain).unwrap();
    assert_eq!(a.core.sink.events.len(), 0);

    guard.finish(&mut a.core);
    let events = &a.core.sink.events;
    assert_eq!(events.len(), 3);
    assert_eq!(events[0].msg, "one");
    assert_eq!(events[1].msg, "two");
    assert_eq!(events[2].msg, "three");
    assert_eq!(a.core.chan.len(), 0);
    assert_eq!(a.core.state, WorkerState::Joined);
}

#[test]
fn idempotent_teardown() {
    // Destroying an already-flushed guarded handle a second time neither
    // rejoins the worker nor changes anything.
    let (mut a, mut guard) = Async::new(Sink::new()).chan_size(4).build_with_guard();
    let chain: Vec<KvPair> = Vec::new();
    a.log(&record("only"), &chain).unwrap();
    guard.finish(&mut a.core);
    assert!(!guard.active);
    assert_eq!(a.core.sink.events.len(), 1);
    assert_eq!(a.core.state, WorkerState::Joined);

    guard.finish(&mut a.core);
    assert!(!guard.active);
    assert_eq!(a.core.sink.events.len(), 1);
    assert_eq!(a.core.state, WorkerState::Joined);
}

#[test]
fn unguarded_core_flushes_on_finish() {
    let mut core = AsyncCore::new(Sink::new());
    let chain: Vec<KvPair> = Vec::new();
    core.log(&record("pending"), &chain).unwrap();
    core.finish();
    assert_eq!(core.sink.events.len(), 1);
    assert_eq!(core.sink.events[0].msg, "pending");
    assert_eq!(core.state, WorkerState::Joined);
}

#[test]
fn guarded_core_does_not_flush_itself() {
    // With a guard owning the join, the core's own teardown is a no-op;
    // flushing is the guard's job.
    let (mut a, mut guard) = Async::new(Sink::new()).chan_size(4).build_with_guard();
    let chain: Vec<KvPair> = Vec::new();
    a.log(&record("kept"), &chain).unwrap();
    a.core.finish();
    assert_eq!(a.core.sink.events.len(), 0);
    assert_eq!(a.core.chan.len(), 1);
    guard.finish(&mut a.core);
    assert_eq!(a.core.sink.events.len(), 1);
}

#[test]
fn send_full_reports_full() {
    let mut core = AsyncCore::custom(Sink::new()).chan_size(1).build();
    let chain: Vec<KvPair> = Vec::new();
    let snap1 = snapshot_record(&record("a"), &chain);
    let snap2 = snapshot_record(&record("b"), &chain);
    assert!(core.send(snap1).is_ok());
    assert_eq!(core.send(snap2), Err(AsyncError::Full));
}

#[test]
fn finish_reports_pending_drops() {
    // Teardown-time report: the pending count is flushed into a diagnostic
    // before the core is torn down.
    let mut a = Async::new(Sink::new()).chan_size(1).build();
    let chain: Vec<KvPair> = Vec::new();
    a.log(&record("kept"), &chain).unwrap();
    a.log(&record("lost"), &chain).unwrap();
    assert_eq!(a.dropped, 1);
    a.core.worker_step();
    a.finish().unwrap();
    assert_eq!(a.dropped, 0);
    a.core.finish();
    let events = &a.core.sink.events;
    assert_eq!(events.len(), 2);
    assert_eq!(events[0].msg, "kept");
    assert_eq!(events[1].msg, OVERFLOW_MSG);
    assert_eq!(events[1].chain.len(), 0);
}

#[test]
fn default_parameters() {
    let a = Async::default(Sink::new());
    assert_eq!(a.core.chan.cap, DEFAULT_CHAN_SIZE);
    assert_eq!(a.core.chan.cap, 128);
    assert_eq!(a.dropped, 0);
    assert!(a.core.owns_join);
}
