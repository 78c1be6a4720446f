//! Scope stack behavior: LIFO round-trips, context isolation, context
//! propagation into the sink, and the global fallback override.

use co_slog::GlobalLogger;
use co_slog::ScopeStack;
use co_slog::async_drain::Async;
use co_slog::async_drain::Sink;
use co_slog::kv::KvPair;
use co_slog::kv::Value;
use co_slog::level::Level;
use co_slog::logger;
use co_slog::logger::LoggerHandle;
use co_slog::record::Record;
use co_slog::record::SourceLocation;
use co_slog::set_global_logger;
use co_slog::set_logger;
use co_slog::with_logger;

fn kv(key: &str, val: &str) -> KvPair {
    KvPair { key: key.to_owned(), val: Value::Str(val.to_owned()) }
}

fn record(msg: &str) -> Record {
    Record {
        level: Level::Info,
        msg: msg.to_owned(),
        location: SourceLocation { module: "tests".to_owned(), file: "scope".to_owned(), line: 1 },
        tag: String::new(),
        kv: Vec::new(),
    }
}

#[test]
fn lifo_round_trip() {
    let fallback = LoggerHandle::root(0, Vec::new());
    let global = GlobalLogger::new(fallback);
    let mut stack = ScopeStack::new();

    let a = LoggerHandle::root(1, vec![kv("host", "localhost")]);
    let b = LoggerHandle::root(2, vec![kv("peer", "X")]);

    let ga = set_logger(&mut stack, a);
    assert_eq!(logger(&stack, &global).sink_id, 1);
    let gb = set_logger(&mut stack, b);
    assert_eq!(logger(&stack, &global).sink_id, 2);
    gb.pop(&mut stack);
    // after the pop, the handle active before the matching push is back
    assert_eq!(logger(&stack, &global).sink_id, 1);
    ga.pop(&mut stack);
    assert_eq!(logger(&stack, &global).sink_id, 0);
}

#[test]
fn empty_stack_falls_back() {
    let fallback = LoggerHandle::root(9, vec![kv("env", "default")]);
    let global = GlobalLogger::new(fallback);
    let stack = ScopeStack::new();
    let l = logger(&stack, &global);
    assert_eq!(l.sink_id, 9);
    assert_eq!(l.chain, vec![kv("env", "default")]);
}

#[test]
fn context_isolation() {
    // Two independently scheduled execution contexts, each with its own
    // stack; pushes in one are never observed by the other.
    let fallback = LoggerHandle::root(0, Vec::new());
    let global = GlobalLogger::new(fallback);
    let mut ctx1 = ScopeStack::new();
    let mut ctx2 = ScopeStack::new();

    let g1 = set_logger(&mut ctx1, LoggerHandle::root(1, Vec::new()));
    assert_eq!(logger(&ctx2, &global).sink_id, 0);
    let g2 = set_logger(&mut ctx2, LoggerHandle::root(2, Vec::new()));
    assert_eq!(logger(&ctx1, &global).sink_id, 1);
    assert_eq!(logger(&ctx2, &global).sink_id, 2);
    g1.pop(&mut ctx1);
    assert_eq!(logger(&ctx2, &global).sink_id, 2);
    g2.pop(&mut ctx2);
}

#[test]
fn context_propagation() {
    // Push logger A with host=localhost; push logger B derived from A with
    // peer=X; log "connected": the sink must record {host=localhost, peer=X}.
    // Pop B; log "exit": the sink must record {host=localhost} only.
    let fallback = LoggerHandle::root(0, Vec::new());
    let global = GlobalLogger::new(fallback);
    let mut stack = ScopeStack::new();
    let mut engine = Async::default(Sink::new());

    let a = LoggerHandle::root(1, vec![kv("host", "localhost")]);
    let ga = set_logger(&mut stack, a);
    let b = logger(&stack, &global).new(vec![kv("peer", "X")]);
    let gb = set_logger(&mut stack, b);

    let current = logger(&stack, &global);
    engine.log(&record("connected"), &current.chain).unwrap();

    gb.pop(&mut stack);
    let current = logger(&stack, &global);
    engine.log(&record("exit"), &current.chain).unwrap();
    ga.pop(&mut stack);

    engine.core.worker_step();
    engine.core.worker_step();
    let events = &engine.core.sink.events;
    assert_eq!(events.len(), 2);
    assert_eq!(events[0].msg, "connected");
    assert_eq!(events[0].chain, vec![kv("host", "localhost"), kv("peer", "X")]);
    assert_eq!(events[1].msg, "exit");
    assert_eq!(events[1].chain, vec![kv("host", "localhost")]);
}

#[test]
fn with_logger_borrows_current() {
    let fallback = LoggerHandle::root(3, Vec::new());
    let global = GlobalLogger::new(fallback);
    let mut stack = ScopeStack::new();
    assert_eq!(with_logger(&stack, &global, |l: &LoggerHandle| l.sink_id), 3);
    let g = set_logger(&mut stack, LoggerHandle::root(4, Vec::new()));
    assert_eq!(with_logger(&stack, &global, |l: &LoggerHandle| l.sink_id), 4);
    g.pop(&mut stack);
}

#[test]
fn global_override_restored() {
    let fallback = LoggerHandle::root(0, vec![kv("env", "default")]);
    let mut global = GlobalLogger::new(fallback);
    let stack = ScopeStack::new();

    let guard = set_global_logger(&mut global, LoggerHandle::root(5, Vec::new()));
    assert_eq!(logger(&stack, &global).sink_id, 5);
    // the overriding context's scope ends: the default is back in force
    guard.restore(&mut global);
    let l = logger(&stack, &global);
    assert_eq!(l.sink_id, 0);
    assert_eq!(l.chain, vec![kv("env", "default")]);
}

#[test]
fn derive_appends_without_mutating_parent() {
    let a = LoggerHandle::root(1, vec![kv("host", "localhost")]);
    let b = a.new(vec![kv("peer", "X")]);
    assert_eq!(b.sink_id, 1);
    assert_eq!(b.chain, vec![kv("host", "localhost"), kv("peer", "X")]);
    assert_eq!(a.chain, vec![kv("host", "localhost")]);
}
