//! Synchronization adapter behavior: forwarding under exclusive access,
//! poisoning surfaced as its own error, and sink failures passed through.

use co_slog::async_drain::Sink;
use co_slog::kv::KvPair;
use co_slog::kv::Value;
use co_slog::level::Level;
use co_slog::mutex_drain::MutexDrain;
use co_slog::mutex_drain::MutexDrainError;
use co_slog::record::Record;
use co_slog::record::SourceLocation;

fn record(msg: &str) -> Record {
    Record {
        level: Level::Info,
        msg: msg.to_owned(),
        location: SourceLocation { module: "tests".to_owned(), file: "mutex".to_owned(), line: 1 },
        tag: String::new(),
        kv: Vec::new(),
    }
}

#[test]
fn forwards_under_lock() {
    let mut m = MutexDrain::new(Sink::new());
    let chain = vec![KvPair { key: "host".to_owned(), val: Value::Str("localhost".to_owned()) }];
    assert!(m.log(&record("hello"), &chain).is_ok());
    assert_eq!(m.drain.events.len(), 1);
    assert_eq!(m.drain.events[0].msg, "hello");
    assert_eq!(m.drain.events[0].chain, chain);
}

#[test]
fn poisoned_lock_is_surfaced() {
    let mut m = MutexDrain { drain: Sink::new(), poisoned: true };
    let chain: Vec<KvPair> = Vec::new();
    let r = m.log(&record("ignored"), &chain);
    assert_eq!(r, Err(MutexDrainError::Mutex));
    assert_eq!(m.drain.events.len(), 0);
    assert_eq!(MutexDrainError::Mutex.message(), "MutexError");
}

#[test]
fn sink_failure_is_passed_through() {
    let mut m = MutexDrain::new(Sink::faulty("disk full".to_owned()));
    let chain: Vec<KvPair> = Vec::new();
    let r = m.log(&record("ignored"), &chain);
    assert_eq!(r, Err(MutexDrainError::Drain("disk full".to_owned())));
    assert_eq!(m.drain.events.len(), 0);
    assert_eq!(MutexDrainError::Drain("disk full".to_owned()).message(), "disk full");
}
