//! Serialization adapter behavior: typed emissions accumulate owned pairs in
//! order, and snapshots are self-contained deep copies.

use co_slog::kv::KvPair;
use co_slog::kv::ToSendSerializer;
use co_slog::kv::Value;
use co_slog::kv::clone_kv_list;
use co_slog::level::Level;
use co_slog::record::Record;
use co_slog::record::Snapshot;
use co_slog::record::SourceLocation;
use co_slog::record::snapshot_record;

#[test]
fn emissions_preserve_order_and_types() {
    let mut ser = ToSendSerializer::new();
    ser.emit_bool("flag".to_owned(), true);
    ser.emit_unit("unit".to_owned());
    ser.emit_none("missing".to_owned());
    ser.emit_char("letter".to_owned(), 'x');
    ser.emit_u8("u8".to_owned(), 8);
    ser.emit_i8("i8".to_owned(), -8);
    ser.emit_u16("u16".to_owned(), 16);
    ser.emit_i16("i16".to_owned(), -16);
    ser.emit_u32("u32".to_owned(), 32);
    ser.emit_i32("i32".to_owned(), -32);
    ser.emit_u64("u64".to_owned(), 64);
    ser.emit_i64("i64".to_owned(), -64);
    ser.emit_usize("usize".to_owned(), 99);
    ser.emit_isize("isize".to_owned(), -99);
    ser.emit_str("name".to_owned(), "value".to_owned());
    let kv = ser.finish();
    let expected = vec![
        KvPair { key: "flag".to_owned(), val: Value::Bool(true) },
        KvPair { key: "unit".to_owned(), val: Value::Unit },
        KvPair { key: "missing".to_owned(), val: Value::Absent },
        KvPair { key: "letter".to_owned(), val: Value::Char('x') },
        KvPair { key: "u8".to_owned(), val: Value::U64(8) },
        KvPair { key: "i8".to_owned(), val: Value::I64(-8) },
        KvPair { key: "u16".to_owned(), val: Value::U64(16) },
        KvPair { key: "i16".to_owned(), val: Value::I64(-16) },
        KvPair { key: "u32".to_owned(), val: Value::U64(32) },
        KvPair { key: "i32".to_owned(), val: Value::I64(-32) },
        KvPair { key: "u64".to_owned(), val: Value::U64(64) },
        KvPair { key: "i64".to_owned(), val: Value::I64(-64) },
        KvPair { key: "usize".to_owned(), val: Value::U64(99) },
        KvPair { key: "isize".to_owned(), val: Value::I64(-99) },
        KvPair { key: "name".to_owned(), val: Value::Str("value".to_owned()) },
    ];
    assert_eq!(kv, expected);
}

#[test]
fn snapshot_is_a_faithful_owned_copy() {
    let record = Record {
        level: Level::Warn,
        msg: "connected".to_owned(),
        location: SourceLocation {
            module: "net".to_owned(),
            file: "conn".to_owned(),
            line: 42,
        },
        tag: "session".to_owned(),
        kv: vec![
            KvPair { key: "peer".to_owned(), val: Value::Str("X".to_owned()) },
            KvPair { key: "attempt".to_owned(), val: Value::U64(2) },
        ],
    };
    let chain = vec![KvPair { key: "host".to_owned(), val: Value::Str("localhost".to_owned()) }];
    let snap = snapshot_record(&record, &chain);
    assert_eq!(snap.level, Level::Warn);
    assert_eq!(snap.msg, "connected");
    assert_eq!(snap.location, record.location);
    assert_eq!(snap.tag, "session");
    assert_eq!(snap.kv, record.kv);
    assert_eq!(snap.chain, chain);
}

#[test]
fn snapshot_clone_is_deep() {
    let snap = Snapshot {
        level: Level::Debug,
        msg: "m".to_owned(),
        location: SourceLocation { module: "a".to_owned(), file: "b".to_owned(), line: 1 },
        tag: "t".to_owned(),
        kv: vec![KvPair { key: "k".to_owned(), val: Value::Bool(false) }],
        chain: Vec::new(),
    };
    let copy = snap.clone();
    assert_eq!(copy, snap);
}

#[test]
fn kv_list_clone_is_exact() {
    let kv = vec![
        KvPair { key: "a".to_owned(), val: Value::U64(1) },
        KvPair { key: "b".to_owned(), val: Value::Str("two".to_owned()) },
    ];
    assert_eq!(clone_kv_list(&kv), kv);
}

#[test]
fn level_ordering() {
    assert_eq!(Level::Critical.severity(), 5);
    assert_eq!(Level::Error.severity(), 4);
    assert_eq!(Level::Warn.severity(), 3);
    assert_eq!(Level::Info.severity(), 2);
    assert_eq!(Level::Debug.severity(), 1);
    assert_eq!(Level::Trace.severity(), 0);
    assert!(Level::Critical.at_least(Level::Trace));
    assert!(Level::Info.at_least(Level::Info));
    assert!(!Level::Debug.at_least(Level::Info));
}
