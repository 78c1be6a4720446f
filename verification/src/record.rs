//! Records and owned snapshots.
//!
//! A [`Record`] is one log event as the producer builds it. A [`Snapshot`] is
//! its fully owned, deep-copied form, safe to hand to the consumer thread:
//! message materialized, every key-value pair owned, and the inherited chain
//! copied in. [`snapshot_record`] is the adapter from one to the other; it
//! never touches a sink.

use vstd::prelude::*;

use crate::kv::KvPair;
use crate::kv::ToSendSerializer;
use crate::kv::Value;
use crate::kv::clone_kv_list;
use crate::kv::keys_unique;
use crate::level::Level;

verus! {

/// Where in the source a record was created.
#[derive(Debug, PartialEq, Eq)]
pub struct SourceLocation {
    /// The module that emitted the record.
    pub module: String,
    /// The file that emitted the record.
    pub file: String,
    /// The line within that file.
    pub line: u32,
}

impl Clone for SourceLocation {
    /// Cloning preserves the location exactly.
    fn clone(&self) -> (r: Self)
        ensures
            r == *self,
    {
        SourceLocation { module: self.module.clone(), file: self.file.clone(), line: self.line }
    }
}

/// One log event as the producer builds it: level, materialized message,
/// location, tag, and inline key-value pairs in insertion order.
#[derive(Debug, PartialEq, Eq)]
pub struct Record {
    /// Severity of the event.
    pub level: Level,
    /// The formatted message.
    pub msg: String,
    /// Source location metadata.
    pub location: SourceLocation,
    /// A tag for routing and filtering; the empty string when untagged.
    pub tag: String,
    /// Inline key-value pairs, insertion order preserved.
    pub kv: Vec<KvPair>,
}

impl Record {
    /// A record is well formed when its inline keys are pairwise distinct.
    pub open spec fn wf(self) -> bool {
        keys_unique(self.kv@)
    }
}

/// A fully owned, deep-copied record, safe to move across an execution
/// context boundary: no borrowed data remains, and the logger's inherited
/// chain has been copied in.
#[derive(Debug, PartialEq, Eq)]
pub struct Snapshot {
    /// Severity of the event.
    pub level: Level,
    /// The materialized message.
    pub msg: String,
    /// Source location metadata.
    pub location: SourceLocation,
    /// The record's tag.
    pub tag: String,
    /// The inline key-value pairs, in the record's insertion order.
    pub kv: Vec<KvPair>,
    /// The key-value chain inherited from the logger that emitted the record.
    pub chain: Vec<KvPair>,
}

/// Whether two snapshots record the same event: equal in every field, with
/// the pair lists compared element for element.
pub open spec fn snap_eq(a: Snapshot, b: Snapshot) -> bool {
    &&& a.level == b.level
    &&& a.msg == b.msg
    &&& a.location == b.location
    &&& a.tag == b.tag
    &&& a.kv@ == b.kv@
    &&& a.chain@ == b.chain@
}

impl Clone for Snapshot {
    /// Cloning preserves every field of the snapshot.
    fn clone(&self) -> (r: Self)
        ensures
            snap_eq(r, *self),
    {
        Snapshot {
            level: self.level,
            msg: self.msg.clone(),
            location: self.location.clone(),
            tag: self.tag.clone(),
            kv: clone_kv_list(&self.kv),
            chain: clone_kv_list(&self.chain),
        }
    }
}

/// Whether snapshot `s` is the owned copy of `r` emitted under the inherited
/// chain `chain`.
pub open spec fn snapshot_of(s: Snapshot, r: Record, chain: Seq<KvPair>) -> bool {
    &&& s.level == r.level
    &&& s.msg == r.msg
    &&& s.location == r.location
    &&& s.tag == r.tag
    &&& s.kv@ == r.kv@
    &&& s.chain@ == chain
}

/// Builds the owned snapshot of `record` under the inherited chain `chain`.
///
/// Every inline pair is re-emitted through the serialization adapter in its
/// typed form, so the snapshot's pairs are owned and keep the record's
/// insertion order and keys; the chain is deep-copied. No sink is involved.
pub fn snapshot_record(record: &Record, chain: &Vec<KvPair>) -> (s: Snapshot)
    ensures
        snapshot_of(s, *record, chain@),
{
    let mut ser = ToSendSerializer::new();
    let mut i: usize = 0;
    while i < record.kv.len()
        invariant
            i <= record.kv.len(),
            ser@ == record.kv@.take(i as int),
        decreases record.kv.len() - i,
    {
        let key = record.kv[i].key.clone();
        match &record.kv[i].val {
            Value::Unit => ser.emit_unit(key),
            Value::Absent => ser.emit_none(key),
            Value::Bool(b) => ser.emit_bool(key, *b),
            Value::Char(c) => ser.emit_char(key, *c),
            Value::U64(u) => ser.emit_u64(key, *u),
            Value::I64(n) => ser.emit_i64(key, *n),
            Value::Str(s) => ser.emit_str(key, s.clone()),
        }
        assert(ser@ == record.kv@.take(i + 1 as int));
        i = i + 1;
    }
    assert(record.kv@.take(record.kv@.len() as int) == record.kv@);
    Snapshot {
        level: record.level,
        msg: record.msg.clone(),
        location: record.location.clone(),
        tag: record.tag.clone(),
        kv: ser.finish(),
        chain: clone_kv_list(chain),
    }
}

} // verus!
