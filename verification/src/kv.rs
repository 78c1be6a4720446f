//! Owned key-value data and the serialization adapter.
//!
//! A record carries key-value pairs whose values may, at the call site, be
//! borrowed or not yet materialized. Before a record may cross into the
//! consumer thread's ownership domain every value must be owned. [`Value`] is
//! the owned, transferable form of a value, and [`ToSendSerializer`]
//! accumulates owned pairs one typed emission at a time, preserving insertion
//! order.

use vstd::prelude::*;

verus! {

/// An owned key-value value, safe to move across execution contexts.
#[derive(Debug, PartialEq, Eq)]
pub enum Value {
    /// The unit value.
    Unit,
    /// An absent optional value.
    Absent,
    /// A boolean.
    Bool(bool),
    /// A single character.
    Char(char),
    /// An unsigned integer; narrower unsigned values are widened on emission.
    U64(u64),
    /// A signed integer; narrower signed values are widened on emission.
    I64(i64),
    /// An owned string, deep-copied from whatever the caller lent.
    Str(String),
}

impl Clone for Value {
    /// Cloning preserves the value exactly.
    fn clone(&self) -> (r: Self)
        ensures
            r == *self,
    {
        match self {
            Value::Unit => Value::Unit,
            Value::Absent => Value::Absent,
            Value::Bool(b) => Value::Bool(*b),
            Value::Char(c) => Value::Char(*c),
            Value::U64(u) => Value::U64(*u),
            Value::I64(i) => Value::I64(*i),
            Value::Str(s) => Value::Str(s.clone()),
        }
    }
}

/// One owned key-value pair.
#[derive(Debug, PartialEq, Eq)]
pub struct KvPair {
    /// The key under which the value is recorded.
    pub key: String,
    /// The owned value.
    pub val: Value,
}

impl Clone for KvPair {
    /// Cloning preserves both key and value exactly.
    fn clone(&self) -> (r: Self)
        ensures
            r == *self,
    {
        KvPair { key: self.key.clone(), val: self.val.clone() }
    }
}

/// Whether the keys of `kv` are pairwise distinct.
pub open spec fn keys_unique(kv: Seq<KvPair>) -> bool {
    forall|i: int, j: int| 0 <= i < j < kv.len() ==> kv[i].key@ != kv[j].key@
}

/// Deep-copies a list of key-value pairs.
///
/// The result equals the input pair for pair; this is the owning copy a
/// snapshot keeps of a logger's inherited context.
pub fn clone_kv_list(kv: &Vec<KvPair>) -> (r: Vec<KvPair>)
    ensures
        r@ == kv@,
{
    let mut out: Vec<KvPair> = Vec::new();
    let mut i: usize = 0;
    while i < kv.len()
        invariant
            i <= kv.len(),
            out@ == kv@.take(i as int),
        decreases kv.len() - i,
    {
        out.push(kv[i].clone());
        assert(out@ == kv@.take(i + 1 as int));
        i = i + 1;
    }
    assert(kv@.take(kv@.len() as int) == kv@);
    out
}

/// The serialization adapter: turns typed, possibly-borrowed emissions into
/// a fully owned sequence of pairs, in emission order.
pub struct ToSendSerializer {
    /// The owned pairs accumulated so far, in emission order.
    pub kv: Vec<KvPair>,
}

impl View for ToSendSerializer {
    type V = Seq<KvPair>;

    open spec fn view(&self) -> Seq<KvPair> {
        self.kv@
    }
}

impl ToSendSerializer {
    /// A serializer that has accumulated nothing.
    pub fn new() -> (s: Self)
        ensures
            s@ == Seq::<KvPair>::empty(),
    {
        ToSendSerializer { kv: Vec::new() }
    }

    /// Hands over the accumulated owned pairs, in emission order.
    pub fn finish(self) -> (r: Vec<KvPair>)
        ensures
            r@ == self@,
    {
        self.kv
    }

    /// Records a boolean value.
    pub fn emit_bool(&mut self, key: String, val: bool)
        ensures
            final(self)@ == old(self)@.push(KvPair { key, val: Value::Bool(val) }),
    {
        self.kv.push(KvPair { key, val: Value::Bool(val) });
    }

    /// Records the unit value.
    pub fn emit_unit(&mut self, key: String)
        ensures
            final(self)@ == old(self)@.push(KvPair { key, val: Value::Unit }),
    {
        self.kv.push(KvPair { key, val: Value::Unit });
    }

    /// Records an absent optional value.
    pub fn emit_none(&mut self, key: String)
        ensures
            final(self)@ == old(self)@.push(KvPair { key, val: Value::Absent }),
    {
        self.kv.push(KvPair { key, val: Value::Absent });
    }

    /// Records a character.
    pub fn emit_char(&mut self, key: String, val: char)
        ensures
            final(self)@ == old(self)@.push(KvPair { key, val: Value::Char(val) }),
    {
        self.kv.push(KvPair { key, val: Value::Char(val) });
    }

    /// Records an 8-bit unsigned integer, widened.
    pub fn emit_u8(&mut self, key: String, val: u8)
        ensures
            final(self)@ == old(self)@.push(KvPair { key, val: Value::U64(val as u64) }),
    {
        self.kv.push(KvPair { key, val: Value::U64(val as u64) });
    }

    /// Records an 8-bit signed integer, widened.
    pub fn emit_i8(&mut self, key: String, val: i8)
        ensures
            final(self)@ == old(self)@.push(KvPair { key, val: Value::I64(val as i64) }),
    {
        self.kv.push(KvPair { key, val: Value::I64(val as i64) });
    }

    /// Records a 16-bit unsigned integer, widened.
    pub fn emit_u16(&mut self, key: String, val: u16)
        ensures
            final(self)@ == old(self)@.push(KvPair { key, val: Value::U64(val as u64) }),
    {
        self.kv.push(KvPair { key, val: Value::U64(val as u64) });
    }

    /// Records a 16-bit signed integer, widened.
    pub fn emit_i16(&mut self, key: String, val: i16)
        ensures
            final(self)@ == old(self)@.push(KvPair { key, val: Value::I64(val as i64) }),
    {
        self.kv.push(KvPair { key, val: Value::I64(val as i64) });
    }

    /// Records a 32-bit unsigned integer, widened.
    pub fn emit_u32(&mut self, key: String, val: u32)
        ensures
            final(self)@ == old(self)@.push(KvPair { key, val: Value::U64(val as u64) }),
    {
        self.kv.push(KvPair { key, val: Value::U64(val as u64) });
    }

    /// Records a 32-bit signed integer, widened.
    pub fn emit_i32(&mut self, key: String, val: i32)
        ensures
            final(self)@ == old(self)@.push(KvPair { key, val: Value::I64(val as i64) }),
    {
        self.kv.push(KvPair { key, val: Value::I64(val as i64) });
    }

    /// Records a 64-bit unsigned integer.
    pub fn emit_u64(&mut self, key: String, val: u64)
        ensures
            final(self)@ == old(self)@.push(KvPair { key, val: Value::U64(val) }),
    {
        self.kv.push(KvPair { key, val: Value::U64(val) });
    }

    /// Records a 64-bit signed integer.
    pub fn emit_i64(&mut self, key: String, val: i64)
        ensures
            final(self)@ == old(self)@.push(KvPair { key, val: Value::I64(val) }),
    {
        self.kv.push(KvPair { key, val: Value::I64(val) });
    }

    /// Records a pointer-sized unsigned integer, widened.
    pub fn emit_usize(&mut self, key: String, val: usize)
        ensures
            final(self)@ == old(self)@.push(KvPair { key, val: Value::U64(val as u64) }),
    {
        self.kv.push(KvPair { key, val: Value::U64(val as u64) });
    }

    /// Records a pointer-sized signed integer, widened.
    pub fn emit_isize(&mut self, key: String, val: isize)
        ensures
            final(self)@ == old(self)@.push(KvPair { key, val: Value::I64(val as i64) }),
    {
        self.kv.push(KvPair { key, val: Value::I64(val as i64) });
    }

    /// Records an owned string. The caller materializes (deep-copies or
    /// formats) the text before emission; from here on it is owned by the
    /// serializer.
    pub fn emit_str(&mut self, key: String, val: String)
        ensures
            final(self)@ == old(self)@.push(KvPair { key, val: Value::Str(val) }),
    {
        self.kv.push(KvPair { key, val: Value::Str(val) });
    }
}

} // verus!
