//! The argument table handed to declare, bind, and consume operations: an
//! ordered list of key/value pairs viewed as a map in which a later entry
//! for a key overrides an earlier one.

use vstd::prelude::*;

verus! {

/// One argument value. String and integer shapes mirror the wire protocol's
/// field kinds.
#[derive(Debug, Clone, PartialEq)]
pub enum FieldValue {
    /// A boolean field.
    Bool(bool),
    /// A long string field.
    Str(String),
    /// An unsigned 8-bit field.
    U8(u8),
    /// An unsigned 16-bit field.
    U16(u16),
    /// An unsigned 32-bit field.
    U32(u32),
    /// A signed 8-bit field.
    I8(i8),
    /// A signed 16-bit field.
    I16(i16),
    /// A signed 32-bit field.
    I32(i32),
    /// A signed 64-bit field.
    I64(i64),
}

/// The map described by a list of entries: later entries win.
pub open spec fn spec_entries_map(s: Seq<(String, FieldValue)>) -> Map<Seq<char>, FieldValue>
    decreases s.len(),
{
    if s.len() == 0 {
        Map::empty()
    } else {
        spec_entries_map(s.drop_last()).insert(s.last().0@, s.last().1)
    }
}

/// An argument table.
#[derive(Debug, Clone)]
pub struct FieldTable {
    /// The entries, in insertion order.
    pub entries: Vec<(String, FieldValue)>,
}

impl View for FieldTable {
    type V = Map<Seq<char>, FieldValue>;

    open spec fn view(&self) -> Map<Seq<char>, FieldValue> {
        spec_entries_map(self.entries@)
    }
}

impl FieldTable {
    /// An empty table.
    pub fn new() -> (r: FieldTable)
        ensures
            r@ == Map::<Seq<char>, FieldValue>::empty(),
            r.entries@.len() == 0,
    {
        FieldTable { entries: Vec::new() }
    }

    /// Sets an argument; a later value for the same key overrides an
    /// earlier one.
    pub fn arg(&mut self, k: String, v: FieldValue)
        ensures
            final(self)@ == old(self)@.insert(k@, v),
            final(self).entries@ == old(self).entries@.push((k, v)),
    {
        let ghost prev = self.entries@;
        self.entries.push((k, v));
        proof {
            assert(self.entries@.drop_last() =~= prev);
        }
    }

    /// Sets a boolean argument.
    pub fn arg_bool(&mut self, k: String, v: bool)
        ensures
            final(self)@ == old(self)@.insert(k@, FieldValue::Bool(v)),
    {
        self.arg(k, FieldValue::Bool(v));
    }

    /// Sets a string argument.
    pub fn arg_str(&mut self, k: String, v: String)
        ensures
            final(self)@ == old(self)@.insert(k@, FieldValue::Str(v)),
    {
        self.arg(k, FieldValue::Str(v));
    }

    /// Sets an unsigned 8-bit argument.
    pub fn arg_u8(&mut self, k: String, v: u8)
        ensures
            final(self)@ == old(self)@.insert(k@, FieldValue::U8(v)),
    {
        self.arg(k, FieldValue::U8(v));
    }

    /// Sets an unsigned 16-bit argument.
    pub fn arg_u16(&mut self, k: String, v: u16)
        ensures
            final(self)@ == old(self)@.insert(k@, FieldValue::U16(v)),
    {
        self.arg(k, FieldValue::U16(v));
    }

    /// Sets an unsigned 32-bit argument.
    pub fn arg_u32(&mut self, k: String, v: u32)
        ensures
            final(self)@ == old(self)@.insert(k@, FieldValue::U32(v)),
    {
        self.arg(k, FieldValue::U32(v));
    }

    /// Sets a signed 8-bit argument.
    pub fn arg_i8(&mut self, k: String, v: i8)
        ensures
            final(self)@ == old(self)@.insert(k@, FieldValue::I8(v)),
    {
        self.arg(k, FieldValue::I8(v));
    }

    /// Sets a signed 16-bit argument.
    pub fn arg_i16(&mut self, k: String, v: i16)
        ensures
            final(self)@ == old(self)@.insert(k@, FieldValue::I16(v)),
    {
        self.arg(k, FieldValue::I16(v));
    }

    /// Sets a signed 32-bit argument.
    pub fn arg_i32(&mut self, k: String, v: i32)
        ensures
            final(self)@ == old(self)@.insert(k@, FieldValue::I32(v)),
    {
        self.arg(k, FieldValue::I32(v));
    }

    /// Sets a signed 64-bit argument.
    pub fn arg_i64(&mut self, k: String, v: i64)
        ensures
            final(self)@ == old(self)@.insert(k@, FieldValue::I64(v)),
    {
        self.arg(k, FieldValue::I64(v));
    }
}

} // verus!
