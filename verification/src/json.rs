//! A plain model of the JSON values the client reads and hands back.
//!
//! The client only ever inspects a payload for nullness and otherwise passes
//! it through, so the model keeps each shape as plain data. Fractional
//! numbers and anything else the variants below cannot carry arrive as
//! `Opaque`, holding the raw source text: the client never looks inside
//! those.

use vstd::prelude::*;

verus! {

/// A JSON value, as plain data.
#[derive(Debug)]
pub enum JsonValue {
    Null,
    Bool(bool),
    UInt(u64),
    Int(i64),
    Text(String),
    Array(Vec<JsonValue>),
    /// A value none of the other variants can carry (an object, a
    /// fractional number), kept as its raw source text.
    Opaque(String),
}

impl JsonValue {
    /// Whether this value is the JSON literal `null`.
    pub fn is_null(&self) -> (r: bool)
        ensures
            r == (self is Null),
    {
        match self {
            JsonValue::Null => true,
            _ => false,
        }
    }
}

} // verus!
