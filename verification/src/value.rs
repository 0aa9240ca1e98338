//! The value model: anything the protocol can carry.
use crate::buffer::{bytes_view, str_as_slice, str_from_static, str_view};
use crate::map::{Entries, RedisMap};
use crate::text::{bool_text, decimal_text, parse_i64, parse_u64, parse_usize, str_eq};
use bytes::Bytes;
use bytes_utils::Str;
use vstd::prelude::*;
use vstd::utf8::{decode_utf8, valid_utf8};

verus! {

/// The kind of a value, without its payload.
#[derive(Clone, Copy, Debug, PartialEq, Eq, Structural)]
pub enum RedisValueKind {
    Boolean,
    Integer,
    Double,
    String,
    Bytes,
    Null,
    Queued,
    Dict,
    Array,
}

/// The name of a kind, as it is shown.
pub open spec fn kind_name(kind: RedisValueKind) -> Seq<char> {
    match kind {
        RedisValueKind::Boolean => "Boolean"@,
        RedisValueKind::Integer => "Integer"@,
        RedisValueKind::Double => "Double"@,
        RedisValueKind::String => "String"@,
        RedisValueKind::Bytes => "Bytes"@,
        RedisValueKind::Null => "nil"@,
        RedisValueKind::Queued => "Queued"@,
        RedisValueKind::Dict => "Map"@,
        RedisValueKind::Array => "Array"@,
    }
}

impl RedisValueKind {
    /// The name of the kind, as it is shown.
    pub fn to_string(&self) -> (r: String)
        ensures
            r@ == kind_name(*self),
    {
        let name = match self {
            RedisValueKind::Boolean => "Boolean",
            RedisValueKind::Integer => "Integer",
            RedisValueKind::Double => "Double",
            RedisValueKind::String => "String",
            RedisValueKind::Bytes => "Bytes",
            RedisValueKind::Null => "nil",
            RedisValueKind::Queued => "Queued",
            RedisValueKind::Dict => "Map",
            RedisValueKind::Array => "Array",
        };
        name.to_owned()
    }
}

/// A 64-bit float as this library holds it: the IEEE-754 bit pattern, and the
/// decimal text of the number.
#[derive(Debug)]
pub struct Double {
    pub bits: u64,
    pub text: String,
}

impl Clone for Double {
    /// The same float.
    fn clone(&self) -> (r: Double)
        ensures
            r == *self,
    {
        Double { bits: self.bits, text: self.text.clone() }
    }
}

/// Anything the protocol can carry.
#[derive(Debug)]
pub enum RedisValue {
    /// A boolean.
    Boolean(bool),
    /// A 64-bit signed integer.
    Integer(i64),
    /// A 64-bit float.
    Double(Double),
    /// UTF-8 text over a shared buffer.
    String(Str),
    /// Bytes that need not be UTF-8.
    Bytes(Bytes),
    /// No value.
    Null,
    /// The reply to a command that was queued inside a transaction.
    Queued,
    /// A map from keys to values.
    Dict(RedisMap),
    /// An ordered list of values.
    Array(Vec<RedisValue>),
}

/// The mathematical value of a [`RedisValue`].
pub enum ValueView {
    Boolean(bool),
    Integer(i64),
    /// The bit pattern and the decimal text of a float.
    Double(u64, Seq<char>),
    String(Seq<char>),
    Bytes(Seq<u8>),
    Null,
    Queued,
    /// The entries of a map, as pairs of a key's bytes and a value.
    Dict(Entries),
    Array(Seq<ValueView>),
}

/// The mathematical value of a value.
pub open spec fn value_view(v: RedisValue) -> ValueView
    decreases v,
{
    match v {
        RedisValue::Boolean(b) => ValueView::Boolean(b),
        RedisValue::Integer(i) => ValueView::Integer(i),
        RedisValue::Double(d) => ValueView::Double(d.bits, d.text@),
        RedisValue::String(s) => ValueView::String(str_view(s)),
        RedisValue::Bytes(b) => ValueView::Bytes(bytes_view(b)),
        RedisValue::Null => ValueView::Null,
        RedisValue::Queued => ValueView::Queued,
        RedisValue::Dict(m) => ValueView::Dict(map_view(m)),
        RedisValue::Array(items) => ValueView::Array(
            Seq::new(
                items.len() as nat,
                |i: int|
                    if 0 <= i < items.len() {
                        value_view(items[i])
                    } else {
                        ValueView::Null
                    },
            ),
        ),
    }
}

/// The entries of a map, in the order in which it holds them.
pub open(crate) spec fn map_view(m: RedisMap) -> Entries
    decreases m,
{
    Seq::new(
        m.inner.len() as nat,
        |i: int|
            if 0 <= i < m.inner.len() {
                (m.inner[i].0@, value_view(m.inner[i].1))
            } else {
                (Seq::empty(), ValueView::Null)
            },
    )
}

impl View for RedisValue {
    type V = ValueView;

    open spec fn view(&self) -> ValueView {
        value_view(*self)
    }
}

/// The views of the values of a vector, in order.
pub open spec fn views(items: Seq<RedisValue>) -> Seq<ValueView> {
    Seq::new(items.len(), |i: int| items[i]@)
}

/// The text of the reply to a queued command.
pub open spec fn queued_text() -> Seq<char> {
    "QUEUED"@
}

/// The text that stands for no value.
pub open spec fn nil_text() -> Seq<char> {
    "nil"@
}

/// The text that stands for no value on the wire.
pub open spec fn null_token() -> Seq<char> {
    "$-1\r\n"@
}

/// `redis_protocol::resp2::types::NULL`: the constant text that encodes no
/// value on the wire.
#[verifier::external_body]
pub(crate) fn wire_null() -> (r: &'static str)
    ensures
        r@ == null_token(),
{
    redis_protocol::resp2::types::NULL
}

/// The text of the status reply of a command that succeeded.
pub open spec fn ok_text() -> Seq<char> {
    "OK"@
}

/// The boolean that a text stands for, if any.
pub open spec fn text_as_bool(s: Seq<char>) -> Option<bool> {
    if s == "true"@ || s == "t"@ || s == "T"@ || s == "1"@ {
        Some(true)
    } else if s == "false"@ || s == "f"@ || s == "F"@ || s == "0"@ {
        Some(false)
    } else {
        None
    }
}

impl ValueView {
    /// The kind of the value.
    pub open spec fn kind(self) -> RedisValueKind {
        match self {
            ValueView::Boolean(_) => RedisValueKind::Boolean,
            ValueView::Integer(_) => RedisValueKind::Integer,
            ValueView::Double(_, _) => RedisValueKind::Double,
            ValueView::String(_) => RedisValueKind::String,
            ValueView::Bytes(_) => RedisValueKind::Bytes,
            ValueView::Null => RedisValueKind::Null,
            ValueView::Queued => RedisValueKind::Queued,
            ValueView::Dict(_) => RedisValueKind::Dict,
            ValueView::Array(_) => RedisValueKind::Array,
        }
    }

    /// Whether the value is an array or a map.
    pub open spec fn is_aggregate(self) -> bool {
        self is Array || self is Dict
    }

    /// Whether the value is a boolean, or an integer or a text that stands for
    /// one.
    pub open spec fn is_boolean(self) -> bool {
        match self {
            ValueView::Boolean(_) => true,
            ValueView::Integer(i) => i == 0 || i == 1,
            ValueView::String(s) => text_as_bool(s) is Some,
            _ => false,
        }
    }

    /// Whether an array reads as a flattened map: its length is even and no
    /// element at an even position is an aggregate. A map always does.
    pub open spec fn is_probably_map(self) -> bool {
        match self {
            ValueView::Dict(_) => true,
            ValueView::Array(items) => items.len() % 2 == 0 && forall|i: int|
                0 <= i < items.len() && i % 2 == 0 ==> !(#[trigger] items[i]).is_aggregate(),
            _ => false,
        }
    }

    /// The value as a boolean.
    pub open spec fn as_bool(self) -> Option<bool>
        decreases self,
    {
        match self {
            ValueView::Boolean(b) => Some(b),
            ValueView::Integer(i) => if i == 0 {
                Some(false)
            } else if i == 1 {
                Some(true)
            } else {
                None
            },
            ValueView::String(s) => text_as_bool(s),
            ValueView::Null => Some(false),
            ValueView::Array(items) => if items.len() == 1 {
                items[0].as_bool()
            } else {
                None
            },
            _ => None,
        }
    }

    /// The value as a signed integer.
    pub open spec fn as_i64(self) -> Option<i64>
        decreases self,
    {
        match self {
            ValueView::Integer(i) => Some(i),
            ValueView::String(s) => parse_i64(s),
            ValueView::Array(items) => if items.len() == 1 {
                items[0].as_i64()
            } else {
                None
            },
            _ => None,
        }
    }

    /// The value as an unsigned integer.
    pub open spec fn as_u64(self) -> Option<u64>
        decreases self,
    {
        match self {
            ValueView::Integer(i) => if i >= 0 {
                Some(i as u64)
            } else {
                None
            },
            ValueView::String(s) => parse_u64(s),
            ValueView::Array(items) => if items.len() == 1 {
                items[0].as_u64()
            } else {
                None
            },
            _ => None,
        }
    }

    /// The value as a size.
    pub open spec fn as_usize(self) -> Option<usize>
        decreases self,
    {
        match self {
            ValueView::Integer(i) => if 0 <= i <= usize::MAX {
                Some(i as usize)
            } else {
                None
            },
            ValueView::String(s) => parse_usize(s),
            ValueView::Array(items) => if items.len() == 1 {
                items[0].as_usize()
            } else {
                None
            },
            _ => None,
        }
    }

    /// The text of a scalar: a boolean and a number are rendered, a text is
    /// itself, bytes are the text that they encode where they are valid UTF-8, no
    /// value reads as `nil`, and the queued reply as its token. Arrays and maps
    /// have none.
    pub open spec fn scalar_text(self) -> Option<Seq<char>> {
        match self {
            ValueView::Boolean(b) => Some(bool_text(b)),
            ValueView::Integer(i) => Some(decimal_text(i as int)),
            ValueView::Double(_, text) => Some(text),
            ValueView::String(s) => Some(s),
            ValueView::Bytes(b) => if valid_utf8(b) {
                Some(decode_utf8(b))
            } else {
                None
            },
            ValueView::Null => Some(nil_text()),
            ValueView::Queued => Some(queued_text()),
            _ => None,
        }
    }

    /// The text of the value: that of a scalar, or of the single element of an
    /// array. Maps and other arrays have none.
    pub open spec fn text(self) -> Option<Seq<char>>
        decreases self,
    {
        match self {
            ValueView::Array(items) => if items.len() == 1 {
                items[0].text()
            } else {
                None
            },
            _ => self.scalar_text(),
        }
    }
}

impl RedisValue {
    /// A byte value over static bytes, without copying them.
    pub fn from_static(b: &'static [u8]) -> (v: RedisValue)
        ensures
            v@ == ValueView::Bytes(b@),
    {
        RedisValue::Bytes(Bytes::from_static(b))
    }

    /// A text value over a static string, without copying it.
    pub fn from_static_str(s: &'static str) -> (v: RedisValue)
        ensures
            v@ == ValueView::String(s@),
    {
        RedisValue::String(str_from_static(s))
    }

    /// The status reply of a command that succeeded.
    pub fn new_ok() -> (v: RedisValue)
        ensures
            v@ == ValueView::String(ok_text()),
    {
        RedisValue::from_static_str("OK")
    }

    /// Whether the value is the status reply of a command that succeeded.
    pub fn is_ok(&self) -> (r: bool)
        ensures
            r == (self@ == ValueView::String(ok_text())),
    {
        match self {
            RedisValue::String(s) => str_eq(str_as_slice(s), "OK"),
            _ => false,
        }
    }

    /// The kind of the value, without its payload.
    pub fn kind(&self) -> (k: RedisValueKind)
        ensures
            k == self@.kind(),
    {
        match self {
            RedisValue::Boolean(_) => RedisValueKind::Boolean,
            RedisValue::Integer(_) => RedisValueKind::Integer,
            RedisValue::Double(_) => RedisValueKind::Double,
            RedisValue::String(_) => RedisValueKind::String,
            RedisValue::Bytes(_) => RedisValueKind::Bytes,
            RedisValue::Null => RedisValueKind::Null,
            RedisValue::Queued => RedisValueKind::Queued,
            RedisValue::Dict(_) => RedisValueKind::Dict,
            RedisValue::Array(_) => RedisValueKind::Array,
        }
    }

    /// Whether the value is no value.
    pub fn is_null(&self) -> (r: bool)
        ensures
            r == (self@ is Null),
    {
        match self {
            RedisValue::Null => true,
            _ => false,
        }
    }

    /// Whether the value is an integer.
    pub fn is_integer(&self) -> (r: bool)
        ensures
            r == (self@ is Integer),
    {
        match self {
            RedisValue::Integer(_) => true,
            _ => false,
        }
    }

    /// Whether the value is a text.
    pub fn is_string(&self) -> (r: bool)
        ensures
            r == (self@ is String),
    {
        match self {
            RedisValue::String(_) => true,
            _ => false,
        }
    }

    /// Whether the value is a byte sequence.
    pub fn is_bytes(&self) -> (r: bool)
        ensures
            r == (self@ is Bytes),
    {
        match self {
            RedisValue::Bytes(_) => true,
            _ => false,
        }
    }

    /// Whether the value is a boolean, or an integer or a text that stands for
    /// one.
    pub fn is_boolean(&self) -> (r: bool)
        ensures
            r == self@.is_boolean(),
    {
        match self {
            RedisValue::Boolean(_) => true,
            RedisValue::Integer(i) => *i == 0 || *i == 1,
            RedisValue::String(s) => bool_of_text(str_as_slice(s)).is_some(),
            _ => false,
        }
    }

    /// Whether the value is the reply to a queued command.
    pub fn is_queued(&self) -> (r: bool)
        ensures
            r == (self@ is Queued),
    {
        match self {
            RedisValue::Queued => true,
            _ => false,
        }
    }

    /// Whether the value is an array or a map.
    pub fn is_aggregate_type(&self) -> (r: bool)
        ensures
            r == self@.is_aggregate(),
    {
        match self {
            RedisValue::Array(_) | RedisValue::Dict(_) => true,
            _ => false,
        }
    }

    /// Whether the value is a map.
    pub fn is_map(&self) -> (r: bool)
        ensures
            r == (self@ is Dict),
    {
        match self {
            RedisValue::Dict(_) => true,
            _ => false,
        }
    }

    /// Whether the value is an array.
    pub fn is_array(&self) -> (r: bool)
        ensures
            r == (self@ is Array),
    {
        match self {
            RedisValue::Array(_) => true,
            _ => false,
        }
    }

    /// Leaves no value in place and returns the value that was there.
    pub fn take(&mut self) -> (v: RedisValue)
        ensures
            v == *old(self),
            *final(self) == RedisValue::Null,
    {
        let mut v = RedisValue::Null;
        std::mem::swap(self, &mut v);
        v
    }
}

/// The boolean that a text stands for, if any.
pub fn bool_of_text(s: &str) -> (r: Option<bool>)
    ensures
        r == text_as_bool(s@),
{
    if str_eq(s, "true") || str_eq(s, "t") || str_eq(s, "T") || str_eq(s, "1") {
        Some(true)
    } else if str_eq(s, "false") || str_eq(s, "f") || str_eq(s, "F") || str_eq(s, "0") {
        Some(false)
    } else {
        None
    }
}

} // verus!
