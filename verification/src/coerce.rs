//! Coercions of values to booleans and numbers.
//!
//! A conversion that does not apply gives `None`. An array of one element
//! converts as that element does.
use crate::buffer::str_as_slice;
use crate::text::{parse_i64, str_parse_i64, str_parse_u64, str_parse_usize};
use crate::value::{bool_of_text, RedisValue, ValueView};
use vstd::prelude::*;

verus! {

/// Where the float of a value comes from. To make the float takes floating-point
/// arithmetic, which this library leaves to its caller.
#[derive(Debug, PartialEq, Eq)]
pub enum FloatSource {
    /// The float with this bit pattern.
    Double(u64),
    /// The float nearest to this integer.
    Integer(i64),
    /// The float that this text denotes, if it denotes one.
    Text(String),
}

/// The mathematical value of a [`FloatSource`].
pub enum FloatSourceView {
    Double(u64),
    Integer(i64),
    Text(Seq<char>),
}

impl Clone for FloatSource {
    /// The same source.
    fn clone(&self) -> (r: FloatSource)
        ensures
            r == *self,
    {
        match self {
            FloatSource::Double(bits) => FloatSource::Double(*bits),
            FloatSource::Integer(i) => FloatSource::Integer(*i),
            FloatSource::Text(s) => FloatSource::Text(s.clone()),
        }
    }
}

impl View for FloatSource {
    type V = FloatSourceView;

    open spec fn view(&self) -> FloatSourceView {
        match self {
            FloatSource::Double(bits) => FloatSourceView::Double(*bits),
            FloatSource::Integer(i) => FloatSourceView::Integer(*i),
            FloatSource::Text(s) => FloatSourceView::Text(s@),
        }
    }
}

impl ValueView {
    /// Where the float of the value comes from.
    pub open spec fn float_source(self) -> Option<FloatSourceView>
        decreases self,
    {
        match self {
            ValueView::Double(bits, _) => Some(FloatSourceView::Double(bits)),
            ValueView::String(s) => Some(FloatSourceView::Text(s)),
            ValueView::Integer(i) => Some(FloatSourceView::Integer(i)),
            ValueView::Array(items) => if items.len() == 1 {
                items[0].float_source()
            } else {
                None
            },
            _ => None,
        }
    }
}

/// The view of an optional float source.
pub open spec fn source_view(r: Option<FloatSource>) -> Option<FloatSourceView> {
    match r {
        Some(s) => Some(s@),
        None => None,
    }
}

impl RedisValue {
    /// The value as a boolean. A boolean is itself, the integers 0 and 1 and the
    /// texts `true`, `t`, `T`, `1`, `false`, `f`, `F`, `0` stand for one, and no
    /// value is false.
    pub fn as_bool(&self) -> (r: Option<bool>)
        ensures
            r == self@.as_bool(),
        decreases self,
    {
        match self {
            RedisValue::Boolean(b) => Some(*b),
            RedisValue::Integer(i) => if *i == 0 {
                Some(false)
            } else if *i == 1 {
                Some(true)
            } else {
                None
            },
            RedisValue::String(s) => bool_of_text(str_as_slice(s)),
            RedisValue::Null => Some(false),
            RedisValue::Array(inner) => if inner.len() == 1 {
                inner[0].as_bool()
            } else {
                None
            },
            _ => None,
        }
    }

    /// The value as a signed integer: an integer itself, or the number that a
    /// text denotes in decimal.
    pub fn as_i64(&self) -> (r: Option<i64>)
        ensures
            r == self@.as_i64(),
        decreases self,
    {
        match self {
            RedisValue::Integer(i) => Some(*i),
            RedisValue::String(s) => str_parse_i64(str_as_slice(s)),
            RedisValue::Array(inner) => if inner.len() == 1 {
                inner[0].as_i64()
            } else {
                None
            },
            _ => None,
        }
    }

    /// The value as an unsigned integer: an integer that is not negative, or the
    /// number that a text denotes in decimal.
    pub fn as_u64(&self) -> (r: Option<u64>)
        ensures
            r == self@.as_u64(),
        decreases self,
    {
        match self {
            RedisValue::Integer(i) => if *i >= 0 {
                Some(*i as u64)
            } else {
                None
            },
            RedisValue::String(s) => str_parse_u64(str_as_slice(s)),
            RedisValue::Array(inner) => if inner.len() == 1 {
                inner[0].as_u64()
            } else {
                None
            },
            _ => None,
        }
    }

    /// The value as a size: an integer within the range of sizes, or the number
    /// that a text denotes in decimal.
    pub fn as_usize(&self) -> (r: Option<usize>)
        ensures
            r == self@.as_usize(),
        decreases self,
    {
        match self {
            RedisValue::Integer(i) => if *i >= 0 && *i as u64 <= usize::MAX as u64 {
                Some(*i as usize)
            } else {
                None
            },
            RedisValue::String(s) => str_parse_usize(str_as_slice(s)),
            RedisValue::Array(inner) => if inner.len() == 1 {
                inner[0].as_usize()
            } else {
                None
            },
            _ => None,
        }
    }

    /// Where the float of the value comes from: a float itself, an integer, or a
    /// text that may denote one.
    pub fn as_f64(&self) -> (r: Option<FloatSource>)
        ensures
            source_view(r) == self@.float_source(),
        decreases self,
    {
        match self {
            RedisValue::Double(d) => Some(FloatSource::Double(d.bits)),
            RedisValue::String(s) => Some(FloatSource::Text(str_as_slice(s).to_owned())),
            RedisValue::Integer(i) => Some(FloatSource::Integer(*i)),
            RedisValue::Array(inner) => if inner.len() == 1 {
                inner[0].as_f64()
            } else {
                None
            },
            _ => None,
        }
    }

    /// Turns a text that denotes an integer into that integer. An integer stays
    /// as it is. Any other value comes back unchanged, as the error.
    pub fn into_integer(self) -> (r: Result<RedisValue, RedisValue>)
        ensures
            match self@ {
                ValueView::Integer(i) => r == Ok::<RedisValue, RedisValue>(self),
                ValueView::String(s) => match parse_i64(s) {
                    Some(i) => r == Ok::<RedisValue, RedisValue>(RedisValue::Integer(i)),
                    None => r == Err::<RedisValue, RedisValue>(self),
                },
                _ => r == Err::<RedisValue, RedisValue>(self),
            },
    {
        match self {
            RedisValue::String(s) => match str_parse_i64(str_as_slice(&s)) {
                Some(i) => Ok(RedisValue::Integer(i)),
                None => Err(RedisValue::String(s)),
            },
            RedisValue::Integer(i) => Ok(RedisValue::Integer(i)),
            _ => Err(self),
        }
    }
}

} // verus!
