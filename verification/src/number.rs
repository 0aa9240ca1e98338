//! An argument that is a text or a number.
use crate::buffer::{
    str_as_slice, str_clone, str_from_bytes, str_from_slice, str_from_static, str_from_string,
    str_view,
};
use crate::compare::{doubles_are_close, values_equal};
use crate::error::{RedisError, RedisErrorKind};
use crate::text::str_eq;
use crate::value::{Double, RedisValue, ValueView};
use bytes_utils::Str;
use vstd::prelude::*;
use vstd::std_specs::convert::TryFromSpecImpl;
use vstd::utf8::{decode_utf8, valid_utf8};

verus! {

/// An argument of a command that may be a text, an integer or a float.
#[derive(Debug)]
pub enum StringOrNumber {
    String(Str),
    Number(i64),
    Double(Double),
}

impl View for StringOrNumber {
    type V = ValueView;

    /// The value that the argument stands for.
    open spec fn view(&self) -> ValueView {
        match self {
            StringOrNumber::String(s) => ValueView::String(str_view(*s)),
            StringOrNumber::Number(i) => ValueView::Integer(*i),
            StringOrNumber::Double(d) => ValueView::Double(d.bits, d.text@),
        }
    }
}

/// The argument that a value converts to, or the kind of error that refuses it:
/// a text, an integer and a float are themselves, and a byte sequence is the
/// text that it encodes.
pub open spec fn as_argument(v: ValueView) -> Result<ValueView, RedisErrorKind> {
    match v {
        ValueView::String(_) | ValueView::Integer(_) | ValueView::Double(_, _) => Ok(v),
        ValueView::Bytes(b) => if valid_utf8(b) {
            Ok(ValueView::String(decode_utf8(b)))
        } else {
            Err(RedisErrorKind::Unknown)
        },
        _ => Err(RedisErrorKind::InvalidArgument),
    }
}

/// The integer nearest to `i` that a 64-bit signed integer can hold.
pub open spec fn saturated(i: int) -> i64 {
    if i > i64::MAX {
        i64::MAX
    } else if i < i64::MIN {
        i64::MIN
    } else {
        i as i64
    }
}

impl StringOrNumber {
    /// A text argument over a static string, without copying it.
    pub fn from_static_str(s: &'static str) -> (r: StringOrNumber)
        ensures
            r@ == ValueView::String(s@),
    {
        StringOrNumber::String(str_from_static(s))
    }

    /// A text argument that holds a copy of the string.
    pub fn from_str(s: &str) -> (r: StringOrNumber)
        ensures
            r@ == ValueView::String(s@),
    {
        StringOrNumber::String(str_from_slice(s))
    }

    /// A text argument that holds the string.
    pub fn from_string(s: String) -> (r: StringOrNumber)
        ensures
            r@ == ValueView::String(s@),
    {
        StringOrNumber::String(str_from_string(s))
    }

    /// An integer argument out of a signed integer of any width. A number
    /// outside the 64-bit range becomes the nearest number inside it.
    pub fn from_signed(i: i128) -> (r: StringOrNumber)
        ensures
            r@ == ValueView::Integer(saturated(i as int)),
    {
        if i > i64::MAX as i128 {
            StringOrNumber::Number(i64::MAX)
        } else if i < i64::MIN as i128 {
            StringOrNumber::Number(i64::MIN)
        } else {
            StringOrNumber::Number(i as i64)
        }
    }

    /// An integer argument out of an unsigned integer of any width. A number
    /// above the 64-bit signed range becomes the largest number inside it.
    pub fn from_unsigned(i: u128) -> (r: StringOrNumber)
        ensures
            r@ == ValueView::Integer(saturated(i as int)),
    {
        if i > i64::MAX as u128 {
            StringOrNumber::Number(i64::MAX)
        } else {
            StringOrNumber::Number(i as i64)
        }
    }

    /// The value that the argument is sent as.
    pub fn into_arg(self) -> (v: RedisValue)
        ensures
            v@ == self@,
    {
        match self {
            StringOrNumber::String(s) => RedisValue::String(s),
            StringOrNumber::Number(n) => RedisValue::Integer(n),
            StringOrNumber::Double(d) => RedisValue::Double(d),
        }
    }

    /// Whether two arguments are equal, as the values that they stand for are:
    /// arguments of different variants differ, and two floats are equal within
    /// the tolerance.
    pub fn equals(&self, other: &StringOrNumber) -> (r: bool)
        ensures
            r == values_equal(self@, other@),
    {
        match self {
            StringOrNumber::String(s) => match other {
                StringOrNumber::String(o) => str_eq(str_as_slice(s), str_as_slice(o)),
                _ => false,
            },
            StringOrNumber::Number(i) => match other {
                StringOrNumber::Number(o) => *i == *o,
                _ => false,
            },
            StringOrNumber::Double(d) => match other {
                StringOrNumber::Double(o) => doubles_are_close(d.bits, o.bits),
                _ => false,
            },
        }
    }
}

impl Clone for StringOrNumber {
    /// An argument with the same content.
    fn clone(&self) -> (r: StringOrNumber)
        ensures
            r@ == self@,
    {
        match self {
            StringOrNumber::String(s) => StringOrNumber::String(str_clone(s)),
            StringOrNumber::Number(i) => StringOrNumber::Number(*i),
            StringOrNumber::Double(d) => StringOrNumber::Double(d.clone()),
        }
    }
}

impl TryFrom<RedisValue> for StringOrNumber {
    type Error = RedisError;

    /// The argument that a value converts to. A byte sequence converts where it
    /// is valid UTF-8; booleans, no value, the queued reply, arrays and maps are
    /// refused as invalid arguments.
    fn try_from(value: RedisValue) -> (r: Result<StringOrNumber, RedisError>)
        ensures
            match as_argument(value@) {
                Ok(v) => r is Ok && r->Ok_0@ == v,
                Err(kind) => r is Err && r->Err_0.kind() == kind,
            },
    {
        match value {
            RedisValue::String(s) => Ok(StringOrNumber::String(s)),
            RedisValue::Integer(i) => Ok(StringOrNumber::Number(i)),
            RedisValue::Double(d) => Ok(StringOrNumber::Double(d)),
            RedisValue::Bytes(b) => match str_from_bytes(b) {
                Ok(s) => Ok(StringOrNumber::String(s)),
                Err(_) => Err(RedisError::new(RedisErrorKind::Unknown, "Invalid UTF-8 string.")),
            },
            _ => Err(RedisError::new(RedisErrorKind::InvalidArgument, "")),
        }
    }
}

impl TryFromSpecImpl<RedisValue> for StringOrNumber {
    open spec fn obeys_try_from_spec() -> bool {
        false
    }

    open spec fn try_from_spec(v: RedisValue) -> Result<StringOrNumber, RedisError> {
        arbitrary()
    }
}

} // verus!
