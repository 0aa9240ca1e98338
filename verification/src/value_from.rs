//! Values out of plain data.
use crate::buffer::{str_from_slice, str_from_string};
use crate::error::{RedisError, RedisErrorKind};
use crate::key::RedisKey;
use crate::map::RedisMap;
use crate::value::{RedisValue, ValueView};
use bytes::Bytes;
use bytes_utils::Str;
use vstd::prelude::*;
use vstd::std_specs::convert::{FromSpecImpl, TryFromSpecImpl};

verus! {

impl From<u8> for RedisValue {
    /// The integer value of the number.
    fn from(d: u8) -> (v: RedisValue)
        ensures
            v == RedisValue::Integer(d as i64),
    {
        RedisValue::Integer(d as i64)
    }
}

impl FromSpecImpl<u8> for RedisValue {
    open spec fn obeys_from_spec() -> bool {
        true
    }

    open spec fn from_spec(d: u8) -> RedisValue {
        RedisValue::Integer(d as i64)
    }
}

impl From<u16> for RedisValue {
    /// The integer value of the number.
    fn from(d: u16) -> (v: RedisValue)
        ensures
            v == RedisValue::Integer(d as i64),
    {
        RedisValue::Integer(d as i64)
    }
}

impl FromSpecImpl<u16> for RedisValue {
    open spec fn obeys_from_spec() -> bool {
        true
    }

    open spec fn from_spec(d: u16) -> RedisValue {
        RedisValue::Integer(d as i64)
    }
}

impl From<u32> for RedisValue {
    /// The integer value of the number.
    fn from(d: u32) -> (v: RedisValue)
        ensures
            v == RedisValue::Integer(d as i64),
    {
        RedisValue::Integer(d as i64)
    }
}

impl FromSpecImpl<u32> for RedisValue {
    open spec fn obeys_from_spec() -> bool {
        true
    }

    open spec fn from_spec(d: u32) -> RedisValue {
        RedisValue::Integer(d as i64)
    }
}

impl From<i8> for RedisValue {
    /// The integer value of the number.
    fn from(d: i8) -> (v: RedisValue)
        ensures
            v == RedisValue::Integer(d as i64),
    {
        RedisValue::Integer(d as i64)
    }
}

impl FromSpecImpl<i8> for RedisValue {
    open spec fn obeys_from_spec() -> bool {
        true
    }

    open spec fn from_spec(d: i8) -> RedisValue {
        RedisValue::Integer(d as i64)
    }
}

impl From<i16> for RedisValue {
    /// The integer value of the number.
    fn from(d: i16) -> (v: RedisValue)
        ensures
            v == RedisValue::Integer(d as i64),
    {
        RedisValue::Integer(d as i64)
    }
}

impl FromSpecImpl<i16> for RedisValue {
    open spec fn obeys_from_spec() -> bool {
        true
    }

    open spec fn from_spec(d: i16) -> RedisValue {
        RedisValue::Integer(d as i64)
    }
}

impl From<i32> for RedisValue {
    /// The integer value of the number.
    fn from(d: i32) -> (v: RedisValue)
        ensures
            v == RedisValue::Integer(d as i64),
    {
        RedisValue::Integer(d as i64)
    }
}

impl FromSpecImpl<i32> for RedisValue {
    open spec fn obeys_from_spec() -> bool {
        true
    }

    open spec fn from_spec(d: i32) -> RedisValue {
        RedisValue::Integer(d as i64)
    }
}

impl From<isize> for RedisValue {
    /// The integer value of the number.
    fn from(d: isize) -> (v: RedisValue)
        ensures
            v == RedisValue::Integer(d as i64),
    {
        RedisValue::Integer(d as i64)
    }
}

impl FromSpecImpl<isize> for RedisValue {
    open spec fn obeys_from_spec() -> bool {
        true
    }

    open spec fn from_spec(d: isize) -> RedisValue {
        RedisValue::Integer(d as i64)
    }
}

impl From<i64> for RedisValue {
    /// The integer value of the number.
    fn from(d: i64) -> (v: RedisValue)
        ensures
            v == RedisValue::Integer(d),
    {
        RedisValue::Integer(d)
    }
}

impl FromSpecImpl<i64> for RedisValue {
    open spec fn obeys_from_spec() -> bool {
        true
    }

    open spec fn from_spec(d: i64) -> RedisValue {
        RedisValue::Integer(d)
    }
}

impl From<bool> for RedisValue {
    /// The boolean value.
    fn from(d: bool) -> (v: RedisValue)
        ensures
            v == RedisValue::Boolean(d),
    {
        RedisValue::Boolean(d)
    }
}

impl FromSpecImpl<bool> for RedisValue {
    open spec fn obeys_from_spec() -> bool {
        true
    }

    open spec fn from_spec(d: bool) -> RedisValue {
        RedisValue::Boolean(d)
    }
}

impl From<()> for RedisValue {
    /// No value.
    fn from(d: ()) -> (v: RedisValue)
        ensures
            v == RedisValue::Null,
    {
        RedisValue::Null
    }
}

impl FromSpecImpl<()> for RedisValue {
    open spec fn obeys_from_spec() -> bool {
        true
    }

    open spec fn from_spec(d: ()) -> RedisValue {
        RedisValue::Null
    }
}

impl From<Str> for RedisValue {
    /// The text value that shares the text.
    fn from(s: Str) -> (v: RedisValue)
        ensures
            v == RedisValue::String(s),
    {
        RedisValue::String(s)
    }
}

impl FromSpecImpl<Str> for RedisValue {
    open spec fn obeys_from_spec() -> bool {
        true
    }

    open spec fn from_spec(s: Str) -> RedisValue {
        RedisValue::String(s)
    }
}

impl From<Bytes> for RedisValue {
    /// The byte value that shares the buffer.
    fn from(b: Bytes) -> (v: RedisValue)
        ensures
            v == RedisValue::Bytes(b),
    {
        RedisValue::Bytes(b)
    }
}

impl FromSpecImpl<Bytes> for RedisValue {
    open spec fn obeys_from_spec() -> bool {
        true
    }

    open spec fn from_spec(b: Bytes) -> RedisValue {
        RedisValue::Bytes(b)
    }
}

impl From<RedisMap> for RedisValue {
    /// The value that holds the map.
    fn from(m: RedisMap) -> (v: RedisValue)
        ensures
            v == RedisValue::Dict(m),
    {
        RedisValue::Dict(m)
    }
}

impl FromSpecImpl<RedisMap> for RedisValue {
    open spec fn obeys_from_spec() -> bool {
        true
    }

    open spec fn from_spec(m: RedisMap) -> RedisValue {
        RedisValue::Dict(m)
    }
}

impl From<String> for RedisValue {
    /// The text value of the string.
    fn from(d: String) -> (v: RedisValue)
        ensures
            v@ == ValueView::String(d@),
    {
        RedisValue::String(str_from_string(d))
    }
}

impl FromSpecImpl<String> for RedisValue {
    open spec fn obeys_from_spec() -> bool {
        false
    }

    open spec fn from_spec(d: String) -> RedisValue {
        arbitrary()
    }
}

impl<'a> From<&'a str> for RedisValue {
    /// The text value that holds a copy of the string.
    fn from(d: &'a str) -> (v: RedisValue)
        ensures
            v@ == ValueView::String(d@),
    {
        RedisValue::String(str_from_slice(d))
    }
}

impl<'a> FromSpecImpl<&'a str> for RedisValue {
    open spec fn obeys_from_spec() -> bool {
        false
    }

    open spec fn from_spec(d: &'a str) -> RedisValue {
        arbitrary()
    }
}

impl<'a> From<&'a [u8]> for RedisValue {
    /// The byte value that holds a copy of the bytes.
    fn from(b: &'a [u8]) -> (v: RedisValue)
        ensures
            v@ == ValueView::Bytes(b@),
    {
        RedisValue::Bytes(Bytes::copy_from_slice(b))
    }
}

impl<'a> FromSpecImpl<&'a [u8]> for RedisValue {
    open spec fn obeys_from_spec() -> bool {
        false
    }

    open spec fn from_spec(b: &'a [u8]) -> RedisValue {
        arbitrary()
    }
}

impl From<RedisKey> for RedisValue {
    /// The byte value that holds the bytes of the key.
    fn from(d: RedisKey) -> (v: RedisValue)
        ensures
            v@ == ValueView::Bytes(d@),
    {
        RedisValue::Bytes(d.into_bytes())
    }
}

impl FromSpecImpl<RedisKey> for RedisValue {
    open spec fn obeys_from_spec() -> bool {
        false
    }

    open spec fn from_spec(d: RedisKey) -> RedisValue {
        arbitrary()
    }
}

impl TryFrom<u64> for RedisValue {
    type Error = RedisError;

    /// The integer value of the number, where it fits a 64-bit signed integer;
    /// otherwise the number is refused as an invalid argument.
    fn try_from(d: u64) -> (r: Result<RedisValue, RedisError>)
        ensures
            d <= i64::MAX ==> r == Ok::<RedisValue, RedisError>(RedisValue::Integer(d as i64)),
            !(d <= i64::MAX) ==> r is Err && r->Err_0.kind() == RedisErrorKind::InvalidArgument,
    {
        if d > i64::MAX as u64 {
            return Err(
                RedisError::new(RedisErrorKind::InvalidArgument, "Unsigned integer out of range."),
            );
        }
        Ok(RedisValue::Integer(d as i64))
    }
}

impl TryFromSpecImpl<u64> for RedisValue {
    open spec fn obeys_try_from_spec() -> bool {
        false
    }

    open spec fn try_from_spec(d: u64) -> Result<RedisValue, RedisError> {
        arbitrary()
    }
}

impl TryFrom<u128> for RedisValue {
    type Error = RedisError;

    /// The integer value of the number, where it fits a 64-bit signed integer;
    /// otherwise the number is refused as an invalid argument.
    fn try_from(d: u128) -> (r: Result<RedisValue, RedisError>)
        ensures
            d <= i64::MAX ==> r == Ok::<RedisValue, RedisError>(RedisValue::Integer(d as i64)),
            !(d <= i64::MAX) ==> r is Err && r->Err_0.kind() == RedisErrorKind::InvalidArgument,
    {
        if d > i64::MAX as u128 {
            return Err(
                RedisError::new(RedisErrorKind::InvalidArgument, "Unsigned integer out of range."),
            );
        }
        Ok(RedisValue::Integer(d as i64))
    }
}

impl TryFromSpecImpl<u128> for RedisValue {
    open spec fn obeys_try_from_spec() -> bool {
        false
    }

    open spec fn try_from_spec(d: u128) -> Result<RedisValue, RedisError> {
        arbitrary()
    }
}

impl TryFrom<i128> for RedisValue {
    type Error = RedisError;

    /// The integer value of the number, where it fits a 64-bit signed integer;
    /// otherwise the number is refused as an invalid argument.
    fn try_from(d: i128) -> (r: Result<RedisValue, RedisError>)
        ensures
            i64::MIN <= d <= i64::MAX ==> r == Ok::<RedisValue, RedisError>(
                RedisValue::Integer(d as i64),
            ),
            !(i64::MIN <= d <= i64::MAX) ==> r is Err && r->Err_0.kind()
                == RedisErrorKind::InvalidArgument,
    {
        if d > i64::MAX as i128 || d < i64::MIN as i128 {
            return Err(
                RedisError::new(RedisErrorKind::InvalidArgument, "Signed integer out of range."),
            );
        }
        Ok(RedisValue::Integer(d as i64))
    }
}

impl TryFromSpecImpl<i128> for RedisValue {
    open spec fn obeys_try_from_spec() -> bool {
        false
    }

    open spec fn try_from_spec(d: i128) -> Result<RedisValue, RedisError> {
        arbitrary()
    }
}

impl TryFrom<usize> for RedisValue {
    type Error = RedisError;

    /// The integer value of the number, where it fits a 64-bit signed integer;
    /// otherwise the number is refused as an invalid argument.
    fn try_from(d: usize) -> (r: Result<RedisValue, RedisError>)
        ensures
            d <= i64::MAX ==> r == Ok::<RedisValue, RedisError>(RedisValue::Integer(d as i64)),
            !(d <= i64::MAX) ==> r is Err && r->Err_0.kind() == RedisErrorKind::InvalidArgument,
    {
        if d as u64 > i64::MAX as u64 {
            return Err(
                RedisError::new(RedisErrorKind::InvalidArgument, "Unsigned integer out of range."),
            );
        }
        Ok(RedisValue::Integer(d as i64))
    }
}

impl TryFromSpecImpl<usize> for RedisValue {
    open spec fn obeys_try_from_spec() -> bool {
        false
    }

    open spec fn try_from_spec(d: usize) -> Result<RedisValue, RedisError> {
        arbitrary()
    }
}

impl<T> TryFrom<Option<T>> for RedisValue where
    T: TryInto<RedisValue>,
    T::Error: Into<RedisError>,
 {
    type Error = RedisError;

    /// The value of what the option holds, or no value where it holds nothing.
    /// Where the conversion of what it holds fails, the conversion of its error
    /// comes back.
    fn try_from(d: Option<T>) -> (r: Result<RedisValue, RedisError>)
        ensures
            match d {
                None => r == Ok::<RedisValue, RedisError>(RedisValue::Null),
                Some(i) => match r {
                    Ok(v) => call_ensures(T::try_into, (i,), Ok::<RedisValue, T::Error>(v)),
                    Err(e) => exists|inner: T::Error|
                        {
                            &&& #[trigger] call_ensures(
                                T::try_into,
                                (i,),
                                Err::<RedisValue, T::Error>(inner),
                            )
                            &&& call_ensures(<T::Error as Into<RedisError>>::into, (inner,), e)
                        },
                },
            },
    {
        match d {
            Some(i) => match i.try_into() {
                Ok(v) => Ok(v),
                Err(e) => Err(e.into()),
            },
            None => Ok(RedisValue::Null),
        }
    }
}

impl<T> TryFromSpecImpl<Option<T>> for RedisValue where
    T: TryInto<RedisValue>,
    T::Error: Into<RedisError>,
 {
    open spec fn obeys_try_from_spec() -> bool {
        false
    }

    open spec fn try_from_spec(d: Option<T>) -> Result<RedisValue, RedisError> {
        arbitrary()
    }
}

impl RedisValue {
    /// The array of the values.
    pub fn from_iter(values: Vec<RedisValue>) -> (v: RedisValue)
        ensures
            v == RedisValue::Array(values),
    {
        RedisValue::Array(values)
    }

    /// The float value with the given bit pattern and decimal text.
    pub fn from_double(bits: u64, text: String) -> (v: RedisValue)
        ensures
            v@ == ValueView::Double(bits, text@),
    {
        RedisValue::Double(crate::value::Double { bits, text })
    }
}

} // verus!
