//! Keys out of values and of plain data.
use crate::buffer::{bytes_view, str_from_slice, str_from_static, str_into_bytes, str_view};
use crate::error::{RedisError, RedisErrorKind};
use crate::key::RedisKey;
use crate::text::{bool_text, decimal_text, i128_to_string};
use crate::value::{queued_text, RedisValue, ValueView};
use bytes::Bytes;
use bytes_utils::Str;
use vstd::prelude::*;
use vstd::std_specs::convert::{FromSpecImpl, TryFromSpecImpl};
use vstd::utf8::encode_utf8;

verus! {

/// The bytes of the key that a value converts to: those of a byte sequence, the
/// UTF-8 encoding of a text or of the text of a number, a boolean or the queued
/// reply. No value, arrays and maps convert to no key.
pub open spec fn key_bytes(v: ValueView) -> Option<Seq<u8>> {
    match v {
        ValueView::String(s) => Some(encode_utf8(s)),
        ValueView::Integer(i) => Some(encode_utf8(decimal_text(i as int))),
        ValueView::Double(_, text) => Some(encode_utf8(text)),
        ValueView::Bytes(b) => Some(b),
        ValueView::Boolean(b) => Some(encode_utf8(bool_text(b))),
        ValueView::Queued => Some(encode_utf8(queued_text())),
        _ => None,
    }
}

impl TryFrom<RedisValue> for RedisKey {
    type Error = RedisError;

    /// The key that a scalar value converts to. No value, arrays and maps are
    /// refused as invalid arguments.
    fn try_from(value: RedisValue) -> (r: Result<RedisKey, RedisError>)
        ensures
            match key_bytes(value@) {
                Some(bytes) => r is Ok && r->Ok_0@ == bytes,
                None => r is Err && r->Err_0.kind() == RedisErrorKind::InvalidArgument,
            },
    {
        let key = match value {
            RedisValue::String(s) => RedisKey { key: str_into_bytes(s) },
            RedisValue::Integer(i) => RedisKey::from_string(i128_to_string(i as i128)),
            RedisValue::Double(d) => RedisKey::from_string(d.text),
            RedisValue::Bytes(b) => RedisKey { key: b },
            RedisValue::Boolean(b) => if b {
                RedisKey { key: str_into_bytes(str_from_static("true")) }
            } else {
                RedisKey { key: str_into_bytes(str_from_static("false")) }
            },
            RedisValue::Queued => RedisKey { key: str_into_bytes(str_from_static("QUEUED")) },
            _ => {
                return Err(
                    RedisError::new(RedisErrorKind::InvalidArgument, "Cannot convert to key."),
                );
            },
        };
        Ok(key)
    }
}

impl TryFromSpecImpl<RedisValue> for RedisKey {
    open spec fn obeys_try_from_spec() -> bool {
        false
    }

    open spec fn try_from_spec(v: RedisValue) -> Result<RedisKey, RedisError> {
        arbitrary()
    }
}

impl From<Bytes> for RedisKey {
    /// The key that holds the bytes of the buffer.
    fn from(b: Bytes) -> (k: RedisKey)
        ensures
            k@ == bytes_view(b),
    {
        RedisKey::from_bytes(b)
    }
}

impl FromSpecImpl<Bytes> for RedisKey {
    open spec fn obeys_from_spec() -> bool {
        false
    }

    open spec fn from_spec(b: Bytes) -> RedisKey {
        arbitrary()
    }
}

impl<'a> From<&'a [u8]> for RedisKey {
    /// The key that holds a copy of the bytes.
    fn from(b: &'a [u8]) -> (k: RedisKey)
        ensures
            k@ == b@,
    {
        RedisKey::from_slice(b)
    }
}

impl<'a> FromSpecImpl<&'a [u8]> for RedisKey {
    open spec fn obeys_from_spec() -> bool {
        false
    }

    open spec fn from_spec(b: &'a [u8]) -> RedisKey {
        arbitrary()
    }
}

impl From<String> for RedisKey {
    /// The key that holds the UTF-8 encoding of the string.
    fn from(s: String) -> (k: RedisKey)
        ensures
            k@ == encode_utf8(s@),
    {
        RedisKey::from_string(s)
    }
}

impl FromSpecImpl<String> for RedisKey {
    open spec fn obeys_from_spec() -> bool {
        false
    }

    open spec fn from_spec(s: String) -> RedisKey {
        arbitrary()
    }
}

impl<'a> From<&'a str> for RedisKey {
    /// The key that holds the UTF-8 encoding of the string.
    fn from(s: &'a str) -> (k: RedisKey)
        ensures
            k@ == encode_utf8(s@),
    {
        RedisKey::from_str(str_from_slice(s))
    }
}

impl<'a> FromSpecImpl<&'a str> for RedisKey {
    open spec fn obeys_from_spec() -> bool {
        false
    }

    open spec fn from_spec(s: &'a str) -> RedisKey {
        arbitrary()
    }
}

impl From<Str> for RedisKey {
    /// The key that holds the UTF-8 encoding of the text.
    fn from(s: Str) -> (k: RedisKey)
        ensures
            k@ == encode_utf8(str_view(s)),
    {
        RedisKey::from_str(s)
    }
}

impl FromSpecImpl<Str> for RedisKey {
    open spec fn obeys_from_spec() -> bool {
        false
    }

    open spec fn from_spec(s: Str) -> RedisKey {
        arbitrary()
    }
}

impl<'a> From<&'a RedisKey> for RedisKey {
    /// A second handle on the same key.
    fn from(k0: &'a RedisKey) -> (k: RedisKey)
        ensures
            k@ == k0@,
    {
        k0.duplicate()
    }
}

impl<'a> FromSpecImpl<&'a RedisKey> for RedisKey {
    open spec fn obeys_from_spec() -> bool {
        false
    }

    open spec fn from_spec(k0: &'a RedisKey) -> RedisKey {
        arbitrary()
    }
}

impl From<u8> for RedisKey {
    /// The key that holds the decimal text of the number.
    fn from(val: u8) -> (k: RedisKey)
        ensures
            k@ == encode_utf8(decimal_text(val as int)),
    {
        RedisKey::from_unsigned(val as u128)
    }
}

impl FromSpecImpl<u8> for RedisKey {
    open spec fn obeys_from_spec() -> bool {
        false
    }

    open spec fn from_spec(val: u8) -> RedisKey {
        arbitrary()
    }
}

impl From<u16> for RedisKey {
    /// The key that holds the decimal text of the number.
    fn from(val: u16) -> (k: RedisKey)
        ensures
            k@ == encode_utf8(decimal_text(val as int)),
    {
        RedisKey::from_unsigned(val as u128)
    }
}

impl FromSpecImpl<u16> for RedisKey {
    open spec fn obeys_from_spec() -> bool {
        false
    }

    open spec fn from_spec(val: u16) -> RedisKey {
        arbitrary()
    }
}

impl From<u32> for RedisKey {
    /// The key that holds the decimal text of the number.
    fn from(val: u32) -> (k: RedisKey)
        ensures
            k@ == encode_utf8(decimal_text(val as int)),
    {
        RedisKey::from_unsigned(val as u128)
    }
}

impl FromSpecImpl<u32> for RedisKey {
    open spec fn obeys_from_spec() -> bool {
        false
    }

    open spec fn from_spec(val: u32) -> RedisKey {
        arbitrary()
    }
}

impl From<u64> for RedisKey {
    /// The key that holds the decimal text of the number.
    fn from(val: u64) -> (k: RedisKey)
        ensures
            k@ == encode_utf8(decimal_text(val as int)),
    {
        RedisKey::from_unsigned(val as u128)
    }
}

impl FromSpecImpl<u64> for RedisKey {
    open spec fn obeys_from_spec() -> bool {
        false
    }

    open spec fn from_spec(val: u64) -> RedisKey {
        arbitrary()
    }
}

impl From<u128> for RedisKey {
    /// The key that holds the decimal text of the number.
    fn from(val: u128) -> (k: RedisKey)
        ensures
            k@ == encode_utf8(decimal_text(val as int)),
    {
        RedisKey::from_unsigned(val)
    }
}

impl FromSpecImpl<u128> for RedisKey {
    open spec fn obeys_from_spec() -> bool {
        false
    }

    open spec fn from_spec(val: u128) -> RedisKey {
        arbitrary()
    }
}

impl From<usize> for RedisKey {
    /// The key that holds the decimal text of the number.
    fn from(val: usize) -> (k: RedisKey)
        ensures
            k@ == encode_utf8(decimal_text(val as int)),
    {
        RedisKey::from_unsigned(val as u128)
    }
}

impl FromSpecImpl<usize> for RedisKey {
    open spec fn obeys_from_spec() -> bool {
        false
    }

    open spec fn from_spec(val: usize) -> RedisKey {
        arbitrary()
    }
}

impl From<i8> for RedisKey {
    /// The key that holds the decimal text of the number.
    fn from(val: i8) -> (k: RedisKey)
        ensures
            k@ == encode_utf8(decimal_text(val as int)),
    {
        RedisKey::from_signed(val as i128)
    }
}

impl FromSpecImpl<i8> for RedisKey {
    open spec fn obeys_from_spec() -> bool {
        false
    }

    open spec fn from_spec(val: i8) -> RedisKey {
        arbitrary()
    }
}

impl From<i16> for RedisKey {
    /// The key that holds the decimal text of the number.
    fn from(val: i16) -> (k: RedisKey)
        ensures
            k@ == encode_utf8(decimal_text(val as int)),
    {
        RedisKey::from_signed(val as i128)
    }
}

impl FromSpecImpl<i16> for RedisKey {
    open spec fn obeys_from_spec() -> bool {
        false
    }

    open spec fn from_spec(val: i16) -> RedisKey {
        arbitrary()
    }
}

impl From<i32> for RedisKey {
    /// The key that holds the decimal text of the number.
    fn from(val: i32) -> (k: RedisKey)
        ensures
            k@ == encode_utf8(decimal_text(val as int)),
    {
        RedisKey::from_signed(val as i128)
    }
}

impl FromSpecImpl<i32> for RedisKey {
    open spec fn obeys_from_spec() -> bool {
        false
    }

    open spec fn from_spec(val: i32) -> RedisKey {
        arbitrary()
    }
}

impl From<i64> for RedisKey {
    /// The key that holds the decimal text of the number.
    fn from(val: i64) -> (k: RedisKey)
        ensures
            k@ == encode_utf8(decimal_text(val as int)),
    {
        RedisKey::from_signed(val as i128)
    }
}

impl FromSpecImpl<i64> for RedisKey {
    open spec fn obeys_from_spec() -> bool {
        false
    }

    open spec fn from_spec(val: i64) -> RedisKey {
        arbitrary()
    }
}

impl From<i128> for RedisKey {
    /// The key that holds the decimal text of the number.
    fn from(val: i128) -> (k: RedisKey)
        ensures
            k@ == encode_utf8(decimal_text(val as int)),
    {
        RedisKey::from_signed(val)
    }
}

impl FromSpecImpl<i128> for RedisKey {
    open spec fn obeys_from_spec() -> bool {
        false
    }

    open spec fn from_spec(val: i128) -> RedisKey {
        arbitrary()
    }
}

impl From<isize> for RedisKey {
    /// The key that holds the decimal text of the number.
    fn from(val: isize) -> (k: RedisKey)
        ensures
            k@ == encode_utf8(decimal_text(val as int)),
    {
        RedisKey::from_signed(val as i128)
    }
}

impl FromSpecImpl<isize> for RedisKey {
    open spec fn obeys_from_spec() -> bool {
        false
    }

    open spec fn from_spec(val: isize) -> RedisKey {
        arbitrary()
    }
}

} // verus!
