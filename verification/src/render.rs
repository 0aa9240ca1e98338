//! Values read as text and as bytes.
//!
//! A conversion that does not apply gives `None`. An array of one element
//! converts as that element does, and no value reads as `nil`.
use crate::buffer::{
    bytes_as_slice, bytes_view, str_as_slice, str_from_bytes, str_from_static, str_from_string,
    str_into_bytes, str_view,
};
use crate::text::{bool_text, i128_to_string, lossy_text, utf8_lossy, utf8_slice, utf8_string};
use crate::value::{RedisValue, ValueView};
use bytes::Bytes;
use bytes_utils::Str;
use std::borrow::Cow;
use vstd::prelude::*;
use vstd::slice::slice_to_vec;
use vstd::utf8::encode_utf8;

verus! {

impl ValueView {
    /// The text of the value with the invalid UTF-8 of a byte sequence replaced:
    /// as [`ValueView::text`], but every byte sequence has a text.
    pub open spec fn lossy(self) -> Option<Seq<char>>
        decreases self,
    {
        match self {
            ValueView::Bytes(b) => Some(lossy_text(b)),
            ValueView::Array(items) => if items.len() == 1 {
                items[0].lossy()
            } else {
                None
            },
            _ => self.scalar_text(),
        }
    }

    /// The bytes of the value: a byte sequence is itself, whether it is valid
    /// UTF-8 or not, and any other scalar gives the UTF-8 encoding of its text.
    /// An array of one element has the bytes of that element. Maps and other
    /// arrays have none.
    pub open spec fn owned_bytes(self) -> Option<Seq<u8>>
        decreases self,
    {
        match self {
            ValueView::Bytes(b) => Some(b),
            ValueView::Array(items) => if items.len() == 1 {
                items[0].owned_bytes()
            } else {
                None
            },
            _ => match self.scalar_text() {
                Some(text) => Some(encode_utf8(text)),
                None => None,
            },
        }
    }

    /// The bytes that the value can lend without making them: as
    /// [`ValueView::owned_bytes`], but for an integer, whose text is held
    /// nowhere.
    pub open spec fn lent_bytes(self) -> Option<Seq<u8>>
        decreases self,
    {
        match self {
            ValueView::Integer(_) => None,
            ValueView::Bytes(b) => Some(b),
            ValueView::Array(items) => if items.len() == 1 {
                items[0].lent_bytes()
            } else {
                None
            },
            _ => match self.scalar_text() {
                Some(text) => Some(encode_utf8(text)),
                None => None,
            },
        }
    }
}

/// The characters of an optional string.
pub open spec fn string_view(r: Option<String>) -> Option<Seq<char>> {
    match r {
        Some(s) => Some(s@),
        None => None,
    }
}

/// The characters of an optional shared text.
pub open spec fn shared_view(r: Option<Str>) -> Option<Seq<char>> {
    match r {
        Some(s) => Some(str_view(s)),
        None => None,
    }
}

/// The characters of an optional borrowed or owned text.
pub open spec fn borrowed_view(r: Option<Cow<'_, str>>) -> Option<Seq<char>> {
    match r {
        Some(s) => Some(s@),
        None => None,
    }
}

/// The bytes of an optional slice.
pub open spec fn slice_view(r: Option<&[u8]>) -> Option<Seq<u8>> {
    match r {
        Some(s) => Some(s@),
        None => None,
    }
}

/// The bytes of an optional vector.
pub open spec fn vec_view(r: Option<Vec<u8>>) -> Option<Seq<u8>> {
    match r {
        Some(s) => Some(s@),
        None => None,
    }
}

/// The bytes of an optional buffer.
pub open spec fn buffer_view(r: Option<Bytes>) -> Option<Seq<u8>> {
    match r {
        Some(s) => Some(bytes_view(s)),
        None => None,
    }
}

/// The text of a boolean.
fn bool_to_str(b: bool) -> (r: &'static str)
    ensures
        r@ == bool_text(b),
{
    if b {
        "true"
    } else {
        "false"
    }
}

impl RedisValue {
    /// The value as an owned string: the text of a scalar, or of the single
    /// element of an array. No value reads as `nil`.
    pub fn into_string(self) -> (r: Option<String>)
        ensures
            string_view(r) == self@.text(),
        decreases self,
    {
        match self {
            RedisValue::Boolean(b) => Some(bool_to_str(b).to_owned()),
            RedisValue::Double(d) => Some(d.text),
            RedisValue::String(s) => Some(str_as_slice(&s).to_owned()),
            RedisValue::Bytes(b) => utf8_string(slice_to_vec(bytes_as_slice(&b))),
            RedisValue::Integer(i) => Some(i128_to_string(i as i128)),
            RedisValue::Null => Some("nil".to_owned()),
            RedisValue::Queued => Some("QUEUED".to_owned()),
            RedisValue::Array(mut inner) => if inner.len() == 1 {
                match inner.pop() {
                    Some(v) => v.into_string(),
                    None => None,
                }
            } else {
                None
            },
            _ => None,
        }
    }

    /// The value as shared text: the text of a scalar, or of the single element
    /// of an array. No value reads as `nil`.
    pub fn into_bytes_str(self) -> (r: Option<Str>)
        ensures
            shared_view(r) == self@.text(),
        decreases self,
    {
        match self {
            RedisValue::Boolean(b) => Some(str_from_static(bool_to_str(b))),
            RedisValue::Double(d) => Some(str_from_string(d.text)),
            RedisValue::String(s) => Some(s),
            RedisValue::Bytes(b) => match str_from_bytes(b) {
                Ok(s) => Some(s),
                Err(_) => None,
            },
            RedisValue::Integer(i) => Some(str_from_string(i128_to_string(i as i128))),
            RedisValue::Null => Some(str_from_static("nil")),
            RedisValue::Queued => Some(str_from_static("QUEUED")),
            RedisValue::Array(mut inner) => if inner.len() == 1 {
                match inner.pop() {
                    Some(v) => v.into_bytes_str(),
                    None => None,
                }
            } else {
                None
            },
            _ => None,
        }
    }

    /// The text of the value as an owned string, without consuming the value:
    /// the text of a scalar, or of the single element of an array.
    pub fn as_string(&self) -> (r: Option<String>)
        ensures
            string_view(r) == self@.text(),
        decreases self,
    {
        match self {
            RedisValue::Boolean(b) => Some(bool_to_str(*b).to_owned()),
            RedisValue::Double(d) => Some(d.text.clone()),
            RedisValue::String(s) => Some(str_as_slice(s).to_owned()),
            RedisValue::Bytes(b) => match utf8_slice(bytes_as_slice(b)) {
                Some(s) => Some(s.to_owned()),
                None => None,
            },
            RedisValue::Integer(i) => Some(i128_to_string(*i as i128)),
            RedisValue::Null => Some("nil".to_owned()),
            RedisValue::Queued => Some("QUEUED".to_owned()),
            RedisValue::Array(inner) => if inner.len() == 1 {
                inner[0].as_string()
            } else {
                None
            },
            _ => None,
        }
    }

    /// The text of the value, borrowed where the value holds it: the text of a
    /// scalar, or of the single element of an array.
    pub fn as_str<'a>(&'a self) -> (r: Option<Cow<'a, str>>)
        ensures
            borrowed_view(r) == self@.text(),
        decreases self,
    {
        match self {
            RedisValue::Double(d) => Some(Cow::Borrowed(d.text.as_str())),
            RedisValue::Boolean(b) => Some(Cow::Borrowed(bool_to_str(*b))),
            RedisValue::String(s) => Some(Cow::Borrowed(str_as_slice(s))),
            RedisValue::Integer(i) => Some(Cow::Owned(i128_to_string(*i as i128))),
            RedisValue::Null => Some(Cow::Borrowed("nil")),
            RedisValue::Queued => Some(Cow::Borrowed("QUEUED")),
            RedisValue::Bytes(b) => match utf8_slice(bytes_as_slice(b)) {
                Some(s) => Some(Cow::Borrowed(s)),
                None => None,
            },
            RedisValue::Array(inner) => if inner.len() == 1 {
                inner[0].as_str()
            } else {
                None
            },
            _ => None,
        }
    }

    /// The text of the value, with the invalid UTF-8 of a byte sequence
    /// replaced.
    pub fn as_str_lossy<'a>(&'a self) -> (r: Option<Cow<'a, str>>)
        ensures
            borrowed_view(r) == self@.lossy(),
        decreases self,
    {
        match self {
            RedisValue::Boolean(b) => Some(Cow::Borrowed(bool_to_str(*b))),
            RedisValue::Double(d) => Some(Cow::Borrowed(d.text.as_str())),
            RedisValue::String(s) => Some(Cow::Borrowed(str_as_slice(s))),
            RedisValue::Integer(i) => Some(Cow::Owned(i128_to_string(*i as i128))),
            RedisValue::Null => Some(Cow::Borrowed("nil")),
            RedisValue::Queued => Some(Cow::Borrowed("QUEUED")),
            RedisValue::Bytes(b) => Some(utf8_lossy(bytes_as_slice(b))),
            RedisValue::Array(inner) => if inner.len() == 1 {
                inner[0].as_str_lossy()
            } else {
                None
            },
            _ => None,
        }
    }

    /// The bytes of the value, lent: those of a byte sequence, and of the text of
    /// any other scalar but an integer, whose text the value does not hold. An
    /// array of one element lends the bytes of that element.
    pub fn as_bytes(&self) -> (r: Option<&[u8]>)
        ensures
            slice_view(r) == self@.lent_bytes(),
        decreases self,
    {
        match self {
            RedisValue::Boolean(b) => Some(bool_to_str(*b).as_bytes()),
            RedisValue::Double(d) => Some(d.text.as_str().as_bytes()),
            RedisValue::String(s) => Some(str_as_slice(s).as_bytes()),
            RedisValue::Bytes(b) => Some(bytes_as_slice(b)),
            RedisValue::Null => Some("nil".as_bytes()),
            RedisValue::Queued => Some("QUEUED".as_bytes()),
            RedisValue::Array(inner) => if inner.len() == 1 {
                inner[0].as_bytes()
            } else {
                None
            },
            _ => None,
        }
    }

    /// The bytes of the value in a vector of their own: a byte sequence as it
    /// is, and the text of any other scalar in UTF-8.
    pub fn into_owned_bytes(self) -> (r: Option<Vec<u8>>)
        ensures
            vec_view(r) == self@.owned_bytes(),
        decreases self,
    {
        match self {
            RedisValue::Boolean(b) => Some(slice_to_vec(bool_to_str(b).as_bytes())),
            RedisValue::Double(d) => Some(slice_to_vec(d.text.as_str().as_bytes())),
            RedisValue::String(s) => Some(slice_to_vec(str_as_slice(&s).as_bytes())),
            RedisValue::Bytes(b) => Some(slice_to_vec(bytes_as_slice(&b))),
            RedisValue::Null => Some(slice_to_vec("nil".as_bytes())),
            RedisValue::Queued => Some(slice_to_vec("QUEUED".as_bytes())),
            RedisValue::Array(mut inner) => if inner.len() == 1 {
                match inner.pop() {
                    Some(v) => v.into_owned_bytes(),
                    None => None,
                }
            } else {
                None
            },
            RedisValue::Integer(i) => Some(
                slice_to_vec(i128_to_string(i as i128).as_str().as_bytes()),
            ),
            _ => None,
        }
    }

    /// The bytes of the value in a shared buffer: a byte sequence and a text
    /// give their own buffer, and any other scalar gives its text in UTF-8.
    pub fn into_bytes(self) -> (r: Option<Bytes>)
        ensures
            buffer_view(r) == self@.owned_bytes(),
        decreases self,
    {
        match self {
            RedisValue::Boolean(b) => Some(str_into_bytes(str_from_static(bool_to_str(b)))),
            RedisValue::Double(d) => Some(str_into_bytes(str_from_string(d.text))),
            RedisValue::String(s) => Some(str_into_bytes(s)),
            RedisValue::Bytes(b) => Some(b),
            RedisValue::Null => Some(str_into_bytes(str_from_static("nil"))),
            RedisValue::Queued => Some(str_into_bytes(str_from_static("QUEUED"))),
            RedisValue::Array(mut inner) => if inner.len() == 1 {
                match inner.pop() {
                    Some(v) => v.into_bytes(),
                    None => None,
                }
            } else {
                None
            },
            RedisValue::Integer(i) => Some(
                str_into_bytes(str_from_string(i128_to_string(i as i128))),
            ),
            _ => None,
        }
    }
}

} // verus!
