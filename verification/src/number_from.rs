//! Arguments out of plain data.
use crate::number::{saturated, StringOrNumber};
use crate::value::ValueView;
use bytes_utils::Str;
use vstd::prelude::*;
use vstd::std_specs::convert::FromSpecImpl;

verus! {

impl<'a> From<&'a str> for StringOrNumber {
    /// A text argument that holds a copy of the string.
    fn from(s: &'a str) -> (r: StringOrNumber)
        ensures
            r@ == ValueView::String(s@),
    {
        StringOrNumber::from_str(s)
    }
}

impl<'a> FromSpecImpl<&'a str> for StringOrNumber {
    open spec fn obeys_from_spec() -> bool {
        false
    }

    open spec fn from_spec(s: &'a str) -> StringOrNumber {
        arbitrary()
    }
}

impl From<String> for StringOrNumber {
    /// A text argument that holds the string.
    fn from(s: String) -> (r: StringOrNumber)
        ensures
            r@ == ValueView::String(s@),
    {
        StringOrNumber::from_string(s)
    }
}

impl FromSpecImpl<String> for StringOrNumber {
    open spec fn obeys_from_spec() -> bool {
        false
    }

    open spec fn from_spec(s: String) -> StringOrNumber {
        arbitrary()
    }
}

impl From<Str> for StringOrNumber {
    /// A text argument that shares the text.
    fn from(s: Str) -> (r: StringOrNumber)
        ensures
            r == StringOrNumber::String(s),
    {
        StringOrNumber::String(s)
    }
}

impl FromSpecImpl<Str> for StringOrNumber {
    open spec fn obeys_from_spec() -> bool {
        true
    }

    open spec fn from_spec(s: Str) -> StringOrNumber {
        StringOrNumber::String(s)
    }
}

impl From<i8> for StringOrNumber {
    /// An integer argument.
    fn from(val: i8) -> (r: StringOrNumber)
        ensures
            r == StringOrNumber::Number(val as i64),
    {
        StringOrNumber::Number(val as i64)
    }
}

impl FromSpecImpl<i8> for StringOrNumber {
    open spec fn obeys_from_spec() -> bool {
        true
    }

    open spec fn from_spec(val: i8) -> StringOrNumber {
        StringOrNumber::Number(val as i64)
    }
}

impl From<i16> for StringOrNumber {
    /// An integer argument.
    fn from(val: i16) -> (r: StringOrNumber)
        ensures
            r == StringOrNumber::Number(val as i64),
    {
        StringOrNumber::Number(val as i64)
    }
}

impl FromSpecImpl<i16> for StringOrNumber {
    open spec fn obeys_from_spec() -> bool {
        true
    }

    open spec fn from_spec(val: i16) -> StringOrNumber {
        StringOrNumber::Number(val as i64)
    }
}

impl From<i32> for StringOrNumber {
    /// An integer argument.
    fn from(val: i32) -> (r: StringOrNumber)
        ensures
            r == StringOrNumber::Number(val as i64),
    {
        StringOrNumber::Number(val as i64)
    }
}

impl FromSpecImpl<i32> for StringOrNumber {
    open spec fn obeys_from_spec() -> bool {
        true
    }

    open spec fn from_spec(val: i32) -> StringOrNumber {
        StringOrNumber::Number(val as i64)
    }
}

impl From<i64> for StringOrNumber {
    /// An integer argument.
    fn from(val: i64) -> (r: StringOrNumber)
        ensures
            r == StringOrNumber::Number(val),
    {
        StringOrNumber::Number(val)
    }
}

impl FromSpecImpl<i64> for StringOrNumber {
    open spec fn obeys_from_spec() -> bool {
        true
    }

    open spec fn from_spec(val: i64) -> StringOrNumber {
        StringOrNumber::Number(val)
    }
}

impl From<isize> for StringOrNumber {
    /// An integer argument.
    fn from(val: isize) -> (r: StringOrNumber)
        ensures
            r@ == ValueView::Integer(saturated(val as int)),
    {
        StringOrNumber::from_signed(val as i128)
    }
}

impl FromSpecImpl<isize> for StringOrNumber {
    open spec fn obeys_from_spec() -> bool {
        false
    }

    open spec fn from_spec(val: isize) -> StringOrNumber {
        arbitrary()
    }
}

impl From<u8> for StringOrNumber {
    /// An integer argument.
    fn from(val: u8) -> (r: StringOrNumber)
        ensures
            r == StringOrNumber::Number(val as i64),
    {
        StringOrNumber::Number(val as i64)
    }
}

impl FromSpecImpl<u8> for StringOrNumber {
    open spec fn obeys_from_spec() -> bool {
        true
    }

    open spec fn from_spec(val: u8) -> StringOrNumber {
        StringOrNumber::Number(val as i64)
    }
}

impl From<u16> for StringOrNumber {
    /// An integer argument.
    fn from(val: u16) -> (r: StringOrNumber)
        ensures
            r == StringOrNumber::Number(val as i64),
    {
        StringOrNumber::Number(val as i64)
    }
}

impl FromSpecImpl<u16> for StringOrNumber {
    open spec fn obeys_from_spec() -> bool {
        true
    }

    open spec fn from_spec(val: u16) -> StringOrNumber {
        StringOrNumber::Number(val as i64)
    }
}

impl From<u32> for StringOrNumber {
    /// An integer argument.
    fn from(val: u32) -> (r: StringOrNumber)
        ensures
            r == StringOrNumber::Number(val as i64),
    {
        StringOrNumber::Number(val as i64)
    }
}

impl FromSpecImpl<u32> for StringOrNumber {
    open spec fn obeys_from_spec() -> bool {
        true
    }

    open spec fn from_spec(val: u32) -> StringOrNumber {
        StringOrNumber::Number(val as i64)
    }
}

impl From<u64> for StringOrNumber {
    /// An integer argument. A number above the 64-bit signed range becomes the
    /// largest number inside it.
    fn from(val: u64) -> (r: StringOrNumber)
        ensures
            r@ == ValueView::Integer(saturated(val as int)),
    {
        StringOrNumber::from_unsigned(val as u128)
    }
}

impl FromSpecImpl<u64> for StringOrNumber {
    open spec fn obeys_from_spec() -> bool {
        false
    }

    open spec fn from_spec(val: u64) -> StringOrNumber {
        arbitrary()
    }
}

impl From<usize> for StringOrNumber {
    /// An integer argument. A number above the 64-bit signed range becomes the
    /// largest number inside it.
    fn from(val: usize) -> (r: StringOrNumber)
        ensures
            r@ == ValueView::Integer(saturated(val as int)),
    {
        StringOrNumber::from_unsigned(val as u128)
    }
}

impl FromSpecImpl<usize> for StringOrNumber {
    open spec fn obeys_from_spec() -> bool {
        false
    }

    open spec fn from_spec(val: usize) -> StringOrNumber {
        arbitrary()
    }
}

} // verus!
