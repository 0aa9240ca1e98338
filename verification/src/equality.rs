//! The `==` of values, maps and arguments.
use crate::compare::{entries_equal, values_equal};
use crate::map::RedisMap;
use crate::number::StringOrNumber;
use crate::value::RedisValue;
use vstd::prelude::*;
use vstd::std_specs::cmp::PartialEqSpecImpl;

verus! {

impl PartialEq for RedisValue {
    /// Whether two values are equal, with floats compared within the tolerance.
    fn eq(&self, other: &RedisValue) -> (r: bool) {
        self.equals_with(other, false)
    }
}

impl PartialEqSpecImpl for RedisValue {
    open spec fn obeys_eq_spec() -> bool {
        true
    }

    open spec fn eq_spec(&self, other: &RedisValue) -> bool {
        values_equal(self@, other@)
    }
}

impl Eq for RedisValue {

}

impl PartialEq for RedisMap {
    /// Whether two maps are equal: they have as many entries, and each key of
    /// the first has an equal value in the second.
    fn eq(&self, other: &RedisMap) -> (r: bool) {
        self.equals(other)
    }
}

impl PartialEqSpecImpl for RedisMap {
    open spec fn obeys_eq_spec() -> bool {
        true
    }

    open spec fn eq_spec(&self, other: &RedisMap) -> bool {
        entries_equal(self@, other@)
    }
}

impl Eq for RedisMap {

}

impl PartialEq for StringOrNumber {
    /// Whether two arguments are equal, with floats compared within the
    /// tolerance.
    fn eq(&self, other: &StringOrNumber) -> (r: bool) {
        self.equals(other)
    }
}

impl PartialEqSpecImpl for StringOrNumber {
    open spec fn obeys_eq_spec() -> bool {
        true
    }

    open spec fn eq_spec(&self, other: &StringOrNumber) -> bool {
        values_equal(self@, other@)
    }
}

impl Eq for StringOrNumber {

}

} // verus!
