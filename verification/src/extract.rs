//! Extraction of application types out of values.
use crate::error::RedisError;
use crate::value::RedisValue;
use vstd::prelude::*;

verus! {

/// A type that can be made out of a value. Application code implements it for
/// its own types.
pub trait FromRedis: Sized {
    /// Makes a `Self` out of the value, or says why there is none.
    fn from_value(value: RedisValue) -> Result<Self, RedisError>;
}

impl FromRedis for RedisValue {
    /// A value converts to itself.
    fn from_value(value: RedisValue) -> (r: Result<RedisValue, RedisError>)
        ensures
            r == Ok::<RedisValue, RedisError>(value),
    {
        Ok(value)
    }
}

impl RedisValue {
    /// Converts the value to any type that can be made out of one: the outcome
    /// is an outcome of the type's own conversion of this value.
    pub fn convert<R>(self) -> (r: Result<R, RedisError>) where R: FromRedis
        ensures
            call_ensures(R::from_value, (self,), r),
    {
        R::from_value(self)
    }
}

} // verus!
