//! The failure outcomes of the conversions.
use std::convert::Infallible;
use vstd::prelude::*;
use vstd::std_specs::convert::FromSpecImpl;

verus! {

/// What went wrong in a conversion.
#[derive(Clone, Copy, Debug, PartialEq, Eq, Structural)]
pub enum RedisErrorKind {
    /// A conversion was tried between shapes that do not fit, or a number was out
    /// of the representable range.
    InvalidArgument,
    /// An array that should stand for a flattened map had an odd number of
    /// elements.
    MalformedAggregate,
    /// Any other failure, such as a value of the wrong shape.
    Unknown,
}

/// An error with its kind and a fixed description.
#[derive(Clone, Copy, Debug, PartialEq, Eq)]
pub struct RedisError {
    kind: RedisErrorKind,
    details: &'static str,
}

impl RedisError {
    /// An error of the given kind.
    pub fn new(kind: RedisErrorKind, details: &'static str) -> (e: RedisError)
        ensures
            e.kind() == kind,
            e.details() == details,
    {
        RedisError { kind, details }
    }

    /// The kind of the error.
    #[verifier::when_used_as_spec(spec_kind)]
    pub fn kind(&self) -> (k: RedisErrorKind)
        ensures
            k == self.spec_kind(),
    {
        self.kind
    }

    pub closed spec fn spec_kind(&self) -> RedisErrorKind {
        self.kind
    }

    /// The description of the error.
    #[verifier::when_used_as_spec(spec_details)]
    pub fn details(&self) -> (d: &'static str)
        ensures
            d == self.spec_details(),
    {
        self.details
    }

    pub closed spec fn spec_details(&self) -> &'static str {
        self.details
    }
}

/// `From<T> for T`: the conversion of a value to its own type gives the value
/// itself.
pub assume_specification<Same>[ <Same as From<Same>>::from ](it: Same) -> (r: Same)
    ensures
        r == it,
;

impl From<Infallible> for RedisError {
    /// The error of a conversion that cannot fail: there is none to convert.
    fn from(e: Infallible) -> (r: RedisError) {
        RedisError::new(RedisErrorKind::Unknown, "Infallible")
    }
}

impl FromSpecImpl<Infallible> for RedisError {
    open spec fn obeys_from_spec() -> bool {
        false
    }

    open spec fn from_spec(e: Infallible) -> RedisError {
        arbitrary()
    }
}

} // verus!
