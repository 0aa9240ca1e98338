//! Shared immutable byte buffers and the UTF-8 text built on them.
//!
//! The buffers come from the `bytes` and `bytes_utils` crates. Everything in this
//! module is believed rather than proved: each item says what the crate's code does
//! to the bytes a buffer holds.
use bytes::Bytes;
use bytes_utils::string::StrInner;
use vstd::prelude::*;
use vstd::utf8::{decode_utf8, encode_utf8, valid_utf8};

verus! {

/// `bytes::Bytes`, a reference-counted slice of immutable bytes.
#[verifier::external_type_specification]
#[verifier::external_body]
pub struct ExBytes(bytes::Bytes);

/// `bytes_utils::string::StrInner`, UTF-8 text over a byte storage.
#[verifier::external_type_specification]
#[verifier::external_body]
#[verifier::reject_recursive_types(S)]
pub struct ExStrInner<S>(bytes_utils::string::StrInner<S>);

/// The bytes that a buffer holds, in order.
pub uninterp spec fn bytes_view(b: Bytes) -> Seq<u8>;

/// The characters of a shared string, in order.
pub uninterp spec fn str_view(s: StrInner<Bytes>) -> Seq<char>;

/// `Bytes::from_static`: a buffer over the given static slice, holding exactly
/// its bytes.
pub assume_specification[ bytes::Bytes::from_static ](bytes: &'static [u8]) -> (r: bytes::Bytes)
    ensures
        bytes_view(r) == bytes@,
;

/// `Bytes::len`: the number of bytes held.
pub assume_specification[ bytes::Bytes::len ](b: &bytes::Bytes) -> (n: usize)
    ensures
        n == bytes_view(*b).len(),
;

/// `Bytes::split_to`: hands out the first `at` bytes and keeps the rest. The
/// crate panics when `at` is past the end, which `requires` excludes.
pub assume_specification[ bytes::Bytes::split_to ](b: &mut bytes::Bytes, at: usize) -> (r:
    bytes::Bytes)
    requires
        at <= bytes_view(*old(b)).len(),
    ensures
        bytes_view(r) == bytes_view(*old(b)).subrange(0, at as int),
        bytes_view(*final(b)) == bytes_view(*old(b)).subrange(
            at as int,
            bytes_view(*old(b)).len() as int,
        ),
;

/// `Bytes::copy_from_slice`: a fresh buffer that holds a copy of the slice.
pub assume_specification[ bytes::Bytes::copy_from_slice ](data: &[u8]) -> (r: bytes::Bytes)
    ensures
        bytes_view(r) == data@,
;

/// `Bytes::clone`: a second handle on the same bytes.
pub assume_specification[ <bytes::Bytes as Clone>::clone ](b: &bytes::Bytes) -> (r: bytes::Bytes)
    ensures
        bytes_view(r) == bytes_view(*b),
;

/// `Bytes::eq`: two buffers are equal exactly when they hold the same bytes.
#[verifier::external_body]
pub(crate) fn bytes_eq(a: &Bytes, b: &Bytes) -> (r: bool)
    ensures
        r == (bytes_view(*a) == bytes_view(*b)),
{
    a == b
}

/// `Bytes::as_ref`: the bytes held, as a slice.
#[verifier::external_body]
pub(crate) fn bytes_as_slice(b: &Bytes) -> (r: &[u8])
    ensures
        r@ == bytes_view(*b),
{
    b.as_ref()
}

/// `StrInner::from_static`: shared text over a static string, holding exactly
/// its characters.
#[verifier::external_body]
pub(crate) fn str_from_static(s: &'static str) -> (r: StrInner<Bytes>)
    ensures
        str_view(r) == s@,
{
    StrInner::from_static(s)
}

/// `StrInner::from(String)`: shared text holding the characters of the string.
#[verifier::external_body]
pub(crate) fn str_from_string(s: String) -> (r: StrInner<Bytes>)
    ensures
        str_view(r) == s@,
{
    StrInner::from(s)
}

/// `StrInner::from(&str)`: shared text holding a copy of the slice's characters.
#[verifier::external_body]
pub(crate) fn str_from_slice(s: &str) -> (r: StrInner<Bytes>)
    ensures
        str_view(r) == s@,
{
    StrInner::from(s)
}

/// `StrInner::from_inner`: accepts the storage exactly when its bytes are valid
/// UTF-8, and then holds the text they encode; otherwise the storage comes back.
#[verifier::external_body]
pub(crate) fn str_from_bytes(b: Bytes) -> (r: Result<StrInner<Bytes>, Bytes>)
    ensures
        r is Ok <==> valid_utf8(bytes_view(b)),
        r is Ok ==> str_view(r->Ok_0) == decode_utf8(bytes_view(b)),
        r is Err ==> bytes_view(r->Err_0) == bytes_view(b),
{
    match StrInner::from_inner(b) {
        Ok(s) => Ok(s),
        Err(e) => Err(e.into_inner()),
    }
}

/// `StrInner::into_inner`: the storage of the text, which holds its UTF-8
/// encoding.
#[verifier::external_body]
pub(crate) fn str_into_bytes(s: StrInner<Bytes>) -> (r: Bytes)
    ensures
        bytes_view(r) == encode_utf8(str_view(s)),
{
    s.into_inner()
}

/// `StrInner::deref`: the text as a string slice.
#[verifier::external_body]
pub(crate) fn str_as_slice(s: &StrInner<Bytes>) -> (r: &str)
    ensures
        r@ == str_view(*s),
{
    s
}

/// `StrInner::clone`: a second handle on the same text.
#[verifier::external_body]
pub(crate) fn str_clone(s: &StrInner<Bytes>) -> (r: StrInner<Bytes>)
    ensures
        str_view(r) == str_view(*s),
{
    s.clone()
}

} // verus!
