//! Keys: exact byte sequences that identify an entry of the store.
use crate::buffer::{
    bytes_as_slice, bytes_eq, bytes_view, str_from_string, str_into_bytes, str_view,
};
use crate::text::{
    decimal_text, i128_to_string, lossy_text, u128_to_string, utf8_lossy, utf8_slice, utf8_string,
};
use bytes::Bytes;
use bytes_utils::Str;
use std::borrow::Cow;
use vstd::prelude::*;
use vstd::utf8::{decode_utf8, encode_utf8, valid_utf8};

verus! {

/// The number of hash slots of a cluster.
pub const CLUSTER_SLOTS: u16 = 16384;

/// The position of the first `b` in `s`, or the length of `s` where it has none.
pub open spec fn first_index_of(s: Seq<u8>, b: u8) -> int
    decreases s.len(),
{
    if s.len() == 0 {
        0
    } else if s[0] == b {
        0
    } else {
        1 + first_index_of(s.drop_first(), b)
    }
}

/// The part of a key that decides its slot: what stands between the first `{`
/// and the first `}` after it, where that is not empty; otherwise the whole key.
pub open spec fn hash_tag(key: Seq<u8>) -> Seq<u8> {
    let open = first_index_of(key, 0x7b);
    if open >= key.len() {
        key
    } else {
        let rest = key.subrange(open + 1, key.len() as int);
        let close = first_index_of(rest, 0x7d);
        if close >= rest.len() || close == 0 {
            key
        } else {
            rest.subrange(0, close)
        }
    }
}

/// The CRC16 checksum (XMODEM) of the bytes, reduced to a slot number.
pub uninterp spec fn crc_slot(bytes: Seq<u8>) -> u16;

/// The cluster hash slot of a key.
pub open spec fn key_slot(key: Seq<u8>) -> u16 {
    crc_slot(hash_tag(key))
}

/// `redis_protocol::redis_keyslot`: the checksum of the key's hash tag, or of
/// the whole key where it has none, modulo the number of slots.
#[verifier::external_body]
fn keyslot(key: &[u8]) -> (slot: u16)
    ensures
        slot == crc_slot(hash_tag(key@)),
        slot < CLUSTER_SLOTS,
{
    redis_protocol::redis_keyslot(key)
}

/// A key of the store: a byte sequence, not necessarily UTF-8.
#[derive(Debug, PartialEq, Eq, PartialOrd, Ord, Hash)]
pub struct RedisKey {
    pub(crate) key: Bytes,
}

impl View for RedisKey {
    type V = Seq<u8>;

    open(crate) spec fn view(&self) -> Seq<u8> {
        bytes_view(self.key)
    }
}

impl Clone for RedisKey {
    /// A second handle on the same key.
    fn clone(&self) -> (k: RedisKey)
        ensures
            k@ == self@,
    {
        RedisKey { key: self.key.clone() }
    }
}

impl RedisKey {
    /// A key over static bytes, without copying them.
    pub fn from_static(b: &'static &[u8]) -> (k: RedisKey)
        ensures
            k@ == (*b)@,
    {
        RedisKey { key: Bytes::from_static(*b) }
    }

    /// The key as text, where its bytes are valid UTF-8.
    pub fn as_str(&self) -> (r: Option<&str>)
        ensures
            r is Some <==> valid_utf8(self@),
            r is Some ==> r->Some_0@ == decode_utf8(self@),
    {
        utf8_slice(bytes_as_slice(&self.key))
    }

    /// The bytes of the key.
    pub fn as_bytes(&self) -> (r: &[u8])
        ensures
            r@ == self@,
    {
        bytes_as_slice(&self.key)
    }

    /// The buffer that holds the key.
    pub fn inner(&self) -> (r: &Bytes)
        ensures
            bytes_view(*r) == self@,
    {
        &self.key
    }

    /// The key as text, with each invalid UTF-8 sequence replaced.
    pub fn as_str_lossy<'a>(&'a self) -> (r: Cow<'a, str>)
        ensures
            r@ == lossy_text(self@),
            valid_utf8(self@) ==> r@ == decode_utf8(self@),
    {
        utf8_lossy(bytes_as_slice(&self.key))
    }

    /// The key as an owned string, where its bytes are valid UTF-8.
    pub fn into_string(self) -> (r: Option<String>)
        ensures
            r is Some <==> valid_utf8(self@),
            r is Some ==> r->Some_0@ == decode_utf8(self@),
    {
        utf8_string(vstd::slice::slice_to_vec(bytes_as_slice(&self.key)))
    }

    /// The buffer that holds the key.
    pub fn into_bytes(self) -> (r: Bytes)
        ensures
            bytes_view(r) == self@,
    {
        self.key
    }

    /// The cluster hash slot of the key.
    pub fn cluster_hash(&self) -> (slot: u16)
        ensures
            slot == key_slot(self@),
            slot < CLUSTER_SLOTS,
    {
        keyslot(bytes_as_slice(&self.key))
    }

    /// The slot in which to look for the node that owns the key: that of the
    /// key where the client talks to a cluster, and none where it does not.
    pub fn cluster_owner_slot(&self, clustered: bool) -> (r: Option<u16>)
        ensures
            clustered ==> r == Some(key_slot(self@)),
            !clustered ==> r is None,
    {
        if clustered {
            Some(self.cluster_hash())
        } else {
            None
        }
    }

    /// Leaves an empty key in place and returns the bytes that the key held.
    pub fn take(&mut self) -> (r: Bytes)
        ensures
            bytes_view(r) == old(self)@,
            final(self)@ == Seq::<u8>::empty(),
    {
        let n: usize = self.key.len();
        let r = self.key.split_to(n);
        assert(bytes_view(r) =~= old(self)@);
        assert(self@ =~= Seq::<u8>::empty());
        r
    }

    /// A second handle on the same key.
    pub fn duplicate(&self) -> (k: RedisKey)
        ensures
            k@ == self@,
    {
        self.clone()
    }

    /// Whether two keys hold the same bytes.
    pub fn same_as(&self, other: &RedisKey) -> (r: bool)
        ensures
            r == (self@ == other@),
    {
        bytes_eq(&self.key, &other.key)
    }

    /// The key that holds the bytes of the buffer.
    pub fn from_bytes(b: Bytes) -> (k: RedisKey)
        ensures
            k@ == bytes_view(b),
    {
        RedisKey { key: b }
    }

    /// The key that holds a copy of the bytes.
    pub fn from_slice(b: &[u8]) -> (k: RedisKey)
        ensures
            k@ == b@,
    {
        RedisKey { key: Bytes::copy_from_slice(b) }
    }

    /// The key that holds the UTF-8 encoding of the text.
    pub fn from_str(s: Str) -> (k: RedisKey)
        ensures
            k@ == encode_utf8(str_view(s)),
    {
        RedisKey { key: str_into_bytes(s) }
    }

    /// The key that holds the UTF-8 encoding of the string.
    pub fn from_string(s: String) -> (k: RedisKey)
        ensures
            k@ == encode_utf8(s@),
    {
        RedisKey { key: str_into_bytes(str_from_string(s)) }
    }

    /// The key that holds the decimal text of a signed integer of any width.
    pub fn from_signed(i: i128) -> (k: RedisKey)
        ensures
            k@ == encode_utf8(decimal_text(i as int)),
    {
        RedisKey::from_string(i128_to_string(i))
    }

    /// The key that holds the decimal text of an unsigned integer of any width.
    pub fn from_unsigned(i: u128) -> (k: RedisKey)
        ensures
            k@ == encode_utf8(decimal_text(i as int)),
    {
        RedisKey::from_string(u128_to_string(i))
    }
}

} // verus!
