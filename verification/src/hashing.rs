//! Hashing of values: the bytes that a value feeds to a hasher.
//!
//! Every value starts with a byte that tells its kind, so that values of
//! different kinds feed different bytes. A map has no hash, and neither has an
//! array that holds one.
use crate::buffer::{bytes_as_slice, str_as_slice};
use crate::value::{null_token, queued_text, wire_null, RedisValue, RedisValueKind, ValueView};
use std::collections::hash_map::DefaultHasher;
use std::hash::Hasher;
use vstd::prelude::*;
use vstd::std_specs::hash::DefaultHasherAdditionalSpecFns;
use vstd::utf8::encode_utf8;

verus! {

/// The byte that tells the kind of a value.
pub open spec fn kind_prefix(kind: RedisValueKind) -> u8 {
    match kind {
        RedisValueKind::Boolean => 0x42,
        RedisValueKind::Double => 0x64,
        RedisValueKind::Integer => 0x69,
        RedisValueKind::String => 0x73,
        RedisValueKind::Null => 0x6e,
        RedisValueKind::Queued => 0x71,
        RedisValueKind::Array => 0x61,
        RedisValueKind::Dict => 0x6d,
        RedisValueKind::Bytes => 0x62,
    }
}

/// The eight bytes of a 64-bit pattern, the most significant first.
pub open spec fn be_bytes(x: u64) -> Seq<u8> {
    seq![
        (x >> 56) as u8,
        ((x >> 48) & 0xff) as u8,
        ((x >> 40) & 0xff) as u8,
        ((x >> 32) & 0xff) as u8,
        ((x >> 24) & 0xff) as u8,
        ((x >> 16) & 0xff) as u8,
        ((x >> 8) & 0xff) as u8,
        (x & 0xff) as u8,
    ]
}

impl ValueView {
    /// Whether the value can be hashed: it is no map.
    pub open spec fn can_hash(self) -> bool {
        !(self is Dict)
    }

    /// Whether the value has a hash: it is no map, and no array that holds a
    /// value without a hash.
    pub open spec fn hashable(self) -> bool
        decreases self,
    {
        match self {
            ValueView::Dict(_) => false,
            ValueView::Array(items) => all_hashable(items),
            _ => true,
        }
    }

    /// The bytes that follow the kind byte of a value.
    pub open spec fn hash_payload(self) -> Seq<u8>
        decreases self, 0nat,
    {
        match self {
            ValueView::Boolean(b) => seq![if b { 1u8 } else { 0u8 }],
            ValueView::Double(bits, _) => be_bytes(bits),
            ValueView::Integer(i) => be_bytes(i as u64),
            ValueView::String(s) => encode_utf8(s),
            ValueView::Bytes(b) => b,
            ValueView::Null => encode_utf8(null_token()),
            ValueView::Queued => encode_utf8(queued_text()),
            ValueView::Array(items) => hash_inputs(items),
            ValueView::Dict(_) => Seq::empty(),
        }
    }

    /// The bytes that the value feeds to a hasher: the byte of its kind, then
    /// its payload.
    pub open spec fn hash_input(self) -> Seq<u8>
        decreases self, 1nat,
    {
        seq![kind_prefix(self.kind())] + self.hash_payload()
    }
}

/// Whether each value of a list has a hash.
pub open spec fn all_hashable(items: Seq<ValueView>) -> bool
    decreases items,
{
    items.len() == 0 || (all_hashable(items.drop_last()) && items.last().hashable())
}

/// The bytes that the values of a list feed to a hasher, one after the other.
pub open spec fn hash_inputs(items: Seq<ValueView>) -> Seq<u8>
    decreases items, 2nat,
{
    if items.len() == 0 {
        Seq::empty()
    } else {
        hash_inputs(items.drop_last()) + items.last().hash_input()
    }
}

/// A list has a hash exactly when each of its values has one.
pub proof fn lemma_all_hashable(items: Seq<ValueView>)
    ensures
        all_hashable(items) <==> forall|i: int|
            0 <= i < items.len() ==> (#[trigger] items[i]).hashable(),
    decreases items.len(),
{
    if items.len() > 0 {
        let front = items.drop_last();
        lemma_all_hashable(front);
        if all_hashable(items) {
            assert forall|i: int| 0 <= i < items.len() implies (#[trigger] items[i]).hashable() by {
                if i < front.len() {
                    assert(front[i] == items[i]);
                }
            }
        } else {
            if !items.last().hashable() {
                assert(!items[items.len() - 1].hashable());
            } else {
                let i = choose|i: int| 0 <= i < front.len() && !(#[trigger] front[i]).hashable();
                assert(front[i] == items[i]);
            }
        }
    }
}

/// The eight bytes of a 64-bit pattern, the most significant first.
fn to_be_bytes(x: u64) -> (r: Vec<u8>)
    ensures
        r@ == be_bytes(x),
{
    assert((x >> 56) <= 0xff) by (bit_vector);
    let mut r: Vec<u8> = Vec::new();
    r.push((x >> 56) as u8);
    r.push(low_byte(x >> 48));
    r.push(low_byte(x >> 40));
    r.push(low_byte(x >> 32));
    r.push(low_byte(x >> 24));
    r.push(low_byte(x >> 16));
    r.push(low_byte(x >> 8));
    r.push(low_byte(x));
    assert(r@ =~= be_bytes(x));
    r
}

/// The lowest eight bits of a pattern.
fn low_byte(x: u64) -> (r: u8)
    ensures
        r == (x & 0xff) as u8,
{
    assert((x & 0xff) <= 0xff) by (bit_vector);
    (x & 0xff) as u8
}

impl RedisValue {
    /// Whether the value can be hashed: it is no map.
    pub fn can_hash(&self) -> (r: bool)
        ensures
            r == self@.can_hash(),
    {
        match self.kind() {
            RedisValueKind::String
            | RedisValueKind::Boolean
            | RedisValueKind::Double
            | RedisValueKind::Integer
            | RedisValueKind::Bytes
            | RedisValueKind::Null
            | RedisValueKind::Array
            | RedisValueKind::Queued => true,
            _ => false,
        }
    }

    /// Whether the value has a hash: it is no map, and no array that holds a
    /// value without a hash.
    pub fn is_hashable(&self) -> (r: bool)
        ensures
            r == self@.hashable(),
        decreases self,
    {
        match self {
            RedisValue::Dict(_) => false,
            RedisValue::Array(items) => {
                let ghost views = self@->Array_0;
                let n: usize = items.len();
                let mut i: usize = 0;
                while i < n
                    invariant
                        i <= n,
                        n == items.len(),
                        self == RedisValue::Array(*items),
                        self@ == ValueView::Array(views),
                        views.len() == n,
                        forall|j: int| 0 <= j < n ==> views[j] == (#[trigger] items[j])@,
                        forall|j: int| 0 <= j < i ==> (#[trigger] views[j]).hashable(),
                    decreases n - i,
                {
                    if !items[i].is_hashable() {
                        assert(!views[i as int].hashable());
                        proof {
                            lemma_all_hashable(views);
                        }
                        return false;
                    }
                    i += 1;
                }
                proof {
                    lemma_all_hashable(views);
                }
                true
            },
            _ => true,
        }
    }

    /// The bytes that the value feeds to a hasher: the byte of its kind, then
    /// its payload. A value without a hash must not be given.
    pub fn hash_input(&self) -> (r: Vec<u8>)
        requires
            self@.hashable(),
        ensures
            r@ == self@.hash_input(),
        decreases self,
    {
        let mut out: Vec<u8> = Vec::new();
        match self {
            RedisValue::Boolean(b) => {
                out.push(0x42);
                out.push(if *b { 1u8 } else { 0u8 });
            },
            RedisValue::Double(d) => {
                out.push(0x64);
                let mut payload = to_be_bytes(d.bits);
                out.append(&mut payload);
            },
            RedisValue::Integer(i) => {
                out.push(0x69);
                let mut payload = to_be_bytes(#[verifier::truncate] (*i as u64));
                out.append(&mut payload);
            },
            RedisValue::String(s) => {
                out.push(0x73);
                let mut payload = vstd::slice::slice_to_vec(str_as_slice(s).as_bytes());
                out.append(&mut payload);
            },
            RedisValue::Bytes(b) => {
                out.push(0x62);
                let mut payload = vstd::slice::slice_to_vec(bytes_as_slice(b));
                out.append(&mut payload);
            },
            RedisValue::Null => {
                out.push(0x6e);
                let mut payload = vstd::slice::slice_to_vec(wire_null().as_bytes());
                out.append(&mut payload);
            },
            RedisValue::Queued => {
                out.push(0x71);
                let mut payload = vstd::slice::slice_to_vec("QUEUED".as_bytes());
                out.append(&mut payload);
            },
            RedisValue::Array(items) => {
                out.push(0x61);
                let ghost views = self@->Array_0;
                proof {
                    lemma_all_hashable(views);
                }
                let n: usize = items.len();
                let mut i: usize = 0;
                assert(views.take(0) =~= Seq::<ValueView>::empty());
                while i < n
                    invariant
                        i <= n,
                        n == items.len(),
                        self == RedisValue::Array(*items),
                        self@ == ValueView::Array(views),
                        views.len() == n,
                        forall|j: int| 0 <= j < n ==> views[j] == (#[trigger] items[j])@,
                        forall|j: int| 0 <= j < n ==> (#[trigger] views[j]).hashable(),
                        out@ == seq![0x61u8] + hash_inputs(views.take(i as int)),
                    decreases n - i,
                {
                    assert(views[i as int].hashable());
                    let mut more = items[i].hash_input();
                    out.append(&mut more);
                    proof {
                        assert(views.take(i as int + 1).drop_last() =~= views.take(i as int));
                        assert(out@ =~= seq![0x61u8] + hash_inputs(views.take(i as int + 1)));
                    }
                    i += 1;
                }
                assert(views.take(n as int) =~= views);
            },
            RedisValue::Dict(_) => {},
        }
        assert(out@ =~= self@.hash_input());
        out
    }

    /// The hash code that the standard hasher gives for the bytes of the value.
    /// A value without a hash must not be given.
    pub fn hash_code(&self) -> (r: u64)
        requires
            self@.hashable(),
        ensures
            r == DefaultHasher::spec_finish(seq![self@.hash_input()]),
    {
        let input = self.hash_input();
        let mut hasher = DefaultHasher::new();
        hasher.write(input.as_slice());
        assert(hasher@ =~= seq![self@.hash_input()]);
        hasher.finish()
    }
}

} // verus!
