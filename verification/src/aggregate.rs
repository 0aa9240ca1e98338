//! Arrays and maps: telling them apart and turning one into the other.
use crate::error::{RedisError, RedisErrorKind};
use crate::key::RedisKey;
use crate::key_from::key_bytes;
use crate::map::{with_entry, Entries, RedisMap};
use crate::value::{views, RedisValue, ValueView};
use vstd::prelude::*;

verus! {

/// Whether each element at an even position converts to a key.
pub open spec fn keys_convert(items: Seq<ValueView>) -> bool {
    forall|i: int| 0 <= i < items.len() && i % 2 == 0 ==> key_bytes(#[trigger] items[i]) is Some
}

/// The entries that a flattened map stands for. The elements are read as pairs
/// of a key and a value, from the last pair to the first, and each pair is
/// stored in turn: where a key occurs twice, the pair nearer the front stays.
pub open spec fn paired_entries(items: Seq<ValueView>) -> Entries
    decreases items.len(),
{
    if items.len() < 2 {
        Seq::empty()
    } else {
        with_entry(paired_entries(items.skip(2)), key_bytes(items[0]).unwrap(), items[1])
    }
}

/// A map flattened to a list: each entry gives its key, as a byte sequence, and
/// then its value.
pub open spec fn flattened(entries: Entries) -> Seq<ValueView> {
    Seq::new(
        2 * entries.len(),
        |i: int|
            if i % 2 == 0 {
                ValueView::Bytes(entries[i / 2].0)
            } else {
                entries[i / 2].1
            },
    )
}

impl ValueView {
    /// The entries of the value read as a map, or the kind of error that says
    /// why it is none: a map is itself, and an array is read as a flattened map
    /// where its length is even and its keys convert.
    pub open spec fn as_entries(self) -> Result<Entries, RedisErrorKind> {
        match self {
            ValueView::Dict(entries) => Ok(entries),
            ValueView::Array(items) => if items.len() % 2 != 0 {
                Err(RedisErrorKind::MalformedAggregate)
            } else if !keys_convert(items) {
                Err(RedisErrorKind::InvalidArgument)
            } else {
                Ok(paired_entries(items))
            },
            _ => Err(RedisErrorKind::Unknown),
        }
    }

    /// The elements of the value read as a list: those of an array, a map
    /// flattened, and any other value alone.
    pub open spec fn as_items(self) -> Seq<ValueView> {
        match self {
            ValueView::Array(items) => items,
            ValueView::Dict(entries) => flattened(entries),
            _ => seq![self],
        }
    }
}

impl RedisValue {
    /// Whether the value reads as a map: it is one, or it is an array of even
    /// length in which no element at an even position is an array or a map.
    pub fn is_probably_map(&self) -> (r: bool)
        ensures
            r == self@.is_probably_map(),
    {
        match self {
            RedisValue::Dict(_) => true,
            RedisValue::Array(arr) => {
                let n: usize = arr.len();
                if n % 2 != 0 {
                    return false;
                }
                let ghost items = self@->Array_0;
                let mut i: usize = 0;
                while i < n
                    invariant
                        i <= n,
                        i % 2 == 0,
                        n % 2 == 0,
                        n == arr.len(),
                        self@ == ValueView::Array(items),
                        items.len() == n,
                        forall|j: int| 0 <= j < n ==> items[j] == (#[trigger] arr[j])@,
                        forall|j: int|
                            0 <= j < i && j % 2 == 0 ==> !(#[trigger] items[j]).is_aggregate(),
                    decreases n - i,
                {
                    if arr[i].is_aggregate_type() {
                        assert(items[i as int].is_aggregate());
                        return false;
                    }
                    i += 2;
                }
                true
            },
            _ => false,
        }
    }

    /// The value as a map. A map is itself. An array of even length is read as a
    /// flattened map, from its last pair to its first; it is refused as an
    /// invalid argument where an element at an even position converts to no key.
    /// An array of odd length is malformed, and any other value is refused.
    pub fn into_map(self) -> (r: Result<RedisMap, RedisError>)
        ensures
            match self@.as_entries() {
                Ok(entries) => r is Ok && r->Ok_0@ == entries,
                Err(kind) => r is Err && r->Err_0.kind() == kind,
            },
    {
        match self {
            RedisValue::Dict(map) => Ok(map),
            RedisValue::Array(mut values) => {
                let ghost items = self@->Array_0;
                if values.len() % 2 != 0 {
                    return Err(
                        RedisError::new(
                            RedisErrorKind::MalformedAggregate,
                            "Expected an even number of elements.",
                        ),
                    );
                }
                let mut map = RedisMap::new();
                assert(items.skip(items.len() as int) =~= Seq::<ValueView>::empty());
                while values.len() >= 2
                    invariant
                        self@ == ValueView::Array(items),
                        values.len() % 2 == 0,
                        values.len() <= items.len(),
                        items.len() % 2 == 0,
                        forall|j: int|
                            0 <= j < values.len() ==> items[j] == (#[trigger] values[j])@,
                        forall|j: int|
                            values.len() <= j < items.len() && j % 2 == 0 ==> key_bytes(
                                #[trigger] items[j],
                            ) is Some,
                        map@ == paired_entries(items.skip(values.len() as int)),
                    decreases values.len(),
                {
                    let ghost rest = values.len() as int;
                    let value = values.pop().unwrap();
                    let key_value = values.pop().unwrap();
                    let key = match RedisKey::try_from(key_value) {
                        Ok(key) => key,
                        Err(e) => {
                            assert(key_bytes(items[rest - 2]) is None);
                            assert(!keys_convert(items));
                            return Err(e);
                        },
                    };
                    proof {
                        let tail = items.skip(rest - 2);
                        assert(tail.skip(2) =~= items.skip(rest));
                        assert(tail[0] == items[rest - 2]);
                        assert(tail[1] == items[rest - 1]);
                    }
                    map.insert(key, value);
                }
                assert(items.skip(0) =~= items);
                Ok(map)
            },
            _ => Err(RedisError::new(RedisErrorKind::Unknown, "Expected array.")),
        }
    }
}

impl RedisValue {
    /// The value as a list: the elements of an array, a map flattened to its
    /// keys and values in turn, and any other value alone.
    pub fn into_array(self) -> (r: Vec<RedisValue>)
        ensures
            views(r@) == self@.as_items(),
    {
        match self {
            RedisValue::Array(values) => {
                assert(views(values@) =~= self@.as_items());
                values
            },
            RedisValue::Dict(map) => {
                let ghost entries = map@;
                let ghost flat = flattened(entries);
                let mut rest = map.inner();
                let n: usize = rest.len();
                let mut reversed: Vec<RedisValue> = Vec::new();
                while rest.len() > 0
                    invariant
                        rest.len() <= n,
                        n == entries.len(),
                        flat == flattened(entries),
                        forall|j: int|
                            0 <= j < rest.len() ==> (#[trigger] rest[j]).0@ == entries[j].0
                                && rest[j].1@ == entries[j].1,
                        reversed.len() == 2 * (n - rest.len()),
                        forall|t: int|
                            0 <= t < reversed.len() ==> (#[trigger] reversed[t])@ == flat[2 * n - 1
                                - t],
                    decreases rest.len(),
                {
                    let ghost at = rest.len() as int - 1;
                    let ghost before = reversed@;
                    let (key, value) = rest.pop().unwrap();
                    reversed.push(value);
                    reversed.push(RedisValue::Bytes(key.into_bytes()));
                    proof {
                        assert(flat[2 * at] == ValueView::Bytes(entries[at].0));
                        assert(flat[2 * at + 1] == entries[at].1);
                        assert forall|t: int| 0 <= t < reversed.len() implies (
                        #[trigger] reversed[t])@ == flat[2 * n - 1 - t] by {
                            if t < before.len() {
                                assert(reversed[t] == before[t]);
                            }
                        }
                    }
                }
                let mut out: Vec<RedisValue> = Vec::new();
                while reversed.len() > 0
                    invariant
                        out.len() + reversed.len() == 2 * n,
                        flat.len() == 2 * n,
                        forall|t: int|
                            0 <= t < reversed.len() ==> (#[trigger] reversed[t])@ == flat[2 * n - 1
                                - t],
                        forall|t: int| 0 <= t < out.len() ==> (#[trigger] out[t])@ == flat[t],
                    decreases reversed.len(),
                {
                    let ghost before = out@;
                    let next = reversed.pop().unwrap();
                    out.push(next);
                    proof {
                        assert forall|t: int| 0 <= t < out.len() implies (#[trigger] out[t])@
                            == flat[t] by {
                            if t < before.len() {
                                assert(out[t] == before[t]);
                            }
                        }
                    }
                }
                assert(views(out@) =~= flat);
                out
            },
            _ => {
                let ghost view = self@;
                let mut out: Vec<RedisValue> = Vec::new();
                out.push(self);
                assert(views(out@) =~= seq![view]);
                out
            },
        }
    }
}

} // verus!
