//! Equality of values.
//!
//! Two values are equal when they have the same variant and equal payloads.
//! Arrays are compared element by element, maps key by key, and two floats are
//! equal when they are the same number or their bit patterns are at most
//! [`ULPS_TOLERANCE`] apart.
use crate::buffer::{bytes_eq, str_as_slice};
use crate::map::{lookup, Entries, RedisMap};
use crate::text::str_eq;
use crate::value::{RedisValue, ValueView};
use vstd::prelude::*;

verus! {

/// How many units in the last place two floats may be apart and still be equal.
pub const ULPS_TOLERANCE: u64 = 2;

/// The bit pattern of a float without its sign bit.
pub open spec fn magnitude(bits: u64) -> int {
    if bits >= 0x8000_0000_0000_0000 {
        bits - 0x8000_0000_0000_0000
    } else {
        bits as int
    }
}

/// Whether the bit pattern is that of a float that is no number: its exponent
/// bits are all set and its fraction is not zero.
pub open spec fn is_nan(bits: u64) -> bool {
    magnitude(bits) > 0x7ff0_0000_0000_0000
}

/// Whether two bit patterns are floats that are the same number: neither is no
/// number, and they are the same pattern or both a zero of either sign.
pub open spec fn same_number(a: u64, b: u64) -> bool {
    !is_nan(a) && !is_nan(b) && (a == b || (magnitude(a) == 0 && magnitude(b) == 0))
}

/// How far two bit patterns are apart as 64-bit integers that wrap around. For
/// two floats of one sign this is the number of floats between them, plus one.
pub open spec fn ulps_apart(a: u64, b: u64) -> int {
    let d = if a >= b {
        a - b
    } else {
        b - a
    };
    if d <= 0x8000_0000_0000_0000 {
        d
    } else {
        0x1_0000_0000_0000_0000 - d
    }
}

/// Whether two floats, given by their bit patterns, are equal within the
/// tolerance: they are the same number, or their patterns are at most
/// [`ULPS_TOLERANCE`] apart.
pub open spec fn doubles_close(a: u64, b: u64) -> bool {
    same_number(a, b) || ulps_apart(a, b) <= ULPS_TOLERANCE
}

/// Whether two floats are equal: within the tolerance, or bit for bit where
/// `exact` is set.
pub open spec fn doubles_equal(a: u64, b: u64, exact: bool) -> bool {
    if exact {
        a == b
    } else {
        doubles_close(a, b)
    }
}

/// Whether two values are equal: within the tolerance for floats, or with
/// floats equal bit for bit where `exact` is set.
pub open spec fn values_equal_with(a: ValueView, b: ValueView, exact: bool) -> bool
    decreases a,
{
    match (a, b) {
        (ValueView::Boolean(x), ValueView::Boolean(y)) => x == y,
        (ValueView::Integer(x), ValueView::Integer(y)) => x == y,
        (ValueView::Double(x, _), ValueView::Double(y, _)) => doubles_equal(x, y, exact),
        (ValueView::String(x), ValueView::String(y)) => x == y,
        (ValueView::Bytes(x), ValueView::Bytes(y)) => x == y,
        (ValueView::Null, ValueView::Null) => true,
        (ValueView::Queued, ValueView::Queued) => true,
        (ValueView::Dict(x), ValueView::Dict(y)) => x.len() == y.len() && entries_within(
            x,
            y,
            exact,
        ),
        (ValueView::Array(x), ValueView::Array(y)) => x.len() == y.len() && items_equal_with(
            x,
            y,
            exact,
        ),
        _ => false,
    }
}

/// Whether two lists of one length are equal element by element.
pub open spec fn items_equal_with(x: Seq<ValueView>, y: Seq<ValueView>, exact: bool) -> bool
    decreases x,
{
    if x.len() == 0 || y.len() != x.len() {
        true
    } else {
        items_equal_with(x.drop_last(), y.drop_last(), exact) && values_equal_with(
            x.last(),
            y.last(),
            exact,
        )
    }
}

/// Whether each of the entries `x` has an equal value under the same key among
/// the entries `y`.
pub open spec fn entries_within(x: Entries, y: Entries, exact: bool) -> bool
    decreases x,
{
    if x.len() == 0 {
        true
    } else {
        entries_within(x.drop_last(), y, exact) && match lookup(y, x.last().0) {
            Some(v) => values_equal_with(x.last().1, v, exact),
            None => false,
        }
    }
}

/// Whether two maps are equal: they have as many entries, and each key of the
/// first has an equal value in the second.
pub open spec fn entries_equal(x: Entries, y: Entries) -> bool {
    x.len() == y.len() && entries_within(x, y, false)
}

/// Whether two values are equal, with floats compared within the tolerance.
pub open spec fn values_equal(a: ValueView, b: ValueView) -> bool {
    values_equal_with(a, b, false)
}

/// Whether two values are equal, with floats compared bit for bit.
pub open spec fn values_identical(a: ValueView, b: ValueView) -> bool {
    values_equal_with(a, b, true)
}

/// Two lists of one length are equal exactly when their elements are, place by
/// place.
pub proof fn lemma_items_equal(x: Seq<ValueView>, y: Seq<ValueView>, exact: bool)
    requires
        x.len() == y.len(),
    ensures
        items_equal_with(x, y, exact) <==> forall|i: int|
            0 <= i < x.len() ==> values_equal_with(#[trigger] x[i], y[i], exact),
    decreases x.len(),
{
    if x.len() > 0 {
        let xf = x.drop_last();
        let yf = y.drop_last();
        lemma_items_equal(xf, yf, exact);
        if items_equal_with(x, y, exact) {
            assert forall|i: int| 0 <= i < x.len() implies values_equal_with(
                #[trigger] x[i],
                y[i],
                exact,
            ) by {
                if i < xf.len() {
                    assert(xf[i] == x[i]);
                    assert(yf[i] == y[i]);
                }
            }
        } else {
            if items_equal_with(xf, yf, exact) {
                assert(!values_equal_with(x[x.len() - 1], y[x.len() - 1], exact));
            } else {
                let i = choose|i: int|
                    0 <= i < xf.len() && !values_equal_with(#[trigger] xf[i], yf[i], exact);
                assert(xf[i] == x[i]);
                assert(yf[i] == y[i]);
            }
        }
    }
}

/// The entries `x` are within `y` exactly when each of them has an equal value
/// under the same key in `y`.
pub proof fn lemma_entries_within(x: Entries, y: Entries, exact: bool)
    ensures
        entries_within(x, y, exact) <==> forall|i: int|
            0 <= i < x.len() ==> {
                &&& lookup(y, (#[trigger] x[i]).0) is Some
                &&& values_equal_with(x[i].1, lookup(y, x[i].0)->Some_0, exact)
            },
    decreases x.len(),
{
    if x.len() > 0 {
        let xf = x.drop_last();
        lemma_entries_within(xf, y, exact);
        if entries_within(x, y, exact) {
            assert forall|i: int| 0 <= i < x.len() implies {
                &&& lookup(y, (#[trigger] x[i]).0) is Some
                &&& values_equal_with(x[i].1, lookup(y, x[i].0)->Some_0, exact)
            } by {
                if i < xf.len() {
                    assert(xf[i] == x[i]);
                }
            }
        } else {
            if entries_within(xf, y, exact) {
                let last = x[x.len() - 1];
                assert(!(lookup(y, last.0) is Some && values_equal_with(
                    last.1,
                    lookup(y, last.0)->Some_0,
                    exact,
                )));
            } else {
                let i = choose|i: int|
                    0 <= i < xf.len() && !(lookup(y, (#[trigger] xf[i]).0) is Some
                        && values_equal_with(xf[i].1, lookup(y, xf[i].0)->Some_0, exact));
                assert(xf[i] == x[i]);
            }
        }
    }
}

/// The comparison of a list extends that of its first elements by one element.
proof fn lemma_items_step(x: Seq<ValueView>, y: Seq<ValueView>, i: int, exact: bool)
    requires
        0 <= i < x.len(),
        x.len() == y.len(),
    ensures
        items_equal_with(x.take(i + 1), y.take(i + 1), exact) == (items_equal_with(
            x.take(i),
            y.take(i),
            exact,
        ) && values_equal_with(x[i], y[i], exact)),
{
    assert(x.take(i + 1).drop_last() =~= x.take(i));
    assert(y.take(i + 1).drop_last() =~= y.take(i));
}

/// A difference among the first elements of two lists is a difference of the
/// lists.
proof fn lemma_items_differ(x: Seq<ValueView>, y: Seq<ValueView>, i: int, exact: bool)
    requires
        0 <= i <= x.len(),
        x.len() == y.len(),
        !items_equal_with(x.take(i), y.take(i), exact),
    ensures
        !items_equal_with(x, y, exact),
    decreases x.len() - i,
{
    if i == x.len() {
        assert(x.take(i) =~= x);
        assert(y.take(i) =~= y);
    } else {
        lemma_items_step(x, y, i, exact);
        lemma_items_differ(x, y, i + 1, exact);
    }
}

/// The comparison of the entries of a map extends that of its first entries by
/// one entry.
proof fn lemma_entries_step(x: Entries, y: Entries, i: int, exact: bool)
    requires
        0 <= i < x.len(),
    ensures
        entries_within(x.take(i + 1), y, exact) == (entries_within(x.take(i), y, exact)
            && match lookup(y, x[i].0) {
            Some(v) => values_equal_with(x[i].1, v, exact),
            None => false,
        }),
{
    assert(x.take(i + 1).drop_last() =~= x.take(i));
}

/// A difference among the first entries of a map is a difference of the map.
proof fn lemma_entries_differ(x: Entries, y: Entries, i: int, exact: bool)
    requires
        0 <= i <= x.len(),
        !entries_within(x.take(i), y, exact),
    ensures
        !entries_within(x, y, exact),
    decreases x.len() - i,
{
    if i == x.len() {
        assert(x.take(i) =~= x);
    } else {
        lemma_entries_step(x, y, i, exact);
        lemma_entries_differ(x, y, i + 1, exact);
    }
}

/// Whether two floats, given by their bit patterns, are equal within the
/// tolerance.
pub fn doubles_are_close(a: u64, b: u64) -> (r: bool)
    ensures
        r == doubles_close(a, b),
{
    let sign: u64 = 0x8000_0000_0000_0000;
    let infinity: u64 = 0x7ff0_0000_0000_0000;
    let a_magnitude: u64 = if a >= sign {
        a - sign
    } else {
        a
    };
    let b_magnitude: u64 = if b >= sign {
        b - sign
    } else {
        b
    };
    let same = a_magnitude <= infinity && b_magnitude <= infinity && (a == b || (a_magnitude == 0
        && b_magnitude == 0));
    let d: u64 = if a >= b {
        a - b
    } else {
        b - a
    };
    same || d <= ULPS_TOLERANCE || d >= u64::MAX - ULPS_TOLERANCE + 1
}

impl RedisValue {
    /// Whether two values are equal: within the tolerance for floats, or with
    /// floats equal bit for bit where `exact` is set.
    pub fn equals_with(&self, other: &RedisValue, exact: bool) -> (r: bool)
        ensures
            r == values_equal_with(self@, other@, exact),
        decreases self,
    {
        match self {
            RedisValue::Boolean(x) => match other {
                RedisValue::Boolean(y) => *x == *y,
                _ => false,
            },
            RedisValue::Integer(x) => match other {
                RedisValue::Integer(y) => *x == *y,
                _ => false,
            },
            RedisValue::Double(x) => match other {
                RedisValue::Double(y) => if exact {
                    x.bits == y.bits
                } else {
                    doubles_are_close(x.bits, y.bits)
                },
                _ => false,
            },
            RedisValue::String(x) => match other {
                RedisValue::String(y) => str_eq(str_as_slice(x), str_as_slice(y)),
                _ => false,
            },
            RedisValue::Bytes(x) => match other {
                RedisValue::Bytes(y) => bytes_eq(x, y),
                _ => false,
            },
            RedisValue::Null => match other {
                RedisValue::Null => true,
                _ => false,
            },
            RedisValue::Queued => match other {
                RedisValue::Queued => true,
                _ => false,
            },
            RedisValue::Dict(x) => match other {
                RedisValue::Dict(y) => {
                    if x.len() != y.len() {
                        return false;
                    }
                    let n: usize = x.len();
                    let mut i: usize = 0;
                    assert(x@.take(0) =~= Entries::empty());
                    while i < n
                        invariant
                            i <= n,
                            n == x.inner.len(),
                            n == x@.len(),
                            n == y@.len(),
                            self == RedisValue::Dict(*x),
                            self@ == ValueView::Dict(x@),
                            other@ == ValueView::Dict(y@),
                            entries_within(x@.take(i as int), y@, exact),
                        decreases n - i,
                    {
                        proof {
                            lemma_entries_step(x@, y@, i as int, exact);
                        }
                        let found = match y.get(&x.inner[i].0) {
                            Some(v) => x.inner[i].1.equals_with(v, exact),
                            None => false,
                        };
                        if !found {
                            proof {
                                lemma_entries_differ(x@, y@, i as int + 1, exact);
                            }
                            return false;
                        }
                        i += 1;
                    }
                    assert(x@.take(n as int) =~= x@);
                    true
                },
                _ => false,
            },
            RedisValue::Array(x) => match other {
                RedisValue::Array(y) => {
                    if x.len() != y.len() {
                        return false;
                    }
                    let n: usize = x.len();
                    let ghost xs = self@->Array_0;
                    let ghost ys = other@->Array_0;
                    let mut i: usize = 0;
                    assert(xs.take(0) =~= Seq::<ValueView>::empty());
                    while i < n
                        invariant
                            i <= n,
                            n == x.len(),
                            n == y.len(),
                            self == RedisValue::Array(*x),
                            self@ == ValueView::Array(xs),
                            other@ == ValueView::Array(ys),
                            xs.len() == n,
                            ys.len() == n,
                            forall|j: int| 0 <= j < n ==> xs[j] == (#[trigger] x[j])@,
                            forall|j: int| 0 <= j < n ==> ys[j] == (#[trigger] y[j])@,
                            items_equal_with(xs.take(i as int), ys.take(i as int), exact),
                        decreases n - i,
                    {
                        proof {
                            lemma_items_step(xs, ys, i as int, exact);
                        }
                        if !x[i].equals_with(&y[i], exact) {
                            proof {
                                lemma_items_differ(xs, ys, i as int + 1, exact);
                            }
                            return false;
                        }
                        i += 1;
                    }
                    assert(xs.take(n as int) =~= xs);
                    assert(ys.take(n as int) =~= ys);
                    true
                },
                _ => false,
            },
        }
    }

    /// Whether two values are equal with floats that are the same bit for bit.
    pub fn same_as(&self, other: &RedisValue) -> (r: bool)
        ensures
            r == values_identical(self@, other@),
    {
        self.equals_with(other, true)
    }
}

impl RedisMap {
    /// Whether two maps are equal: they have as many entries, and each key of
    /// the first has an equal value in the second.
    pub fn equals(&self, other: &RedisMap) -> (r: bool)
        ensures
            r == entries_equal(self@, other@),
    {
        if self.len() != other.len() {
            return false;
        }
        let n: usize = self.len();
        let mut i: usize = 0;
        assert(self@.take(0) =~= Entries::empty());
        while i < n
            invariant
                i <= n,
                n == self.inner.len(),
                n == self@.len(),
                n == other@.len(),
                entries_within(self@.take(i as int), other@, false),
            decreases n - i,
        {
            proof {
                lemma_entries_step(self@, other@, i as int, false);
            }
            let found = match other.get(&self.inner[i].0) {
                Some(v) => self.inner[i].1.equals_with(v, false),
                None => false,
            };
            if !found {
                proof {
                    lemma_entries_differ(self@, other@, i as int + 1, false);
                }
                return false;
            }
            i += 1;
        }
        assert(self@.take(n as int) =~= self@);
        true
    }
}

} // verus!
