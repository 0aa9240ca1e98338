//! Values as sets: lists without repetitions.
use crate::compare::values_identical;
use crate::aggregate::flattened;
use crate::error::RedisError;
use crate::value::{views, RedisValue, ValueView};
use vstd::prelude::*;

verus! {

/// Whether a list holds a value that is the same as `v`.
pub open spec fn holds(items: Seq<ValueView>, v: ValueView) -> bool {
    exists|i: int| 0 <= i < items.len() && values_identical(#[trigger] items[i], v)
}

/// The values of a list without repetitions: each value stays where it first
/// occurs.
pub open spec fn first_occurrences(items: Seq<ValueView>) -> Seq<ValueView>
    decreases items.len(),
{
    if items.len() == 0 {
        Seq::empty()
    } else {
        let front = first_occurrences(items.drop_last());
        if holds(front, items.last()) {
            front
        } else {
            front.push(items.last())
        }
    }
}

/// Whether a list holds a value that is the same as the given one.
fn holds_value(items: &Vec<RedisValue>, value: &RedisValue) -> (r: bool)
    ensures
        r == holds(views(items@), value@),
{
    let n: usize = items.len();
    let mut i: usize = 0;
    while i < n
        invariant
            i <= n,
            n == items.len(),
            forall|j: int| 0 <= j < i ==> !values_identical(#[trigger] views(items@)[j], value@),
        decreases n - i,
    {
        if items[i].same_as(value) {
            assert(values_identical(views(items@)[i as int], value@));
            return true;
        }
        i += 1;
    }
    false
}

/// The values of a list without repetitions, each where it first occurs.
fn distinct_values(values: Vec<RedisValue>) -> (out: Vec<RedisValue>)
    ensures
        views(out@) == first_occurrences(views(values@)),
{
    let ghost items = views(values@);
    let mut rest = values;
    let mut reversed: Vec<RedisValue> = Vec::new();
    while rest.len() > 0
        invariant
            rest.len() + reversed.len() == items.len(),
            forall|j: int| 0 <= j < rest.len() ==> (#[trigger] rest[j])@ == items[j],
            forall|t: int|
                0 <= t < reversed.len() ==> (#[trigger] reversed[t])@ == items[items.len() - 1
                    - t],
        decreases rest.len(),
    {
        let ghost before = reversed@;
        let value = rest.pop().unwrap();
        reversed.push(value);
        proof {
            assert forall|t: int| 0 <= t < reversed.len() implies (#[trigger] reversed[t])@
                == items[items.len() - 1 - t] by {
                if t < before.len() {
                    assert(reversed[t] == before[t]);
                }
            }
        }
    }
    let mut out: Vec<RedisValue> = Vec::new();
    let ghost mut done: int = 0;
    assert(items.take(0) =~= Seq::<ValueView>::empty());
    assert(views(out@) =~= Seq::<ValueView>::empty());
    while reversed.len() > 0
        invariant
            0 <= done,
            done + reversed.len() == items.len(),
            forall|t: int|
                0 <= t < reversed.len() ==> (#[trigger] reversed[t])@ == items[items.len() - 1
                    - t],
            views(out@) == first_occurrences(items.take(done)),
        decreases reversed.len(),
    {
        let value = reversed.pop().unwrap();
        assert(value@ == items[done]);
        let ghost kept = views(out@);
        let found = holds_value(&out, &value);
        proof {
            assert(items.take(done + 1).drop_last() =~= items.take(done));
            assert(items.take(done + 1).last() == items[done]);
        }
        if !found {
            out.push(value);
            assert(views(out@) =~= kept.push(value@));
        }
        proof {
            done = done + 1;
        }
    }
    assert(items.take(done) =~= items);
    out
}

/// A list of one value has no repetition.
pub proof fn lemma_first_occurrences_of_one(v: ValueView)
    ensures
        first_occurrences(seq![v]) == seq![v],
{
    let one = seq![v];
    assert(one.drop_last() =~= Seq::<ValueView>::empty());
    assert(first_occurrences(one.drop_last()) =~= Seq::<ValueView>::empty());
    assert(!holds(Seq::<ValueView>::empty(), v));
    assert(Seq::<ValueView>::empty().push(one.last()) =~= one);
}

impl RedisValue {
    /// The value as a set, held as a list without repetitions: the distinct
    /// elements of an array, the distinct keys and values of a map, and any
    /// other value alone. Each element stands where it first occurs, and two
    /// elements are the same where they are equal with floats that are the same
    /// bit for bit.
    pub fn into_set(self) -> (r: Result<Vec<RedisValue>, RedisError>)
        ensures
            r is Ok,
            match self@ {
                ValueView::Array(items) => views(r->Ok_0@) == first_occurrences(items),
                ValueView::Dict(entries) => views(r->Ok_0@) == first_occurrences(
                    flattened(entries),
                ),
                _ => views(r->Ok_0@) == seq![self@],
            },
    {
        proof {
            lemma_first_occurrences_of_one(self@);
        }
        Ok(distinct_values(self.into_array()))
    }
}

} // verus!
