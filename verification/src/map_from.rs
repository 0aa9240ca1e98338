//! Maps out of pairs whose conversions may fail.
use crate::error::RedisError;
use crate::key::RedisKey;
use crate::map::{with_entry, Entries, RedisMap};
use crate::value::RedisValue;
use std::collections::VecDeque;
use vstd::prelude::*;
use vstd::std_specs::convert::{FromSpecImpl, TryFromSpecImpl};

verus! {

/// A pair of a key and a value, each as its conversion left it.
pub type Converted = (Result<RedisKey, RedisError>, Result<RedisValue, RedisError>);

/// The error of a pair, if one of its conversions failed: that of the key
/// before that of the value.
pub open spec fn pair_error(pair: Converted) -> Option<RedisError> {
    match pair {
        (Err(e), _) => Some(e),
        (Ok(_), Err(e)) => Some(e),
        (Ok(_), Ok(_)) => None,
    }
}

/// The position of the first pair with a failed conversion, or the number of
/// pairs where there is none.
pub open spec fn first_failure(pairs: Seq<Converted>) -> int
    decreases pairs.len(),
{
    if pairs.len() == 0 {
        0
    } else if pair_error(pairs[0]) is Some {
        0
    } else {
        1 + first_failure(pairs.drop_first())
    }
}

/// The entries after the first `n` pairs are stored, one after the other. It is
/// for pairs whose conversions succeeded.
pub open spec fn stored(pairs: Seq<Converted>, n: int) -> Entries
    decreases n,
{
    if n <= 0 {
        Seq::empty()
    } else {
        with_entry(
            stored(pairs, n - 1),
            pairs[n - 1].0->Ok_0@,
            pairs[n - 1].1->Ok_0@,
        )
    }
}

/// No pair before the first failure has failed, and the pair there has.
pub proof fn lemma_first_failure(pairs: Seq<Converted>)
    ensures
        0 <= first_failure(pairs) <= pairs.len(),
        forall|i: int| 0 <= i < first_failure(pairs) ==> pair_error(#[trigger] pairs[i]) is None,
        first_failure(pairs) < pairs.len() ==> pair_error(pairs[first_failure(pairs)]) is Some,
    decreases pairs.len(),
{
    if pairs.len() > 0 && pair_error(pairs[0]) is None {
        let rest = pairs.drop_first();
        lemma_first_failure(rest);
        assert forall|i: int| 0 <= i < first_failure(pairs) implies pair_error(
            #[trigger] pairs[i],
        ) is None by {
            if i > 0 {
                assert(pairs[i] == rest[i - 1]);
            }
        }
        if first_failure(pairs) < pairs.len() {
            assert(pairs[first_failure(pairs)] == rest[first_failure(rest)]);
        }
    }
}

/// The first failure is the least position of a failed pair.
pub proof fn lemma_first_failure_is(pairs: Seq<Converted>, at: int)
    requires
        0 <= at <= pairs.len(),
        forall|i: int| 0 <= i < at ==> pair_error(#[trigger] pairs[i]) is None,
        at < pairs.len() ==> pair_error(pairs[at]) is Some,
    ensures
        first_failure(pairs) == at,
{
    lemma_first_failure(pairs);
    let f = first_failure(pairs);
    if f < at {
        assert(pair_error(pairs[f]) is None);
    } else if at < f {
        assert(pair_error(pairs[at]) is None);
    }
}

/// Whether `r` is what the pairs build: the error of the first pair with a
/// failed conversion, or else the map in which the pairs are stored in turn.
pub open spec fn built(pairs: Seq<Converted>, r: Result<RedisMap, RedisError>) -> bool {
    &&& first_failure(pairs) < pairs.len() ==> r == Err::<RedisMap, RedisError>(
        pair_error(pairs[first_failure(pairs)])->Some_0,
    )
    &&& first_failure(pairs) == pairs.len() ==> r is Ok && r->Ok_0@ == stored(
        pairs,
        pairs.len() as int,
    )
}

/// Builds the map of pairs that are given from the last to the first.
fn build_backwards(reversed: Vec<Converted>) -> (r: Result<RedisMap, RedisError>)
    ensures
        built(reversed@.reverse(), r),
{
    let ghost all = reversed@.reverse();
    let mut rest = reversed;
    let mut map = RedisMap::new();
    let ghost mut done: int = 0;
    while rest.len() > 0
        invariant
            all == reversed@.reverse(),
            0 <= done,
            done + rest.len() == all.len(),
            forall|t: int| 0 <= t < rest.len() ==> #[trigger] rest[t] == all[all.len() - 1 - t],
            forall|i: int| 0 <= i < done ==> pair_error(#[trigger] all[i]) is None,
            map@ == stored(all, done),
        decreases rest.len(),
    {
        let pair = rest.pop().unwrap();
        assert(pair == all[done]);
        let key = match pair.0 {
            Ok(key) => key,
            Err(e) => {
                proof {
                    lemma_first_failure_is(all, done);
                }
                return Err(e);
            },
        };
        let value = match pair.1 {
            Ok(value) => value,
            Err(e) => {
                proof {
                    lemma_first_failure_is(all, done);
                }
                return Err(e);
            },
        };
        map.insert(key, value);
        proof {
            done = done + 1;
        }
    }
    proof {
        lemma_first_failure_is(all, done);
    }
    Ok(map)
}

impl RedisMap {
    /// A map out of pairs of a key and a value, each of which may have failed to
    /// convert. Where a conversion failed, the error of the first such pair
    /// comes back, that of its key before that of its value, and no map is
    /// made. Otherwise the pairs are stored in turn.
    pub fn try_from_entries(pairs: Vec<Converted>) -> (r: Result<RedisMap, RedisError>)
        ensures
            built(pairs@, r),
    {
        let mut rest = pairs;
        let mut reversed: Vec<Converted> = Vec::new();
        while rest.len() > 0
            invariant
                rest.len() + reversed.len() == pairs@.len(),
                forall|j: int| 0 <= j < rest.len() ==> #[trigger] rest[j] == pairs@[j],
                forall|t: int|
                    0 <= t < reversed.len() ==> #[trigger] reversed[t] == pairs@[pairs@.len() - 1
                        - t],
            decreases rest.len(),
        {
            let ghost before = reversed@;
            let pair = rest.pop().unwrap();
            reversed.push(pair);
            proof {
                assert forall|t: int| 0 <= t < reversed.len() implies #[trigger] reversed[t]
                    == pairs@[pairs@.len() - 1 - t] by {
                    if t < before.len() {
                        assert(reversed[t] == before[t]);
                    }
                }
            }
        }
        assert(reversed@.reverse() =~= pairs@);
        build_backwards(reversed)
    }
}

/// Whether `c` is an outcome of the conversion of a key: what the conversion
/// gave, or the conversion of the error that it gave.
pub open spec fn key_outcome<K>(key: K, c: Result<RedisKey, RedisError>) -> bool where
    K: TryInto<RedisKey>,
    K::Error: Into<RedisError>,
 {
    match c {
        Ok(converted) => call_ensures(K::try_into, (key,), Ok::<RedisKey, K::Error>(converted)),
        Err(e) => exists|inner: K::Error|
            {
                &&& #[trigger] call_ensures(K::try_into, (key,), Err::<RedisKey, K::Error>(inner))
                &&& call_ensures(<K::Error as Into<RedisError>>::into, (inner,), e)
            },
    }
}

/// Whether `c` is an outcome of the conversion of a value: what the conversion
/// gave, or the conversion of the error that it gave.
pub open spec fn value_outcome<V>(value: V, c: Result<RedisValue, RedisError>) -> bool where
    V: TryInto<RedisValue>,
    V::Error: Into<RedisError>,
 {
    match c {
        Ok(converted) => call_ensures(
            V::try_into,
            (value,),
            Ok::<RedisValue, V::Error>(converted),
        ),
        Err(e) => exists|inner: V::Error|
            {
                &&& #[trigger] call_ensures(
                    V::try_into,
                    (value,),
                    Err::<RedisValue, V::Error>(inner),
                )
                &&& call_ensures(<V::Error as Into<RedisError>>::into, (inner,), e)
            },
    }
}

/// Whether `c` is an outcome of the conversions of a pair. The key is converted
/// first, and the value only where the key converted.
pub open spec fn converts<K, V>(pair: (K, V), c: Converted) -> bool where
    K: TryInto<RedisKey>,
    K::Error: Into<RedisError>,
    V: TryInto<RedisValue>,
    V::Error: Into<RedisError>,
 {
    &&& key_outcome(pair.0, c.0)
    &&& c.0 is Ok ==> value_outcome(pair.1, c.1)
}

/// Whether `r` is what the pairs build. The pairs are converted in turn, up to
/// the first conversion that fails: there are outcomes of these conversions,
/// one for each pair that was reached, that build `r`, and a pair is left out
/// only after a failure.
pub open spec fn built_from<K, V>(
    values: Seq<(K, V)>,
    r: Result<RedisMap, RedisError>,
) -> bool where
    K: TryInto<RedisKey>,
    K::Error: Into<RedisError>,
    V: TryInto<RedisValue>,
    V::Error: Into<RedisError>,
 {
    exists|outcomes: Seq<Converted>|
        {
            &&& #[trigger] built(outcomes, r)
            &&& outcomes.len() <= values.len()
            &&& forall|i: int|
                0 <= i < outcomes.len() ==> converts(values[i], #[trigger] outcomes[i])
            &&& outcomes.len() < values.len() ==> first_failure(outcomes) < outcomes.len()
        }
}

/// What is stored of some pairs depends on these pairs alone.
proof fn lemma_stored_prefix(a: Seq<Converted>, b: Seq<Converted>, n: int)
    requires
        0 <= n <= a.len(),
        n <= b.len(),
        forall|i: int| 0 <= i < n ==> a[i] == b[i],
    ensures
        stored(a, n) == stored(b, n),
    decreases n,
{
    if n > 0 {
        lemma_stored_prefix(a, b, n - 1);
    }
}

/// Converts a key, and the error of a failed conversion.
fn convert_key<K>(key: K) -> (c: Result<RedisKey, RedisError>) where
    K: TryInto<RedisKey>,
    K::Error: Into<RedisError>,

    ensures
        key_outcome(key, c),
{
    match key.try_into() {
        Ok(converted) => Ok(converted),
        Err(e) => Err(e.into()),
    }
}

/// Converts a value, and the error of a failed conversion.
fn convert_value<V>(value: V) -> (c: Result<RedisValue, RedisError>) where
    V: TryInto<RedisValue>,
    V::Error: Into<RedisError>,

    ensures
        value_outcome(value, c),
{
    match value.try_into() {
        Ok(converted) => Ok(converted),
        Err(e) => Err(e.into()),
    }
}

impl RedisMap {
    /// A map out of pairs whose keys and values convert to those of a map. The
    /// pairs are converted and stored in turn. At the first conversion that
    /// fails, of a key before that of its value, its error comes back, no map
    /// is made, and the pairs that follow are not converted.
    pub fn try_from_pairs<K, V>(values: Vec<(K, V)>) -> (r: Result<RedisMap, RedisError>) where
        K: TryInto<RedisKey>,
        K::Error: Into<RedisError>,
        V: TryInto<RedisValue>,
        V::Error: Into<RedisError>,

        ensures
            built_from(values@, r),
    {
        let ghost n = values@.len() as int;
        let mut rest = values;
        let mut reversed: Vec<(K, V)> = Vec::new();
        while rest.len() > 0
            invariant
                n == values@.len(),
                rest.len() + reversed.len() == n,
                forall|j: int| 0 <= j < rest.len() ==> #[trigger] rest[j] == values@[j],
                forall|t: int|
                    0 <= t < reversed.len() ==> #[trigger] reversed[t] == values@[n - 1 - t],
            decreases rest.len(),
        {
            let ghost before = reversed@;
            let pair = rest.pop().unwrap();
            reversed.push(pair);
            proof {
                assert forall|t: int| 0 <= t < reversed.len() implies #[trigger] reversed[t]
                    == values@[n - 1 - t] by {
                    if t < before.len() {
                        assert(reversed[t] == before[t]);
                    }
                }
            }
        }
        let mut map = RedisMap::new();
        let ghost mut outcomes: Seq<Converted> = Seq::empty();
        while reversed.len() > 0
            invariant
                n == values@.len(),
                outcomes.len() + reversed.len() == n,
                forall|t: int|
                    0 <= t < reversed.len() ==> #[trigger] reversed[t] == values@[n - 1 - t],
                forall|i: int|
                    0 <= i < outcomes.len() ==> converts(values@[i], #[trigger] outcomes[i])
                        && pair_error(outcomes[i]) is None,
                map@ == stored(outcomes, outcomes.len() as int),
            decreases reversed.len(),
        {
            let ghost done = outcomes.len() as int;
            let pair = reversed.pop().unwrap();
            assert(pair == values@[done]);
            let key = match convert_key(pair.0) {
                Ok(key) => key,
                Err(e) => {
                    proof {
                        let failed = (
                            Err::<RedisKey, RedisError>(e),
                            Ok::<RedisValue, RedisError>(RedisValue::Null),
                        );
                        let outcomes = outcomes.push(failed);
                        lemma_first_failure_is(outcomes, done);
                        assert(built(outcomes, Err::<RedisMap, RedisError>(e)));
                    }
                    return Err(e);
                },
            };
            let value = match convert_value(pair.1) {
                Ok(value) => value,
                Err(e) => {
                    proof {
                        let failed = (
                            Ok::<RedisKey, RedisError>(key),
                            Err::<RedisValue, RedisError>(e),
                        );
                        let outcomes = outcomes.push(failed);
                        lemma_first_failure_is(outcomes, done);
                        assert(built(outcomes, Err::<RedisMap, RedisError>(e)));
                    }
                    return Err(e);
                },
            };
            proof {
                let stored_pair = (
                    Ok::<RedisKey, RedisError>(key),
                    Ok::<RedisValue, RedisError>(value),
                );
                let after = outcomes.push(stored_pair);
                lemma_stored_prefix(after, outcomes, done);
                outcomes = after;
            }
            map.insert(key, value);
        }
        proof {
            lemma_first_failure_is(outcomes, outcomes.len() as int);
            assert(built(outcomes, Ok::<RedisMap, RedisError>(map)));
        }
        Ok(map)
    }
}

impl<K, V> TryFrom<Vec<(K, V)>> for RedisMap where
    K: TryInto<RedisKey>,
    K::Error: Into<RedisError>,
    V: TryInto<RedisValue>,
    V::Error: Into<RedisError>,
 {
    type Error = RedisError;

    /// A map out of a vector of pairs: see [`RedisMap::try_from_pairs`].
    fn try_from(values: Vec<(K, V)>) -> (r: Result<RedisMap, RedisError>)
        ensures
            built_from(values@, r),
    {
        RedisMap::try_from_pairs(values)
    }
}

impl<K, V> TryFromSpecImpl<Vec<(K, V)>> for RedisMap where
    K: TryInto<RedisKey>,
    K::Error: Into<RedisError>,
    V: TryInto<RedisValue>,
    V::Error: Into<RedisError>,
 {
    open spec fn obeys_try_from_spec() -> bool {
        false
    }

    open spec fn try_from_spec(values: Vec<(K, V)>) -> Result<RedisMap, RedisError> {
        arbitrary()
    }
}

impl<K, V> TryFrom<VecDeque<(K, V)>> for RedisMap where
    K: TryInto<RedisKey>,
    K::Error: Into<RedisError>,
    V: TryInto<RedisValue>,
    V::Error: Into<RedisError>,
 {
    type Error = RedisError;

    /// A map out of a queue of pairs, taken from its front to its back: see
    /// [`RedisMap::try_from_pairs`].
    fn try_from(values: VecDeque<(K, V)>) -> (r: Result<RedisMap, RedisError>)
        ensures
            built_from(values@, r),
    {
        let mut rest = values;
        let mut pairs: Vec<(K, V)> = Vec::new();
        while rest.len() > 0
            invariant
                pairs@ + rest@ == values@,
            decreases rest.len(),
        {
            let pair = rest.pop_front().unwrap();
            pairs.push(pair);
            assert(pairs@ + rest@ =~= values@);
        }
        assert(pairs@ =~= values@);
        RedisMap::try_from_pairs(pairs)
    }
}

impl<K, V> TryFromSpecImpl<VecDeque<(K, V)>> for RedisMap where
    K: TryInto<RedisKey>,
    K::Error: Into<RedisError>,
    V: TryInto<RedisValue>,
    V::Error: Into<RedisError>,
 {
    open spec fn obeys_try_from_spec() -> bool {
        false
    }

    open spec fn try_from_spec(values: VecDeque<(K, V)>) -> Result<RedisMap, RedisError> {
        arbitrary()
    }
}

impl<K, V> TryFrom<(K, V)> for RedisMap where
    K: TryInto<RedisKey>,
    K::Error: Into<RedisError>,
    V: TryInto<RedisValue>,
    V::Error: Into<RedisError>,
 {
    type Error = RedisError;

    /// A map of one entry out of a pair whose key and value convert to those of
    /// a map. Where a conversion fails, its error comes back, that of the key
    /// before that of the value.
    fn try_from(pair: (K, V)) -> (r: Result<RedisMap, RedisError>)
        ensures
            built_from(seq![pair], r),
    {
        let mut pairs: Vec<(K, V)> = Vec::new();
        pairs.push(pair);
        assert(pairs@ =~= seq![pair]);
        RedisMap::try_from_pairs(pairs)
    }
}

impl<K, V> TryFromSpecImpl<(K, V)> for RedisMap where
    K: TryInto<RedisKey>,
    K::Error: Into<RedisError>,
    V: TryInto<RedisValue>,
    V::Error: Into<RedisError>,
 {
    open spec fn obeys_try_from_spec() -> bool {
        false
    }

    open spec fn try_from_spec(pair: (K, V)) -> Result<RedisMap, RedisError> {
        arbitrary()
    }
}

impl<'a> From<&'a RedisMap> for RedisMap {
    /// A map with the same entries.
    fn from(vals: &'a RedisMap) -> (m: RedisMap)
        ensures
            m@ == vals@,
    {
        vals.duplicate()
    }
}

impl<'a> FromSpecImpl<&'a RedisMap> for RedisMap {
    open spec fn obeys_from_spec() -> bool {
        false
    }

    open spec fn from_spec(vals: &'a RedisMap) -> RedisMap {
        arbitrary()
    }
}

} // verus!
