use redis_args::{RedisError, RedisErrorKind, RedisKey, RedisMap, RedisValue};
use std::cell::Cell;
use std::collections::VecDeque;
use std::convert::TryInto;
use std::rc::Rc;

#[test]
fn new_map_is_empty() {
    let map = RedisMap::new();
    assert_eq!(map.len(), 0);
    assert!(!map.contains_key(&RedisKey::from("a")));
    assert!(map.get(&RedisKey::from("a")).is_none());
    assert_eq!(map.inner().len(), 0);
}

#[test]
fn insert_stores_and_replaces() {
    let mut map = RedisMap::new();
    assert!(map.insert(RedisKey::from("a"), RedisValue::Integer(1)).is_none());
    assert!(map.insert(RedisKey::from("b"), RedisValue::Integer(2)).is_none());
    assert_eq!(map.len(), 2);
    let old = map.insert(RedisKey::from("a"), RedisValue::Integer(3)).unwrap();
    assert!(old.same_as(&RedisValue::Integer(1)));
    assert_eq!(map.len(), 2);
    assert!(map.get(&RedisKey::from("a")).unwrap().same_as(&RedisValue::Integer(3)));
    assert!(map.get(&RedisKey::from("b")).unwrap().same_as(&RedisValue::Integer(2)));
    assert!(map.contains_key(&RedisKey::from(&b"a"[..])));
    assert!(!map.contains_key(&RedisKey::from("c")));
    let entries = map.inner();
    assert_eq!(entries.len(), 2);
    assert_eq!(entries[0].0.as_bytes(), b"a");
    assert!(entries[0].1.same_as(&RedisValue::Integer(3)));
    assert_eq!(entries[1].0.as_bytes(), b"b");
}

#[test]
fn take_leaves_an_empty_map() {
    let mut map = RedisMap::new();
    map.insert(RedisKey::from("a"), RedisValue::Integer(1));
    let taken = map.take();
    assert_eq!(map.len(), 0);
    assert_eq!(taken.len(), 1);
    assert!(taken.get(&RedisKey::from("a")).unwrap().same_as(&RedisValue::Integer(1)));
    assert_eq!(map.take().len(), 0);
}

#[test]
fn map_from_pairs() {
    let map = RedisMap::try_from(vec![("a", 1i64), ("b", 2i64), ("a", 3i64)]).unwrap();
    assert_eq!(map.len(), 2);
    assert!(map.get(&RedisKey::from("a")).unwrap().same_as(&RedisValue::Integer(3)));
    assert!(map.get(&RedisKey::from("b")).unwrap().same_as(&RedisValue::Integer(2)));
    let empty = RedisMap::try_from(Vec::<(&str, i64)>::new()).unwrap();
    assert_eq!(empty.len(), 0);
}

#[test]
fn map_from_a_single_pair() {
    let map = RedisMap::try_from(("k", "v")).unwrap();
    assert_eq!(map.len(), 1);
    assert!(map.get(&RedisKey::from("k")).unwrap().same_as(&RedisValue::from("v")));
    let map = RedisMap::try_from((5u8, true)).unwrap();
    assert!(map.get(&RedisKey::from("5")).unwrap().same_as(&RedisValue::Boolean(true)));
}

#[test]
fn map_from_pairs_refuses_a_map_as_key() {
    let pairs = vec![
        (RedisValue::from("a"), RedisValue::Integer(1)),
        (RedisValue::Dict(RedisMap::new()), RedisValue::Integer(2)),
        (RedisValue::from("c"), RedisValue::Integer(3)),
    ];
    let err = RedisMap::try_from(pairs).unwrap_err();
    assert_eq!(err.kind(), RedisErrorKind::InvalidArgument);
    assert_eq!(err.details(), "Cannot convert to key.");
}

#[test]
fn map_from_pairs_accepts_a_map_as_value() {
    let pairs = vec![
        (RedisValue::from("a"), RedisValue::Dict(RedisMap::new())),
        (RedisValue::Integer(2), RedisValue::Array(vec![])),
    ];
    let map = RedisMap::try_from(pairs).unwrap();
    assert_eq!(map.len(), 2);
    assert!(map.get(&RedisKey::from("a")).unwrap().is_map());
    assert!(map.get(&RedisKey::from("2")).unwrap().is_array());
}

#[test]
fn map_from_pairs_refuses_a_value_out_of_range() {
    let err = RedisMap::try_from(vec![("a", 1u64), ("b", u64::MAX), ("c", 3u64)]).unwrap_err();
    assert_eq!(err.kind(), RedisErrorKind::InvalidArgument);
    let err = RedisMap::try_from(("a", u128::MAX)).unwrap_err();
    assert_eq!(err.kind(), RedisErrorKind::InvalidArgument);
    let err = RedisMap::try_from((RedisValue::Null, 1i64)).unwrap_err();
    assert_eq!(err.kind(), RedisErrorKind::InvalidArgument);
}

#[test]
fn map_from_entries_gives_the_first_error() {
    let first = RedisError::new(RedisErrorKind::Unknown, "first");
    let second = RedisError::new(RedisErrorKind::InvalidArgument, "second");
    let third = RedisError::new(RedisErrorKind::MalformedAggregate, "third");
    let pairs = vec![
        (Ok(RedisKey::from("a")), Ok(RedisValue::Integer(1))),
        (Ok(RedisKey::from("b")), Err(first)),
        (Err(second), Err(third)),
    ];
    assert_eq!(RedisMap::try_from_entries(pairs).unwrap_err(), first);
    let pairs = vec![
        (Ok(RedisKey::from("a")), Ok(RedisValue::Integer(1))),
        (Err(second), Err(third)),
        (Ok(RedisKey::from("b")), Err(first)),
    ];
    assert_eq!(RedisMap::try_from_entries(pairs).unwrap_err(), second);
    let pairs = vec![(Ok(RedisKey::from("a")), Err(third))];
    assert_eq!(RedisMap::try_from_entries(pairs).unwrap_err(), third);
}

#[test]
fn map_from_entries_stores_in_turn() {
    let pairs = vec![
        (Ok(RedisKey::from("a")), Ok(RedisValue::Integer(1))),
        (Ok(RedisKey::from("b")), Ok(RedisValue::Integer(2))),
        (Ok(RedisKey::from("a")), Ok(RedisValue::Integer(3))),
    ];
    let map = RedisMap::try_from_entries(pairs).unwrap();
    assert_eq!(map.len(), 2);
    assert!(map.get(&RedisKey::from("a")).unwrap().same_as(&RedisValue::Integer(3)));
    assert_eq!(RedisMap::try_from_entries(vec![]).unwrap().len(), 0);
}

#[test]
fn map_from_a_borrowed_map_copies() {
    let mut map = RedisMap::new();
    map.insert(RedisKey::from("a"), RedisValue::from("x"));
    let copy = RedisMap::from(&map);
    map.insert(RedisKey::from("b"), RedisValue::Null);
    assert_eq!(copy.len(), 1);
    assert!(copy.get(&RedisKey::from("a")).unwrap().same_as(&RedisValue::from("x")));
}

#[test]
fn errors_carry_kind_and_details() {
    let e = RedisError::new(RedisErrorKind::MalformedAggregate, "odd");
    assert_eq!(e.kind(), RedisErrorKind::MalformedAggregate);
    assert_eq!(e.details(), "odd");
    assert_ne!(e, RedisError::new(RedisErrorKind::Unknown, "odd"));
}

#[test]
fn map_from_a_queue_of_pairs() {
    let mut queue = VecDeque::new();
    queue.push_back(("a", 1i64));
    queue.push_back(("b", 2i64));
    queue.push_front(("a", 0i64));
    let map = RedisMap::try_from(queue).unwrap();
    assert_eq!(map.len(), 2);
    assert_eq!(map.get(&RedisKey::from("a")), Some(&RedisValue::Integer(1)));
    assert_eq!(map.get(&RedisKey::from("b")), Some(&RedisValue::Integer(2)));
    let mut failing = VecDeque::new();
    failing.push_back((RedisValue::from("a"), 1u64));
    failing.push_back((RedisValue::Array(vec![]), u64::MAX));
    let err = RedisMap::try_from(failing).unwrap_err();
    assert_eq!(err.kind(), RedisErrorKind::InvalidArgument);
    assert_eq!(err.details(), "Cannot convert to key.");
}

#[test]
fn map_from_pairs_puts_the_key_error_first() {
    let err = RedisMap::try_from(vec![(RedisValue::Null, u64::MAX)]).unwrap_err();
    assert_eq!(err.details(), "Cannot convert to key.");
    let err = RedisMap::try_from(vec![(RedisValue::from("k"), u64::MAX)]).unwrap_err();
    assert_eq!(err.details(), "Unsigned integer out of range.");
    let err = RedisMap::try_from(vec![
        (RedisValue::from("k"), 1u64),
        (RedisValue::from("l"), u64::MAX),
        (RedisValue::Null, 3u64),
    ])
    .unwrap_err();
    assert_eq!(err.details(), "Unsigned integer out of range.");
}

struct CountedKey {
    name: &'static str,
    fails: bool,
    calls: Rc<Cell<u32>>,
}

impl TryInto<RedisKey> for CountedKey {
    type Error = RedisError;

    fn try_into(self) -> Result<RedisKey, RedisError> {
        self.calls.set(self.calls.get() + 1);
        if self.fails {
            Err(RedisError::new(RedisErrorKind::InvalidArgument, self.name))
        } else {
            Ok(RedisKey::from(self.name))
        }
    }
}

fn counted(name: &'static str, fails: bool, calls: &Rc<Cell<u32>>) -> CountedKey {
    CountedKey { name, fails, calls: calls.clone() }
}

#[test]
fn map_from_pairs_converts_in_turn_and_stops_at_the_first_failure() {
    let calls = Rc::new(Cell::new(0));
    let pairs = vec![
        (counted("a", false, &calls), 1i64),
        (counted("b", true, &calls), 2i64),
        (counted("c", true, &calls), 3i64),
        (counted("d", false, &calls), 4i64),
    ];
    let err = RedisMap::try_from(pairs).unwrap_err();
    assert_eq!(err.details(), "b");
    assert_eq!(calls.get(), 2);
    let calls = Rc::new(Cell::new(0));
    let pairs = vec![(counted("a", false, &calls), 1i64), (counted("b", false, &calls), 2i64)];
    let map = RedisMap::try_from(pairs).unwrap();
    assert_eq!(map.len(), 2);
    assert_eq!(calls.get(), 2);
    assert_eq!(map.entries()[0].0.as_bytes(), b"a");
    assert_eq!(map.entries()[1].0.as_bytes(), b"b");
}

#[test]
fn map_from_pairs_does_not_convert_the_value_of_a_failed_key() {
    let calls = Rc::new(Cell::new(0));
    let err = RedisMap::try_from((counted("k", true, &calls), u64::MAX)).unwrap_err();
    assert_eq!(err.details(), "k");
    assert_eq!(calls.get(), 1);
}

#[test]
fn entries_are_lent_in_the_order_of_the_map() {
    let mut map = RedisMap::new();
    assert_eq!(map.entries().len(), 0);
    map.insert(RedisKey::from("a"), RedisValue::Integer(1));
    map.insert(RedisKey::from("b"), RedisValue::from("two"));
    map.insert(RedisKey::from("a"), RedisValue::Integer(3));
    let entries = map.entries();
    assert_eq!(entries.len(), 2);
    assert_eq!(entries[0].0, RedisKey::from("a"));
    assert_eq!(entries[0].1, RedisValue::Integer(3));
    assert_eq!(entries[1].0, RedisKey::from("b"));
    assert_eq!(entries[1].1, RedisValue::from("two"));
    let keys: Vec<&[u8]> = map.entries().iter().map(|(k, _)| k.as_bytes()).collect();
    assert_eq!(keys, vec![&b"a"[..], &b"b"[..]]);
    assert_eq!(map.len(), 2);
}
