use redis_args::{
    FloatSource, FromRedis, RedisError, RedisErrorKind, RedisKey, RedisMap, RedisValue, RedisValueKind,
};

fn text(s: &str) -> RedisValue {
    RedisValue::from(s)
}

fn same(a: &RedisValue, b: &RedisValue) -> bool {
    a.same_as(b)
}

#[test]
fn kind_reports_each_variant() {
    assert_eq!(RedisValue::Boolean(true).kind(), RedisValueKind::Boolean);
    assert_eq!(RedisValue::Integer(1).kind(), RedisValueKind::Integer);
    assert_eq!(RedisValue::from_double(1.5f64.to_bits(), 1.5f64.to_string()).kind(), RedisValueKind::Double);
    assert_eq!(text("a").kind(), RedisValueKind::String);
    assert_eq!(RedisValue::from_static(b"a").kind(), RedisValueKind::Bytes);
    assert_eq!(RedisValue::Null.kind(), RedisValueKind::Null);
    assert_eq!(RedisValue::Queued.kind(), RedisValueKind::Queued);
    assert_eq!(RedisValue::Dict(RedisMap::new()).kind(), RedisValueKind::Dict);
    assert_eq!(RedisValue::Array(vec![]).kind(), RedisValueKind::Array);
}

#[test]
fn kind_names_are_shown() {
    assert_eq!(RedisValueKind::Null.to_string(), "nil");
    assert_eq!(RedisValueKind::Dict.to_string(), "Map");
    assert_eq!(RedisValueKind::Boolean.to_string(), "Boolean");
    assert_eq!(RedisValueKind::Array.to_string(), "Array");
}

#[test]
fn variant_predicates() {
    assert!(RedisValue::Null.is_null());
    assert!(!RedisValue::Queued.is_null());
    assert!(RedisValue::Integer(3).is_integer());
    assert!(text("x").is_string());
    assert!(RedisValue::from_static(b"x").is_bytes());
    assert!(RedisValue::Queued.is_queued());
    assert!(RedisValue::Array(vec![]).is_array());
    assert!(RedisValue::Array(vec![]).is_aggregate_type());
    assert!(RedisValue::Dict(RedisMap::new()).is_map());
    assert!(RedisValue::Dict(RedisMap::new()).is_aggregate_type());
    assert!(!text("x").is_aggregate_type());
}

#[test]
fn ok_status_is_recognised() {
    assert!(RedisValue::new_ok().is_ok());
    assert!(text("OK").is_ok());
    assert!(!text("ok").is_ok());
    assert!(!RedisValue::from_static(b"OK").is_ok());
}

#[test]
fn is_boolean_accepts_the_fixed_set() {
    for s in ["true", "false", "t", "f", "T", "F", "1", "0"] {
        assert!(text(s).is_boolean(), "{}", s);
    }
    for s in ["TRUE", "FALSE", "yes", "", "2", " true"] {
        assert!(!text(s).is_boolean(), "{}", s);
    }
    assert!(RedisValue::Boolean(false).is_boolean());
    assert!(RedisValue::Integer(0).is_boolean());
    assert!(RedisValue::Integer(1).is_boolean());
    assert!(!RedisValue::Integer(2).is_boolean());
    assert!(!RedisValue::Null.is_boolean());
}

#[test]
fn as_bool_coercions() {
    assert_eq!(RedisValue::Boolean(true).as_bool(), Some(true));
    assert_eq!(RedisValue::Integer(0).as_bool(), Some(false));
    assert_eq!(RedisValue::Integer(1).as_bool(), Some(true));
    assert_eq!(RedisValue::Integer(2).as_bool(), None);
    assert_eq!(RedisValue::Integer(-1).as_bool(), None);
    for s in ["true", "t", "T", "1"] {
        assert_eq!(text(s).as_bool(), Some(true), "{}", s);
    }
    for s in ["false", "f", "F", "0"] {
        assert_eq!(text(s).as_bool(), Some(false), "{}", s);
    }
    assert_eq!(text("TRUE").as_bool(), None);
    assert_eq!(text("FALSE").as_bool(), None);
    assert_eq!(text("on").as_bool(), None);
    assert_eq!(RedisValue::Null.as_bool(), Some(false));
    assert_eq!(RedisValue::Queued.as_bool(), None);
    assert_eq!(RedisValue::from_static(b"true").as_bool(), None);
    assert_eq!(RedisValue::Dict(RedisMap::new()).as_bool(), None);
    assert_eq!(RedisValue::Array(vec![]).as_bool(), None);
    assert_eq!(RedisValue::Array(vec![text("t"), text("t")]).as_bool(), None);
}

#[test]
fn as_i64_parses_decimal_text() {
    assert_eq!(RedisValue::Integer(-7).as_i64(), Some(-7));
    assert_eq!(text("123").as_i64(), Some(123));
    assert_eq!(text("+5").as_i64(), Some(5));
    assert_eq!(text("-5").as_i64(), Some(-5));
    assert_eq!(text("-0").as_i64(), Some(0));
    assert_eq!(text("007").as_i64(), Some(7));
    assert_eq!(text("9223372036854775807").as_i64(), Some(i64::MAX));
    assert_eq!(text("-9223372036854775808").as_i64(), Some(i64::MIN));
    assert_eq!(text("9223372036854775808").as_i64(), None);
    assert_eq!(text("-9223372036854775809").as_i64(), None);
    assert_eq!(text("").as_i64(), None);
    assert_eq!(text("+").as_i64(), None);
    assert_eq!(text("-").as_i64(), None);
    assert_eq!(text("+-5").as_i64(), None);
    assert_eq!(text(" 1").as_i64(), None);
    assert_eq!(text("1 ").as_i64(), None);
    assert_eq!(text("1_000").as_i64(), None);
    assert_eq!(text("1.0").as_i64(), None);
    assert_eq!(text("0x10").as_i64(), None);
    assert_eq!(RedisValue::Null.as_i64(), None);
    assert_eq!(RedisValue::Boolean(true).as_i64(), None);
    assert_eq!(RedisValue::from_static(b"1").as_i64(), None);
}

#[test]
fn as_u64_refuses_negative_numbers() {
    assert_eq!(RedisValue::Integer(7).as_u64(), Some(7));
    assert_eq!(RedisValue::Integer(0).as_u64(), Some(0));
    assert_eq!(RedisValue::Integer(-1).as_u64(), None);
    assert_eq!(RedisValue::Integer(i64::MAX).as_u64(), Some(i64::MAX as u64));
    assert_eq!(text("18446744073709551615").as_u64(), Some(u64::MAX));
    assert_eq!(text("18446744073709551616").as_u64(), None);
    assert_eq!(text("+7").as_u64(), Some(7));
    assert_eq!(text("-7").as_u64(), None);
    assert_eq!(text("-0").as_u64(), None);
    assert_eq!(text("").as_u64(), None);
    assert_eq!(text("+").as_u64(), None);
    assert_eq!(RedisValue::Null.as_u64(), None);
}

#[test]
fn as_usize_follows_as_u64_within_range() {
    assert_eq!(RedisValue::Integer(7).as_usize(), Some(7));
    assert_eq!(RedisValue::Integer(-1).as_usize(), None);
    assert_eq!(text("42").as_usize(), Some(42));
    assert_eq!(text("-42").as_usize(), None);
    assert_eq!(text("x").as_usize(), None);
    assert_eq!(RedisValue::Queued.as_usize(), None);
}

#[test]
fn as_f64_names_the_source_of_the_float() {
    let d = RedisValue::from_double(2.5f64.to_bits(), 2.5f64.to_string());
    assert_eq!(d.as_f64(), Some(FloatSource::Double(2.5f64.to_bits())));
    assert_eq!(RedisValue::Integer(3).as_f64(), Some(FloatSource::Integer(3)));
    assert_eq!(text("1e5").as_f64(), Some(FloatSource::Text("1e5".to_string())));
    assert_eq!(RedisValue::Null.as_f64(), None);
    assert_eq!(RedisValue::Boolean(true).as_f64(), None);
    assert_eq!(RedisValue::from_static(b"1.5").as_f64(), None);
    assert_eq!(RedisValue::Array(vec![]).as_f64(), None);
}

#[test]
fn single_element_array_unwraps() {
    let cases: Vec<RedisValue> = vec![
        RedisValue::Integer(12),
        RedisValue::Integer(-1),
        text("34"),
        text("t"),
        text("no number"),
        RedisValue::Boolean(true),
        RedisValue::Null,
        RedisValue::Queued,
        RedisValue::from_static(b"56"),
        RedisValue::from_static(&[0xff, 0xfe]),
        RedisValue::from_double(0.5f64.to_bits(), 0.5f64.to_string()),
        RedisValue::Array(vec![RedisValue::Integer(9)]),
        RedisValue::Array(vec![]),
        RedisValue::Dict(RedisMap::new()),
    ];
    for v in cases {
        let wrapped = RedisValue::Array(vec![v.clone()]);
        assert_eq!(wrapped.as_i64(), v.as_i64());
        assert_eq!(wrapped.as_u64(), v.as_u64());
        assert_eq!(wrapped.as_usize(), v.as_usize());
        assert_eq!(wrapped.as_bool(), v.as_bool());
        assert_eq!(wrapped.as_f64(), v.as_f64());
        assert_eq!(wrapped.clone().into_string(), v.clone().into_string());
        assert_eq!(wrapped.as_string(), v.as_string());
        assert_eq!(wrapped.as_str(), v.as_str());
        assert_eq!(wrapped.as_str_lossy(), v.as_str_lossy());
        assert_eq!(wrapped.as_bytes(), v.as_bytes());
        assert_eq!(wrapped.clone().into_owned_bytes(), v.clone().into_owned_bytes());
        assert_eq!(
            wrapped.clone().into_bytes().map(|b| b.to_vec()),
            v.clone().into_bytes().map(|b| b.to_vec())
        );
        assert_eq!(
            wrapped.into_bytes_str().map(|s| s.to_string()),
            v.into_bytes_str().map(|s| s.to_string())
        );
    }
}

#[test]
fn nested_single_element_arrays_unwrap() {
    let v = RedisValue::Array(vec![RedisValue::Array(vec![text("77")])]);
    assert_eq!(v.as_i64(), Some(77));
    assert_eq!(v.into_string(), Some("77".to_string()));
}

#[test]
fn into_integer_converts_numeric_text() {
    match text("42").into_integer() {
        Ok(v) => assert!(same(&v, &RedisValue::Integer(42))),
        Err(_) => panic!("expected an integer"),
    }
    match RedisValue::Integer(5).into_integer() {
        Ok(v) => assert!(same(&v, &RedisValue::Integer(5))),
        Err(_) => panic!("expected an integer"),
    }
    match text("4x").into_integer() {
        Ok(_) => panic!("expected the value back"),
        Err(v) => assert!(same(&v, &text("4x"))),
    }
    match RedisValue::Null.into_integer() {
        Ok(_) => panic!("expected the value back"),
        Err(v) => assert!(v.is_null()),
    }
}

#[test]
fn probably_map_on_flat_pairs() {
    let v = RedisValue::Array(vec!["a".into(), 1.into(), "b".into(), 2.into()]);
    assert!(v.is_probably_map());
}

#[test]
fn probably_map_refuses_odd_length() {
    let v = RedisValue::Array(vec!["a".into(), 1.into(), "b".into()]);
    assert!(!v.is_probably_map());
}

#[test]
fn probably_map_refuses_aggregate_keys() {
    let v = RedisValue::Array(vec![RedisValue::Array(vec!["a".into()]), 1.into()]);
    assert!(!v.is_probably_map());
    let v = RedisValue::Array(vec!["a".into(), 1.into(), RedisValue::Dict(RedisMap::new()), 2.into()]);
    assert!(!v.is_probably_map());
}

#[test]
fn probably_map_allows_aggregate_values() {
    let v = RedisValue::Array(vec!["a".into(), RedisValue::Array(vec![1.into()])]);
    assert!(v.is_probably_map());
    assert!(RedisValue::Array(vec![]).is_probably_map());
    assert!(RedisValue::Dict(RedisMap::new()).is_probably_map());
    assert!(!text("a").is_probably_map());
    assert!(!RedisValue::Null.is_probably_map());
}

#[test]
fn into_map_pairs_up_an_array() {
    let v = RedisValue::Array(vec!["a".into(), 1.into(), "b".into(), 2.into()]);
    let map = v.into_map().unwrap();
    assert_eq!(map.len(), 2);
    assert!(same(map.get(&RedisKey::from("a")).unwrap(), &RedisValue::Integer(1)));
    assert!(same(map.get(&RedisKey::from("b")).unwrap(), &RedisValue::Integer(2)));
    assert!(map.get(&RedisKey::from("c")).is_none());
}

#[test]
fn into_map_keeps_the_pair_nearest_the_front() {
    let v = RedisValue::Array(vec!["a".into(), 1.into(), "a".into(), 2.into()]);
    let map = v.into_map().unwrap();
    assert_eq!(map.len(), 1);
    assert!(same(map.get(&RedisKey::from("a")).unwrap(), &RedisValue::Integer(1)));
}

#[test]
fn into_map_converts_scalar_keys() {
    let v = RedisValue::Array(vec![7.into(), "seven".into(), true.into(), "yes".into()]);
    let map = v.into_map().unwrap();
    assert!(same(map.get(&RedisKey::from("7")).unwrap(), &text("seven")));
    assert!(same(map.get(&RedisKey::from("true")).unwrap(), &text("yes")));
}

#[test]
fn into_map_refuses_odd_length() {
    let v = RedisValue::Array(vec!["a".into(), 1.into(), "b".into()]);
    assert_eq!(v.into_map().unwrap_err().kind(), RedisErrorKind::MalformedAggregate);
}

#[test]
fn into_map_refuses_keys_that_do_not_convert() {
    let v = RedisValue::Array(vec![RedisValue::Null, 1.into()]);
    assert_eq!(v.into_map().unwrap_err().kind(), RedisErrorKind::InvalidArgument);
    let v = RedisValue::Array(vec!["a".into(), 1.into(), RedisValue::Array(vec![]), 2.into()]);
    assert_eq!(v.into_map().unwrap_err().kind(), RedisErrorKind::InvalidArgument);
}

#[test]
fn into_map_refuses_scalars() {
    assert_eq!(text("a").into_map().unwrap_err().kind(), RedisErrorKind::Unknown);
    assert_eq!(RedisValue::Null.into_map().unwrap_err().kind(), RedisErrorKind::Unknown);
    assert_eq!(RedisValue::Integer(1).into_map().unwrap_err().kind(), RedisErrorKind::Unknown);
}

#[test]
fn into_map_passes_a_map_through() {
    let mut map = RedisMap::new();
    map.insert(RedisKey::from("k"), RedisValue::Integer(1));
    let back = RedisValue::Dict(map).into_map().unwrap();
    assert_eq!(back.len(), 1);
    assert!(same(back.get(&RedisKey::from("k")).unwrap(), &RedisValue::Integer(1)));
    assert_eq!(RedisValue::Array(vec![]).into_map().unwrap().len(), 0);
}

#[test]
fn into_array_flattens_a_map() {
    let mut map = RedisMap::new();
    map.insert(RedisKey::from("a"), RedisValue::Integer(1));
    map.insert(RedisKey::from("b"), text("two"));
    let flat = RedisValue::Dict(map).into_array();
    assert_eq!(flat.len(), 4);
    assert!(same(&flat[0], &RedisValue::from_static(b"a")));
    assert!(same(&flat[1], &RedisValue::Integer(1)));
    assert!(same(&flat[2], &RedisValue::from_static(b"b")));
    assert!(same(&flat[3], &text("two")));
}

#[test]
fn into_array_of_arrays_and_scalars() {
    let items = RedisValue::Array(vec![1.into(), 2.into()]).into_array();
    assert_eq!(items.len(), 2);
    assert!(same(&items[0], &RedisValue::Integer(1)));
    assert!(same(&items[1], &RedisValue::Integer(2)));
    let alone = text("x").into_array();
    assert_eq!(alone.len(), 1);
    assert!(same(&alone[0], &text("x")));
    let null = RedisValue::Null.into_array();
    assert_eq!(null.len(), 1);
    assert!(null[0].is_null());
    assert_eq!(RedisValue::Dict(RedisMap::new()).into_array().len(), 0);
}

#[test]
fn into_map_inverts_into_array() {
    let mut map = RedisMap::new();
    map.insert(RedisKey::from("a"), RedisValue::Integer(1));
    map.insert(RedisKey::from("b"), text("two"));
    map.insert(RedisKey::from_slice(&[0xff, 0x00]), RedisValue::Array(vec![RedisValue::Null]));
    map.insert(RedisKey::from("d"), RedisValue::from_double(1.5f64.to_bits(), 1.5f64.to_string()));
    let before = RedisValue::Dict(map.clone());
    let back = RedisValue::Array(RedisValue::Dict(map).into_array()).into_map().unwrap();
    assert_eq!(back.len(), 4);
    assert_eq!(RedisValue::Dict(back), before);
}

#[test]
fn into_set_keeps_first_occurrences() {
    let v = RedisValue::Array(vec![1.into(), "a".into(), 1.into(), "a".into(), "1".into(), 2.into()]);
    let set = v.into_set().unwrap();
    assert_eq!(set.len(), 4);
    assert!(same(&set[0], &RedisValue::Integer(1)));
    assert!(same(&set[1], &text("a")));
    assert!(same(&set[2], &text("1")));
    assert!(same(&set[3], &RedisValue::Integer(2)));
    assert_eq!(RedisValue::Array(vec![]).into_set().unwrap().len(), 0);
}

#[test]
fn into_set_of_a_scalar_is_the_scalar_alone() {
    let set = RedisValue::Integer(1).into_set().unwrap();
    assert_eq!(set, vec![RedisValue::Integer(1)]);
    let set = text("a").into_set().unwrap();
    assert_eq!(set, vec![text("a")]);
    let set = RedisValue::Null.into_set().unwrap();
    assert_eq!(set, vec![RedisValue::Null]);
}

#[test]
fn into_set_of_a_map_is_its_distinct_keys_and_values() {
    assert_eq!(RedisValue::Dict(RedisMap::new()).into_set().unwrap().len(), 0);
    let mut map = RedisMap::new();
    map.insert(RedisKey::from("a"), RedisValue::Integer(1));
    map.insert(RedisKey::from("b"), RedisValue::from_static(b"a"));
    map.insert(RedisKey::from("c"), RedisValue::Integer(1));
    let set = RedisValue::Dict(map).into_set().unwrap();
    assert_eq!(
        set,
        vec![
            RedisValue::from_static(b"a"),
            RedisValue::Integer(1),
            RedisValue::from_static(b"b"),
            RedisValue::from_static(b"c"),
        ]
    );
}

#[test]
fn take_leaves_null() {
    let mut v = text("abc");
    let taken = v.take();
    assert!(v.is_null());
    assert!(same(&taken, &text("abc")));
    let again = v.take();
    assert!(again.is_null());
    assert!(v.is_null());
}

#[test]
fn values_from_plain_data() {
    assert!(same(&RedisValue::from(5u8), &RedisValue::Integer(5)));
    assert!(same(&RedisValue::from(65535u16), &RedisValue::Integer(65535)));
    assert!(same(&RedisValue::from(u32::MAX), &RedisValue::Integer(4294967295)));
    assert!(same(&RedisValue::from(-5i8), &RedisValue::Integer(-5)));
    assert!(same(&RedisValue::from(-300i16), &RedisValue::Integer(-300)));
    assert!(same(&RedisValue::from(i32::MIN), &RedisValue::Integer(-2147483648)));
    assert!(same(&RedisValue::from(i64::MIN), &RedisValue::Integer(i64::MIN)));
    assert!(same(&RedisValue::from(-9isize), &RedisValue::Integer(-9)));
    assert!(same(&RedisValue::from(true), &RedisValue::Boolean(true)));
    assert!(RedisValue::from(()).is_null());
    assert!(same(&RedisValue::from("abc".to_string()), &text("abc")));
    assert!(same(&RedisValue::from(&b"xyz"[..]), &RedisValue::from_static(b"xyz")));
    assert!(same(&RedisValue::from(RedisKey::from("k")), &RedisValue::from_static(b"k")));
    assert!(RedisValue::from(RedisMap::new()).is_map());
    assert!(same(&RedisValue::from_static_str("s"), &text("s")));
    assert!(RedisValue::from_iter(vec![1.into()]).is_array());
}

#[test]
fn values_from_wide_integers() {
    assert!(same(&RedisValue::try_from(7u64).unwrap(), &RedisValue::Integer(7)));
    assert!(same(&RedisValue::try_from(i64::MAX as u64).unwrap(), &RedisValue::Integer(i64::MAX)));
    assert_eq!(RedisValue::try_from(i64::MAX as u64 + 1).unwrap_err().kind(), RedisErrorKind::InvalidArgument);
    assert_eq!(RedisValue::try_from(u64::MAX).unwrap_err().kind(), RedisErrorKind::InvalidArgument);
    assert!(same(&RedisValue::try_from(9u128).unwrap(), &RedisValue::Integer(9)));
    assert_eq!(RedisValue::try_from(u128::MAX).unwrap_err().kind(), RedisErrorKind::InvalidArgument);
    assert!(same(&RedisValue::try_from(-9i128).unwrap(), &RedisValue::Integer(-9)));
    assert!(same(&RedisValue::try_from(i64::MIN as i128).unwrap(), &RedisValue::Integer(i64::MIN)));
    assert_eq!(RedisValue::try_from(i64::MIN as i128 - 1).unwrap_err().kind(), RedisErrorKind::InvalidArgument);
    assert_eq!(RedisValue::try_from(i64::MAX as i128 + 1).unwrap_err().kind(), RedisErrorKind::InvalidArgument);
    assert!(same(&RedisValue::try_from(3usize).unwrap(), &RedisValue::Integer(3)));
}

#[test]
fn values_from_options() {
    assert!(RedisValue::try_from(None::<i64>).unwrap().is_null());
    assert!(same(&RedisValue::try_from(Some(4i64)).unwrap(), &RedisValue::Integer(4)));
    assert!(same(&RedisValue::try_from(Some("a")).unwrap(), &text("a")));
    assert_eq!(RedisValue::try_from(Some(u64::MAX)).unwrap_err().kind(), RedisErrorKind::InvalidArgument);
}

#[test]
fn clone_keeps_the_content() {
    let mut map = RedisMap::new();
    map.insert(RedisKey::from("k"), RedisValue::Array(vec![1.into(), "x".into()]));
    let v = RedisValue::Array(vec![RedisValue::Dict(map), RedisValue::Null, text("t")]);
    let copy = v.clone();
    assert_eq!(copy, v);
    assert!(copy.same_as(&v));
}

#[test]
fn convert_hands_the_value_to_the_target_type() {
    let v: RedisValue = text("abc").convert().unwrap();
    assert!(same(&v, &text("abc")));
}

struct Count(u64);

impl FromRedis for Count {
    fn from_value(value: RedisValue) -> Result<Count, RedisError> {
        match value.as_u64() {
            Some(n) => Ok(Count(n)),
            None => Err(RedisError::new(RedisErrorKind::InvalidArgument, "Expected a count.")),
        }
    }
}

#[test]
fn convert_forwards_to_the_type_of_the_caller() {
    let count: Count = text("42").convert().unwrap();
    assert_eq!(count.0, 42);
    let count: Count = RedisValue::Array(vec![RedisValue::Integer(7)]).convert().unwrap();
    assert_eq!(count.0, 7);
    let refused: Result<Count, RedisError> = RedisValue::Integer(-1).convert();
    assert_eq!(refused.err().unwrap().kind(), RedisErrorKind::InvalidArgument);
    let refused: Result<Count, RedisError> = RedisValue::Null.convert();
    assert_eq!(refused.err().unwrap().details(), "Expected a count.");
}
