use bytes::Bytes;
use bytes_utils::Str;
use redis_args::{RedisErrorKind, RedisKey, RedisMap, RedisValue};

const STATIC_KEY: &[u8] = b"static";

#[test]
fn key_round_trips_through_a_value() {
    let cases: Vec<Vec<u8>> = vec![
        vec![],
        b"foo".to_vec(),
        vec![0, 1, 2, 255],
        vec![0xff, 0xfe, 0xfd],
        "h\u{e9}llo".as_bytes().to_vec(),
        b"{tag}.rest".to_vec(),
    ];
    for bytes in cases {
        let key = RedisKey::from(&bytes[..]);
        let value = RedisValue::from(key.clone());
        assert!(value.is_bytes());
        let back = RedisKey::try_from(value).unwrap();
        assert_eq!(back, key);
        assert_eq!(back.as_bytes(), &bytes[..]);
    }
}

#[test]
fn key_from_static_shares_the_bytes() {
    let key = RedisKey::from_static(&STATIC_KEY);
    assert_eq!(key.as_bytes(), b"static");
    assert_eq!(key.inner().as_ref(), b"static");
}

#[test]
fn key_from_text_and_bytes() {
    assert_eq!(RedisKey::from("abc").as_bytes(), b"abc");
    assert_eq!(RedisKey::from("abc".to_string()).as_bytes(), b"abc");
    assert_eq!(RedisKey::from(Str::from("abc")).as_bytes(), b"abc");
    assert_eq!(RedisKey::from(Bytes::from_static(b"abc")).as_bytes(), b"abc");
    assert_eq!(RedisKey::from(&b"abc"[..]).as_bytes(), b"abc");
    assert_eq!(RedisKey::from("h\u{e9}").as_bytes(), &[0x68, 0xc3, 0xa9]);
    let first = RedisKey::from("abc");
    assert_eq!(RedisKey::from(&first), first);
}

#[test]
fn key_from_numbers_is_decimal_text() {
    assert_eq!(RedisKey::from(0u8).as_bytes(), b"0");
    assert_eq!(RedisKey::from(255u8).as_bytes(), b"255");
    assert_eq!(RedisKey::from(65535u16).as_bytes(), b"65535");
    assert_eq!(RedisKey::from(4294967295u32).as_bytes(), b"4294967295");
    assert_eq!(RedisKey::from(u64::MAX).as_bytes(), b"18446744073709551615");
    assert_eq!(RedisKey::from(u128::MAX).as_bytes(), b"340282366920938463463374607431768211455");
    assert_eq!(RedisKey::from(10usize).as_bytes(), b"10");
    assert_eq!(RedisKey::from(-128i8).as_bytes(), b"-128");
    assert_eq!(RedisKey::from(-1i16).as_bytes(), b"-1");
    assert_eq!(RedisKey::from(-42i32).as_bytes(), b"-42");
    assert_eq!(RedisKey::from(i64::MIN).as_bytes(), b"-9223372036854775808");
    assert_eq!(RedisKey::from(i128::MIN).as_bytes(), b"-170141183460469231731687303715884105728");
    assert_eq!(RedisKey::from(100isize).as_bytes(), b"100");
    assert_eq!(RedisKey::from(1000i64).as_bytes(), b"1000");
}

#[test]
fn key_as_text() {
    let key = RedisKey::from("h\u{e9}llo");
    assert_eq!(key.as_str(), Some("h\u{e9}llo"));
    assert_eq!(key.as_str_lossy(), "h\u{e9}llo");
    assert_eq!(key.clone().into_string(), Some("h\u{e9}llo".to_string()));
    let broken = RedisKey::from(&[0x66, 0xff, 0x6f][..]);
    assert_eq!(broken.as_str(), None);
    assert_eq!(broken.as_str_lossy(), "f\u{fffd}o");
    assert_eq!(broken.clone().into_string(), None);
    assert_eq!(broken.into_bytes().to_vec(), vec![0x66, 0xff, 0x6f]);
    let empty = RedisKey::from("");
    assert_eq!(empty.as_str(), Some(""));
}

#[test]
fn key_take_leaves_an_empty_key() {
    let mut key = RedisKey::from("abc");
    let taken = key.take();
    assert_eq!(taken.to_vec(), b"abc".to_vec());
    assert_eq!(key.as_bytes(), b"");
    let again = key.take();
    assert!(again.is_empty());
    assert_eq!(key.as_bytes(), b"");
}

#[test]
fn key_same_as_compares_bytes() {
    assert!(RedisKey::from("a").same_as(&RedisKey::from(&b"a"[..])));
    assert!(!RedisKey::from("a").same_as(&RedisKey::from("b")));
    assert!(!RedisKey::from("a").same_as(&RedisKey::from("ab")));
    assert!(RedisKey::from("a").duplicate().same_as(&RedisKey::from("a")));
}

#[test]
fn key_from_value_converts_scalars() {
    assert_eq!(RedisKey::try_from(RedisValue::from("abc")).unwrap().as_bytes(), b"abc");
    assert_eq!(RedisKey::try_from(RedisValue::Integer(-12)).unwrap().as_bytes(), b"-12");
    assert_eq!(RedisKey::try_from(RedisValue::Integer(0)).unwrap().as_bytes(), b"0");
    assert_eq!(
        RedisKey::try_from(RedisValue::from_double(1.5f64.to_bits(), 1.5f64.to_string())).unwrap().as_bytes(),
        b"1.5"
    );
    assert_eq!(RedisKey::try_from(RedisValue::from_static(&[1, 2, 255])).unwrap().as_bytes(), &[1, 2, 255]);
    assert_eq!(RedisKey::try_from(RedisValue::Boolean(true)).unwrap().as_bytes(), b"true");
    assert_eq!(RedisKey::try_from(RedisValue::Boolean(false)).unwrap().as_bytes(), b"false");
    assert_eq!(RedisKey::try_from(RedisValue::Queued).unwrap().as_bytes(), b"QUEUED");
}

#[test]
fn key_from_value_refuses_aggregates_and_null() {
    assert_eq!(RedisKey::try_from(RedisValue::Null).unwrap_err().kind(), RedisErrorKind::InvalidArgument);
    assert_eq!(
        RedisKey::try_from(RedisValue::Array(vec![RedisValue::from("a")])).unwrap_err().kind(),
        RedisErrorKind::InvalidArgument
    );
    assert_eq!(
        RedisKey::try_from(RedisValue::Dict(RedisMap::new())).unwrap_err().kind(),
        RedisErrorKind::InvalidArgument
    );
}

#[test]
fn cluster_hash_gives_the_known_slots() {
    assert_eq!(RedisKey::from("8xjx7vWrfPq54mKfFD3Y1CcjjofpnAcQ").cluster_hash(), 5458);
    assert_eq!(RedisKey::from("foo").cluster_hash(), 12182);
    assert_eq!(RedisKey::from("").cluster_hash(), 0);
    assert_eq!(RedisKey::from("123456789").cluster_hash(), 0x31c3 % 16384);
}

#[test]
fn cluster_hash_uses_the_hash_tag() {
    let following = RedisKey::from("{user1000}.following").cluster_hash();
    let followers = RedisKey::from("{user1000}.followers").cluster_hash();
    assert_eq!(following, followers);
    assert_eq!(following, RedisKey::from("user1000").cluster_hash());
    assert_eq!(RedisKey::from("{user1000}").cluster_hash(), following);
    assert_eq!(RedisKey::from("prefix{user1000}suffix").cluster_hash(), following);
    assert_eq!(RedisKey::from("{user1000}}{other}").cluster_hash(), following);
    assert!(following < 16384);
}

#[test]
fn cluster_hash_ignores_an_empty_or_open_tag() {
    assert_ne!(RedisKey::from("{}foo").cluster_hash(), RedisKey::from("foo").cluster_hash());
    assert_eq!(RedisKey::from("foo{}{bar}").cluster_hash(), RedisKey::from("foo{}{bar}").cluster_hash());
    assert_ne!(RedisKey::from("foo{}{bar}").cluster_hash(), RedisKey::from("bar").cluster_hash());
    assert_ne!(RedisKey::from("{foo").cluster_hash(), RedisKey::from("foo").cluster_hash());
    assert_ne!(RedisKey::from("foo{").cluster_hash(), RedisKey::from("foo").cluster_hash());
    assert_eq!(RedisKey::from("a{foo}").cluster_hash(), RedisKey::from("foo").cluster_hash());
    assert_eq!(RedisKey::from("{{foo}").cluster_hash(), RedisKey::from("{foo").cluster_hash());
}

#[test]
fn cluster_hash_stays_below_the_slot_count() {
    for i in 0..2000u32 {
        let key = RedisKey::from(i);
        assert!(key.cluster_hash() < 16384);
    }
}

#[test]
fn cluster_owner_slot_is_the_slot_of_a_clustered_key() {
    let key = RedisKey::from("{user1000}.following");
    assert_eq!(key.cluster_owner_slot(true), Some(key.cluster_hash()));
    assert_eq!(key.cluster_owner_slot(false), None);
    assert_eq!(RedisKey::from("foo").cluster_owner_slot(true), Some(12182));
    assert_eq!(RedisKey::from("").cluster_owner_slot(false), None);
}

#[test]
fn key_clone_holds_the_same_bytes() {
    let key = RedisKey::from(&[0u8, 255, 7][..]);
    let copy = key.clone();
    assert_eq!(copy, key);
    assert_eq!(copy.as_bytes(), &[0u8, 255, 7]);
}
