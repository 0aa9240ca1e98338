use bytes_utils::Str;
use redis_args::{Double, RedisErrorKind, RedisMap, RedisValue, StringOrNumber};

fn number(arg: StringOrNumber) -> i64 {
    match arg {
        StringOrNumber::Number(n) => n,
        _ => panic!("expected a number"),
    }
}

fn text(arg: StringOrNumber) -> String {
    match arg {
        StringOrNumber::String(s) => s.to_string(),
        _ => panic!("expected a text"),
    }
}

#[test]
fn arguments_from_integers() {
    assert_eq!(number(StringOrNumber::from(-8i8)), -8);
    assert_eq!(number(StringOrNumber::from(-300i16)), -300);
    assert_eq!(number(StringOrNumber::from(i32::MIN)), -2147483648);
    assert_eq!(number(StringOrNumber::from(i64::MAX)), i64::MAX);
    assert_eq!(number(StringOrNumber::from(-5isize)), -5);
    assert_eq!(number(StringOrNumber::from(200u8)), 200);
    assert_eq!(number(StringOrNumber::from(60000u16)), 60000);
    assert_eq!(number(StringOrNumber::from(u32::MAX)), 4294967295);
    assert_eq!(number(StringOrNumber::from(17u64)), 17);
    assert_eq!(number(StringOrNumber::from(17usize)), 17);
}

#[test]
fn arguments_saturate_out_of_range() {
    assert_eq!(number(StringOrNumber::from(u64::MAX)), i64::MAX);
    assert_eq!(number(StringOrNumber::from(i64::MAX as u64 + 1)), i64::MAX);
    assert_eq!(number(StringOrNumber::from(i64::MAX as u64)), i64::MAX);
    assert_eq!(number(StringOrNumber::from_unsigned(u128::MAX)), i64::MAX);
    assert_eq!(number(StringOrNumber::from_signed(i128::MIN)), i64::MIN);
    assert_eq!(number(StringOrNumber::from_signed(i128::MAX)), i64::MAX);
    assert_eq!(number(StringOrNumber::from_signed(-1)), -1);
}

#[test]
fn arguments_from_text() {
    assert_eq!(text(StringOrNumber::from("abc")), "abc");
    assert_eq!(text(StringOrNumber::from("abc".to_string())), "abc");
    assert_eq!(text(StringOrNumber::from(Str::from("abc"))), "abc");
    assert_eq!(text(StringOrNumber::from_static_str("abc")), "abc");
    assert_eq!(text(StringOrNumber::from_str("")), "");
}

#[test]
fn into_arg_keeps_the_variant() {
    assert!(StringOrNumber::from("a").into_arg().same_as(&RedisValue::from("a")));
    assert!(StringOrNumber::from(5i64).into_arg().same_as(&RedisValue::Integer(5)));
    let d = StringOrNumber::Double(Double { bits: 0.5f64.to_bits(), text: 0.5f64.to_string() });
    assert!(d.into_arg().same_as(&RedisValue::from_double(0.5f64.to_bits(), 0.5f64.to_string())));
}

#[test]
fn arguments_from_values() {
    assert_eq!(text(StringOrNumber::try_from(RedisValue::from("abc")).unwrap()), "abc");
    assert_eq!(number(StringOrNumber::try_from(RedisValue::Integer(4)).unwrap()), 4);
    assert_eq!(text(StringOrNumber::try_from(RedisValue::from_static(b"raw")).unwrap()), "raw");
    match StringOrNumber::try_from(RedisValue::from_double(2.5f64.to_bits(), 2.5f64.to_string())).unwrap() {
        StringOrNumber::Double(d) => {
            assert_eq!(d.bits, 2.5f64.to_bits());
            assert_eq!(d.text, "2.5");
        }
        _ => panic!("expected a float"),
    }
}

#[test]
fn arguments_refuse_other_values() {
    assert_eq!(
        StringOrNumber::try_from(RedisValue::from_static(&[0xff])).unwrap_err().kind(),
        RedisErrorKind::Unknown
    );
    assert_eq!(StringOrNumber::try_from(RedisValue::Null).unwrap_err().kind(), RedisErrorKind::InvalidArgument);
    assert_eq!(StringOrNumber::try_from(RedisValue::Queued).unwrap_err().kind(), RedisErrorKind::InvalidArgument);
    assert_eq!(
        StringOrNumber::try_from(RedisValue::Boolean(true)).unwrap_err().kind(),
        RedisErrorKind::InvalidArgument
    );
    assert_eq!(
        StringOrNumber::try_from(RedisValue::Array(vec![])).unwrap_err().kind(),
        RedisErrorKind::InvalidArgument
    );
    assert_eq!(
        StringOrNumber::try_from(RedisValue::Dict(RedisMap::new())).unwrap_err().kind(),
        RedisErrorKind::InvalidArgument
    );
}
