use service_starter::error::{ServiceError, RC_FAIL};
use service_starter::json::{
    get_json_integer, get_json_str, parse_json_object, safe_json_str, JsonNumber, JsonObject,
    JsonValue,
};
use service_starter::order::{sort_pairs, text_le_exec};
use service_starter::protocol::{error_body, response_body_fields};
use service_starter::text::{
    bytes_to_hex, chars_of, i64_to_decimal, parse_i64, str_eq, u32_to_hex8, u32_to_zero_padded,
    u64_to_decimal, IntErrorKind,
};
use service_starter::digest::md5_hex;

fn obj(fields: Vec<(&str, JsonValue)>) -> JsonObject {
    JsonObject { fields: fields.into_iter().map(|(k, v)| (k.to_string(), v)).collect() }
}

fn custom(m: &str) -> ServiceError {
    ServiceError::Custom(RC_FAIL, m.to_string())
}

#[test]
fn decimal_and_hex_rendering() {
    assert_eq!(u64_to_decimal(0), "0");
    assert_eq!(u64_to_decimal(u64::MAX), "18446744073709551615");
    assert_eq!(i64_to_decimal(-42), "-42");
    assert_eq!(i64_to_decimal(i64::MIN), "-9223372036854775808");
    assert_eq!(u32_to_hex8(0xABCDEF), "00ABCDEF");
    assert_eq!(u32_to_hex8(u32::MAX), "FFFFFFFF");
    assert_eq!(bytes_to_hex(&[0x0f, 0xa0, 0x00], false), "0fa000");
    assert_eq!(bytes_to_hex(&[0x0f, 0xa0, 0x00], true), "0FA000");
    assert_eq!(u32_to_zero_padded(42, 6), "000042");
    assert_eq!(u32_to_zero_padded(1234567, 6), "1234567");
}

#[test]
fn md5_hex_matches_the_digest() {
    assert_eq!(md5_hex("abc", false), "900150983cd24fb0d6963f7d28e17f72");
    assert_eq!(md5_hex("abc", true), "900150983CD24FB0D6963F7D28E17F72");
    assert_eq!(md5_hex("", false), format!("{:x}", md5::compute("")));
}

#[test]
fn parse_i64_follows_std() {
    let cases = [
        "", "+", "-", "0", "-0", "+42", "-42", "12a", " 1", "9223372036854775807",
        "9223372036854775808", "-9223372036854775808", "-9223372036854775809", "00012",
    ];
    for c in cases.iter() {
        let ours = parse_i64(c);
        match c.parse::<i64>() {
            Ok(v) => assert_eq!(ours, Ok(v), "{}", c),
            Err(e) => {
                let kind = match e.kind() {
                    std::num::IntErrorKind::Empty => IntErrorKind::Empty,
                    std::num::IntErrorKind::InvalidDigit => IntErrorKind::InvalidDigit,
                    std::num::IntErrorKind::PosOverflow => IntErrorKind::PosOverflow,
                    std::num::IntErrorKind::NegOverflow => IntErrorKind::NegOverflow,
                    _ => panic!("unexpected kind"),
                };
                assert_eq!(ours, Err(kind), "{}", c);
            }
        }
    }
}

#[test]
fn parse_reads_back_rendered_numbers() {
    for v in [0i64, 1, -1, 99, -100, i64::MAX, i64::MIN].iter() {
        assert_eq!(parse_i64(i64_to_decimal(*v).as_str()), Ok(*v));
    }
}

#[test]
fn string_helpers() {
    assert!(str_eq("abc", "abc"));
    assert!(!str_eq("abc", "abd"));
    assert!(!str_eq("ab", "abc"));
    assert_eq!(chars_of("héllo"), vec!['h', 'é', 'l', 'l', 'o']);
    assert!(text_le_exec("ab", "b"));
    assert!(text_le_exec("ab", "abc"));
    assert!(text_le_exec("abc", "abc"));
    assert!(!text_le_exec("b", "ab"));
}

#[test]
fn sort_pairs_orders_by_name_then_value() {
    let v = vec![
        ("total_fee".to_string(), "1".to_string()),
        ("appid".to_string(), "x".to_string()),
        ("body".to_string(), "b".to_string()),
        ("appid".to_string(), "a".to_string()),
    ];
    let sorted = sort_pairs(&v);
    let mut expected = v.clone();
    expected.sort();
    assert_eq!(sorted, expected);
}

#[test]
fn safe_json_str_replaces_quotes() {
    assert_eq!(safe_json_str("a'b\"c".to_string()), "a|b|c");
    let once = safe_json_str("it's \"quoted\"".to_string());
    assert_eq!(safe_json_str(once.clone()), once);
}

#[test]
fn json_object_get_takes_the_last_member() {
    let o = obj(vec![
        ("a", JsonValue::Bool(true)),
        ("b", JsonValue::Null),
        ("a", JsonValue::Str("x".to_string())),
    ]);
    assert_eq!(o.get("a"), Some(&JsonValue::Str("x".to_string())));
    assert_eq!(o.get("b"), Some(&JsonValue::Null));
    assert_eq!(o.get("c"), None);
}

#[test]
fn get_json_str_cases() {
    let o = obj(vec![
        ("s", JsonValue::Str("text".to_string())),
        ("p", JsonValue::Number(JsonNumber::PosInt(17))),
        ("n", JsonValue::Number(JsonNumber::NegInt(-3))),
        ("f", JsonValue::Number(JsonNumber::Float { text: "1.5".to_string(), as_int: 1 })),
        ("b", JsonValue::Bool(false)),
    ]);
    assert_eq!(get_json_str(&o, "s"), Ok("text".to_string()));
    assert_eq!(get_json_str(&o, "p"), Ok("17".to_string()));
    assert_eq!(get_json_str(&o, "n"), Ok("-3".to_string()));
    assert_eq!(get_json_str(&o, "f"), Ok("1.5".to_string()));
    assert_eq!(get_json_str(&o, "b"), Err(custom("field b is not string")));
    assert_eq!(get_json_str(&o, "x"), Err(custom("field x not found")));
}

#[test]
fn get_json_integer_cases() {
    let o = obj(vec![
        ("s", JsonValue::Str("-12".to_string())),
        ("bad", JsonValue::Str("12a".to_string())),
        ("empty", JsonValue::Str("".to_string())),
        ("big", JsonValue::Str("9223372036854775808".to_string())),
        ("p", JsonValue::Number(JsonNumber::PosInt(17))),
        ("huge", JsonValue::Number(JsonNumber::PosInt(u64::MAX))),
        ("n", JsonValue::Number(JsonNumber::NegInt(-3))),
        ("f", JsonValue::Number(JsonNumber::Float { text: "-2.7".to_string(), as_int: -2 })),
        ("a", JsonValue::Array(vec![])),
    ]);
    assert_eq!(get_json_integer(&o, "s"), Ok(-12));
    assert_eq!(
        get_json_integer(&o, "bad"),
        Err(custom("field bad is not integer: invalid digit found in string"))
    );
    assert_eq!(
        get_json_integer(&o, "empty"),
        Err(custom("field empty is not integer: cannot parse integer from empty string"))
    );
    assert_eq!(
        get_json_integer(&o, "big"),
        Err(custom("field big is not integer: number too large to fit in target type"))
    );
    assert_eq!(get_json_integer(&o, "p"), Ok(17));
    assert_eq!(get_json_integer(&o, "huge"), Ok(i64::MAX));
    assert_eq!(get_json_integer(&o, "n"), Ok(-3));
    assert_eq!(get_json_integer(&o, "f"), Ok(-2));
    assert_eq!(get_json_integer(&o, "a"), Err(custom("field a is not integer")));
    assert_eq!(get_json_integer(&o, "zz"), Err(custom("field zz not found")));
}

#[test]
fn parse_error_messages_match_std() {
    assert_eq!(
        "".parse::<i64>().unwrap_err().to_string(),
        "cannot parse integer from empty string"
    );
    assert_eq!("x".parse::<i64>().unwrap_err().to_string(), "invalid digit found in string");
    assert_eq!(
        "99999999999999999999".parse::<i64>().unwrap_err().to_string(),
        "number too large to fit in target type"
    );
    assert_eq!(
        "-99999999999999999999".parse::<i64>().unwrap_err().to_string(),
        "number too small to fit in target type"
    );
}

#[test]
fn response_body_members() {
    let others = obj(vec![("token", JsonValue::Str("T".to_string()))]);
    let body = response_body_fields(-7, "ok".to_string(), others);
    assert_eq!(body.get("result"), Some(&JsonValue::Str("-7".to_string())));
    assert_eq!(body.get("message"), Some(&JsonValue::Str("ok".to_string())));
    assert_eq!(body.get("token"), Some(&JsonValue::Str("T".to_string())));
    assert_eq!(body.fields.len(), 3);
}

#[test]
fn response_body_others_win() {
    let others = obj(vec![("message", JsonValue::Str("mine".to_string()))]);
    let body = response_body_fields(0, "ok".to_string(), others);
    assert_eq!(body.get("message"), Some(&JsonValue::Str("mine".to_string())));
    assert_eq!(body.get("result"), Some(&JsonValue::Str("0".to_string())));
}

#[test]
fn error_body_is_json() {
    let body = error_body(1, "404 Not Found", "oops");
    let v: serde_json::Value = serde_json::from_str(body.as_str()).unwrap();
    assert_eq!(v["result"], serde_json::Value::String("1".to_string()));
    assert_eq!(v["message"], serde_json::Value::String("404 Not Found: oops".to_string()));
    assert_eq!(v.as_object().unwrap().len(), 2);
}

#[test]
fn parse_json_object_reads_objects_only() {
    let o = parse_json_object(br#"{"b": [1, {"c": null}], "a": -3, "f": 2.5, "s": "x", "t": true}"#)
        .unwrap();
    assert_eq!(o.get("a"), Some(&JsonValue::Number(JsonNumber::NegInt(-3))));
    assert_eq!(o.get("s"), Some(&JsonValue::Str("x".to_string())));
    assert_eq!(o.get("t"), Some(&JsonValue::Bool(true)));
    assert_eq!(
        o.get("f"),
        Some(&JsonValue::Number(JsonNumber::Float { text: "2.5".to_string(), as_int: 2 }))
    );
    assert_eq!(
        o.get("b"),
        Some(&JsonValue::Array(vec![
            JsonValue::Number(JsonNumber::PosInt(1)),
            JsonValue::Object(JsonObject { fields: vec![("c".to_string(), JsonValue::Null)] }),
        ]))
    );
    assert_eq!(o.fields.len(), 5);
    assert_eq!(parse_json_object(b"[1, 2]"), None);
    assert_eq!(parse_json_object(b"not json"), None);
    assert_eq!(parse_json_object(b"{}"), Some(JsonObject { fields: vec![] }));
}

#[test]
fn error_body_exact_text() {
    assert_eq!(error_body(1, "404 Not Found", "oops"), r#"{"message":"404 Not Found: oops","result":"1"}"#);
    assert_eq!(
        error_body(-2, "500", "a\"b\\c\n\t\u{1}\u{8}\u{c}\r\u{7f}é/"),
        "{\"message\":\"500: a\\\"b\\\\c\\n\\t\\u0001\\b\\f\\r\u{7f}é/\",\"result\":\"-2\"}"
    );
}
