use foro::json::Json;
use foro::plugin_cache::{plugin_cache_path, uses_hot_instance, PluginSetting};
use foro::plugin_abi::{
    encode_frame, frame_payload, locate_payload, read_le_u64, FrameError,
};
use foro::text::{decimal_string, parse_decimal, split_chars, str_chars};

fn s(text: &str) -> Json {
    Json::Str(text.to_string())
}

fn object(members: &[(&str, Json)]) -> Json {
    Json::Object(members.iter().map(|(k, v)| (k.to_string(), v.clone())).collect())
}

#[test]
fn text_of_values() {
    assert_eq!(Json::Null.to_text(), "null");
    assert_eq!(Json::Bool(true).to_text(), "true");
    assert_eq!(Json::Bool(false).to_text(), "false");
    assert_eq!(Json::Number("-1.5e3".to_string()).to_text(), "-1500.0");
    assert_eq!(Json::Number("42".to_string()).to_text(), "42");
    assert_eq!(Json::Array(vec![]).to_text(), "[]");
    assert_eq!(Json::empty_object().to_text(), "{}");
    assert_eq!(
        Json::Array(vec![Json::Null, s("a"), Json::Array(vec![Json::Bool(true)])]).to_text(),
        r#"[null,"a",[true]]"#
    );
    assert_eq!(
        object(&[("k", s("v")), ("n", object(&[("m", Json::Null)]))]).to_text(),
        r#"{"k":"v","n":{"m":null}}"#
    );
}

#[test]
fn strings_are_escaped() {
    assert_eq!(s("a\"b\\c").to_text(), r#""a\"b\\c""#);
    assert_eq!(s("line\nfeed\ttab").to_text(), "\"line\\nfeed\\ttab\"");
    assert_eq!(s("\u{0}\u{1f}").to_text(), "\"\\u0000\\u001f\"");
    assert_eq!(s("\u{3bc}s \u{1F600}").to_text(), "\"\u{3bc}s \u{1F600}\"");
    assert_eq!(object(&[("a\"", s(""))]).to_text(), r#"{"a\"":""}"#);
}

#[test]
fn written_text_is_read_back_by_a_json_parser() {
    let value = object(&[
        ("text", s("quote \" backslash \\ newline \n bell \u{7} unicode \u{3bc}")),
        ("list", Json::Array(vec![Json::Number("12".to_string()), Json::Bool(false), Json::Null])),
    ]);
    let parsed: serde_json::Value = serde_json::from_str(&value.to_text()).unwrap();
    assert_eq!(
        parsed["text"].as_str(),
        Some("quote \" backslash \\ newline \n bell \u{7} unicode \u{3bc}")
    );
    assert_eq!(parsed["list"][0].as_u64(), Some(12));
    assert_eq!(parsed["list"][1].as_bool(), Some(false));
    assert!(parsed["list"][2].is_null());
}

#[test]
fn lookup_finds_the_first_of_equal_keys() {
    let value = Json::Object(vec![
        ("k".to_string(), s("first")),
        ("k".to_string(), s("second")),
    ]);
    assert_eq!(value.get_str("k"), Some("first".to_string()));
    assert!(value.get("missing").is_none());
    assert!(Json::Array(vec![]).get("k").is_none());
    assert_eq!(object(&[("k", Json::Bool(true))]).get_str("k"), None);
}

#[test]
fn set_replaces_in_place_or_appends() {
    let value = object(&[("a", s("1")), ("b", s("2"))]);
    let value = value.set("a".to_string(), s("3")).unwrap();
    assert_eq!(value.to_text(), r#"{"a":"3","b":"2"}"#);
    let value = value.set("c".to_string(), Json::Null).unwrap();
    assert_eq!(value.to_text(), r#"{"a":"3","b":"2","c":null}"#);
    assert_eq!(
        Json::Null.set("k".to_string(), s("v")).unwrap().to_text(),
        r#"{"k":"v"}"#
    );
    match Json::Bool(true).set("k".to_string(), s("v")) {
        Err(unchanged) => assert_eq!(unchanged.to_text(), "true"),
        Ok(_) => panic!("Expected a refusal"),
    }
}

#[test]
fn merge_is_shallow() {
    let base = object(&[("a", s("1")), ("b", object(&[("deep", s("x"))]))]);
    let patch = object(&[("b", object(&[("other", s("y"))])), ("c", s("3"))]);
    assert_eq!(
        base.merge(&patch).to_text(),
        r#"{"a":"1","b":{"other":"y"},"c":"3"}"#
    );
    assert_eq!(object(&[("a", s("1"))]).merge(&s("text")).to_text(), r#""text""#);
    assert_eq!(s("text").merge(&object(&[("a", s("1"))])).to_text(), r#"{"a":"1"}"#);
    assert_eq!(object(&[("a", s("1"))]).merge(&object(&[])).to_text(), r#"{"a":"1"}"#);
}

#[test]
fn clone_is_equal_in_text() {
    let value = object(&[("a", Json::Array(vec![s("x"), Json::Number("1".to_string())]))]);
    assert_eq!(value.clone().to_text(), value.to_text());
}

#[test]
fn frame_header_is_little_endian() {
    let memory = vec![0x01, 0x02, 0x03, 0x04, 0x05, 0x06, 0x07, 0x08, 0xff];
    assert_eq!(read_le_u64(&memory, 0), 0x0807_0605_0403_0201);
    assert_eq!(read_le_u64(&memory, 1), 0xff08_0706_0504_0302);
}

#[test]
fn frame_is_located_and_read() {
    let mut memory = vec![0xaa; 3];
    memory.extend_from_slice(&[5, 0, 0, 0, 0, 0, 0, 0]);
    memory.extend_from_slice(b"{\"a\"}");
    memory.extend_from_slice(&[0xbb; 4]);
    assert_eq!(locate_payload(&memory, 3), Ok((11, 16)));
    assert_eq!(frame_payload(&memory, 3).unwrap(), b"{\"a\"}".to_vec());
}

#[test]
fn short_and_overlong_frames_are_refused() {
    assert_eq!(locate_payload(&vec![], 0), Err(FrameError::Truncated));
    assert_eq!(locate_payload(&vec![0; 7], 0), Err(FrameError::Truncated));
    assert_eq!(locate_payload(&vec![0; 8], 0), Ok((8, 8)));
    assert_eq!(locate_payload(&vec![0; 8], 1), Err(FrameError::Truncated));
    assert_eq!(locate_payload(&vec![0; 16], u64::MAX), Err(FrameError::Truncated));
    assert_eq!(locate_payload(&vec![0; 16], 9), Err(FrameError::Truncated));
    let mut memory = vec![9, 0, 0, 0, 0, 0, 0, 0];
    memory.extend_from_slice(&[0; 8]);
    assert_eq!(locate_payload(&memory, 0), Err(FrameError::Overrun));
    assert_eq!(frame_payload(&memory, 0), Err(FrameError::Overrun));
    memory.push(0);
    assert_eq!(locate_payload(&memory, 0), Ok((8, 17)));
    let huge = vec![0xff; 8];
    assert_eq!(locate_payload(&huge, 0), Err(FrameError::Overrun));
}

#[test]
fn encoded_frame_is_decoded() {
    let payload = b"{\"format-status\":\"success\"}".to_vec();
    let frame = encode_frame(&payload);
    assert_eq!(frame.len(), payload.len() + 8);
    assert_eq!(&frame[..8], &(payload.len() as u64).to_le_bytes());
    assert_eq!(frame_payload(&frame, 0).unwrap(), payload);
    let big = vec![7u8; 70_000];
    let frame = encode_frame(&big);
    assert_eq!(&frame[..8], &70_000u64.to_le_bytes());
    assert_eq!(frame_payload(&frame, 0).unwrap(), big);
    assert_eq!(encode_frame(&vec![]), vec![0; 8]);
}

#[test]
fn decimal_numbers() {
    assert_eq!(decimal_string(0), "0");
    assert_eq!(decimal_string(10), "10");
    assert_eq!(decimal_string(u64::MAX), "18446744073709551615");
    let parse = |text: &str, max: u64| parse_decimal(&str_chars(text), max);
    assert_eq!(parse("0", 10), Some(0));
    assert_eq!(parse("007", 10), Some(7));
    assert_eq!(parse("+10", 10), Some(10));
    assert_eq!(parse("11", 10), None);
    assert_eq!(parse("", 10), None);
    assert_eq!(parse("+", 10), None);
    assert_eq!(parse("-1", 10), None);
    assert_eq!(parse("1 ", 10), None);
    assert_eq!(parse("1a", 10), None);
    assert_eq!(parse("18446744073709551615", u64::MAX), Some(u64::MAX));
    assert_eq!(parse("18446744073709551616", u64::MAX), None);
    assert_eq!(parse("99999999999999999999999", u64::MAX), None);
}

#[test]
fn split_keeps_empty_parts() {
    let parts = |text: &str| -> Vec<String> {
        split_chars(&str_chars(text), ',')
            .iter()
            .map(|p| p.iter().collect())
            .collect()
    };
    assert_eq!(parts(""), vec![""]);
    assert_eq!(parts("a"), vec!["a"]);
    assert_eq!(parts("a,b"), vec!["a", "b"]);
    assert_eq!(parts(",a,,b,"), vec!["", "a", "", "b", ""]);
}

#[test]
fn plugin_cache_is_keyed_by_the_encoded_url() {
    assert_eq!(
        plugin_cache_path("/home/u/.cache/foro", "https://example.com/a b.dllpack?x=1"),
        "/home/u/.cache/foro/cache-url/https%3A%2F%2Fexample.com%2Fa%20b.dllpack%3Fx%3D1"
    );
    assert_eq!(plugin_cache_path("/c/", "plain-name_1.0~x"), "/c/cache-url/plain-name_1.0~x");
    let setting = PluginSetting { source: "https://p/".to_string(), cache: true };
    assert!(uses_hot_instance(&setting, true));
    assert!(!uses_hot_instance(&setting, false));
    let never = PluginSetting { source: "https://p/".to_string(), cache: false };
    assert!(!uses_hot_instance(&never, true));
}

#[test]
fn only_the_first_of_equal_keys_is_written() {
    let value = Json::Object(vec![
        ("k".to_string(), s("first")),
        ("other".to_string(), Json::Null),
        ("k".to_string(), s("second")),
    ]);
    assert_eq!(value.to_text(), r#"{"k":"first","other":null}"#);
    let value = Json::Object(vec![
        ("a".to_string(), s("1")),
        ("a".to_string(), s("2")),
        ("a".to_string(), s("3")),
    ]);
    assert_eq!(value.to_text(), r#"{"a":"1"}"#);
}

#[test]
fn text_is_read_and_written() {
    let value = Json::from_text(r#" {"b": [1, 2.5, -3e2, true, null], "a": {"x": "y\n"}} "#).unwrap();
    assert_eq!(value.to_text(), r#"{"a":{"x":"y\n"},"b":[1,2.5,-300.0,true,null]}"#);
    assert_eq!(Json::from_text(&value.to_text()).unwrap().to_text(), value.to_text());
    assert!(Json::from_text("").is_err());
    assert!(Json::from_text("{\"a\":}").is_err());
    assert!(Json::from_text("[1,]").is_err());
    assert_eq!(Json::from_text("\"\\u00e9\"").unwrap().get("x").is_none(), true);
}

#[test]
fn only_numbers_are_written_as_numbers() {
    for (text, written) in [
        ("0", "0"),
        ("-0", "-0.0"),
        ("7", "7"),
        ("-12", "-12"),
        ("1.5", "1.5"),
        ("0.25", "0.25"),
        ("1e9", "1000000000.0"),
        ("1E-9", "1e-9"),
        ("-3.0e+2", "-300.0"),
        ("12345678901234567890", "12345678901234567890"),
    ] {
        assert_eq!(Json::Number(text.to_string()).to_text(), written, "{}", text);
    }
    for text in ["", "-", "+1", "01", "1.", ".5", "1e", "1e+", "1,\"b\":2", "1 ", " 1", "0x10", "NaN", "1.5.2", "--1", "1e1.5"] {
        assert_eq!(Json::Number(text.to_string()).to_text(), "null", "{}", text);
    }
    let sneaky = Json::Object(vec![("a".to_string(), Json::Number("1,\"b\":2".to_string()))]);
    assert_eq!(sneaky.to_text(), r#"{"a":null}"#);
}

#[test]
fn merge_takes_the_first_of_equal_keys_in_the_patch() {
    let base = object(&[("a", s("old")), ("z", s("kept"))]);
    let patch = Json::Object(vec![
        ("a".to_string(), s("first")),
        ("b".to_string(), s("1")),
        ("a".to_string(), s("second")),
        ("b".to_string(), s("2")),
    ]);
    let merged = base.merge(&patch);
    assert_eq!(merged.get_str("a"), patch.get_str("a"));
    assert_eq!(merged.get_str("a"), Some("first".to_string()));
    assert_eq!(merged.get_str("b"), Some("1".to_string()));
    assert_eq!(merged.get_str("z"), Some("kept".to_string()));
    match &merged {
        Json::Object(members) => assert_eq!(
            members.iter().map(|m| m.0.as_str()).collect::<Vec<_>>(),
            vec!["a", "z", "b"]
        ),
        _ => panic!("Expected an object"),
    }
    assert_eq!(merged.to_text(), r#"{"a":"first","b":"1","z":"kept"}"#);
}

#[test]
fn members_are_written_sorted_by_key() {
    let value = object(&[("b", s("2")), ("a", s("1")), ("c", object(&[("z", Json::Null), ("y", Json::Null)]))]);
    assert_eq!(value.to_text(), r#"{"a":"1","b":"2","c":{"y":null,"z":null}}"#);
    let read = Json::from_text(r#"{"b":1,"a":2}"#).unwrap();
    match &read {
        Json::Object(members) => {
            assert_eq!(members.iter().map(|m| m.0.as_str()).collect::<Vec<_>>(), vec!["a", "b"])
        }
        _ => panic!("Expected an object"),
    }
}
