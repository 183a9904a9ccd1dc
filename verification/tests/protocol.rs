use volc_asr::error::Error;
use volc_asr::json::{unwrap_envelope, json_to_string, parse_json, JsonValue};
use volc_asr::types::Boolean;

fn obj(members: Vec<(&str, JsonValue)>) -> JsonValue {
    JsonValue::Obj(members.into_iter().map(|(k, v)| (k.to_string(), v)).collect())
}

fn s(v: &str) -> JsonValue {
    JsonValue::Str(v.to_string())
}

#[test]
fn boolean_round_trip() {
    assert_eq!(Boolean::True.encode(), "True");
    assert_eq!(Boolean::False.encode(), "False");
    assert_eq!(Boolean::decode("True"), Ok(Boolean::True));
    assert_eq!(Boolean::decode("False"), Ok(Boolean::False));
    assert_eq!(
        Boolean::decode(&Boolean::True.encode()),
        Ok(Boolean::True)
    );
    assert_eq!(
        Boolean::decode(&Boolean::False.encode()),
        Ok(Boolean::False)
    );
}

#[test]
fn boolean_rejects_other_strings() {
    assert_eq!(Boolean::decode("true"), Err(Error::Deserialization));
    assert_eq!(Boolean::decode("false"), Err(Error::Deserialization));
    assert_eq!(Boolean::decode(""), Err(Error::Deserialization));
    assert_eq!(Boolean::decode("TRUE"), Err(Error::Deserialization));
}

#[test]
fn boolean_from_native() {
    assert_eq!(Boolean::from(true), Boolean::True);
    assert_eq!(Boolean::from(false), Boolean::False);
    assert!(bool::from(Boolean::True));
    assert!(!bool::from(Boolean::False));
}

#[test]
fn envelope_unwrap_returns_inner() {
    let inner = obj(vec![("code", JsonValue::Int(1000))]);
    let outer = obj(vec![("resp", inner)]);
    let got = unwrap_envelope(outer).unwrap();
    assert_eq!(json_to_string(&got), "{\"code\":1000}");
}

#[test]
fn envelope_unwrap_missing_resp_fails() {
    let outer = obj(vec![("other", obj(vec![("code", JsonValue::Int(1))]))]);
    assert_eq!(
        unwrap_envelope(outer).unwrap_err(),
        Error::UnexpectedResponseShape
    );
    assert_eq!(
        unwrap_envelope(JsonValue::Int(3)).unwrap_err(),
        Error::UnexpectedResponseShape
    );
}

#[test]
fn envelope_unwrap_takes_last_duplicate() {
    let outer = JsonValue::Obj(vec![
        ("resp".to_string(), JsonValue::Int(1)),
        ("resp".to_string(), JsonValue::Int(2)),
    ]);
    let got = unwrap_envelope(outer).unwrap();
    assert_eq!(json_to_string(&got), "2");
}

#[test]
fn serializer_scalars() {
    assert_eq!(json_to_string(&JsonValue::Null), "null");
    assert_eq!(json_to_string(&JsonValue::Bool(true)), "true");
    assert_eq!(json_to_string(&JsonValue::Bool(false)), "false");
    assert_eq!(json_to_string(&JsonValue::Int(0)), "0");
    assert_eq!(json_to_string(&JsonValue::Int(-5)), "-5");
    assert_eq!(json_to_string(&JsonValue::Int(1234567890)), "1234567890");
    assert_eq!(
        json_to_string(&JsonValue::Int(i64::MIN)),
        "-9223372036854775808"
    );
}

#[test]
fn serializer_strings_and_escapes() {
    assert_eq!(json_to_string(&s("hi")), "\"hi\"");
    assert_eq!(json_to_string(&s("a\"b")), "\"a\\\"b\"");
    assert_eq!(json_to_string(&s("a\\b")), "\"a\\\\b\"");
    assert_eq!(json_to_string(&s("a\nb")), "\"a\\nb\"");
}

#[test]
fn serializer_compound() {
    let v = obj(vec![
        ("xs", JsonValue::Arr(vec![JsonValue::Int(1), JsonValue::Int(2)])),
        ("s", s("ok")),
    ]);
    assert_eq!(json_to_string(&v), "{\"xs\":[1,2],\"s\":\"ok\"}");
}

#[test]
fn parser_reads_protocol_documents() {
    let v = parse_json("{\"resp\": {\"code\": 1000, \"id\": \"J\", \"text\": \"hi\", \"utterances\": []}}")
        .unwrap();
    assert_eq!(
        json_to_string(&v),
        "{\"resp\":{\"code\":1000,\"id\":\"J\",\"text\":\"hi\",\"utterances\":[]}}"
    );
}

#[test]
fn parser_reads_scalars_arrays_and_escapes() {
    assert_eq!(parse_json("null").unwrap(), JsonValue::Null);
    assert_eq!(parse_json(" true ").unwrap(), JsonValue::Bool(true));
    assert_eq!(parse_json("false").unwrap(), JsonValue::Bool(false));
    assert_eq!(parse_json("-42").unwrap(), JsonValue::Int(-42));
    assert_eq!(
        parse_json("9223372036854775807").unwrap(),
        JsonValue::Int(i64::MAX)
    );
    assert_eq!(
        parse_json("-9223372036854775808").unwrap(),
        JsonValue::Int(i64::MIN)
    );
    assert_eq!(
        parse_json("[1, 2, 3]").unwrap(),
        JsonValue::Arr(vec![JsonValue::Int(1), JsonValue::Int(2), JsonValue::Int(3)])
    );
    assert_eq!(
        parse_json("\"a\\\"b\\n\"").unwrap(),
        JsonValue::Str("a\"b\n".to_string())
    );
}

#[test]
fn parser_rejects_malformed_documents() {
    assert_eq!(parse_json("").unwrap_err(), Error::Deserialization);
    assert_eq!(parse_json("{").unwrap_err(), Error::Deserialization);
    assert_eq!(parse_json("nul").unwrap_err(), Error::Deserialization);
    assert_eq!(parse_json("{\"a\":1,}").unwrap_err(), Error::Deserialization);
    assert_eq!(parse_json("1 2").unwrap_err(), Error::Deserialization);
    assert_eq!(
        parse_json("9223372036854775808").unwrap_err(),
        Error::Deserialization
    );
    assert_eq!(parse_json("12.5").unwrap_err(), Error::Deserialization);
}

#[test]
fn parser_round_trips_rendered_documents() {
    let v = obj(vec![
        ("code", JsonValue::Int(1000)),
        ("message", s("ok")),
        ("nested", obj(vec![("xs", JsonValue::Arr(vec![s("a"), s("b")]))])),
    ]);
    let text = json_to_string(&v);
    assert_eq!(parse_json(&text).unwrap(), v);
}
