use super_duper::cursor::{
    check_cursor_payload, cursor_payload_json, decode_cursor_bytes, encode_cursor, encode_review_group_cursor, hex_encode,
    validate_cursor_value, CursorPayload, CursorScalar, PageCursor, PageCursorValue,
};

const REVIEW_CURSOR: &str = "7b2276657273696f6e223a312c226b696e64223a227265766965772d67726f757073222c227175657279223a22736967222c226265666f7265223a66616c73652c2276616c7565223a7b2274797065223a22696e7465676572222c2276616c7565223a2235227d2c226964223a357d";

#[test]
fn id_cursors_are_the_hex_of_their_json() {
    assert_eq!(encode_review_group_cursor(5, "sig").unwrap(), REVIEW_CURSOR);
}

#[test]
fn cursor_text_decodes_to_its_bytes() {
    let payload = CursorPayload {
        version: 1,
        kind: "groups".to_owned(),
        query: "q\"\n".to_owned(),
        before: true,
        value: CursorScalar::Text("naïve".to_owned()),
        id: -3,
    };
    let text = encode_cursor(&payload);
    let bytes = decode_cursor_bytes(&text).unwrap();
    let json = String::from_utf8(bytes).unwrap();
    assert_eq!(
        json,
        r#"{"version":1,"kind":"groups","query":"q\"\n","before":true,"value":{"type":"text","value":"naïve"},"id":-3}"#
    );
    assert_eq!(hex_encode(&[0x00, 0xab, 0x7f]), "00ab7f");
}

#[test]
fn malformed_cursor_text_is_invalid() {
    for bad in ["", "abc", "zz", "0g"] {
        assert_eq!(decode_cursor_bytes(bad).unwrap_err().code, "invalid_cursor");
    }
    assert!(decode_cursor_bytes(&"a".repeat(524_290)).is_err());
    assert_eq!(decode_cursor_bytes("7B7d").unwrap(), b"{}".to_vec());
}

#[test]
fn payloads_must_match_kind_query_and_id() {
    let payload = |kind: &str, query: &str, id: i64, value: CursorScalar| CursorPayload {
        version: 1,
        kind: kind.to_owned(),
        query: query.to_owned(),
        before: false,
        value,
        id,
    };
    let cursor = check_cursor_payload(payload("groups", "q", 9, CursorScalar::Integer("42".to_owned())), "groups", "q").unwrap();
    assert!(matches!(cursor.value, PageCursorValue::Integer(42)));
    assert_eq!(cursor.id, 9);
    assert!(check_cursor_payload(payload("groups", "other", 9, CursorScalar::Integer("1".to_owned())), "groups", "q").is_err());
    assert!(check_cursor_payload(payload("members", "q", 9, CursorScalar::Integer("1".to_owned())), "groups", "q").is_err());
    assert!(check_cursor_payload(payload("groups", "q", 0, CursorScalar::Integer("1".to_owned())), "groups", "q").is_err());
    assert!(check_cursor_payload(payload("groups", "q", 1, CursorScalar::Integer("x".to_owned())), "groups", "q").is_err());
    let text = PageCursor { value: PageCursorValue::Text("a".to_owned()), id: 1, before: false };
    assert!(validate_cursor_value(Some(&text), true).is_ok());
    assert_eq!(validate_cursor_value(Some(&text), false).unwrap_err().code, "invalid_cursor");
    assert!(validate_cursor_value(None, false).is_ok());
}

fn serde_text(s: &str) -> String {
    serde_json::to_string(s).unwrap()
}

#[test]
fn payload_json_is_what_serde_json_writes() {
    let cases = vec![
        CursorPayload {
            version: 1,
            kind: "groups".to_owned(),
            query: "tab\there \"quoted\" back\\slash \u{1} é".to_owned(),
            before: true,
            value: CursorScalar::Text("naïve\u{7f}\u{2028}".to_owned()),
            id: -3,
        },
        CursorPayload {
            version: 7,
            kind: "review-groups".to_owned(),
            query: String::new(),
            before: false,
            value: CursorScalar::Integer("-9223372036854775808".to_owned()),
            id: i64::MAX,
        },
    ];
    for p in &cases {
        let json = cursor_payload_json(p);
        let (tag, inner) = match &p.value {
            CursorScalar::Integer(s) => ("integer", s.clone()),
            CursorScalar::Text(s) => ("text", s.clone()),
        };
        let expected = format!(
            "{{\"version\":{},\"kind\":{},\"query\":{},\"before\":{},\"value\":{{\"type\":{},\"value\":{}}},\"id\":{}}}",
            serde_json::to_string(&p.version).unwrap(),
            serde_text(&p.kind),
            serde_text(&p.query),
            serde_json::to_string(&p.before).unwrap(),
            serde_text(tag),
            serde_text(&inner),
            serde_json::to_string(&p.id).unwrap(),
        );
        assert_eq!(json, expected);

        let mut value = serde_json::Map::new();
        value.insert("type".to_owned(), serde_json::Value::String(tag.to_owned()));
        value.insert("value".to_owned(), serde_json::Value::String(inner.clone()));
        let mut object = serde_json::Map::new();
        object.insert("version".to_owned(), serde_json::Value::from(p.version));
        object.insert("kind".to_owned(), serde_json::Value::String(p.kind.clone()));
        object.insert("query".to_owned(), serde_json::Value::String(p.query.clone()));
        object.insert("before".to_owned(), serde_json::Value::Bool(p.before));
        object.insert("value".to_owned(), serde_json::Value::Object(value));
        object.insert("id".to_owned(), serde_json::Value::from(p.id));
        let parsed: serde_json::Value = serde_json::from_str(&json).unwrap();
        assert_eq!(parsed, serde_json::Value::Object(object));
    }
}
