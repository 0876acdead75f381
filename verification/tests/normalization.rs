use event_sink::envelope::{Envelope, ExtensionValue, Payload};
use event_sink::json::extensions_json;
use event_sink::normalize::{normalize, ColumnValue, TableShape, Warning};

fn base_envelope() -> Envelope {
    Envelope {
        specversion: "1.0".to_string(),
        id: "370058fc-4bc1-4a0a-b27f-4ba5b625537b".to_string(),
        source: "com.acme.apps.ingress".to_string(),
        event_type: "com.acme.events.something".to_string(),
        datacontenttype: Some("application/json".to_string()),
        dataschema: None,
        subject: None,
        time: Some("2023-07-02T00:00:00Z".to_string()),
        extensions: Vec::new(),
        data: None,
    }
}

#[test]
fn full_shape_json_payload() {
    let value: serde_json::Value =
        serde_json::from_str(r#"{"body":"hello world","volume":10}"#).expect("valid json");
    let expected_data = value.to_string();
    let mut env = base_envelope();
    env.data = Some(Payload::Json(value));
    let row = normalize(&env, TableShape::FullEnvelope);
    assert_eq!(row.columns.len(), 10);
    assert_eq!(row.columns[0], ColumnValue::Text("1.0".to_string()));
    assert_eq!(
        row.columns[1],
        ColumnValue::Text("370058fc-4bc1-4a0a-b27f-4ba5b625537b".to_string())
    );
    assert_eq!(
        row.columns[2],
        ColumnValue::Text("com.acme.apps.ingress".to_string())
    );
    assert_eq!(
        row.columns[3],
        ColumnValue::Text("com.acme.events.something".to_string())
    );
    assert_eq!(
        row.columns[4],
        ColumnValue::Text("application/json".to_string())
    );
    assert_eq!(row.columns[5], ColumnValue::Null);
    assert_eq!(row.columns[6], ColumnValue::Null);
    assert_eq!(
        row.columns[7],
        ColumnValue::Timestamp("2023-07-02T00:00:00Z".to_string())
    );
    assert_eq!(row.columns[8], ColumnValue::JsonText("{}".to_string()));
    assert_eq!(row.columns[9], ColumnValue::Text(expected_data));
    assert!(row.warnings.is_empty());
}

#[test]
fn full_shape_extension_blob() {
    let mut env = base_envelope();
    env.extensions = vec![
        ("flag".to_string(), ExtensionValue::Boolean(true)),
        ("count".to_string(), ExtensionValue::Integer(-12)),
        (
            "note".to_string(),
            ExtensionValue::Text("say \"hi\"\nnow".to_string()),
        ),
    ];
    let row = normalize(&env, TableShape::FullEnvelope);
    assert_eq!(
        row.columns[8],
        ColumnValue::JsonText(
            "{\"flag\":true,\"count\":-12,\"note\":\"say \\\"hi\\\"\\nnow\"}".to_string()
        )
    );
}

#[test]
fn extension_blob_control_characters() {
    let exts = vec![(
        "ctl".to_string(),
        ExtensionValue::Text("a\u{1b}b\\c".to_string()),
    )];
    let blob = extensions_json(&exts);
    assert_eq!(blob, "{\"ctl\":\"a\\u001bb\\\\c\"}");
}

#[test]
fn text_payload_passes_through() {
    let mut env = base_envelope();
    env.data = Some(Payload::Text("plain text".to_string()));
    let row = normalize(&env, TableShape::FullEnvelope);
    assert_eq!(row.columns[9], ColumnValue::Text("plain text".to_string()));
    assert!(row.warnings.is_empty());
}

#[test]
fn binary_payload_valid_utf8_round_trips() {
    let mut env = base_envelope();
    env.data = Some(Payload::Binary("hello world".as_bytes().to_vec()));
    let row = normalize(&env, TableShape::FullEnvelope);
    assert_eq!(row.columns[9], ColumnValue::Text("hello world".to_string()));
    assert!(row.warnings.is_empty());
}

#[test]
fn binary_payload_invalid_utf8_degrades() {
    let mut env = base_envelope();
    env.data = Some(Payload::Binary(vec![0xff, 0xfe, 0x01]));
    let row = normalize(&env, TableShape::FullEnvelope);
    assert_eq!(row.columns[9], ColumnValue::Null);
    assert_eq!(row.warnings, vec![Warning::PayloadNotUtf8]);
}

#[test]
fn absent_payload_is_null() {
    let env = base_envelope();
    let row = normalize(&env, TableShape::FullEnvelope);
    assert_eq!(row.columns[9], ColumnValue::Null);
    assert!(row.warnings.is_empty());
}

#[test]
fn reduced_shape_columns() {
    let mut env = base_envelope();
    env.extensions = vec![
        ("knativeerrorcode".to_string(), ExtensionValue::Integer(500)),
        (
            "knativeerrordata".to_string(),
            ExtensionValue::Text("".to_string()),
        ),
        (
            "knativeerrordest".to_string(),
            ExtensionValue::Text("http://acme.com".to_string()),
        ),
    ];
    env.data = Some(Payload::Text("body".to_string()));
    let row = normalize(&env, TableShape::Reduced);
    assert_eq!(row.columns.len(), 8);
    assert_eq!(
        row.columns[0],
        ColumnValue::Text("370058fc-4bc1-4a0a-b27f-4ba5b625537b".to_string())
    );
    assert_eq!(
        row.columns[1],
        ColumnValue::Text("com.acme.apps.ingress".to_string())
    );
    assert_eq!(
        row.columns[2],
        ColumnValue::Text("com.acme.events.something".to_string())
    );
    assert_eq!(
        row.columns[3],
        ColumnValue::Timestamp("2023-07-02T00:00:00Z".to_string())
    );
    assert_eq!(row.columns[4], ColumnValue::Integer(500));
    assert_eq!(row.columns[5], ColumnValue::Text("".to_string()));
    assert_eq!(
        row.columns[6],
        ColumnValue::Text("http://acme.com".to_string())
    );
    assert_eq!(row.columns[7], ColumnValue::Text("body".to_string()));
    assert!(row.warnings.is_empty());
}

#[test]
fn integer_extension_supplied_as_numeric_text() {
    let mut env = base_envelope();
    env.extensions = vec![(
        "knativeerrorcode".to_string(),
        ExtensionValue::Text("503".to_string()),
    )];
    let row = normalize(&env, TableShape::Reduced);
    assert_eq!(row.columns[4], ColumnValue::Integer(503));
    assert!(row.warnings.is_empty());
}

#[test]
fn integer_extension_nonnumeric_text_degrades() {
    let mut env = base_envelope();
    env.extensions = vec![(
        "knativeerrorcode".to_string(),
        ExtensionValue::Text("not a number".to_string()),
    )];
    let row = normalize(&env, TableShape::Reduced);
    assert_eq!(row.columns[4], ColumnValue::Null);
    assert_eq!(
        row.warnings,
        vec![Warning::IntegerCoercion("knativeerrorcode".to_string())]
    );
}

#[test]
fn integer_extension_boolean_degrades() {
    let mut env = base_envelope();
    env.extensions = vec![(
        "knativeerrorcode".to_string(),
        ExtensionValue::Boolean(true),
    )];
    let row = normalize(&env, TableShape::Reduced);
    assert_eq!(row.columns[4], ColumnValue::Null);
    assert_eq!(
        row.warnings,
        vec![Warning::IntegerCoercion("knativeerrorcode".to_string())]
    );
}

#[test]
fn string_extension_stringifies_scalars() {
    let mut env = base_envelope();
    env.extensions = vec![
        ("knativeerrordata".to_string(), ExtensionValue::Integer(7)),
        (
            "knativeerrordest".to_string(),
            ExtensionValue::Boolean(false),
        ),
    ];
    let row = normalize(&env, TableShape::Reduced);
    assert_eq!(row.columns[5], ColumnValue::Text("7".to_string()));
    assert_eq!(row.columns[6], ColumnValue::Text("false".to_string()));
}

#[test]
fn missing_extensions_are_null() {
    let env = base_envelope();
    let row = normalize(&env, TableShape::Reduced);
    assert_eq!(row.columns[4], ColumnValue::Null);
    assert_eq!(row.columns[5], ColumnValue::Null);
    assert_eq!(row.columns[6], ColumnValue::Null);
    assert!(row.warnings.is_empty());
}

#[test]
fn missing_time_is_null() {
    let mut env = base_envelope();
    env.time = None;
    let row = normalize(&env, TableShape::FullEnvelope);
    assert_eq!(row.columns[7], ColumnValue::Null);
}

#[test]
fn degradations_accumulate() {
    let mut env = base_envelope();
    env.extensions = vec![(
        "knativeerrorcode".to_string(),
        ExtensionValue::Text("bad".to_string()),
    )];
    env.data = Some(Payload::Binary(vec![0x80]));
    let row = normalize(&env, TableShape::Reduced);
    assert_eq!(
        row.warnings,
        vec![
            Warning::IntegerCoercion("knativeerrorcode".to_string()),
            Warning::PayloadNotUtf8,
        ]
    );
}
