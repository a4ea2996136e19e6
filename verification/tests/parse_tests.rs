use confboot::{parse_document, resolve_document, ConfigError, ConfigValue, FieldErrorKind};

#[test]
fn parse_document_builds_the_tree() {
    let doc = parse_document("{\"a\":1,\"b\":[true,null,\"x\"],\"c\":{\"d\":1.5}}").unwrap();
    let expected = ConfigValue::Object(vec![
        ("a".to_string(), ConfigValue::Number("1".to_string())),
        (
            "b".to_string(),
            ConfigValue::Array(vec![
                ConfigValue::Bool(true),
                ConfigValue::Null,
                ConfigValue::Text("x".to_string()),
            ]),
        ),
        (
            "c".to_string(),
            ConfigValue::Object(vec![(
                "d".to_string(),
                ConfigValue::Number("1.5".to_string()),
            )]),
        ),
    ]);
    assert_eq!(doc, expected);
}

#[test]
fn parse_document_rejects_bad_text() {
    match parse_document("{\"a\":") {
        Err(ConfigError::Parse { .. }) => (),
        other => panic!("expected a parse error, got {:?}", other),
    }
}

#[test]
fn parse_error_message_carries_context() {
    let err = parse_document("nonsense").unwrap_err();
    assert!(err.message().starts_with("failed to parse config: "));
}

#[test]
fn resolve_document_rejects_non_object_root() {
    match resolve_document("[1,2]", "svc") {
        Err(ConfigError::Parse { .. }) => (),
        other => panic!("expected a parse error, got {:?}", other),
    }
}

#[test]
fn resolve_document_rejects_non_object_section() {
    match resolve_document("{\"svc\":3}", "svc") {
        Err(ConfigError::Deserialize { path, kind }) => {
            assert_eq!(path, "svc");
            assert_eq!(kind, FieldErrorKind::TypeMismatch);
        }
        other => panic!("expected a type mismatch, got {:?}", other),
    }
}

#[test]
fn resolve_document_reports_missing_section() {
    match resolve_document("{\"other\":{}}", "svc") {
        Err(ConfigError::SectionNotFound { name }) => assert_eq!(name, "svc"),
        other => panic!("expected SectionNotFound, got {:?}", other),
    }
}

#[test]
fn duplicate_keys_keep_the_last_value() {
    let doc = parse_document("{\"a\":1,\"a\":2}").unwrap();
    assert_eq!(
        doc,
        ConfigValue::Object(vec![(
            "a".to_string(),
            ConfigValue::Number("2".to_string())
        )])
    );
}
