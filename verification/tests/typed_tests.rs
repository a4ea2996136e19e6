use confboot::{
    get_bool, get_field, get_text, get_u64, parse_document, parse_u64_lexeme, ConfigError,
    ConfigValue, FieldErrorKind,
};

#[test]
fn missing_required_field_reports_its_path() {
    // a document with `host` but no `port` must fail at exactly `port`
    let doc = parse_document("{\"host\":\"x\"}").unwrap();
    match get_field(&doc, "port") {
        Err(ConfigError::Deserialize { path, kind }) => {
            assert_eq!(path, "port");
            assert_eq!(kind, FieldErrorKind::MissingField);
        }
        other => panic!("expected a missing-field error, got {:?}", other),
    }
    let err = get_u64(&doc, "port").unwrap_err();
    assert_eq!(err.message(), "failed to parse config at port: missing field");
}

#[test]
fn present_field_is_found() {
    let doc = parse_document("{\"host\":\"x\",\"port\":8080}").unwrap();
    assert_eq!(
        get_field(&doc, "host").unwrap(),
        &ConfigValue::Text("x".to_string())
    );
    assert_eq!(get_u64(&doc, "port").unwrap(), 8080);
    assert_eq!(get_text(&doc, "host").unwrap(), "x");
}

#[test]
fn wrong_shape_is_a_type_mismatch_at_the_field() {
    let doc = parse_document("{\"port\":\"8080\",\"on\":1}").unwrap();
    match get_u64(&doc, "port") {
        Err(ConfigError::Deserialize { path, kind }) => {
            assert_eq!(path, "port");
            assert_eq!(kind, FieldErrorKind::TypeMismatch);
        }
        other => panic!("expected a type mismatch, got {:?}", other),
    }
    match get_bool(&doc, "on") {
        Err(ConfigError::Deserialize { path, kind }) => {
            assert_eq!(path, "on");
            assert_eq!(kind, FieldErrorKind::TypeMismatch);
        }
        other => panic!("expected a type mismatch, got {:?}", other),
    }
}

#[test]
fn fractional_and_signed_numbers_are_not_integers() {
    let doc = parse_document("{\"a\":1.5,\"b\":-3}").unwrap();
    assert!(matches!(
        get_u64(&doc, "a"),
        Err(ConfigError::Deserialize { kind: FieldErrorKind::TypeMismatch, .. })
    ));
    assert!(matches!(
        get_u64(&doc, "b"),
        Err(ConfigError::Deserialize { kind: FieldErrorKind::TypeMismatch, .. })
    ));
}

#[test]
fn bool_field_reads_back() {
    let doc = parse_document("{\"on\":true,\"off\":false}").unwrap();
    assert_eq!(get_bool(&doc, "on").unwrap(), true);
    assert_eq!(get_bool(&doc, "off").unwrap(), false);
}

#[test]
fn u64_lexemes_parse_exactly() {
    assert_eq!(parse_u64_lexeme("0"), Some(0));
    assert_eq!(parse_u64_lexeme("8080"), Some(8080));
    assert_eq!(parse_u64_lexeme("18446744073709551615"), Some(u64::MAX));
    assert_eq!(parse_u64_lexeme("18446744073709551616"), None);
    assert_eq!(parse_u64_lexeme(""), None);
    assert_eq!(parse_u64_lexeme("12a"), None);
    assert_eq!(parse_u64_lexeme("-1"), None);
    assert_eq!(parse_u64_lexeme("1.5"), None);
}
