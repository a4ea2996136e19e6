use confboot::{
    get_log_level_from_verbosity, parse_document, ConfigError, FieldErrorKind, LevelFilter,
    LogConfig, LogConsoleTarget, LogLevel, LogRotationInterval,
};

#[test]
fn log_config_reads_every_field() {
    let doc = parse_document(
        "{\"level\":\"info\",\"console\":\"stderr\",\"file\":\"/var/log/svc.log\",\
         \"rotation\":\"daily\",\"console_subscriber\":true}",
    )
    .unwrap();
    let config = LogConfig::from_value(&doc).unwrap();
    assert_eq!(config.level, LogLevel::Info);
    assert_eq!(config.console, LogConsoleTarget::Stderr);
    assert_eq!(config.file, Some("/var/log/svc.log".to_string()));
    assert_eq!(config.rotation, LogRotationInterval::Daily);
    assert_eq!(config.console_subscriber, true);
}

#[test]
fn log_config_console_defaults_to_stdout() {
    let doc = parse_document(
        "{\"level\":\"warn\",\"rotation\":\"never\",\"console_subscriber\":false}",
    )
    .unwrap();
    let config = LogConfig::from_value(&doc).unwrap();
    assert_eq!(config.console, LogConsoleTarget::Stdout);
    assert_eq!(config.file, None);
}

#[test]
fn log_config_null_file_means_none() {
    let doc = parse_document(
        "{\"level\":\"warn\",\"file\":null,\"rotation\":\"never\",\"console_subscriber\":false}",
    )
    .unwrap();
    assert_eq!(LogConfig::from_value(&doc).unwrap().file, None);
}

#[test]
fn log_config_missing_level_reports_its_path() {
    let doc = parse_document("{\"rotation\":\"never\",\"console_subscriber\":false}").unwrap();
    match LogConfig::from_value(&doc) {
        Err(ConfigError::Deserialize { path, kind }) => {
            assert_eq!(path, "level");
            assert_eq!(kind, FieldErrorKind::MissingField);
        }
        other => panic!("expected a missing-field error, got {:?}", other),
    }
}

#[test]
fn log_config_unknown_level_is_an_invalid_variant() {
    let doc = parse_document(
        "{\"level\":\"verbose\",\"rotation\":\"never\",\"console_subscriber\":false}",
    )
    .unwrap();
    match LogConfig::from_value(&doc) {
        Err(ConfigError::Deserialize { path, kind }) => {
            assert_eq!(path, "level");
            assert_eq!(kind, FieldErrorKind::InvalidEnumVariant);
        }
        other => panic!("expected an invalid-variant error, got {:?}", other),
    }
}

#[test]
fn log_config_missing_rotation_reports_its_path() {
    let doc = parse_document("{\"level\":\"info\",\"console_subscriber\":false}").unwrap();
    match LogConfig::from_value(&doc) {
        Err(ConfigError::Deserialize { path, kind }) => {
            assert_eq!(path, "rotation");
            assert_eq!(kind, FieldErrorKind::MissingField);
        }
        other => panic!("expected a missing-field error, got {:?}", other),
    }
}

#[test]
fn log_config_subscriber_must_be_a_bool() {
    let doc = parse_document(
        "{\"level\":\"info\",\"rotation\":\"never\",\"console_subscriber\":\"yes\"}",
    )
    .unwrap();
    match LogConfig::from_value(&doc) {
        Err(ConfigError::Deserialize { path, kind }) => {
            assert_eq!(path, "console_subscriber");
            assert_eq!(kind, FieldErrorKind::TypeMismatch);
        }
        other => panic!("expected a type mismatch, got {:?}", other),
    }
}

#[test]
fn log_level_names_parse_in_any_ascii_case() {
    assert_eq!(LogLevel::from_str("error"), Some(LogLevel::Error));
    assert_eq!(LogLevel::from_str("ERROR"), Some(LogLevel::Error));
    assert_eq!(LogLevel::from_str("Warn"), Some(LogLevel::Warn));
    assert_eq!(LogLevel::from_str("info"), Some(LogLevel::Info));
    assert_eq!(LogLevel::from_str("debug"), Some(LogLevel::Debug));
    assert_eq!(LogLevel::from_str("trace"), Some(LogLevel::Trace));
    assert_eq!(LogLevel::from_str("detail"), Some(LogLevel::Detail));
    assert_eq!(LogLevel::from_str("off"), Some(LogLevel::Off));
    assert_eq!(LogLevel::from_str("bogus"), None);
    assert_eq!(LogLevel::from_str(""), None);
}

#[test]
fn level_filters_match_their_levels() {
    assert_eq!(LogLevel::Off.as_level_filter(), LevelFilter::Off);
    assert_eq!(LogLevel::Error.as_level_filter(), LevelFilter::Error);
    assert_eq!(LogLevel::Warn.as_level_filter(), LevelFilter::Warn);
    assert_eq!(LogLevel::Info.as_level_filter(), LevelFilter::Info);
    assert_eq!(LogLevel::Debug.as_level_filter(), LevelFilter::Debug);
    assert_eq!(LogLevel::Trace.as_level_filter(), LevelFilter::Trace);
    // Detail logs at Trace verbosity
    assert_eq!(LogLevel::Detail.as_level_filter(), LevelFilter::Trace);
}

#[test]
fn verbosity_indexes_the_level_list() {
    let levels = [LogLevel::Error, LogLevel::Info, LogLevel::Debug];
    assert_eq!(get_log_level_from_verbosity(0, &levels), LogLevel::Error);
    assert_eq!(get_log_level_from_verbosity(1, &levels), LogLevel::Info);
    assert_eq!(get_log_level_from_verbosity(2, &levels), LogLevel::Debug);
    // anything past the end picks the most verbose entry
    assert_eq!(get_log_level_from_verbosity(9, &levels), LogLevel::Debug);
}

#[test]
fn log_config_from_level_uses_plain_defaults() {
    let config = LogConfig::from(LogLevel::Info);
    assert_eq!(config.level, LogLevel::Info);
    assert_eq!(config.console, LogConsoleTarget::Stdout);
    assert_eq!(config.file, None);
    assert_eq!(config.rotation, LogRotationInterval::Never);
    assert_eq!(config.console_subscriber, false);
}
