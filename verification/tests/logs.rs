use pg_bm25::logs::{LogJson, LogLevel, DEFAULT_LOG_LEVEL};

#[test]
fn level_is_written_as_its_name() {
    assert_eq!(LogLevel::INFO.to_string(), "INFO");
    assert_eq!(LogLevel::WARN.to_string(), "WARN");
    assert_eq!(LogLevel::ERROR.to_string(), "ERROR");
    assert_eq!(LogLevel::DEBUG.to_string(), "DEBUG");
    assert_eq!(LogLevel::TRACE.to_string(), "TRACE");
}

#[test]
fn level_text_agrees_with_debug_form() {
    let levels = [
        LogLevel::INFO,
        LogLevel::WARN,
        LogLevel::ERROR,
        LogLevel::DEBUG,
        LogLevel::TRACE,
    ];
    for level in levels {
        assert_eq!(level.to_string(), format!("{:?}", level));
    }
}

#[test]
fn default_level_is_info() {
    assert_eq!(DEFAULT_LOG_LEVEL, LogLevel::INFO);
    assert_eq!(DEFAULT_LOG_LEVEL.to_string(), "INFO");
}

#[test]
fn encoded_payload_is_shown_as_it_is() {
    let payload = LogJson {
        data: serde_json::Value::String("started".to_string()),
        error: None,
    };
    let encoded = serde_json::to_string(&payload.data);
    assert_eq!(LogJson::display_text(encoded), "\"started\"");
    assert_eq!(
        LogJson::display_text(Ok("{\"data\":1,\"error\":\"boom\"}".to_string())),
        "{\"data\":1,\"error\":\"boom\"}"
    );
    assert_eq!(LogJson::display_text(Ok(String::new())), "");
}

#[test]
fn failed_encoding_is_shown_as_empty_object() {
    let failure = serde_json::from_str::<serde_json::Value>("{").unwrap_err();
    assert_eq!(LogJson::display_text(Err(failure)), "{}");
}

#[test]
fn payload_holds_document_and_error() {
    let payload = LogJson {
        data: serde_json::Value::Bool(true),
        error: Some("boom".to_string()),
    };
    assert_eq!(payload.data, serde_json::Value::Bool(true));
    assert_eq!(payload.error.as_deref(), Some("boom"));
}
