use kimi_lib::wrappers::error::WrapperError;

#[test]
fn test_error_display_injection_failed() {
    let err = WrapperError::InjectionFailed {
        context: "message".to_string(),
        source: "textarea not found".to_string(),
    };
    assert!(err.to_string().contains("Failed to inject message"));
    assert!(err.to_string().contains("textarea not found"));
}

#[test]
fn test_error_display_window_not_found() {
    let err = WrapperError::WindowNotFound {
        window_label: "main".to_string(),
    };
    assert!(err.to_string().contains("Window 'main' not found"));
}

#[test]
fn test_error_debug_format() {
    let err = WrapperError::Timeout {
        operation: "message injection".to_string(),
        duration_ms: 5000,
    };
    let debug_str = format!("{:?}", err);
    assert!(debug_str.contains("Timeout"));
}

#[test]
fn error_texts_of_every_variant() {
    let s = |v: &str| v.to_string();
    let cases = vec![
        (
            WrapperError::InjectionFailed { context: s("chat message"), source: s("boom") },
            "Failed to inject chat message: boom",
        ),
        (WrapperError::WindowNotFound { window_label: s("main") }, "Window 'main' not found"),
        (WrapperError::EvalError { message: s("bad") }, "JavaScript evaluation error: bad"),
        (WrapperError::SerializationError { message: s("eof") }, "Serialization error: eof"),
        (
            WrapperError::Timeout { operation: s("message injection"), duration_ms: 5000 },
            "Operation 'message injection' timed out after 5000ms",
        ),
        (
            WrapperError::InvalidUrl { url: s("x:y"), reason: s("no") },
            "Invalid URL 'x:y': no",
        ),
        (
            WrapperError::StoreError { operation: s("save"), message: s("disk") },
            "Store operation 'save' failed: disk",
        ),
        (
            WrapperError::InvalidSettings { field: s("f"), message: s("m") },
            "Invalid settings field 'f': m",
        ),
    ];
    for (err, text) in cases {
        assert_eq!(err.to_string(), text);
    }
}

#[test]
fn timeout_text_of_zero_and_large_durations() {
    let zero = WrapperError::Timeout { operation: "a".to_string(), duration_ms: 0 };
    assert_eq!(zero.to_string(), "Operation 'a' timed out after 0ms");
    let big = WrapperError::Timeout { operation: "b".to_string(), duration_ms: u64::MAX };
    assert_eq!(big.to_string(), "Operation 'b' timed out after 18446744073709551615ms");
}

#[test]
fn test_from_serde_error() {
    let json = "{ invalid json }";
    let result: Result<serde_json::Value, _> = serde_json::from_str(json);
    let err: WrapperError = result.unwrap_err().into();

    match err {
        WrapperError::SerializationError { .. } => {}
        _ => panic!("Expected SerializationError"),
    }
}

#[test]
fn json_error_text_is_carried() {
    let err = serde_json::from_str::<serde_json::Value>("[1,").unwrap_err();
    let text = err.to_string();
    match WrapperError::from_json_error(&err) {
        WrapperError::SerializationError { message } => {
            assert_eq!(message, text);
            assert!(!message.is_empty());
        }
        other => panic!("unexpected {:?}", other),
    }
}
