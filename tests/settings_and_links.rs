use kimi_lib::validate_external_url;
use kimi_lib::wrappers;
use kimi_lib::wrappers::config::{Selectors, Timeouts, Urls};
use kimi_lib::wrappers::{build_js, escape_js};
use kimi_lib::AppSettings;

#[test]
fn test_app_settings_default() {
    let settings = AppSettings::default();
    assert!(settings.new_chat_default, "new_chat_default should be true");
    assert!(
        settings.notifications_enabled,
        "notifications_enabled should be true"
    );
}

#[test]
fn lib_test_escape_js_escapes_backticks() {
    let escaped = escape_js("code `inline` here");
    assert!(escaped.contains(r"\`inline\`"));
    assert!(!escaped.contains("code `inline` here"));
}

#[test]
fn lib_test_escape_js_escapes_backslashes() {
    let escaped = escape_js(r"path\to\file");
    assert!(escaped.contains(r"path\\to\\file"));
}

#[test]
fn lib_test_escape_js_escapes_dollar_signs() {
    let escaped = escape_js("cost is $100");
    assert!(escaped.contains(r"cost is \$100"));
}

#[test]
fn lib_test_escape_js_escapes_newlines() {
    let escaped = escape_js("line1\nline2\rline3");
    assert!(escaped.contains(r"line1\nline2\rline3"));
}

#[test]
fn lib_test_escape_js_handles_empty_string() {
    let escaped = escape_js("");
    assert_eq!(escaped, "");
}

#[test]
fn lib_test_build_js_replaces_placeholders() {
    let template = "Hello {{name}}, you are {{age}} years old";
    let result = build_js(template, &[("name", "Alice"), ("age", "30")]);
    assert_eq!(result, "Hello Alice, you are 30 years old");
}

#[test]
fn lib_test_build_js_handles_missing_placeholders() {
    let template = "Hello {{name}}";
    let result = build_js(template, &[]);
    assert_eq!(result, "Hello {{name}}");
}

#[test]
fn test_inject_message_js_simple() {
    let js = build_js(wrappers::INJECT_MESSAGE_JS, &[("message", "Hello world")]);
    assert!(js.contains("Hello world"));
    assert!(js.contains("emitResult"));
    assert!(js.contains("findTextarea"));
}

#[test]
fn test_response_watcher_js_is_valid() {
    assert!(!wrappers::RESPONSE_WATCHER_JS.is_empty());
    assert!(wrappers::RESPONSE_WATCHER_JS.contains("__kimiResponseWatcher"));
    assert!(wrappers::RESPONSE_WATCHER_JS.contains("response-complete"));
}

#[test]
fn test_titlebar_overlap_js_is_valid() {
    assert!(!wrappers::TITLEBAR_OVERLAP_JS.is_empty());
    assert!(wrappers::TITLEBAR_OVERLAP_JS.contains("{{style_id}}"));
}

#[test]
fn test_connectivity_js_is_valid() {
    assert!(!wrappers::CONNECTIVITY_JS.is_empty());
    assert!(wrappers::CONNECTIVITY_JS.contains("serviceWorker"));
}

#[test]
fn test_link_interceptor_js_is_valid() {
    assert!(!wrappers::LINK_INTERCEPTOR_JS.is_empty());
    assert!(wrappers::LINK_INTERCEPTOR_JS.contains("__kimiLinkInterceptor"));
}

#[test]
fn test_config_selectors() {
    assert_eq!(Selectors::CHAT_INPUT, ".chat-input-editor");
    assert_eq!(Selectors::SEND_BUTTON, ".send-button-container:not(.disabled)");
}

#[test]
fn test_config_timeouts() {
    assert_eq!(Timeouts::INJECTION_TOTAL, 8000);
    assert_eq!(Timeouts::INJECTION_MAX_RETRIES, 15);
}

#[test]
fn test_config_urls() {
    assert_eq!(Urls::CHAT, "https://www.kimi.com/");
    assert!(Urls::CHAT.starts_with("https://"));
}

#[test]
fn test_validate_external_url_accepts_https() {
    assert!(validate_external_url("https://example.com").is_ok());
}

#[test]
fn test_validate_external_url_accepts_http() {
    assert!(validate_external_url("http://example.com").is_ok());
}

#[test]
fn test_validate_external_url_accepts_mailto() {
    assert!(validate_external_url("mailto:test@example.com").is_ok());
}

#[test]
fn test_validate_external_url_rejects_javascript() {
    let result = validate_external_url("javascript:alert('xss')");
    assert!(result.is_err());
    assert!(result.unwrap_err().contains("JavaScript"));
}

#[test]
fn test_validate_external_url_rejects_data_url() {
    let result = validate_external_url("data:text/html,<script>alert('xss')</script>");
    assert!(result.is_err());
    assert!(result.unwrap_err().contains("Data URLs"));
}

#[test]
fn test_validate_external_url_rejects_file_url() {
    let result = validate_external_url("file:///etc/passwd");
    assert!(result.is_err());
    assert!(result.unwrap_err().contains("File URLs"));
}

#[test]
fn test_validate_external_url_rejects_vbscript() {
    let result = validate_external_url("vbscript:msgbox('test')");
    assert!(result.is_err());
}

#[test]
fn test_validate_external_url_rejects_relative_url() {
    let result = validate_external_url("/path/to/page");
    assert!(result.is_err());
}

#[test]
fn test_validate_external_url_case_insensitive() {
    assert!(validate_external_url("HTTPS://EXAMPLE.COM").is_ok());
    assert!(validate_external_url("JAVASCRIPT:alert(1)").is_err());
}
