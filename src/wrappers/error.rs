//! Errors of the host-side wrapper operations.
use vstd::prelude::*;

use crate::wrappers::utils::{decimal_seq, decimal_string};

verus! {

/// Errors that can occur during wrapper operations.
#[derive(Debug, Clone)]
pub enum WrapperError {
    /// Failed to execute a script in the webview.
    InjectionFailed { context: String, source: String },
    /// Target window not found.
    WindowNotFound { window_label: String },
    /// Script evaluation error.
    EvalError { message: String },
    /// JSON serialization or deserialization error.
    SerializationError { message: String },
    /// Operation timed out.
    Timeout { operation: String, duration_ms: u64 },
    /// Invalid URL provided.
    InvalidUrl { url: String, reason: String },
    /// Store operation failed.
    StoreError { operation: String, message: String },
    /// Settings validation failed.
    InvalidSettings { field: String, message: String },
}

/// Result type for wrapper operations.
pub type WrapperResult<T> = Result<T, WrapperError>;

/// The human-readable text of an error.
pub open spec fn error_text(e: WrapperError) -> Seq<char> {
    match e {
        WrapperError::InjectionFailed { context, source } => "Failed to inject "@ + context@ + ": "@
            + source@,
        WrapperError::WindowNotFound { window_label } => "Window '"@ + window_label@
            + "' not found"@,
        WrapperError::EvalError { message } => "JavaScript evaluation error: "@ + message@,
        WrapperError::SerializationError { message } => "Serialization error: "@ + message@,
        WrapperError::Timeout { operation, duration_ms } => "Operation '"@ + operation@
            + "' timed out after "@ + decimal_seq(duration_ms as nat) + "ms"@,
        WrapperError::InvalidUrl { url, reason } => "Invalid URL '"@ + url@ + "': "@ + reason@,
        WrapperError::StoreError { operation, message } => "Store operation '"@ + operation@
            + "' failed: "@ + message@,
        WrapperError::InvalidSettings { field, message } => "Invalid settings field '"@ + field@
            + "': "@ + message@,
    }
}

impl WrapperError {
    /// The human-readable text of this error.
    pub fn to_string(&self) -> (r: String)
        ensures
            r@ == error_text(*self),
    {
        match self {
            WrapperError::InjectionFailed { context, source } => {
                let mut s = String::from_str("Failed to inject ");
                s.append(context.as_str());
                s.append(": ");
                s.append(source.as_str());
                s
            },
            WrapperError::WindowNotFound { window_label } => {
                let mut s = String::from_str("Window '");
                s.append(window_label.as_str());
                s.append("' not found");
                s
            },
            WrapperError::EvalError { message } => {
                let mut s = String::from_str("JavaScript evaluation error: ");
                s.append(message.as_str());
                s
            },
            WrapperError::SerializationError { message } => {
                let mut s = String::from_str("Serialization error: ");
                s.append(message.as_str());
                s
            },
            WrapperError::Timeout { operation, duration_ms } => {
                let mut s = String::from_str("Operation '");
                s.append(operation.as_str());
                s.append("' timed out after ");
                let ms = decimal_string(*duration_ms);
                s.append(ms.as_str());
                s.append("ms");
                s
            },
            WrapperError::InvalidUrl { url, reason } => {
                let mut s = String::from_str("Invalid URL '");
                s.append(url.as_str());
                s.append("': ");
                s.append(reason.as_str());
                s
            },
            WrapperError::StoreError { operation, message } => {
                let mut s = String::from_str("Store operation '");
                s.append(operation.as_str());
                s.append("' failed: ");
                s.append(message.as_str());
                s
            },
            WrapperError::InvalidSettings { field, message } => {
                let mut s = String::from_str("Invalid settings field '");
                s.append(field.as_str());
                s.append("': ");
                s.append(message.as_str());
                s
            },
        }
    }
}

#[verifier::external_type_specification]
#[verifier::external_body]
pub struct ExJsonError(serde_json::Error);

/// Relies on serde_json::Error's `Display`: the text that describes the error.
#[verifier::external_body]
fn json_error_text(err: &serde_json::Error) -> (r: String) {
    err.to_string()
}

impl WrapperError {
    /// A JSON (de)serialization failure, carrying serde_json's description.
    pub fn from_json_error(err: &serde_json::Error) -> (r: WrapperError)
        ensures
            r is SerializationError,
    {
        WrapperError::SerializationError { message: json_error_text(err) }
    }
}

impl From<serde_json::Error> for WrapperError {
    fn from(err: serde_json::Error) -> (r: WrapperError) {
        WrapperError::from_json_error(&err)
    }
}

impl vstd::std_specs::convert::FromSpecImpl<serde_json::Error> for WrapperError {
    // serde_json's error has no model here, so no exact result is claimed;
    // `from_json_error` states what the conversion guarantees.
    open spec fn obeys_from_spec() -> bool {
        false
    }

    open spec fn from_spec(v: serde_json::Error) -> WrapperError {
        vstd::pervasive::arbitrary()
    }
}

} // verus!
