//! Rendering the page-side scripts, and handing them to a window.
use vstd::prelude::*;

use crate::wrappers::config::{Selectors, Storage, Styles, Timeouts, Urls};
use crate::wrappers::error::{WrapperError, WrapperResult};
use crate::wrappers::templates::{
    CONNECTIVITY_JS, INJECT_MESSAGE_JS, LINK_INTERCEPTOR_JS, RESPONSE_WATCHER_JS,
    TITLEBAR_OVERLAP_JS,
};
use crate::wrappers::utils::{
    bindings_view, build_js, decimal_seq, decimal_string, escape_js, escape_seq, render_seq,
};

verus! {

pub open spec fn titlebar_bindings() -> Seq<(Seq<char>, Seq<char>)> {
    seq![("style_id"@, Styles::STYLE_ID@), ("header_padding"@, Styles::HEADER_PADDING@)]
}

/// The style script for the title bar, with its identifiers filled in.
pub fn titlebar_styles_script() -> (r: String)
    ensures
        r@ == render_seq(TITLEBAR_OVERLAP_JS@, titlebar_bindings()),
{
    let vars = [("style_id", Styles::STYLE_ID), ("header_padding", Styles::HEADER_PADDING)];
    assert(bindings_view(vars@) =~= titlebar_bindings());
    build_js(TITLEBAR_OVERLAP_JS, &vars)
}

pub open spec fn inject_message_bindings(message: Seq<char>) -> Seq<(Seq<char>, Seq<char>)> {
    seq![
        ("message"@, escape_seq(message)),
        ("max_retries"@, decimal_seq(Timeouts::INJECTION_MAX_RETRIES as nat)),
        ("retry_delay"@, decimal_seq(Timeouts::RETRY_DELAY as nat)),
        ("total_timeout"@, decimal_seq(Timeouts::INJECTION_TOTAL as nat)),
        ("fallback_timeout"@, decimal_seq(Timeouts::FALLBACK_LOAD_TIMEOUT as nat)),
        ("react_init_delay"@, decimal_seq(Timeouts::REACT_INIT_DELAY as nat)),
        ("focus_delay"@, decimal_seq(Timeouts::FOCUS_DELAY as nat)),
        ("submit_delay"@, decimal_seq(Timeouts::SUBMIT_DELAY as nat)),
        ("selector_chat_input"@, Selectors::CHAT_INPUT@),
        ("selector_contenteditable"@, Selectors::CONTENTEDITABLE@),
        ("selector_textarea_ask"@, Selectors::TEXTAREA_ASK@),
        ("selector_textarea_message"@, Selectors::TEXTAREA_MESSAGE@),
        ("selector_textarea_lowercase_ask"@, Selectors::TEXTAREA_LOWERCASE_ASK@),
        ("selector_textarea_testid"@, Selectors::TEXTAREA_TESTID@),
        ("selector_textarea_any"@, Selectors::TEXTAREA_ANY@),
        ("selector_send_button"@, Selectors::SEND_BUTTON@),
        ("selector_send_button_fallback"@, Selectors::SEND_BUTTON_FALLBACK@),
        ("selector_submit_button"@, Selectors::SUBMIT_BUTTON@),
        ("selector_send_aria"@, Selectors::SEND_ARIA_LABEL@),
        ("selector_send_aria_cap"@, Selectors::SEND_ARIA_LABEL_CAP@),
        ("selector_send_data_testid"@, Selectors::SEND_DATA_TESTID@),
        ("selector_form_button_last"@, Selectors::FORM_BUTTON_LAST@),
    ]
}

/// The injection script for one message: the message is escaped for the
/// script's backtick literal, and the bounds and selector chains are baked in.
pub fn inject_message_script(message: &str) -> (r: String)
    ensures
        r@ == render_seq(INJECT_MESSAGE_JS@, inject_message_bindings(message@)),
{
    let escaped = escape_js(message);
    let max_retries = decimal_string(Timeouts::INJECTION_MAX_RETRIES as u64);
    let retry_delay = decimal_string(Timeouts::RETRY_DELAY);
    let total_timeout = decimal_string(Timeouts::INJECTION_TOTAL);
    let fallback_timeout = decimal_string(Timeouts::FALLBACK_LOAD_TIMEOUT);
    let react_init_delay = decimal_string(Timeouts::REACT_INIT_DELAY);
    let focus_delay = decimal_string(Timeouts::FOCUS_DELAY);
    let submit_delay = decimal_string(Timeouts::SUBMIT_DELAY);
    let vars = [
        ("message", escaped.as_str()),
        ("max_retries", max_retries.as_str()),
        ("retry_delay", retry_delay.as_str()),
        ("total_timeout", total_timeout.as_str()),
        ("fallback_timeout", fallback_timeout.as_str()),
        ("react_init_delay", react_init_delay.as_str()),
        ("focus_delay", focus_delay.as_str()),
        ("submit_delay", submit_delay.as_str()),
        ("selector_chat_input", Selectors::CHAT_INPUT),
        ("selector_contenteditable", Selectors::CONTENTEDITABLE),
        ("selector_textarea_ask", Selectors::TEXTAREA_ASK),
        ("selector_textarea_message", Selectors::TEXTAREA_MESSAGE),
        ("selector_textarea_lowercase_ask", Selectors::TEXTAREA_LOWERCASE_ASK),
        ("selector_textarea_testid", Selectors::TEXTAREA_TESTID),
        ("selector_textarea_any", Selectors::TEXTAREA_ANY),
        ("selector_send_button", Selectors::SEND_BUTTON),
        ("selector_send_button_fallback", Selectors::SEND_BUTTON_FALLBACK),
        ("selector_submit_button", Selectors::SUBMIT_BUTTON),
        ("selector_send_aria", Selectors::SEND_ARIA_LABEL),
        ("selector_send_aria_cap", Selectors::SEND_ARIA_LABEL_CAP),
        ("selector_send_data_testid", Selectors::SEND_DATA_TESTID),
        ("selector_form_button_last", Selectors::FORM_BUTTON_LAST),
    ];
    assert(bindings_view(vars@) =~= inject_message_bindings(message@));
    build_js(INJECT_MESSAGE_JS, &vars)
}

pub open spec fn response_watcher_bindings() -> Seq<(Seq<char>, Seq<char>)> {
    seq![
        ("check_interval"@, decimal_seq(Timeouts::RESPONSE_WATCHER_INTERVAL as nat)),
        ("initial_delay"@, decimal_seq(Timeouts::RESPONSE_WATCHER_INITIAL_DELAY as nat)),
        ("max_checks"@, decimal_seq(Timeouts::RESPONSE_WATCHER_MAX_CHECKS as nat)),
        ("selector_stop_aria"@, Selectors::STOP_BUTTON_ARIA@),
        ("selector_stop_aria_cap"@, Selectors::STOP_BUTTON_ARIA_CAP@),
        ("selector_cancel_aria"@, Selectors::CANCEL_BUTTON_ARIA@),
        ("selector_stop_data_testid"@, Selectors::STOP_BUTTON_DATA_TESTID@),
    ]
}

/// The response watcher script, with its polling bounds and the
/// streaming-indicator chain baked in.
pub fn response_watcher_script() -> (r: String)
    ensures
        r@ == render_seq(RESPONSE_WATCHER_JS@, response_watcher_bindings()),
{
    let check_interval = decimal_string(Timeouts::RESPONSE_WATCHER_INTERVAL);
    let initial_delay = decimal_string(Timeouts::RESPONSE_WATCHER_INITIAL_DELAY);
    let max_checks = decimal_string(Timeouts::RESPONSE_WATCHER_MAX_CHECKS as u64);
    let vars = [
        ("check_interval", check_interval.as_str()),
        ("initial_delay", initial_delay.as_str()),
        ("max_checks", max_checks.as_str()),
        ("selector_stop_aria", Selectors::STOP_BUTTON_ARIA),
        ("selector_stop_aria_cap", Selectors::STOP_BUTTON_ARIA_CAP),
        ("selector_cancel_aria", Selectors::CANCEL_BUTTON_ARIA),
        ("selector_stop_data_testid", Selectors::STOP_BUTTON_DATA_TESTID),
    ];
    assert(bindings_view(vars@) =~= response_watcher_bindings());
    build_js(RESPONSE_WATCHER_JS, &vars)
}

pub open spec fn connectivity_bindings() -> Seq<(Seq<char>, Seq<char>)> {
    seq![
        ("chat_url"@, Urls::CHAT@),
        ("reload_key"@, Storage::RELOAD_GUARD_KEY@),
        ("selector_data_sidebar"@, Selectors::DATA_SIDEBAR@),
        ("connectivity_check_delay"@, decimal_seq(Timeouts::CONNECTIVITY_CHECK_DELAY as nat)),
        ("chat_host"@, Urls::HOST@),
        ("local_scheme"@, Urls::LOCAL_SCHEME@),
        ("local_host"@, Urls::LOCAL_HOST@),
    ]
}

/// The connectivity monitor script, with the chat address and host, the
/// local scheme and host, the reload-guard key, the healthy-page marker and
/// the check delay baked in.
pub fn connectivity_script() -> (r: String)
    ensures
        r@ == render_seq(CONNECTIVITY_JS@, connectivity_bindings()),
{
    let delay = decimal_string(Timeouts::CONNECTIVITY_CHECK_DELAY);
    let vars = [
        ("chat_url", Urls::CHAT),
        ("reload_key", Storage::RELOAD_GUARD_KEY),
        ("selector_data_sidebar", Selectors::DATA_SIDEBAR),
        ("connectivity_check_delay", delay.as_str()),
        ("chat_host", Urls::HOST),
        ("local_scheme", Urls::LOCAL_SCHEME),
        ("local_host", Urls::LOCAL_HOST),
    ];
    assert(bindings_view(vars@) =~= connectivity_bindings());
    build_js(CONNECTIVITY_JS, &vars)
}

/// The script that marks the local page as offline.
pub const OFFLINE_STATE_JS: &'static str =
    "document.getElementById('main-container').className = 'container offline';";

/// The result of a script evaluation: success stays success, and a refusal
/// becomes an injection failure that names what was being injected.
pub open spec fn described_as(r: Result<(), String>, out: WrapperResult<()>, context: Seq<char>) -> bool {
    match (r, out) {
        (Ok(_), Ok(_)) => true,
        (Err(e), Err(WrapperError::InjectionFailed { context: c, source: s })) => c@ == context
            && s@ == e@,
        _ => false,
    }
}

/// An injection failure that names what was being injected, if anything failed.
pub open spec fn fails_as(out: WrapperResult<()>, context: Seq<char>) -> bool {
    match out {
        Ok(_) => true,
        Err(WrapperError::InjectionFailed { context: c, source: _ }) => c@ == context,
        _ => false,
    }
}

fn described(context: &str, r: Result<(), String>) -> (out: WrapperResult<()>)
    ensures
        described_as(r, out, context@),
        fails_as(out, context@),
{
    match r {
        Ok(()) => Ok(()),
        Err(e) => Err(WrapperError::InjectionFailed { context: String::from_str(context), source: e }),
    }
}

/// A window whose page can run scripts: the script execution channel.
///
/// `eval_script` runs a script in the page, fire-and-forget, and reports only
/// whether the channel accepted it. The `inject_*` methods render a script
/// and hand it over, naming what failed when the channel refuses it.
pub trait WrapperExt {
    /// Run a script in the page; the error describes why the channel failed.
    fn eval_script(&self, js: &str) -> Result<(), String>;

    /// Inject the title bar styles.
    fn inject_titlebar_styles(&self) -> (r: WrapperResult<()>)
        ensures
            fails_as(r, "titlebar styles"@),
    {
        let js = titlebar_styles_script();
        described("titlebar styles", self.eval_script(js.as_str()))
    }

    /// Inject a message into the chat input and submit it.
    fn inject_message(&self, message: &str) -> (r: WrapperResult<()>)
        ensures
            fails_as(r, "chat message"@),
    {
        let js = inject_message_script(message);
        described("chat message", self.eval_script(js.as_str()))
    }

    /// Inject the response watcher that reports a finished answer.
    fn inject_response_watcher(&self) -> (r: WrapperResult<()>)
        ensures
            fails_as(r, "response watcher"@),
    {
        let js = response_watcher_script();
        described("response watcher", self.eval_script(js.as_str()))
    }

    /// Inject the connectivity monitor.
    fn inject_connectivity(&self) -> (r: WrapperResult<()>)
        ensures
            fails_as(r, "connectivity monitor"@),
    {
        let js = connectivity_script();
        described("connectivity monitor", self.eval_script(js.as_str()))
    }

    /// Inject the interceptor that sends outside links to the host.
    fn inject_link_interceptor(&self) -> (r: WrapperResult<()>)
        ensures
            fails_as(r, "link interceptor"@),
    {
        described("link interceptor", self.eval_script(LINK_INTERCEPTOR_JS))
    }
}

/// Apply the standard page wrappers; their failures are deliberately ignored.
pub fn apply_all_wrappers<W: WrapperExt>(window: &W) {
    let _ = window.inject_connectivity();
    let _ = window.inject_link_interceptor();
}

/// Submit a message: inject it, then start the response watcher. The watcher
/// is not started when the message could not be handed to the page.
pub fn submit_chat_message<W: WrapperExt>(window: &W, message: &str) -> (r: WrapperResult<()>)
    ensures
        fails_as(r, "chat message"@) || fails_as(r, "response watcher"@),
{
    window.inject_message(message)?;
    window.inject_response_watcher()
}

/// Mark the local page as offline.
pub fn set_offline_state<W: WrapperExt>(window: &W) -> (r: WrapperResult<()>)
    ensures
        fails_as(r, "offline state"@),
{
    described("offline state", window.eval_script(OFFLINE_STATE_JS))
}

} // verus!
