//! Static configuration: selector chains, delays and bounds, addresses.
use vstd::prelude::*;

verus! {

/// DOM selectors used by the page-side scripts.
pub struct Selectors;

impl Selectors {
    pub const CHAT_INPUT: &'static str = ".chat-input-editor";
    pub const CONTENTEDITABLE: &'static str = "div[contenteditable=\"true\"]";
    pub const TEXTAREA_ASK: &'static str = "textarea[placeholder*=\"Ask\"]";
    pub const TEXTAREA_MESSAGE: &'static str = "textarea[placeholder*=\"Message\"]";
    pub const TEXTAREA_LOWERCASE_ASK: &'static str = "textarea[placeholder*=\"ask\"]";
    pub const TEXTAREA_TESTID: &'static str = "textarea[data-testid]";
    pub const TEXTAREA_ANY: &'static str = "textarea";
    pub const SEND_BUTTON: &'static str = ".send-button-container:not(.disabled)";
    pub const SEND_BUTTON_FALLBACK: &'static str = ".send-button-container";
    pub const SUBMIT_BUTTON: &'static str = "button[type=\"submit\"]";
    pub const SEND_ARIA_LABEL: &'static str = "button[aria-label*=\"send\" i]";
    pub const SEND_ARIA_LABEL_CAP: &'static str = "button[aria-label*=\"Send\" i]";
    pub const SEND_DATA_TESTID: &'static str = "button[data-testid*=\"send\" i]";
    pub const FORM_BUTTON_LAST: &'static str = "form button:last-of-type";
    pub const STOP_BUTTON_ARIA: &'static str = "button[aria-label*=\"stop\" i]";
    pub const STOP_BUTTON_ARIA_CAP: &'static str = "button[aria-label*=\"Stop\" i]";
    pub const CANCEL_BUTTON_ARIA: &'static str = "button[aria-label*=\"cancel\" i]";
    pub const STOP_BUTTON_DATA_TESTID: &'static str = "button[data-testid*=\"stop\" i]";
    pub const DATA_SIDEBAR: &'static str = "[data-sidebar]";
}

/// Delays in milliseconds, and the bounds of the retry and polling loops.
pub struct Timeouts;

impl Timeouts {
    pub const INJECTION_TOTAL: u64 = 8000;
    pub const RETRY_DELAY: u64 = 300;
    pub const PAGE_LOAD_WAIT: u64 = 800;
    pub const BOT_PAGE_LOAD_WAIT: u64 = 1500;
    pub const WINDOW_VISIBLE_DELAY: u64 = 100;
    pub const REACT_INIT_DELAY: u64 = 200;
    pub const FOCUS_DELAY: u64 = 50;
    pub const SUBMIT_DELAY: u64 = 300;
    pub const FALLBACK_LOAD_TIMEOUT: u64 = 500;
    pub const CONNECTIVITY_CHECK_DELAY: u64 = 5000;
    pub const RESPONSE_WATCHER_INTERVAL: u64 = 500;
    pub const RESPONSE_WATCHER_INITIAL_DELAY: u64 = 2000;
    pub const RESPONSE_WATCHER_MAX_CHECKS: u32 = 600;
    pub const INJECTION_MAX_RETRIES: u32 = 15;
    pub const OFFLINE_VIEW_DELAY: u64 = 200;
}

/// Addresses of the chat application.
pub struct Urls;

impl Urls {
    pub const CHAT: &'static str = "https://www.kimi.com/";
    pub const BOT: &'static str = "https://www.kimi.com/bot";
    pub const OFFLINE: &'static str = "tauri://localhost/index.html";
    /// The host of the chat application.
    pub const HOST: &'static str = "www.kimi.com";
    /// The scheme of the host's own local pages.
    pub const LOCAL_SCHEME: &'static str = "tauri://";
    /// The host under which webviews without custom schemes serve the local pages.
    pub const LOCAL_HOST: &'static str = "tauri.localhost";
}

/// Identifiers and sizes of the injected styles.
pub struct Styles;

impl Styles {
    pub const STYLE_ID: &'static str = "kimi-custom-styles";
    pub const HEADER_PADDING: &'static str = "2.5rem";
}

/// Keys in the page's session storage.
pub struct Storage;

impl Storage {
    pub const RELOAD_GUARD_KEY: &'static str = "__kimi_sw_reload";
}

/// The chat-input chain, highest priority first.
pub fn chat_input_chain() -> (r: Vec<&'static str>)
    ensures
        r@ == seq![
            Selectors::CHAT_INPUT,
            Selectors::CONTENTEDITABLE,
            Selectors::TEXTAREA_ASK,
            Selectors::TEXTAREA_MESSAGE,
            Selectors::TEXTAREA_LOWERCASE_ASK,
            Selectors::TEXTAREA_TESTID,
            Selectors::TEXTAREA_ANY,
        ],
{
    vec![
        Selectors::CHAT_INPUT,
        Selectors::CONTENTEDITABLE,
        Selectors::TEXTAREA_ASK,
        Selectors::TEXTAREA_MESSAGE,
        Selectors::TEXTAREA_LOWERCASE_ASK,
        Selectors::TEXTAREA_TESTID,
        Selectors::TEXTAREA_ANY,
    ]
}

/// The send-button chain, highest priority first.
pub fn send_button_chain() -> (r: Vec<&'static str>)
    ensures
        r@ == seq![
            Selectors::SEND_BUTTON,
            Selectors::SEND_BUTTON_FALLBACK,
            Selectors::SUBMIT_BUTTON,
            Selectors::SEND_ARIA_LABEL,
            Selectors::SEND_ARIA_LABEL_CAP,
            Selectors::SEND_DATA_TESTID,
            Selectors::FORM_BUTTON_LAST,
        ],
{
    vec![
        Selectors::SEND_BUTTON,
        Selectors::SEND_BUTTON_FALLBACK,
        Selectors::SUBMIT_BUTTON,
        Selectors::SEND_ARIA_LABEL,
        Selectors::SEND_ARIA_LABEL_CAP,
        Selectors::SEND_DATA_TESTID,
        Selectors::FORM_BUTTON_LAST,
    ]
}

/// The streaming-indicator chain: any match means a response is streaming.
pub fn stop_indicator_chain() -> (r: Vec<&'static str>)
    ensures
        r@ == seq![
            Selectors::STOP_BUTTON_ARIA,
            Selectors::STOP_BUTTON_ARIA_CAP,
            Selectors::CANCEL_BUTTON_ARIA,
            Selectors::STOP_BUTTON_DATA_TESTID,
        ],
{
    vec![
        Selectors::STOP_BUTTON_ARIA,
        Selectors::STOP_BUTTON_ARIA_CAP,
        Selectors::CANCEL_BUTTON_ARIA,
        Selectors::STOP_BUTTON_DATA_TESTID,
    ]
}

} // verus!
