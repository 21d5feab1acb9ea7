//! Script generation and page-side protocol models for the embedded chat view.
pub mod config;
pub mod connectivity;
pub mod error;
pub mod extension;
pub mod injection;
pub mod templates;
pub mod utils;
pub mod watcher;

pub use extension::{apply_all_wrappers, set_offline_state, submit_chat_message, WrapperExt};
pub use templates::{
    CONNECTIVITY_JS, INJECT_MESSAGE_JS, LINK_INTERCEPTOR_JS, RESPONSE_WATCHER_JS,
    TITLEBAR_OVERLAP_JS,
};
pub use utils::{build_js, escape_js};
