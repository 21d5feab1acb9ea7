//! A desktop host for a third-party chat page: it fills and submits the page's
//! chat input and notices when an answer has finished, by running generated
//! scripts in the page. The scripts' protocols (element search with bounded
//! retries, one-shot submission, completion watching, connectivity recovery)
//! are modelled here as state machines with proved properties, beside the
//! script rendering, the link allow-list and the host's decisions.
use vstd::prelude::*;

pub mod host;
pub mod links;
pub mod wrappers;

pub use links::validate_external_url;

verus! {

/// User preferences consulted by the host: whether a submission opens a new
/// conversation by default, and whether completion notifications are shown.
#[derive(Debug, Clone, Copy, PartialEq, Eq)]
pub struct AppSettings {
    pub new_chat_default: bool,
    pub notifications_enabled: bool,
}

impl Default for AppSettings {
    fn default() -> (r: Self)
        ensures
            r.new_chat_default,
            r.notifications_enabled,
    {
        AppSettings { new_chat_default: true, notifications_enabled: true }
    }
}

} // verus!
