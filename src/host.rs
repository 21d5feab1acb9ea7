//! The host's decisions: what a submission does to the windows and the page,
//! when a finished response is announced, and what the launcher toggle does.
use vstd::prelude::*;

use crate::wrappers::config::{Timeouts, Urls};
use crate::AppSettings;

verus! {

/// One step of the host's work for a submitted message, in order.
#[derive(Clone, Copy, Debug, PartialEq, Eq)]
pub enum HostStep {
    /// Hide the quick-entry window, if there is one.
    HideLauncher,
    /// Show the main window.
    ShowMain,
    /// Focus the main window.
    FocusMain,
    /// Navigate the main window to this address.
    Navigate(&'static str),
    /// Wait this many milliseconds.
    Wait(u64),
    /// Dispatch the injection script with the message.
    InjectMessage,
    /// Dispatch the response watcher.
    StartWatcher,
}

/// The steps for a submission: bot mode navigates to the bot page and waits
/// longest; a new conversation navigates to the chat page; otherwise the
/// loaded conversation is reused after a short wait.
pub open spec fn submission_steps_spec(new_chat: bool, bot_mode: bool) -> Seq<HostStep> {
    let start = seq![HostStep::HideLauncher, HostStep::ShowMain, HostStep::FocusMain];
    let finish = seq![HostStep::InjectMessage, HostStep::StartWatcher];
    if bot_mode {
        start + seq![HostStep::Navigate(Urls::BOT), HostStep::Wait(Timeouts::BOT_PAGE_LOAD_WAIT)]
            + finish
    } else if new_chat {
        start + seq![HostStep::Navigate(Urls::CHAT), HostStep::Wait(Timeouts::PAGE_LOAD_WAIT)]
            + finish
    } else {
        start + seq![HostStep::Wait(Timeouts::WINDOW_VISIBLE_DELAY)] + finish
    }
}

/// The steps the host takes for one submitted message.
pub fn submission_steps(new_chat: bool, bot_mode: bool) -> (r: Vec<HostStep>)
    ensures
        r@ == submission_steps_spec(new_chat, bot_mode),
{
    let mut steps = vec![HostStep::HideLauncher, HostStep::ShowMain, HostStep::FocusMain];
    if bot_mode {
        steps.push(HostStep::Navigate(Urls::BOT));
        steps.push(HostStep::Wait(Timeouts::BOT_PAGE_LOAD_WAIT));
    } else if new_chat {
        steps.push(HostStep::Navigate(Urls::CHAT));
        steps.push(HostStep::Wait(Timeouts::PAGE_LOAD_WAIT));
    } else {
        steps.push(HostStep::Wait(Timeouts::WINDOW_VISIBLE_DELAY));
    }
    steps.push(HostStep::InjectMessage);
    steps.push(HostStep::StartWatcher);
    assert(steps@ =~= submission_steps_spec(new_chat, bot_mode));
    steps
}

/// The stored settings, or the defaults when none could be read.
pub fn settings_or_default(stored: Option<AppSettings>) -> (r: AppSettings)
    ensures
        stored matches Some(s) ==> r == s,
        stored is None ==> r.new_chat_default && r.notifications_enabled,
{
    match stored {
        Some(s) => s,
        None => AppSettings::default(),
    }
}

/// Whether a finished response is announced: only when notifications are
/// enabled (the default, when no settings can be read) and the main window
/// is not known to have the focus.
pub fn should_notify(stored: Option<AppSettings>, main_focused: Option<bool>) -> (r: bool)
    ensures
        r == ((match stored {
            Some(s) => s.notifications_enabled,
            None => true,
        }) && main_focused != Some(true)),
{
    let enabled = match stored {
        Some(s) => s.notifications_enabled,
        None => true,
    };
    let focused = match main_focused {
        Some(f) => f,
        None => false,
    };
    enabled && !focused
}

/// What toggling the quick-entry window does.
#[derive(Clone, Copy, Debug, PartialEq, Eq)]
pub enum LauncherAction {
    /// Hide it.
    Hide,
    /// Center, show and focus it, and tell it that it was shown.
    Show,
}

/// Toggle the quick-entry window: hide it when it is known to be visible,
/// show it otherwise.
pub fn launcher_toggle(visible: Option<bool>) -> (r: LauncherAction)
    ensures
        r == if visible == Some(true) {
            LauncherAction::Hide
        } else {
            LauncherAction::Show
        },
{
    match visible {
        Some(true) => LauncherAction::Hide,
        _ => LauncherAction::Show,
    }
}

} // verus!
