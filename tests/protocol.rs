use std::cell::RefCell;

use kimi_lib::host::{
    launcher_toggle, settings_or_default, should_notify, submission_steps, HostStep,
    LauncherAction,
};
use kimi_lib::links::{check_url_scheme, trim};
use kimi_lib::validate_external_url;
use kimi_lib::wrappers::config::{
    chat_input_chain, send_button_chain, stop_indicator_chain, Selectors, Timeouts, Urls,
};
use kimi_lib::wrappers::connectivity::{
    check_connectivity, classify_page, contains, decide_recovery, host_of, is_error_page,
    is_local_page, on_back_online,
    OnlineAction, PageSnapshot, Recovery, SessionStorage,
};
use kimi_lib::wrappers::error::WrapperError;
use kimi_lib::wrappers::extension::{
    connectivity_script, inject_message_script, response_watcher_script, titlebar_styles_script,
};
use kimi_lib::wrappers::injection::{
    classify_input, fill_steps, first_match, Activation, FillStep, InjectionEvent, InjectionFailure, InjectionOutcome,
    InjectionRun, InputKind, Phase,
};
use kimi_lib::wrappers::utils::{decimal_string, escape_js};
use kimi_lib::wrappers::watcher::{PageContext, WatchSignal};
use kimi_lib::wrappers::{apply_all_wrappers, build_js, set_offline_state, submit_chat_message, WrapperExt};
use kimi_lib::AppSettings;

fn unescape(t: &str) -> String {
    let mut out = String::new();
    let mut chars = t.chars();
    while let Some(c) = chars.next() {
        if c == '\\' {
            match chars.next() {
                Some('n') => out.push('\n'),
                Some('r') => out.push('\r'),
                Some(d) => out.push(d),
                None => out.push('\\'),
            }
        } else {
            out.push(c);
        }
    }
    out
}

#[test]
fn escaping_round_trips_and_leaves_no_bare_specials() {
    for s in ["", "plain", "a`b", "\\", "$x${y}", "l1\nl2\r\n", "\\`$\n\r", "ünï`cødé"] {
        let e = escape_js(s);
        assert_eq!(unescape(&e), s);
        let mut prev_backslash = false;
        for c in e.chars() {
            if prev_backslash {
                assert!(matches!(c, '\\' | '`' | '$' | 'n' | 'r'));
                prev_backslash = false;
            } else if c == '\\' {
                prev_backslash = true;
            } else {
                assert!(!matches!(c, '`' | '$' | '\n' | '\r'));
            }
        }
        assert!(!prev_backslash);
    }
    assert_eq!(escape_js("a\\`b"), "a\\\\\\`b");
}

#[test]
fn rendering_binds_and_passes_unbound_placeholders() {
    assert_eq!(build_js("Hello {{name}}", &[("name", "Alice")]), "Hello Alice");
    assert_eq!(build_js("Hello {{name}}", &[]), "Hello {{name}}");
    assert_eq!(build_js("{{a}}{{a}}-{{b}}", &[("a", "1")]), "11-{{b}}");
    assert_eq!(build_js("{{a}}", &[("a", "{{b}}"), ("b", "2")]), "{{b}}");
    assert_eq!(build_js("{{{{a}}b}}", &[("a", ""), ("b", "X")]), "{{b}}");
    assert_eq!(build_js("{{a}}{{b}}", &[("a", "1"), ("a", "9"), ("b", "2")]), "12");
    assert_eq!(build_js("{{a", &[("a", "1")]), "{{a");
}

#[test]
fn decimal_numerals() {
    assert_eq!(decimal_string(0), "0");
    assert_eq!(decimal_string(15), "15");
    assert_eq!(decimal_string(8000), "8000");
}

#[test]
fn injection_script_bakes_in_message_and_bounds() {
    let js = inject_message_script("say `hi` $5");
    assert!(js.contains("const message = `say \\`hi\\` \\$5`;"));
    assert!(js.contains("const maxRetries = 15;"));
    assert!(js.contains("const totalTimeout = 8000;"));
    assert!(js.contains(".chat-input-editor"));
    assert!(js.contains("if (finished) return;\n        finished = true;"));
    assert!(!js.contains("timedOut"));
    assert!(!js.contains("{{"));
}

#[test]
fn message_placeholders_reach_the_page_as_written() {
    let js = inject_message_script("{{max_retries}} and {{selector_send_button}}");
    assert!(js.contains("const message = `{{max_retries}} and {{selector_send_button}}`;"));
    assert!(js.contains("const maxRetries = 15;"));
}

#[test]
fn other_scripts_are_fully_rendered() {
    let w = response_watcher_script();
    assert!(w.contains("const MAX_CHECKS = 600;"));
    assert!(!w.contains("{{"));
    let c = connectivity_script();
    assert!(c.contains("const CHAT_URL = 'https://www.kimi.com/';"));
    assert!(c.contains("__kimi_sw_reload"));
    assert!(c.contains("window.location.hostname === 'www.kimi.com'"));
    assert!(c.contains("startsWith('tauri://')"));
    assert!(c.contains("hostname === 'tauri.localhost'"));
    assert!(!c.contains("{{"));
    let t = titlebar_styles_script();
    assert!(t.contains("kimi-custom-styles"));
    assert!(t.contains("2.5rem"));
}

#[test]
fn chain_query_prefers_the_earlier_entry() {
    assert_eq!(first_match(&vec![false, true, false, true]), Some(1));
    assert_eq!(first_match(&vec![true, true]), Some(0));
    assert_eq!(first_match(&vec![false, false]), None);
    assert_eq!(first_match(&vec![]), None);
    let chain = chat_input_chain();
    assert_eq!(chain.len(), 7);
    assert_eq!(chain[0], Selectors::CHAT_INPUT);
    assert_eq!(chain[6], Selectors::TEXTAREA_ANY);
}

#[test]
fn input_kinds() {
    assert_eq!(classify_input(true, false), InputKind::MarkedEditor);
    assert_eq!(classify_input(true, true), InputKind::MarkedEditor);
    assert_eq!(classify_input(false, true), InputKind::RichEditor);
    assert_eq!(classify_input(false, false), InputKind::PlainInput);
}

fn searching_run(max: u32) -> InjectionRun {
    let mut run = InjectionRun::new(max, Timeouts::INJECTION_TOTAL);
    assert_eq!(run.step(InjectionEvent::Start { page_complete: false }), None);
    assert_eq!(run.phase, Phase::AwaitPageLoad);
    assert_eq!(run.step(InjectionEvent::PageReady), None);
    assert_eq!(run.step(InjectionEvent::Settled), None);
    assert_eq!(run.phase, Phase::Searching);
    run
}

#[test]
fn search_fails_after_exactly_max_retries_attempts() {
    let max = Timeouts::INJECTION_MAX_RETRIES;
    let mut run = searching_run(max);
    for k in 1..max {
        assert_eq!(run.step(InjectionEvent::Queried { found: None }), None);
        assert_eq!(run.attempts, k);
        assert_eq!(run.phase, Phase::AwaitRetry);
        assert_eq!(run.step(InjectionEvent::RetryDue), None);
    }
    let out = run.step(InjectionEvent::Queried { found: None });
    assert_eq!(
        out,
        Some(InjectionOutcome::Failure(InjectionFailure::NotFound { attempts: max }))
    );
    assert!(run.is_done());
    assert_eq!(run.step(InjectionEvent::RetryDue), None);
    assert_eq!(run.step(InjectionEvent::Queried { found: None }), None);
}

#[test]
fn one_retry_bound_fails_on_first_miss() {
    let mut run = searching_run(1);
    assert_eq!(
        run.step(InjectionEvent::Queried { found: None }),
        Some(InjectionOutcome::Failure(InjectionFailure::NotFound { attempts: 1 }))
    );
}

#[test]
fn submission_reports_exactly_once() {
    let mut run = searching_run(15);
    let mut reports = 0;
    let events = vec![
        InjectionEvent::Queried { found: Some((2, InputKind::PlainInput)) },
        InjectionEvent::Filled,
        InjectionEvent::SubmitDue { send_button: Some(0) },
        InjectionEvent::SubmitDue { send_button: None },
        InjectionEvent::TimeoutFired,
        InjectionEvent::FillFailed { message: "late".to_string() },
    ];
    let mut outcomes = Vec::new();
    for e in events {
        if let Some(o) = run.step(e) {
            reports += 1;
            outcomes.push(o);
        }
    }
    assert_eq!(reports, 1);
    assert_eq!(outcomes[0], InjectionOutcome::Success);
    assert_eq!(run.input_entry, Some(2));
    assert_eq!(run.activation, Some(Activation::Click { entry: 0 }));
}

#[test]
fn submission_without_send_control_presses_enter() {
    let mut run = searching_run(15);
    run.step(InjectionEvent::Queried { found: Some((0, InputKind::MarkedEditor)) });
    assert_eq!(run.phase, Phase::Filling(InputKind::MarkedEditor));
    run.step(InjectionEvent::Filled);
    assert_eq!(
        run.step(InjectionEvent::SubmitDue { send_button: None }),
        Some(InjectionOutcome::Success)
    );
    assert_eq!(run.activation, Some(Activation::PressEnter));
}

#[test]
fn timeout_and_fill_exception_fail_the_run() {
    let mut run = InjectionRun::new(15, 8000);
    run.step(InjectionEvent::Start { page_complete: true });
    assert_eq!(run.phase, Phase::AwaitSettle);
    assert_eq!(
        run.step(InjectionEvent::TimeoutFired),
        Some(InjectionOutcome::Failure(InjectionFailure::TimedOut { after_ms: 8000 }))
    );
    assert_eq!(run.step(InjectionEvent::TimeoutFired), None);

    let mut run = searching_run(15);
    run.step(InjectionEvent::Queried { found: Some((1, InputKind::RichEditor)) });
    assert_eq!(
        run.step(InjectionEvent::FillFailed { message: "no range".to_string() }),
        Some(InjectionOutcome::Failure(InjectionFailure::Exception {
            message: "no range".to_string()
        }))
    );
    assert_eq!(run.step(InjectionEvent::SubmitDue { send_button: Some(1) }), None);
}

fn feed(observations: &[bool]) -> Vec<WatchSignal> {
    let mut page = PageContext::new();
    let mut w = page.start_watcher(600).unwrap();
    observations.iter().map(|&s| w.poll(&mut page, s)).collect()
}

#[test]
fn watcher_reports_the_falling_edge_once() {
    let signals = feed(&[false, true, true, false]);
    assert_eq!(
        signals,
        vec![
            WatchSignal::Continue,
            WatchSignal::Continue,
            WatchSignal::Continue,
            WatchSignal::Complete
        ]
    );
    let signals = feed(&[false, false, false]);
    assert!(signals.iter().all(|s| *s == WatchSignal::Continue));
    let signals = feed(&[true, false, true, false]);
    assert_eq!(signals.iter().filter(|s| **s == WatchSignal::Complete).count(), 1);
    assert_eq!(signals[2], WatchSignal::Stopped);
}

#[test]
fn watcher_is_a_page_singleton_and_expires_silently() {
    let mut page = PageContext::new();
    let mut w = page.start_watcher(2).unwrap();
    assert!(page.start_watcher(2).is_none());
    assert_eq!(w.poll(&mut page, true), WatchSignal::Continue);
    assert_eq!(w.poll(&mut page, true), WatchSignal::Continue);
    assert_eq!(w.poll(&mut page, false), WatchSignal::Expired);
    assert!(!page.watcher_running);
    assert!(page.start_watcher(2).is_some());
}

fn broken_page() -> PageSnapshot {
    PageSnapshot {
        online: true,
        title: "Page Not Found".to_string(),
        body_text_len: Some(500),
        has_healthy_marker: true,
        href: "https://www.kimi.com/chat".to_string(),
    }
}

#[test]
fn broken_page_reloads_once_then_goes_offline() {
    let mut session = SessionStorage { reload_guard: false };
    assert_eq!(check_connectivity(&broken_page(), true, &mut session), Recovery::Reload);
    assert!(session.reload_guard);
    assert_eq!(check_connectivity(&broken_page(), true, &mut session), Recovery::NavigateOffline);
    assert!(!session.reload_guard);
    let mut session = SessionStorage { reload_guard: false };
    assert_eq!(check_connectivity(&broken_page(), false, &mut session), Recovery::NavigateOffline);
    assert!(!session.reload_guard);
}

#[test]
fn healthy_or_local_pages_only_probe() {
    let mut session = SessionStorage { reload_guard: true };
    let mut healthy = broken_page();
    healthy.title = "Kimi".to_string();
    assert_eq!(check_connectivity(&healthy, true, &mut session), Recovery::ProbeOnly);
    assert!(session.reload_guard);
    let mut local = broken_page();
    local.href = "tauri://localhost/index.html".to_string();
    assert_eq!(check_connectivity(&local, true, &mut session), Recovery::ProbeOnly);
    assert_eq!(decide_recovery(false, false, true, &mut session), Recovery::ProbeOnly);
}

#[test]
fn error_page_signals() {
    let mut p = broken_page();
    p.title = "Server ERROR".to_string();
    assert!(is_error_page(&p));
    p.title = "Kimi".to_string();
    assert!(!is_error_page(&p));
    p.online = false;
    assert!(is_error_page(&p));
    p.online = true;
    p.title = String::new();
    assert!(is_error_page(&p));
    assert!(classify_page(true, "Kimi", "kimi", Some(49), false));
    assert!(!classify_page(true, "Kimi", "kimi", Some(50), false));
    assert!(!classify_page(true, "Kimi", "kimi", Some(10), true));
    assert!(!classify_page(true, "Kimi", "kimi", None, false));
}

#[test]
fn substring_search() {
    assert!(contains("abc", ""));
    assert!(contains("abc", "bc"));
    assert!(!contains("abc", "cb"));
    assert!(!contains("ab", "abc"));
}

#[test]
fn coming_back_online() {
    assert_eq!(on_back_online("https://www.kimi.com/chat/1"), OnlineAction::ReloadPage);
    assert_eq!(on_back_online("tauri://localhost/index.html"), OnlineAction::OpenChat);
    assert_eq!(on_back_online("https://www.kimi.com:443/x"), OnlineAction::ReloadPage);
    assert_eq!(on_back_online("https://evil.example/?www.kimi.com"), OnlineAction::OpenChat);
    assert_eq!(on_back_online("https://www.kimi.com.evil.example/"), OnlineAction::OpenChat);
}

#[test]
fn hosts_and_local_pages() {
    assert_eq!(host_of("https://www.kimi.com/chat?q=1"), "www.kimi.com");
    assert_eq!(host_of("http://tauri.localhost"), "tauri.localhost");
    assert_eq!(host_of("mailto:a@b.com"), "");
    assert_eq!(host_of(""), "");
    assert!(is_local_page("tauri://localhost/index.html"));
    assert!(is_local_page("http://tauri.localhost/index.html"));
    assert!(!is_local_page("https://www.kimi.com/tauri"));
    assert!(!is_local_page("https://example.com/?tauri://"));
    let mut session = SessionStorage { reload_guard: false };
    let mut page = broken_page();
    page.href = "https://www.kimi.com/tauri-docs".to_string();
    assert_eq!(check_connectivity(&page, true, &mut session), Recovery::Reload);
}

#[test]
fn allow_list_scenarios() {
    assert!(validate_external_url("https://example.com").is_ok());
    assert!(validate_external_url("http://example.com").is_ok());
    assert!(validate_external_url("mailto:a@b.com").is_ok());
    assert_eq!(
        validate_external_url("javascript:alert(1)"),
        Err("JavaScript URLs are not allowed".to_string())
    );
    assert_eq!(
        validate_external_url("data:text/html,x"),
        Err("Data URLs are not allowed".to_string())
    );
    assert_eq!(
        validate_external_url("file:///etc/passwd"),
        Err("File URLs are not allowed".to_string())
    );
    assert_eq!(
        validate_external_url("vbscript:x"),
        Err("vbscript URLs are not allowed".to_string())
    );
    assert_eq!(
        validate_external_url("MHTML:x"),
        Err("mhtml URLs are not allowed".to_string())
    );
    assert_eq!(
        validate_external_url("x-javascript:x"),
        Err("x-javascript URLs are not allowed".to_string())
    );
    assert_eq!(
        validate_external_url("/relative/path"),
        Err("URL must use http://, https://, or mailto: scheme".to_string())
    );
    assert!(validate_external_url("  \tHttPs://example.com\n").is_ok());
    assert!(validate_external_url("\u{3000}JavaScript:x").is_err());
}

#[test]
fn scheme_check_on_normalised_text() {
    assert!(check_url_scheme("https://example.com").is_ok());
    assert!(check_url_scheme("HTTPS://EXAMPLE.COM").is_err());
    assert_eq!(trim("  a b \u{a0}"), "a b");
    assert_eq!(trim("   "), "");
}

#[test]
fn submission_plans() {
    let steps = submission_steps(false, true);
    assert_eq!(
        steps,
        vec![
            HostStep::HideLauncher,
            HostStep::ShowMain,
            HostStep::FocusMain,
            HostStep::Navigate(Urls::BOT),
            HostStep::Wait(1500),
            HostStep::InjectMessage,
            HostStep::StartWatcher
        ]
    );
    let steps = submission_steps(true, false);
    assert_eq!(steps[3], HostStep::Navigate(Urls::CHAT));
    assert_eq!(steps[4], HostStep::Wait(800));
    let steps = submission_steps(false, false);
    assert_eq!(steps.len(), 6);
    assert_eq!(steps[3], HostStep::Wait(100));
}

#[test]
fn notification_and_launcher_decisions() {
    let off = AppSettings { new_chat_default: true, notifications_enabled: false };
    assert!(!should_notify(Some(off), Some(false)));
    assert!(should_notify(None, Some(false)));
    assert!(should_notify(None, None));
    assert!(!should_notify(None, Some(true)));
    assert_eq!(settings_or_default(Some(off)), off);
    assert_eq!(settings_or_default(None), AppSettings::default());
    assert_eq!(launcher_toggle(Some(true)), LauncherAction::Hide);
    assert_eq!(launcher_toggle(Some(false)), LauncherAction::Show);
    assert_eq!(launcher_toggle(None), LauncherAction::Show);
}

struct RecordingWindow {
    scripts: RefCell<Vec<String>>,
    refuse_after: usize,
}

impl WrapperExt for RecordingWindow {
    fn eval_script(&self, js: &str) -> Result<(), String> {
        let mut s = self.scripts.borrow_mut();
        if s.len() >= self.refuse_after {
            return Err("window closed".to_string());
        }
        s.push(js.to_string());
        Ok(())
    }
}

#[test]
fn submit_dispatches_message_then_watcher() {
    let w = RecordingWindow { scripts: RefCell::new(Vec::new()), refuse_after: 10 };
    assert!(submit_chat_message(&w, "hi").is_ok());
    let s = w.scripts.borrow();
    assert_eq!(s.len(), 2);
    assert!(s[0].contains("const message = `hi`;"));
    assert!(s[1].contains("__kimiResponseWatcher"));
}

#[test]
fn failed_dispatch_stops_and_names_the_script() {
    let w = RecordingWindow { scripts: RefCell::new(Vec::new()), refuse_after: 0 };
    match submit_chat_message(&w, "hi") {
        Err(WrapperError::InjectionFailed { context, source }) => {
            assert_eq!(context, "chat message");
            assert_eq!(source, "window closed");
        }
        other => panic!("unexpected {:?}", other),
    }
    assert!(w.scripts.borrow().is_empty());
    let w = RecordingWindow { scripts: RefCell::new(Vec::new()), refuse_after: 1 };
    apply_all_wrappers(&w);
    assert!(w.scripts.borrow()[0].contains("serviceWorker"));
    match set_offline_state(&w) {
        Err(WrapperError::InjectionFailed { context, .. }) => assert_eq!(context, "offline state"),
        other => panic!("unexpected {:?}", other),
    }
}

#[test]
fn fill_procedures_by_kind() {
    let marked = fill_steps(InputKind::MarkedEditor);
    assert_eq!(marked[0], FillStep::MakeEditable);
    assert_eq!(marked[2], FillStep::Wait(50));
    assert!(marked.contains(&FillStep::InsertTextCommand));
    let rich = fill_steps(InputKind::RichEditor);
    assert!(rich.contains(&FillStep::CaretToEnd));
    assert!(!rich.contains(&FillStep::MakeEditable));
    let plain = fill_steps(InputKind::PlainInput);
    assert_eq!(
        plain,
        vec![
            FillStep::SetValueNatively,
            FillStep::DispatchInput,
            FillStep::DispatchChange,
            FillStep::Focus,
            FillStep::ScheduleSubmit(300)
        ]
    );
    for steps in [marked, rich] {
        assert_eq!(*steps.last().unwrap(), FillStep::ScheduleSubmit(300));
    }
}

#[test]
fn outcome_payload_texts() {
    assert_eq!(InjectionOutcome::Success.error_message(), None);
    assert!(InjectionOutcome::Success.succeeded());
    let nf = InjectionOutcome::Failure(InjectionFailure::NotFound { attempts: 15 });
    assert!(!nf.succeeded());
    assert_eq!(
        nf.error_message(),
        Some("Could not find chat input after 15 attempts".to_string())
    );
    let to = InjectionOutcome::Failure(InjectionFailure::TimedOut { after_ms: 8000 });
    assert_eq!(
        to.error_message(),
        Some("Message injection timed out after 8000ms".to_string())
    );
    let ex = InjectionOutcome::Failure(InjectionFailure::Exception { message: "x".to_string() });
    assert_eq!(ex.error_message(), Some("Failed to set message: x".to_string()));
}

#[test]
fn send_and_stop_chains() {
    let send = send_button_chain();
    assert_eq!(send.len(), 7);
    assert_eq!(send[0], ".send-button-container:not(.disabled)");
    assert_eq!(send[6], "form button:last-of-type");
    let stop = stop_indicator_chain();
    assert_eq!(stop.len(), 4);
    assert_eq!(stop[2], Selectors::CANCEL_BUTTON_ARIA);
    let page = [false, false, true, false];
    assert_eq!(first_match(&page.to_vec()).is_some(), true);
}

#[test]
fn escaped_text_cannot_leave_the_literal() {
    for s in ["\\", "a\\`", "$\\", "x\\\\", "`${a}`", "end\\"] {
        let e = escape_js(s);
        let chars: Vec<char> = e.chars().collect();
        let run_before = |i: usize| chars[..i].iter().rev().take_while(|c| **c == '\\').count();
        for (i, c) in chars.iter().enumerate() {
            assert!(*c != '\n' && *c != '\r');
            if *c == '`' || *c == '$' {
                assert_eq!(run_before(i) % 2, 1);
            }
        }
        assert_eq!(run_before(chars.len()) % 2, 0);
    }
}
