//! The injection protocol as an explicit state machine: wait for the page,
//! find the chat input through its selector chain (bounded retries), fill it
//! according to its kind, submit at most once, and report exactly one outcome.
use vstd::prelude::*;

use crate::wrappers::config::Timeouts;
use crate::wrappers::utils::{decimal_seq, decimal_string};

verus! {

/// `r` is the answer of a query on a selector chain whose entries match as
/// `matches` says: the first matching entry, or none when nothing matches.
pub open spec fn is_first_match(matches: Seq<bool>, r: Option<usize>) -> bool {
    match r {
        Some(i) => i < matches.len() && matches[i as int] && forall|j: int|
            0 <= j < i ==> !matches[j],
        None => forall|j: int| 0 <= j < matches.len() ==> !matches[j],
    }
}

/// Query a selector chain: the first entry that matches wins.
pub fn first_match(matches: &Vec<bool>) -> (r: Option<usize>)
    ensures
        is_first_match(matches@, r),
{
    let mut i: usize = 0;
    while i < matches.len()
        invariant
            i <= matches@.len(),
            forall|j: int| 0 <= j < i ==> !matches@[j],
        decreases matches@.len() - i,
    {
        if matches[i] {
            return Some(i);
        }
        i = i + 1;
    }
    None
}

/// The kind of element found for the chat input, which decides how it is filled.
#[derive(Clone, Copy, Debug, PartialEq, Eq, Structural)]
pub enum InputKind {
    /// A rich editor carrying the page's own editor class.
    MarkedEditor,
    /// Any other content-editable element.
    RichEditor,
    /// A plain text input.
    PlainInput,
}

/// The kind of an input element, from its editor class and editability.
pub fn classify_input(has_editor_class: bool, content_editable: bool) -> (r: InputKind)
    ensures
        has_editor_class ==> r == InputKind::MarkedEditor,
        !has_editor_class && content_editable ==> r == InputKind::RichEditor,
        !has_editor_class && !content_editable ==> r == InputKind::PlainInput,
{
    if has_editor_class {
        InputKind::MarkedEditor
    } else if content_editable {
        InputKind::RichEditor
    } else {
        InputKind::PlainInput
    }
}

/// One step of filling the chat input with the message.
#[derive(Clone, Copy, Debug, PartialEq, Eq, Structural)]
pub enum FillStep {
    /// Make the element content-editable.
    MakeEditable,
    /// Focus the element.
    Focus,
    /// Wait this many milliseconds.
    Wait(u64),
    /// Empty the element's contents.
    ClearContent,
    /// Insert the text through the platform's text-insertion command.
    InsertTextCommand,
    /// Append the text as a text node.
    AppendTextNode,
    /// Collapse the selection to the end of the contents.
    CaretToEnd,
    /// Set the value through the platform's own property setter.
    SetValueNatively,
    /// Dispatch an input event.
    DispatchInput,
    /// Dispatch an input event that carries the inserted text.
    DispatchInputWithText,
    /// Dispatch a change event.
    DispatchChange,
    /// Schedule the submission after this many milliseconds.
    ScheduleSubmit(u64),
}

/// The fill procedure of each kind of input.
pub open spec fn fill_procedure(kind: InputKind) -> Seq<FillStep> {
    match kind {
        InputKind::MarkedEditor => seq![
            FillStep::MakeEditable,
            FillStep::Focus,
            FillStep::Wait(Timeouts::FOCUS_DELAY),
            FillStep::ClearContent,
            FillStep::InsertTextCommand,
            FillStep::DispatchInput,
            FillStep::ScheduleSubmit(Timeouts::SUBMIT_DELAY),
        ],
        InputKind::RichEditor => seq![
            FillStep::Focus,
            FillStep::ClearContent,
            FillStep::AppendTextNode,
            FillStep::CaretToEnd,
            FillStep::DispatchInputWithText,
            FillStep::ScheduleSubmit(Timeouts::SUBMIT_DELAY),
        ],
        InputKind::PlainInput => seq![
            FillStep::SetValueNatively,
            FillStep::DispatchInput,
            FillStep::DispatchChange,
            FillStep::Focus,
            FillStep::ScheduleSubmit(Timeouts::SUBMIT_DELAY),
        ],
    }
}

/// The steps that fill an input of this kind; every procedure ends by
/// scheduling the submission after the same delay.
pub fn fill_steps(kind: InputKind) -> (r: Vec<FillStep>)
    ensures
        r@ == fill_procedure(kind),
{
    let r = match kind {
        InputKind::MarkedEditor => vec![
            FillStep::MakeEditable,
            FillStep::Focus,
            FillStep::Wait(Timeouts::FOCUS_DELAY),
            FillStep::ClearContent,
            FillStep::InsertTextCommand,
            FillStep::DispatchInput,
            FillStep::ScheduleSubmit(Timeouts::SUBMIT_DELAY),
        ],
        InputKind::RichEditor => vec![
            FillStep::Focus,
            FillStep::ClearContent,
            FillStep::AppendTextNode,
            FillStep::CaretToEnd,
            FillStep::DispatchInputWithText,
            FillStep::ScheduleSubmit(Timeouts::SUBMIT_DELAY),
        ],
        InputKind::PlainInput => vec![
            FillStep::SetValueNatively,
            FillStep::DispatchInput,
            FillStep::DispatchChange,
            FillStep::Focus,
            FillStep::ScheduleSubmit(Timeouts::SUBMIT_DELAY),
        ],
    };
    assert(r@ =~= fill_procedure(kind));
    r
}

/// Where an injection run stands.
#[derive(Clone, Copy, Debug, PartialEq, Eq, Structural)]
pub enum Phase {
    /// Not started.
    Init,
    /// Waiting for the page's load signal or its fallback timeout.
    AwaitPageLoad,
    /// Waiting for client-side rendering to settle.
    AwaitSettle,
    /// Querying the chat-input chain.
    Searching,
    /// Waiting out the retry delay after an unsuccessful search.
    AwaitRetry,
    /// Filling an input of this kind.
    Filling(InputKind),
    /// Waiting for the submit delay.
    AwaitSubmit,
    /// The outcome has been reported.
    Done,
}

/// How the message was submitted.
#[derive(Clone, Copy, Debug, PartialEq, Eq, Structural)]
pub enum Activation {
    /// The send control matched by this entry of the send-button chain was clicked.
    Click { entry: usize },
    /// No send control was found: an Enter key press was sent to the input.
    PressEnter,
}

/// Why a run failed.
#[derive(Clone, Debug, PartialEq, Eq)]
pub enum InjectionFailure {
    /// The chat input was not found after this many attempts.
    NotFound { attempts: u32 },
    /// The total timeout of this many milliseconds elapsed.
    TimedOut { after_ms: u64 },
    /// Filling the input raised an exception with this message.
    Exception { message: String },
}

/// The one result that a run reports.
#[derive(Clone, Debug, PartialEq, Eq)]
pub enum InjectionOutcome {
    Success,
    Failure(InjectionFailure),
}

/// The error text that the result event carries, `None` on success.
pub open spec fn outcome_error(o: InjectionOutcome) -> Option<Seq<char>> {
    match o {
        InjectionOutcome::Success => None,
        InjectionOutcome::Failure(InjectionFailure::NotFound { attempts }) => Some(
            "Could not find chat input after "@ + decimal_seq(attempts as nat) + " attempts"@,
        ),
        InjectionOutcome::Failure(InjectionFailure::TimedOut { after_ms }) => Some(
            "Message injection timed out after "@ + decimal_seq(after_ms as nat) + "ms"@,
        ),
        InjectionOutcome::Failure(InjectionFailure::Exception { message }) => Some(
            "Failed to set message: "@ + message@,
        ),
    }
}

impl InjectionOutcome {
    /// Whether the message was submitted.
    pub fn succeeded(&self) -> (r: bool)
        ensures
            r == (*self is Success),
    {
        match self {
            InjectionOutcome::Success => true,
            InjectionOutcome::Failure(_) => false,
        }
    }

    /// The error text of the result event.
    pub fn error_message(&self) -> (r: Option<String>)
        ensures
            match (r, outcome_error(*self)) {
                (None, None) => true,
                (Some(m), Some(t)) => m@ == t,
                _ => false,
            },
    {
        match self {
            InjectionOutcome::Success => None,
            InjectionOutcome::Failure(InjectionFailure::NotFound { attempts }) => {
                let mut m = String::from_str("Could not find chat input after ");
                let n = decimal_string(*attempts as u64);
                m.append(n.as_str());
                m.append(" attempts");
                Some(m)
            },
            InjectionOutcome::Failure(InjectionFailure::TimedOut { after_ms }) => {
                let mut m = String::from_str("Message injection timed out after ");
                let n = decimal_string(*after_ms);
                m.append(n.as_str());
                m.append("ms");
                Some(m)
            },
            InjectionOutcome::Failure(InjectionFailure::Exception { message }) => {
                let mut m = String::from_str("Failed to set message: ");
                m.append(message.as_str());
                Some(m)
            },
        }
    }
}

/// What a run observes.
#[derive(Clone, Debug)]
pub enum InjectionEvent {
    /// The script starts; the page has or has not finished loading.
    Start { page_complete: bool },
    /// The load signal or its fallback timeout came.
    PageReady,
    /// The settle delay for client-side rendering elapsed.
    Settled,
    /// The chat-input chain was queried: the first matching entry and the kind
    /// of the element it matched, or nothing.
    Queried { found: Option<(usize, InputKind)> },
    /// The retry delay elapsed.
    RetryDue,
    /// Filling finished and the submit delay was scheduled.
    Filled,
    /// Filling raised an exception.
    FillFailed { message: String },
    /// A submit timer fired; the first matching entry of the send-button chain.
    SubmitDue { send_button: Option<usize> },
    /// The total timeout fired.
    TimeoutFired,
}

/// One injection run: its phase, its retry counter and bounds, the chain entry
/// of the input it found, and how it submitted.
#[derive(Clone, Debug)]
pub struct InjectionRun {
    pub phase: Phase,
    pub attempts: u32,
    pub max_retries: u32,
    pub total_timeout_ms: u64,
    pub input_entry: Option<usize>,
    pub activation: Option<Activation>,
}

pub open spec fn initial_run(max_retries: u32, total_timeout_ms: u64) -> InjectionRun {
    InjectionRun {
        phase: Phase::Init,
        attempts: 0,
        max_retries,
        total_timeout_ms,
        input_entry: None,
        activation: None,
    }
}

/// The transition of a run on one event, and the outcome it reports, if any.
/// A finished run ignores every event; an event that does not fit the phase
/// changes nothing.
pub open spec fn next(s: InjectionRun, e: InjectionEvent) -> (InjectionRun, Option<InjectionOutcome>) {
    if s.phase == Phase::Done {
        (s, None)
    } else {
        match e {
            InjectionEvent::TimeoutFired => (
                InjectionRun { phase: Phase::Done, ..s },
                Some(InjectionOutcome::Failure(InjectionFailure::TimedOut { after_ms: s.total_timeout_ms })),
            ),
            InjectionEvent::Start { page_complete } => if s.phase == Phase::Init {
                if page_complete {
                    (InjectionRun { phase: Phase::AwaitSettle, ..s }, None)
                } else {
                    (InjectionRun { phase: Phase::AwaitPageLoad, ..s }, None)
                }
            } else {
                (s, None)
            },
            InjectionEvent::PageReady => if s.phase == Phase::AwaitPageLoad {
                (InjectionRun { phase: Phase::AwaitSettle, ..s }, None)
            } else {
                (s, None)
            },
            InjectionEvent::Settled => if s.phase == Phase::AwaitSettle {
                (InjectionRun { phase: Phase::Searching, ..s }, None)
            } else {
                (s, None)
            },
            InjectionEvent::Queried { found } => if s.phase == Phase::Searching {
                match found {
                    Some((entry, kind)) => (
                        InjectionRun { phase: Phase::Filling(kind), input_entry: Some(entry), ..s },
                        None,
                    ),
                    None => if s.attempts + 1 < s.max_retries {
                        (
                            InjectionRun {
                                phase: Phase::AwaitRetry,
                                attempts: (s.attempts + 1) as u32,
                                ..s
                            },
                            None,
                        )
                    } else {
                        (
                            InjectionRun { phase: Phase::Done, attempts: (s.attempts + 1) as u32, ..s },
                            Some(InjectionOutcome::Failure(InjectionFailure::NotFound { attempts: s.max_retries })),
                        )
                    },
                }
            } else {
                (s, None)
            },
            InjectionEvent::RetryDue => if s.phase == Phase::AwaitRetry {
                (InjectionRun { phase: Phase::Searching, ..s }, None)
            } else {
                (s, None)
            },
            InjectionEvent::Filled => if s.phase is Filling {
                (InjectionRun { phase: Phase::AwaitSubmit, ..s }, None)
            } else {
                (s, None)
            },
            InjectionEvent::FillFailed { message } => if s.phase is Filling {
                (
                    InjectionRun { phase: Phase::Done, ..s },
                    Some(InjectionOutcome::Failure(InjectionFailure::Exception { message })),
                )
            } else {
                (s, None)
            },
            InjectionEvent::SubmitDue { send_button } => if s.phase == Phase::AwaitSubmit {
                let activation = match send_button {
                    Some(entry) => Activation::Click { entry },
                    None => Activation::PressEnter,
                };
                (
                    InjectionRun { phase: Phase::Done, activation: Some(activation), ..s },
                    Some(InjectionOutcome::Success),
                )
            } else {
                (s, None)
            },
        }
    }
}

/// A run's invariant: the retry counter stays below its bound until the run ends.
pub open spec fn run_wf(s: InjectionRun) -> bool {
    s.phase != Phase::Done ==> s.attempts < s.max_retries || (s.attempts == 0 && s.max_retries == 0)
}

impl InjectionRun {
    /// A run that has not started, with its retry bound and total timeout.
    pub fn new(max_retries: u32, total_timeout_ms: u64) -> (r: InjectionRun)
        ensures
            r == initial_run(max_retries, total_timeout_ms),
            run_wf(r),
    {
        InjectionRun {
            phase: Phase::Init,
            attempts: 0,
            max_retries,
            total_timeout_ms,
            input_entry: None,
            activation: None,
        }
    }

    /// Whether the run has reported its outcome.
    pub fn is_done(&self) -> (r: bool)
        ensures
            r == (self.phase == Phase::Done),
    {
        self.phase == Phase::Done
    }

    /// Take one event; returns the outcome to report, if this event ends the run.
    pub fn step(&mut self, e: InjectionEvent) -> (r: Option<InjectionOutcome>)
        requires
            run_wf(*old(self)),
        ensures
            (*final(self), r) == next(*old(self), e),
            run_wf(*final(self)),
    {
        if self.phase == Phase::Done {
            return None;
        }
        match e {
            InjectionEvent::TimeoutFired => {
                self.phase = Phase::Done;
                Some(InjectionOutcome::Failure(InjectionFailure::TimedOut { after_ms: self.total_timeout_ms }))
            },
            InjectionEvent::Start { page_complete } => {
                if self.phase == Phase::Init {
                    if page_complete {
                        self.phase = Phase::AwaitSettle;
                    } else {
                        self.phase = Phase::AwaitPageLoad;
                    }
                }
                None
            },
            InjectionEvent::PageReady => {
                if self.phase == Phase::AwaitPageLoad {
                    self.phase = Phase::AwaitSettle;
                }
                None
            },
            InjectionEvent::Settled => {
                if self.phase == Phase::AwaitSettle {
                    self.phase = Phase::Searching;
                }
                None
            },
            InjectionEvent::Queried { found } => {
                if self.phase != Phase::Searching {
                    return None;
                }
                match found {
                    Some((entry, kind)) => {
                        self.phase = Phase::Filling(kind);
                        self.input_entry = Some(entry);
                        None
                    },
                    None => {
                        let attempts = self.attempts + 1;
                        self.attempts = attempts;
                        if attempts < self.max_retries {
                            self.phase = Phase::AwaitRetry;
                            None
                        } else {
                            self.phase = Phase::Done;
                            Some(InjectionOutcome::Failure(InjectionFailure::NotFound { attempts: self.max_retries }))
                        }
                    },
                }
            },
            InjectionEvent::RetryDue => {
                if self.phase == Phase::AwaitRetry {
                    self.phase = Phase::Searching;
                }
                None
            },
            InjectionEvent::Filled => {
                if let Phase::Filling(_) = self.phase {
                    self.phase = Phase::AwaitSubmit;
                }
                None
            },
            InjectionEvent::FillFailed { message } => {
                if let Phase::Filling(_) = self.phase {
                    self.phase = Phase::Done;
                    Some(InjectionOutcome::Failure(InjectionFailure::Exception { message }))
                } else {
                    None
                }
            },
            InjectionEvent::SubmitDue { send_button } => {
                if self.phase != Phase::AwaitSubmit {
                    return None;
                }
                let activation = match send_button {
                    Some(entry) => Activation::Click { entry },
                    None => Activation::PressEnter,
                };
                self.phase = Phase::Done;
                self.activation = Some(activation);
                Some(InjectionOutcome::Success)
            },
        }
    }
}

/// When a higher-priority and a lower-priority entry of a chain both match,
/// the query answers with the higher one or one above it, never the lower.
pub proof fn lemma_chain_priority(matches: Seq<bool>, r: Option<usize>, high: int, low: int)
    requires
        is_first_match(matches, r),
        0 <= high < low < matches.len(),
        matches[high],
        matches[low],
    ensures
        r is Some,
        r->0 <= high,
        r->0 != low,
{
}

/// A run driven by a sequence of events: its last state, and how many
/// outcomes it reported on the way.
pub open spec fn run_events(s: InjectionRun, evs: Seq<InjectionEvent>) -> (InjectionRun, nat)
    decreases evs.len(),
{
    if evs.len() == 0 {
        (s, 0)
    } else {
        let (t, n) = run_events(s, evs.drop_last());
        let (u, r) = next(t, evs.last());
        (u, if r is Some { n + 1 } else { n })
    }
}

/// Whatever events reach a run, in whatever order, it reports at most one
/// outcome: one once it has finished, none before; and the total timeout
/// always finishes it.
pub proof fn lemma_single_report(max_retries: u32, total_timeout_ms: u64, evs: Seq<InjectionEvent>)
    ensures
        run_events(initial_run(max_retries, total_timeout_ms), evs).1 == if run_events(
            initial_run(max_retries, total_timeout_ms),
            evs,
        ).0.phase == Phase::Done {
            1nat
        } else {
            0nat
        },
        run_events(initial_run(max_retries, total_timeout_ms), evs.push(InjectionEvent::TimeoutFired)).1
            == 1,
    decreases evs.len(),
{
    let s0 = initial_run(max_retries, total_timeout_ms);
    if evs.len() > 0 {
        lemma_single_report(max_retries, total_timeout_ms, evs.drop_last());
    }
    assert(evs.push(InjectionEvent::TimeoutFired).drop_last() == evs);
}

/// `k` unsuccessful searches, each followed by its retry delay.
pub open spec fn missed_searches(k: nat) -> Seq<InjectionEvent>
    decreases k,
{
    if k == 0 {
        Seq::empty()
    } else {
        missed_searches((k - 1) as nat) + seq![
            InjectionEvent::Queried { found: None },
            InjectionEvent::RetryDue,
        ]
    }
}

/// Searching gives up after exactly `max_retries` unsuccessful attempts:
/// after fewer it is still searching and has reported nothing; the last one
/// ends the run with a not-found failure.
pub proof fn lemma_retry_bound(s: InjectionRun, k: nat)
    requires
        s.phase == Phase::Searching,
        s.attempts == 0,
        s.max_retries >= 1,
        k < s.max_retries,
    ensures
        run_events(s, missed_searches(k)) == (InjectionRun { attempts: k as u32, ..s }, 0nat),
        k + 1 < s.max_retries ==> next(
            run_events(s, missed_searches(k)).0,
            InjectionEvent::Queried { found: None },
        ) == (InjectionRun { phase: Phase::AwaitRetry, attempts: (k + 1) as u32, ..s }, None::<
            InjectionOutcome,
        >),
        k + 1 == s.max_retries ==> next(
            run_events(s, missed_searches(k)).0,
            InjectionEvent::Queried { found: None },
        ) == (
            InjectionRun { phase: Phase::Done, attempts: s.max_retries, ..s },
            Some(InjectionOutcome::Failure(InjectionFailure::NotFound { attempts: s.max_retries })),
        ),
    decreases k,
{
    if k > 0 {
        lemma_retry_bound(s, (k - 1) as nat);
        let evs = missed_searches(k);
        let prev = missed_searches((k - 1) as nat);
        assert(evs.drop_last() == prev.push(InjectionEvent::Queried { found: None }));
        let mid = prev.push(InjectionEvent::Queried { found: None });
        assert(mid.drop_last() == prev);
        assert(mid.last() == InjectionEvent::Queried { found: None });
        assert(evs.last() == InjectionEvent::RetryDue);
        assert(run_events(s, mid) == (
            InjectionRun { phase: Phase::AwaitRetry, attempts: k as u32, ..s },
            0nat,
        ));
        assert(run_events(s, evs) == (InjectionRun { attempts: k as u32, ..s }, 0nat));
    }
}

} // verus!
