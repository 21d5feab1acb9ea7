//! The response watcher: polls for a streaming indicator and reports the
//! moment a stream that was seen running has stopped.
use vstd::prelude::*;

verus! {

/// State that lives as long as one page load. A navigation or reload
/// replaces it with a fresh one.
#[derive(Clone, Copy, Debug, PartialEq, Eq)]
pub struct PageContext {
    /// A response watcher is running in this page.
    pub watcher_running: bool,
}

/// What one poll of the watcher concluded.
#[derive(Clone, Copy, Debug, PartialEq, Eq, Structural)]
pub enum WatchSignal {
    /// Keep polling.
    Continue,
    /// The stream that was seen running has stopped: report completion.
    Complete,
    /// The check bound was exceeded: stop without reporting.
    Expired,
    /// The watcher had already stopped; nothing happens.
    Stopped,
}

/// One watcher: how many polls it made, its bound, whether it has seen a
/// stream running, and whether it has stopped.
#[derive(Clone, Copy, Debug, PartialEq, Eq)]
pub struct ResponseWatcher {
    pub checks: u32,
    pub max_checks: u32,
    pub was_streaming: bool,
    pub stopped: bool,
}

pub open spec fn fresh_watcher(max_checks: u32) -> ResponseWatcher {
    ResponseWatcher { checks: 0, max_checks, was_streaming: false, stopped: false }
}

/// One poll on an observation of whether a response is streaming.
pub open spec fn poll_next(w: ResponseWatcher, streaming: bool) -> (ResponseWatcher, WatchSignal) {
    if w.stopped {
        (w, WatchSignal::Stopped)
    } else if w.checks + 1 > w.max_checks {
        (ResponseWatcher { checks: (w.checks + 1) as u32, stopped: true, ..w }, WatchSignal::Expired)
    } else {
        let seen = w.was_streaming || streaming;
        if seen && !streaming {
            (
                ResponseWatcher { checks: (w.checks + 1) as u32, was_streaming: seen, stopped: true, ..w },
                WatchSignal::Complete,
            )
        } else {
            (
                ResponseWatcher { checks: (w.checks + 1) as u32, was_streaming: seen, ..w },
                WatchSignal::Continue,
            )
        }
    }
}

pub open spec fn watcher_wf(w: ResponseWatcher) -> bool {
    &&& w.max_checks < u32::MAX
    &&& w.checks <= w.max_checks + 1
    &&& !w.stopped ==> w.checks <= w.max_checks
}

impl PageContext {
    /// The context of a freshly loaded page.
    pub fn new() -> (r: PageContext)
        ensures
            !r.watcher_running,
    {
        PageContext { watcher_running: false }
    }

    /// Start a watcher unless one is already running in this page, in which
    /// case nothing happens.
    pub fn start_watcher(&mut self, max_checks: u32) -> (r: Option<ResponseWatcher>)
        requires
            max_checks < u32::MAX,
        ensures
            old(self).watcher_running ==> r is None && *final(self) == *old(self),
            !old(self).watcher_running ==> r == Some(fresh_watcher(max_checks))
                && final(self).watcher_running,
    {
        if self.watcher_running {
            None
        } else {
            self.watcher_running = true;
            Some(ResponseWatcher { checks: 0, max_checks, was_streaming: false, stopped: false })
        }
    }
}

impl ResponseWatcher {
    /// Poll once. When the watcher stops, it releases the page's watcher flag.
    pub fn poll(&mut self, page: &mut PageContext, streaming: bool) -> (r: WatchSignal)
        requires
            watcher_wf(*old(self)),
        ensures
            (*final(self), r) == poll_next(*old(self), streaming),
            watcher_wf(*final(self)),
            (r == WatchSignal::Complete || r == WatchSignal::Expired) ==> !final(page).watcher_running,
            !(r == WatchSignal::Complete || r == WatchSignal::Expired) ==> *final(page) == *old(page),
    {
        if self.stopped {
            return WatchSignal::Stopped;
        }
        let checks = self.checks + 1;
        self.checks = checks;
        if checks > self.max_checks {
            self.stopped = true;
            page.watcher_running = false;
            return WatchSignal::Expired;
        }
        let seen = self.was_streaming || streaming;
        self.was_streaming = seen;
        if seen && !streaming {
            self.stopped = true;
            page.watcher_running = false;
            WatchSignal::Complete
        } else {
            WatchSignal::Continue
        }
    }
}

/// A watcher fed a sequence of observations: its last state and how many
/// completions it reported.
pub open spec fn watch_run(w: ResponseWatcher, obs: Seq<bool>) -> (ResponseWatcher, nat)
    decreases obs.len(),
{
    if obs.len() == 0 {
        (w, 0)
    } else {
        let (v, n) = watch_run(w, obs.drop_last());
        let (u, sig) = poll_next(v, obs.last());
        (u, if sig == WatchSignal::Complete { n + 1 } else { n })
    }
}

/// A stream was seen running and later seen stopped.
pub open spec fn has_falling_edge(obs: Seq<bool>) -> bool {
    exists|i: int, j: int| 0 <= i < j < obs.len() && obs[i] && !obs[j]
}

pub open spec fn has_streaming(obs: Seq<bool>) -> bool {
    exists|i: int| 0 <= i < obs.len() && obs[i]
}

/// Within its check bound, a watcher reports completion exactly once if the
/// observations hold a running stream followed later by a stopped one, and
/// never otherwise; it stops at the first such stop.
pub proof fn lemma_completion_edge(max_checks: u32, obs: Seq<bool>)
    requires
        obs.len() <= max_checks,
    ensures
        watch_run(fresh_watcher(max_checks), obs).1 == if has_falling_edge(obs) {
            1nat
        } else {
            0nat
        },
        watch_run(fresh_watcher(max_checks), obs).0.stopped == has_falling_edge(obs),
        !has_falling_edge(obs) ==> watch_run(fresh_watcher(max_checks), obs).0 == (ResponseWatcher {
            checks: obs.len() as u32,
            max_checks,
            was_streaming: has_streaming(obs),
            stopped: false,
        }),
    decreases obs.len(),
{
    if obs.len() > 0 {
        let p = obs.drop_last();
        let x = obs.last();
        lemma_completion_edge(max_checks, p);
        if has_falling_edge(p) {
            let (i, j) = choose|i: int, j: int| 0 <= i < j < p.len() && p[i] && !p[j];
            assert(obs[i] && !obs[j]);
        } else {
            if has_streaming(p) && !x {
                let i = choose|i: int| 0 <= i < p.len() && p[i];
                assert(obs[i] && !obs[obs.len() - 1]);
            } else {
                assert forall|i: int, j: int| 0 <= i < j < obs.len() && obs[i] implies obs[j] by {
                    if j < obs.len() - 1 {
                        assert(p[i]);
                        if !p[j] {
                            assert(has_falling_edge(p));
                        }
                    } else {
                        assert(p[i] || i == obs.len() - 1);
                    }
                }
            }
            if x {
                assert(has_streaming(obs));
            } else if !has_streaming(p) {
                assert forall|i: int| 0 <= i < obs.len() implies !obs[i] by {
                    if i < p.len() {
                        assert(!p[i]);
                    }
                }
            } else {
                let i = choose|i: int| 0 <= i < p.len() && p[i];
                assert(obs[i]);
            }
        }
    }
}

/// A watcher that has not seen a stream stop within its check bound stops at
/// the next poll, whatever it observes, and reports nothing.
pub proof fn lemma_silent_expiry(max_checks: u32, obs: Seq<bool>)
    requires
        obs.len() == max_checks as int + 1,
        !has_falling_edge(obs.drop_last()),
    ensures
        watch_run(fresh_watcher(max_checks), obs).0.stopped,
        watch_run(fresh_watcher(max_checks), obs).1 == 0,
        poll_next(watch_run(fresh_watcher(max_checks), obs.drop_last()).0, obs.last()).1
            == WatchSignal::Expired,
{
    lemma_completion_edge(max_checks, obs.drop_last());
}

} // verus!
