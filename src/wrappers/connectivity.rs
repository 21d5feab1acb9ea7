//! The connectivity heuristic: classify the loaded page as healthy or broken,
//! and recover a broken one with at most one reload before the offline view.
use vstd::prelude::*;

use crate::links::{has_prefix, lower_of, starts_with, to_lowercase};
use crate::wrappers::config::Urls;
use crate::wrappers::utils::{chars_of, push_char};

verus! {

/// Below this many characters of visible text, a page without the healthy
/// marker counts as broken.
pub const SHORT_BODY_CHARS: usize = 50;

/// A text occurs in another.
pub open spec fn contains_seq(s: Seq<char>, p: Seq<char>) -> bool {
    exists|i: int| 0 <= i && i + p.len() <= s.len() && #[trigger] s.subrange(i, i + p.len()) == p
}

/// Whether `p` occurs in `s`.
pub fn contains(s: &str, p: &str) -> (r: bool)
    ensures
        r == contains_seq(s@, p@),
{
    let sv = chars_of(s);
    let pv = chars_of(p);
    let n = sv.len();
    let m = pv.len();
    if m > n {
        return false;
    }
    let mut i: usize = 0;
    while i <= n - m
        invariant
            sv@ == s@,
            pv@ == p@,
            n == s@.len(),
            m == p@.len(),
            m <= n,
            i <= n - m + 1,
            forall|k: int| 0 <= k < i ==> #[trigger] s@.subrange(k, k + m) != p@,
        decreases n - m + 1 - i,
    {
        let mut j: usize = 0;
        let mut same = true;
        while j < m
            invariant
                sv@ == s@,
                pv@ == p@,
                n == s@.len(),
                m == p@.len(),
                i + m <= n,
                j <= m,
                same == forall|k: int| 0 <= k < j ==> s@[i + k] == p@[k],
            decreases m - j,
        {
            if sv[i + j] != pv[j] {
                same = false;
            }
            j = j + 1;
        }
        if same {
            assert(s@.subrange(i as int, i + m) =~= p@);
            return true;
        }
        proof {
            let w = choose|k: int| 0 <= k < m && s@[i + k] != p@[k];
            assert(s@.subrange(i as int, i + m)[w] != p@[w]);
        }
        i = i + 1;
    }
    false
}

/// What the page shows, as far as the heuristic looks.
#[derive(Clone, Debug)]
pub struct PageSnapshot {
    /// The browser reports being online.
    pub online: bool,
    /// The document title.
    pub title: String,
    /// The length of the body's visible text, when there is a body.
    pub body_text_len: Option<usize>,
    /// The marker element of a healthy page is present.
    pub has_healthy_marker: bool,
    /// The current location.
    pub href: String,
}

/// The error-page heuristic over the title and its lowercase form.
pub open spec fn looks_broken(
    online: bool,
    title: Seq<char>,
    lowered_title: Seq<char>,
    body_text_len: Option<usize>,
    has_healthy_marker: bool,
) -> bool {
    ||| !online
    ||| contains_seq(lowered_title, "error"@)
    ||| contains_seq(lowered_title, "not found"@)
    ||| title.len() == 0
    ||| (body_text_len matches Some(n) && n < SHORT_BODY_CHARS && !has_healthy_marker)
}

/// Classify a page from its signals, given its title already lowercased.
pub fn classify_page(
    online: bool,
    title: &str,
    lowered_title: &str,
    body_text_len: Option<usize>,
    has_healthy_marker: bool,
) -> (r: bool)
    ensures
        r == looks_broken(online, title@, lowered_title@, body_text_len, has_healthy_marker),
{
    if !online {
        return true;
    }
    if contains(lowered_title, "error") || contains(lowered_title, "not found") {
        return true;
    }
    if title.is_empty() {
        return true;
    }
    match body_text_len {
        Some(n) => n < SHORT_BODY_CHARS && !has_healthy_marker,
        None => false,
    }
}

/// The page is an error page: offline, an error-like or empty title, or
/// almost no text and no sign of the application.
pub fn is_error_page(page: &PageSnapshot) -> (r: bool)
    ensures
        r == looks_broken(
            page.online,
            page.title@,
            lower_of(page.title@),
            page.body_text_len,
            page.has_healthy_marker,
        ),
{
    let lowered = to_lowercase(page.title.as_str());
    classify_page(
        page.online,
        page.title.as_str(),
        lowered.as_str(),
        page.body_text_len,
        page.has_healthy_marker,
    )
}

/// The text after the first `://` of an address, if it has one.
pub open spec fn after_scheme(s: Seq<char>) -> Option<Seq<char>>
    decreases s.len(),
{
    if s.len() < 3 {
        None
    } else if s[0] == ':' && s[1] == '/' && s[2] == '/' {
        Some(s.subrange(3, s.len() as int))
    } else {
        after_scheme(s.drop_first())
    }
}

/// A character that ends the host part of an address.
pub open spec fn ends_host(c: char) -> bool {
    c == '/' || c == '?' || c == '#' || c == ':'
}

/// The leading part of `s` before the first character that ends a host.
pub open spec fn host_prefix(s: Seq<char>) -> Seq<char>
    decreases s.len(),
{
    if s.len() == 0 || ends_host(s[0]) {
        Seq::empty()
    } else {
        seq![s[0]] + host_prefix(s.drop_first())
    }
}

/// The host of an address: what follows `://` up to the port, path, query
/// or fragment; empty when there is no `://`.
pub open spec fn url_host(href: Seq<char>) -> Seq<char> {
    match after_scheme(href) {
        Some(rest) => host_prefix(rest),
        None => Seq::empty(),
    }
}

/// The host of an address.
pub fn host_of(href: &str) -> (r: String)
    ensures
        r@ == url_host(href@),
{
    let v = chars_of(href);
    let n = v.len();
    let mut i: usize = 0;
    proof {
        assert(href@.subrange(0, n as int) == href@);
    }
    while 3 <= n - i && !(v[i] == ':' && v[i + 1] == '/' && v[i + 2] == '/')
        invariant
            v@ == href@,
            n == v@.len(),
            i <= n,
            after_scheme(href@) == after_scheme(href@.subrange(i as int, n as int)),
        decreases n - i,
    {
        assert(href@.subrange(i as int, n as int).drop_first() == href@.subrange(i + 1, n as int));
        i = i + 1;
    }
    let mut out = String::new();
    if n - i < 3 {
        return out;
    }
    let ghost rest = href@.subrange(i + 3, n as int);
    assert(href@.subrange(i as int, n as int).subrange(3, n - i) == rest);
    let mut j: usize = i + 3;
    proof {
        assert(href@.subrange(j as int, n as int) == rest);
        assert(out@ + host_prefix(rest) == host_prefix(rest));
    }
    while j < n && !(v[j] == '/' || v[j] == '?' || v[j] == '#' || v[j] == ':')
        invariant
            v@ == href@,
            n == v@.len(),
            i + 3 <= j <= n,
            rest == href@.subrange(i + 3, n as int),
            out@ + host_prefix(href@.subrange(j as int, n as int)) == host_prefix(rest),
        decreases n - j,
    {
        let ghost tail = href@.subrange(j as int, n as int);
        assert(tail.drop_first() == href@.subrange(j + 1, n as int));
        assert(out@.push(v[j as int]) + host_prefix(tail.drop_first()) == out@ + host_prefix(tail));
        push_char(&mut out, v[j]);
        j = j + 1;
    }
    proof {
        assert(host_prefix(href@.subrange(j as int, n as int)) == Seq::<char>::empty());
        assert(out@ + Seq::<char>::empty() == out@);
    }
    out
}

fn same_text(a: &str, b: &str) -> (r: bool)
    ensures
        r == (a@ == b@),
{
    let x = String::from_str(a);
    let y = String::from_str(b);
    x == y
}

/// The page is one of the host's own local pages: under the local scheme,
/// or under the local host that serves them where custom schemes are not used.
pub open spec fn on_local_page(href: Seq<char>) -> bool {
    has_prefix(href, Urls::LOCAL_SCHEME@) || url_host(href) == Urls::LOCAL_HOST@
}

/// Whether the page is one of the host's own local pages.
pub fn is_local_page(href: &str) -> (r: bool)
    ensures
        r == on_local_page(href@),
{
    if starts_with(href, Urls::LOCAL_SCHEME) {
        return true;
    }
    let host = host_of(href);
    same_text(host.as_str(), Urls::LOCAL_HOST)
}

/// Storage that survives reloads within one navigation session.
#[derive(Clone, Copy, Debug, PartialEq, Eq)]
pub struct SessionStorage {
    /// A reload was made to recover from an error page.
    pub reload_guard: bool,
}

/// What the heuristic does about the page.
#[derive(Clone, Copy, Debug, PartialEq, Eq, Structural)]
pub enum Recovery {
    /// Nothing: the worker registration is only probed.
    ProbeOnly,
    /// Reload the page, letting the worker's cached shell recover it.
    Reload,
    /// Ask the host to show the offline view.
    NavigateOffline,
}

/// The decision, and the reload guard afterwards.
pub open spec fn recovery(
    error_page: bool,
    local_page: bool,
    worker_registered: bool,
    guard: bool,
) -> (Recovery, bool) {
    if !error_page || local_page {
        (Recovery::ProbeOnly, guard)
    } else if !worker_registered {
        (Recovery::NavigateOffline, guard)
    } else if guard {
        (Recovery::NavigateOffline, false)
    } else {
        (Recovery::Reload, true)
    }
}

/// Decide what to do about a classified page; the reload guard allows one
/// reload, and the next broken observation clears it and goes offline.
pub fn decide_recovery(
    error_page: bool,
    local_page: bool,
    worker_registered: bool,
    session: &mut SessionStorage,
) -> (r: Recovery)
    ensures
        (r, final(session).reload_guard) == recovery(
            error_page,
            local_page,
            worker_registered,
            old(session).reload_guard,
        ),
{
    if !error_page || local_page {
        Recovery::ProbeOnly
    } else if !worker_registered {
        Recovery::NavigateOffline
    } else if session.reload_guard {
        session.reload_guard = false;
        Recovery::NavigateOffline
    } else {
        session.reload_guard = true;
        Recovery::Reload
    }
}

/// The one-shot check made after a page load.
pub fn check_connectivity(
    page: &PageSnapshot,
    worker_registered: bool,
    session: &mut SessionStorage,
) -> (r: Recovery)
    ensures
        (r, final(session).reload_guard) == recovery(
            looks_broken(
                page.online,
                page.title@,
                lower_of(page.title@),
                page.body_text_len,
                page.has_healthy_marker,
            ),
            on_local_page(page.href@),
            worker_registered,
            old(session).reload_guard,
        ),
{
    let error_page = is_error_page(page);
    let local_page = is_local_page(page.href.as_str());
    decide_recovery(error_page, local_page, worker_registered, session)
}

/// What the page does when the browser comes back online.
#[derive(Clone, Copy, Debug, PartialEq, Eq, Structural)]
pub enum OnlineAction {
    /// Reload the current page of the chat application.
    ReloadPage,
    /// Go to the chat application's main address.
    OpenChat,
}

/// Back online: reload when already on the chat application's host, else go to it.
pub fn on_back_online(href: &str) -> (r: OnlineAction)
    ensures
        r == if url_host(href@) == Urls::HOST@ {
            OnlineAction::ReloadPage
        } else {
            OnlineAction::OpenChat
        },
{
    let host = host_of(href);
    if same_text(host.as_str(), Urls::HOST) {
        OnlineAction::ReloadPage
    } else {
        OnlineAction::OpenChat
    }
}

/// On a broken page with a registered worker, an unset guard gives one
/// reload and sets the guard; a set guard is cleared and the offline view
/// is asked for instead. So two observations in a row never both reload,
/// and the guard is clear after the second.
pub proof fn lemma_one_shot_reload(guard: bool)
    ensures
        recovery(true, false, true, false) == (Recovery::Reload, true),
        recovery(true, false, true, true) == (Recovery::NavigateOffline, false),
        ({
            let (first, g1) = recovery(true, false, true, guard);
            let (second, g2) = recovery(true, false, true, g1);
            !(first == Recovery::Reload && second == Recovery::Reload) && (!guard ==> !g2)
        }),
{
}

} // verus!
