//! The allow-list for links that the page asks the host to open outside.
use vstd::prelude::*;

use crate::wrappers::utils::{chars_of, push_char};

verus! {

/// The characters with Unicode's White_Space property.
pub open spec fn unicode_white_space(c: char) -> bool {
    ('\u{9}' <= c && c <= '\u{d}') || c == ' ' || c == '\u{85}' || c == '\u{a0}' || c == '\u{1680}'
        || ('\u{2000}' <= c && c <= '\u{200a}') || c == '\u{2028}' || c == '\u{2029}'
        || c == '\u{202f}' || c == '\u{205f}' || c == '\u{3000}'
}

/// Whether a character has Unicode's White_Space property, as
/// `char::is_whitespace` decides it.
fn is_white_space(c: char) -> (r: bool)
    ensures
        r == unicode_white_space(c),
{
    ('\u{9}' <= c && c <= '\u{d}') || c == ' ' || c == '\u{85}' || c == '\u{a0}' || c == '\u{1680}'
        || ('\u{2000}' <= c && c <= '\u{200a}') || c == '\u{2028}' || c == '\u{2029}'
        || c == '\u{202f}' || c == '\u{205f}' || c == '\u{3000}'
}

/// What str::to_lowercase makes of a text (Unicode lowercase mapping).
pub uninterp spec fn lower_of(s: Seq<char>) -> Seq<char>;

/// Relies on str::to_lowercase: the result depends on the characters alone.
#[verifier::external_body]
pub(crate) fn to_lowercase(s: &str) -> (r: String)
    ensures
        r@ == lower_of(s@),
{
    s.to_lowercase()
}

pub open spec fn trim_start_seq(s: Seq<char>) -> Seq<char>
    decreases s.len(),
{
    if s.len() > 0 && unicode_white_space(s[0]) {
        trim_start_seq(s.drop_first())
    } else {
        s
    }
}

pub open spec fn trim_end_seq(s: Seq<char>) -> Seq<char>
    decreases s.len(),
{
    if s.len() > 0 && unicode_white_space(s.last()) {
        trim_end_seq(s.drop_last())
    } else {
        s
    }
}

/// A text without its leading and trailing white space.
pub open spec fn trim_seq(s: Seq<char>) -> Seq<char> {
    trim_end_seq(trim_start_seq(s))
}

pub open spec fn has_prefix(s: Seq<char>, p: Seq<char>) -> bool {
    p.len() <= s.len() && s.subrange(0, p.len() as int) == p
}

/// Why a normalised (trimmed, lowercased) link is refused, or `None` when
/// it may be opened: only `http://`, `https://` and `mailto:` pass.
pub open spec fn url_rejection(u: Seq<char>) -> Option<Seq<char>> {
    if has_prefix(u, "javascript:"@) {
        Some("JavaScript URLs are not allowed"@)
    } else if has_prefix(u, "data:"@) {
        Some("Data URLs are not allowed"@)
    } else if has_prefix(u, "file:"@) {
        Some("File URLs are not allowed"@)
    } else if has_prefix(u, "vbscript:"@) {
        Some("vbscript URLs are not allowed"@)
    } else if has_prefix(u, "mhtml:"@) {
        Some("mhtml URLs are not allowed"@)
    } else if has_prefix(u, "x-javascript:"@) {
        Some("x-javascript URLs are not allowed"@)
    } else if has_prefix(u, "http://"@) || has_prefix(u, "https://"@) || has_prefix(u, "mailto:"@) {
        None
    } else {
        Some("URL must use http://, https://, or mailto: scheme"@)
    }
}

/// The verdict on a link as given: trimmed, lowercased, then checked.
pub open spec fn external_url_rejection(url: Seq<char>) -> Option<Seq<char>> {
    url_rejection(lower_of(trim_seq(url)))
}

pub open spec fn verdict_matches(r: Result<(), String>, v: Option<Seq<char>>) -> bool {
    match r {
        Ok(_) => v is None,
        Err(e) => v == Some(e@),
    }
}

pub fn starts_with(s: &str, p: &str) -> (r: bool)
    ensures
        r == has_prefix(s@, p@),
{
    let sv = chars_of(s);
    let pv = chars_of(p);
    if pv.len() > sv.len() {
        return false;
    }
    let mut i: usize = 0;
    while i < pv.len()
        invariant
            sv@ == s@,
            pv@ == p@,
            pv@.len() <= sv@.len(),
            i <= pv@.len(),
            forall|k: int| 0 <= k < i ==> sv@[k] == pv@[k],
        decreases pv@.len() - i,
    {
        if sv[i] != pv[i] {
            assert(s@.subrange(0, p@.len() as int)[i as int] != p@[i as int]);
            return false;
        }
        i = i + 1;
    }
    assert(s@.subrange(0, p@.len() as int) =~= p@);
    true
}

/// A text without its leading and trailing white space.
pub fn trim(s: &str) -> (r: String)
    ensures
        r@ == trim_seq(s@),
{
    let v = chars_of(s);
    let n = v.len();
    let mut i: usize = 0;
    proof {
        assert(s@.subrange(0, n as int) == s@);
    }
    while i < n && is_white_space(v[i])
        invariant
            v@ == s@,
            n == v@.len(),
            i <= n,
            trim_start_seq(s@) == trim_start_seq(s@.subrange(i as int, n as int)),
        decreases n - i,
    {
        assert(s@.subrange(i as int, n as int).drop_first() == s@.subrange(i + 1, n as int));
        i = i + 1;
    }
    let mut j: usize = n;
    while j > i && is_white_space(v[j - 1])
        invariant
            v@ == s@,
            n == v@.len(),
            i <= j <= n,
            trim_seq(s@) == trim_end_seq(s@.subrange(i as int, j as int)),
        decreases j - i,
    {
        assert(s@.subrange(i as int, j as int).drop_last() == s@.subrange(i as int, j - 1));
        j = j - 1;
    }
    let mut out = String::new();
    let mut k: usize = i;
    while k < j
        invariant
            v@ == s@,
            n == v@.len(),
            i <= k <= j <= n,
            out@ == s@.subrange(i as int, k as int),
        decreases j - k,
    {
        push_char(&mut out, v[k]);
        k = k + 1;
    }
    out
}

/// Check a link that is already trimmed and lowercased against the allow-list.
pub fn check_url_scheme(u: &str) -> (r: Result<(), String>)
    ensures
        verdict_matches(r, url_rejection(u@)),
{
    if starts_with(u, "javascript:") {
        return Err(String::from_str("JavaScript URLs are not allowed"));
    }
    if starts_with(u, "data:") {
        return Err(String::from_str("Data URLs are not allowed"));
    }
    if starts_with(u, "file:") {
        return Err(String::from_str("File URLs are not allowed"));
    }
    if starts_with(u, "vbscript:") {
        return Err(String::from_str("vbscript URLs are not allowed"));
    }
    if starts_with(u, "mhtml:") {
        return Err(String::from_str("mhtml URLs are not allowed"));
    }
    if starts_with(u, "x-javascript:") {
        return Err(String::from_str("x-javascript URLs are not allowed"));
    }
    if starts_with(u, "http://") || starts_with(u, "https://") || starts_with(u, "mailto:") {
        return Ok(());
    }
    Err(String::from_str("URL must use http://, https://, or mailto: scheme"))
}

/// Validate that a link is safe to open externally: only the `http`,
/// `https` and `mailto` schemes are allowed, in any letter case.
pub fn validate_external_url(url: &str) -> (r: Result<(), String>)
    ensures
        verdict_matches(r, external_url_rejection(url@)),
{
    let trimmed = trim(url);
    let lowered = to_lowercase(trimmed.as_str());
    check_url_scheme(lowered.as_str())
}

} // verus!
