//! The classification of one checked link, and its one-line rendering.

use vstd::prelude::*;
use vstd::string::StringExecFns;
use crate::resolve::ResolvedUrl;

verus! {

/// What checking one link came to.
#[derive(Clone, Debug, PartialEq, Eq)]
pub enum UrlState {
    /// The request completed with status 200.
    Accessible(ResolvedUrl),
    /// The request completed with any other status.
    BadStatus(ResolvedUrl, u16),
    /// The request could not complete.
    ConnectionFailed(ResolvedUrl),
    /// The timer ran out before the request completed.
    TimedOut(ResolvedUrl),
    /// The link text did not resolve to a URL; carries that text.
    Malformed(String),
}

/// `UrlState` with each URL and text seen as its characters.
pub enum UrlStateView {
    Accessible(Seq<char>),
    BadStatus(Seq<char>, u16),
    ConnectionFailed(Seq<char>),
    TimedOut(Seq<char>),
    Malformed(Seq<char>),
}

impl View for UrlState {
    type V = UrlStateView;

    open spec fn view(&self) -> UrlStateView {
        match self {
            UrlState::Accessible(u) => UrlStateView::Accessible(u@),
            UrlState::BadStatus(u, c) => UrlStateView::BadStatus(u@, *c),
            UrlState::ConnectionFailed(u) => UrlStateView::ConnectionFailed(u@),
            UrlState::TimedOut(u) => UrlStateView::TimedOut(u@),
            UrlState::Malformed(t) => UrlStateView::Malformed(t@),
        }
    }
}

/// The canonical reason phrase that `hyper::StatusCode` gives for `code`, or
/// `None` where it has none.
pub uninterp spec fn status_reason(code: u16) -> Option<Seq<char>>;

/// Relies on `hyper::StatusCode::from_u16` and `canonical_reason`: codes
/// outside 100..=999 are no status code, and so have no phrase.
#[verifier::external_body]
fn reason_phrase(code: u16) -> (r: Option<String>)
    ensures
        r is None <==> status_reason(code) is None,
        r matches Some(p) ==> status_reason(code) == Some(p@),
        (code < 100 || code > 999) ==> r is None,
{
    match hyper::StatusCode::from_u16(code) {
        Ok(s) => s.canonical_reason().map(String::from),
        Err(_) => None,
    }
}

/// The decimal digit `d` as text.
pub open spec fn digit_text(d: nat) -> Seq<char> {
    if d == 0 { "0"@ }
    else if d == 1 { "1"@ }
    else if d == 2 { "2"@ }
    else if d == 3 { "3"@ }
    else if d == 4 { "4"@ }
    else if d == 5 { "5"@ }
    else if d == 6 { "6"@ }
    else if d == 7 { "7"@ }
    else if d == 8 { "8"@ }
    else { "9"@ }
}

/// `n` written in decimal, without leading zeros.
pub open spec fn decimal(n: nat) -> Seq<char>
    decreases n,
{
    if n < 10 { digit_text(n) } else { decimal(n / 10) + digit_text(n % 10) }
}

/// A status as `hyper::StatusCode` displays it: the code, then its phrase.
pub open spec fn status_text(code: u16) -> Seq<char> {
    decimal(code as nat) + " "@ + match status_reason(code) {
        Some(p) => p,
        None => "<unknown status code>"@,
    }
}

/// The one line that reports a classification.
pub open spec fn rendered(s: UrlStateView) -> Seq<char> {
    match s {
        UrlStateView::Accessible(u) => "\u{2713} "@ + u,
        UrlStateView::BadStatus(u, c) => "x "@ + u + " ("@ + status_text(c) + ")"@,
        UrlStateView::ConnectionFailed(u) => "x "@ + u + " (connection failed)"@,
        UrlStateView::TimedOut(u) => "x "@ + u + " (timed out)"@,
        UrlStateView::Malformed(t) => "x "@ + t + " (malformed)"@,
    }
}

fn digit_str(d: u16) -> (r: &'static str)
    requires
        d < 10,
    ensures
        r@ == digit_text(d as nat),
{
    if d == 0 { "0" }
    else if d == 1 { "1" }
    else if d == 2 { "2" }
    else if d == 3 { "3" }
    else if d == 4 { "4" }
    else if d == 5 { "5" }
    else if d == 6 { "6" }
    else if d == 7 { "7" }
    else if d == 8 { "8" }
    else { "9" }
}

/// Appends `n` in decimal to `out`.
fn push_decimal(out: &mut String, n: u16)
    ensures
        final(out)@ == old(out)@ + decimal(n as nat),
    decreases n,
{
    if n < 10 {
        out.append(digit_str(n));
    } else {
        push_decimal(out, n / 10);
        out.append(digit_str(n % 10));
        assert(final(out)@ == old(out)@ + decimal(n as nat));
    }
}

impl UrlState {
    /// The line that reports this classification: `✓ <url>` for a reachable
    /// URL, else `x <url or text> (<why>)`.
    pub fn render(&self) -> (r: String)
        ensures
            r@ == rendered(self@),
    {
        match self {
            UrlState::Accessible(u) => String::from_str("\u{2713} ").concat(u.as_str()),
            UrlState::BadStatus(u, c) => {
                let mut out = String::from_str("x ").concat(u.as_str()).concat(" (");
                push_decimal(&mut out, *c);
                out.append(" ");
                match reason_phrase(*c) {
                    Some(p) => out.append(p.as_str()),
                    None => out.append("<unknown status code>"),
                }
                out.append(")");
                out
            },
            UrlState::ConnectionFailed(u) => String::from_str("x ").concat(u.as_str()).concat(
                " (connection failed)",
            ),
            UrlState::TimedOut(u) => String::from_str("x ").concat(u.as_str()).concat(" (timed out)"),
            UrlState::Malformed(t) => String::from_str("x ").concat(t.as_str()).concat(" (malformed)"),
        }
    }
}

} // verus!
