//! Cookies of the registration page: the request URL they are read for, the
//! `Cookie`-header text they are joined into, and the wait for them.

use vstd::prelude::*;
use vstd::string::*;
use crate::text::{before_first, prefix_before};
use crate::code_wait::WaitPhase;

verus! {

/// The page against which request URLs are resolved.
pub const SITE_BASE: &'static str = "https://www.trae.ai/";

/// Pause between two reads of the cookies, in milliseconds.
pub const COOKIE_PAUSE_MILLIS: u64 = 300;

/// The message given when no cookie came in time.
pub const NO_COOKIE_MESSAGE: &'static str = "未能获取 Cookie";

/// The first part of the message given for a request URL that does not resolve.
pub const BAD_URL_MESSAGE_HEAD: &'static str = "URL 无效: ";

/// What the url crate makes of `input` resolved against `base`, as text;
/// `None` when either does not parse.
pub uninterp spec fn resolved_url(base: Seq<char>, input: Seq<char>) -> Option<Seq<char>>;

/// Resolves `input` against `base`.
///
/// Trusted: calls `url::Url::parse(base)` and then `Url::join(input)` on the
/// result, and renders the URL as its serialization. Claimed: the result is a
/// function of the two texts (named `resolved_url`).
#[verifier::external_body]
fn resolve_url(base: &str, input: &str) -> (r: Option<String>)
    ensures
        r.deep_view() == resolved_url(base@, input@),
{
    match url::Url::parse(base) {
        Ok(b) => match b.join(input) {
            Ok(u) => Some(String::from(u)),
            Err(_) => None,
        },
        Err(_) => None,
    }
}

/// The request URL without its query, resolved against the site.
pub open spec fn normalized_request_url(url: Seq<char>) -> Option<Seq<char>> {
    resolved_url(SITE_BASE@, before_first(url, '?'))
}

/// Drops the query of a request URL and resolves the rest against the site.
pub fn normalize_request_url(url: &str) -> (r: Option<String>)
    ensures
        r.deep_view() == normalized_request_url(url@),
{
    let trimmed = prefix_before(url, '?');
    resolve_url(SITE_BASE, trimmed)
}

/// One cookie as `name=value`.
pub open spec fn cookie_pair(c: (Seq<char>, Seq<char>)) -> Seq<char> {
    c.0 + "="@ + c.1
}

/// Cookies as `Cookie`-header text: each `name=value`, separated by `"; "`.
pub open spec fn cookie_header(cs: Seq<(Seq<char>, Seq<char>)>) -> Seq<char>
    decreases cs.len(),
{
    if cs.len() == 0 {
        Seq::empty()
    } else if cs.len() == 1 {
        cookie_pair(cs[0])
    } else {
        cookie_header(cs.drop_last()) + "; "@ + cookie_pair(cs.last())
    }
}

/// Joins cookies, given as (name, value), into `Cookie`-header text.
pub fn join_cookies(cookies: &Vec<(String, String)>) -> (r: String)
    ensures
        r@ == cookie_header(cookies.deep_view()),
{
    let n = cookies.len();
    let mut out = String::new();
    let mut i: usize = 0;
    while i < n
        invariant
            n == cookies@.len(),
            i <= n,
            out@ == cookie_header(cookies.deep_view().take(i as int)),
        decreases n - i,
    {
        let ghost cs = cookies.deep_view();
        proof {
            assert(cs.take(i + 1).drop_last() == cs.take(i as int));
            assert(cs.take(i + 1).last() == cs[i as int]);
        }
        if i > 0 {
            out.append("; ");
        }
        out.append(cookies[i].0.as_str());
        out.append("=");
        out.append(cookies[i].1.as_str());
        proof {
            if i == 0 {
                assert(out@ =~= cookie_pair(cs[0]));
            } else {
                assert(out@ =~= cookie_header(cs.take(i as int)) + "; "@ + cookie_pair(cs[i as int]));
            }
        }
        i = i + 1;
    }
    proof {
        assert(cookies.deep_view().take(n as int) == cookies.deep_view());
    }
    out
}

/// The state of one wait for the cookies of a request URL.
pub struct CookieWait {
    url: String,
    timeout_nanos: u128,
    phase: WaitPhase,
}

/// Model of a [`CookieWait`].
pub struct CookieWaitView {
    /// The normalized request URL whose cookies are read.
    pub url: Seq<char>,
    pub timeout_nanos: u128,
    pub phase: WaitPhase,
}

impl View for CookieWait {
    type V = CookieWaitView;

    closed spec fn view(&self) -> CookieWaitView {
        CookieWaitView { url: self.url@, timeout_nanos: self.timeout_nanos, phase: self.phase }
    }
}

/// What the application reports.
#[derive(Debug, PartialEq, Eq)]
pub enum CookieEvent {
    /// The time elapsed since the wait began.
    Tick { elapsed_nanos: u128 },
    /// The cookies read for the URL, as (name, value); `None` when reading
    /// them failed.
    Cookies(Option<Vec<(String, String)>>),
}

/// What the application is to do next.
#[derive(Debug, PartialEq, Eq)]
pub enum CookieAction {
    /// Read the cookies stored for this URL.
    Fetch { url: String },
    /// Pause, then report a `Tick`.
    Sleep { millis: u64 },
    /// The wait succeeded with this `Cookie`-header text.
    Deliver(String),
    /// The wait failed with this message.
    GiveUp(String),
    /// The event did not fit the state; nothing changed.
    Ignore,
}

/// Model of a [`CookieEvent`].
pub enum CookieEventView {
    Tick { elapsed_nanos: u128 },
    Cookies(Option<Seq<(Seq<char>, Seq<char>)>>),
}

/// Model of a [`CookieAction`].
pub enum CookieActionView {
    Fetch { url: Seq<char> },
    Sleep { millis: u64 },
    Deliver(Seq<char>),
    GiveUp(Seq<char>),
    Ignore,
}

impl View for CookieEvent {
    type V = CookieEventView;

    open spec fn view(&self) -> CookieEventView {
        match self {
            CookieEvent::Tick { elapsed_nanos } => CookieEventView::Tick {
                elapsed_nanos: *elapsed_nanos,
            },
            CookieEvent::Cookies(cs) => CookieEventView::Cookies(cs.deep_view()),
        }
    }
}

impl View for CookieAction {
    type V = CookieActionView;

    open spec fn view(&self) -> CookieActionView {
        match self {
            CookieAction::Fetch { url } => CookieActionView::Fetch { url: url@ },
            CookieAction::Sleep { millis } => CookieActionView::Sleep { millis: *millis },
            CookieAction::Deliver(c) => CookieActionView::Deliver(c@),
            CookieAction::GiveUp(m) => CookieActionView::GiveUp(m@),
            CookieAction::Ignore => CookieActionView::Ignore,
        }
    }
}

/// One step of the wait for cookies.
pub open spec fn cookie_wait_next(s: CookieWaitView, e: CookieEventView) -> (
    CookieWaitView,
    CookieActionView,
) {
    match (s.phase, e) {
        (WaitPhase::AwaitingTick, CookieEventView::Tick { elapsed_nanos }) => if elapsed_nanos
            < s.timeout_nanos {
            (
                CookieWaitView { phase: WaitPhase::AwaitingCheck, ..s },
                CookieActionView::Fetch { url: s.url },
            )
        } else {
            (
                CookieWaitView { phase: WaitPhase::Done, ..s },
                CookieActionView::GiveUp(NO_COOKIE_MESSAGE@),
            )
        },
        (WaitPhase::AwaitingCheck, CookieEventView::Cookies(Some(cs))) => if cookie_header(cs).len()
            > 0 {
            (
                CookieWaitView { phase: WaitPhase::Done, ..s },
                CookieActionView::Deliver(cookie_header(cs)),
            )
        } else {
            (
                CookieWaitView { phase: WaitPhase::AwaitingTick, ..s },
                CookieActionView::Sleep { millis: COOKIE_PAUSE_MILLIS },
            )
        },
        (WaitPhase::AwaitingCheck, CookieEventView::Cookies(None)) => (
            CookieWaitView { phase: WaitPhase::AwaitingTick, ..s },
            CookieActionView::Sleep { millis: COOKIE_PAUSE_MILLIS },
        ),
        _ => (s, CookieActionView::Ignore),
    }
}

impl CookieWait {
    /// Starts a wait for the cookies of `request_url`, giving up after
    /// `timeout_nanos`; fails with a message when the URL does not resolve.
    pub fn start(request_url: &str, timeout_nanos: u128) -> (r: Result<CookieWait, String>)
        ensures
            match normalized_request_url(request_url@) {
                Some(u) => r matches Ok(w) && w@ == (CookieWaitView {
                    url: u,
                    timeout_nanos,
                    phase: WaitPhase::AwaitingTick,
                }),
                None => r matches Err(m) && m@ == BAD_URL_MESSAGE_HEAD@ + request_url@,
            },
    {
        match normalize_request_url(request_url) {
            Some(url) => Ok(CookieWait { url, timeout_nanos, phase: WaitPhase::AwaitingTick }),
            None => {
                let mut m = String::from_str(BAD_URL_MESSAGE_HEAD);
                m.append(request_url);
                Err(m)
            },
        }
    }

    /// Takes one event and says what to do next.
    pub fn step(&mut self, event: CookieEvent) -> (r: CookieAction)
        ensures
            (final(self)@, r@) == cookie_wait_next(old(self)@, event@),
    {
        match (self.phase, event) {
            (WaitPhase::AwaitingTick, CookieEvent::Tick { elapsed_nanos }) => {
                if elapsed_nanos < self.timeout_nanos {
                    self.phase = WaitPhase::AwaitingCheck;
                    CookieAction::Fetch { url: self.url.clone() }
                } else {
                    self.phase = WaitPhase::Done;
                    CookieAction::GiveUp(String::from_str(NO_COOKIE_MESSAGE))
                }
            },
            (WaitPhase::AwaitingCheck, CookieEvent::Cookies(Some(cs))) => {
                let header = join_cookies(&cs);
                if !header.as_str().is_empty() {
                    self.phase = WaitPhase::Done;
                    CookieAction::Deliver(header)
                } else {
                    self.phase = WaitPhase::AwaitingTick;
                    CookieAction::Sleep { millis: COOKIE_PAUSE_MILLIS }
                }
            },
            (WaitPhase::AwaitingCheck, CookieEvent::Cookies(None)) => {
                self.phase = WaitPhase::AwaitingTick;
                CookieAction::Sleep { millis: COOKIE_PAUSE_MILLIS }
            },
            _ => CookieAction::Ignore,
        }
    }
}

/// Cookie-header text is empty exactly when there are no cookies: every
/// cookie contributes at least its `=`.
pub proof fn law_cookie_header_empty_iff_no_cookies(cs: Seq<(Seq<char>, Seq<char>)>)
    ensures
        (cookie_header(cs).len() == 0) <==> (cs.len() == 0),
    decreases cs.len(),
{
    reveal_strlit("=");
    reveal_strlit("; ");
    if cs.len() > 1 {
        law_cookie_header_empty_iff_no_cookies(cs.drop_last());
    }
}

/// The wait for cookies reads them only before its deadline, gives up only
/// at or after it, delivers only non-empty header text, and, once done,
/// ignores everything.
pub proof fn law_cookie_wait(s: CookieWaitView, e: CookieEventView)
    ensures
        cookie_wait_next(s, e).1 is Fetch ==> (e matches CookieEventView::Tick { elapsed_nanos }
            && elapsed_nanos < s.timeout_nanos),
        cookie_wait_next(s, e).1 is GiveUp ==> (e matches CookieEventView::Tick { elapsed_nanos }
            && elapsed_nanos >= s.timeout_nanos),
        cookie_wait_next(s, e).1 matches CookieActionView::Deliver(h) ==> (h.len() > 0 && (e matches CookieEventView::Cookies(Some(cs)) && h == cookie_header(cs))),
        s.phase == WaitPhase::Done ==> cookie_wait_next(s, e) == (s, CookieActionView::Ignore),
        cookie_wait_next(s, e).0.url == s.url,
{
}

/// The event that answers an action: a `Tick` after a pause, the cookies
/// read after a read.
pub open spec fn answers_cookie_wait(a: CookieActionView, e: CookieEventView) -> bool {
    match a {
        CookieActionView::Fetch { .. } => e is Cookies,
        CookieActionView::Sleep { .. } => e is Tick,
        _ => false,
    }
}

/// The wait for cookies never ignores the event that answers its last
/// action, nor the first `Tick` of a new wait.
pub proof fn law_cookie_wait_answers_are_taken(s: CookieWaitView, e: CookieEventView, answer: CookieEventView)
    ensures
        answers_cookie_wait(cookie_wait_next(s, e).1, answer) ==> !(cookie_wait_next(
            cookie_wait_next(s, e).0,
            answer,
        ).1 is Ignore),
        s.phase == WaitPhase::AwaitingTick && answer is Tick ==> !(cookie_wait_next(s, answer).1 is Ignore),
{
}

/// Cookies read for the URL end the wait as soon as there is at least one:
/// the result is their header text; no cookies, or a failed read, lead to a
/// pause of 300 ms and the next tick.
pub proof fn law_cookies_delivered_when_present(s: CookieWaitView, cs: Seq<(Seq<char>, Seq<char>)>)
    requires
        s.phase == WaitPhase::AwaitingCheck,
    ensures
        cs.len() > 0 ==> cookie_wait_next(s, CookieEventView::Cookies(Some(cs))).1
            == CookieActionView::Deliver(cookie_header(cs)) && cookie_wait_next(
            s,
            CookieEventView::Cookies(Some(cs)),
        ).0.phase == WaitPhase::Done,
        cs.len() == 0 ==> cookie_wait_next(s, CookieEventView::Cookies(Some(cs))).1
            == (CookieActionView::Sleep { millis: 300 }),
        cookie_wait_next(s, CookieEventView::Cookies(None)).1 == (CookieActionView::Sleep {
            millis: 300,
        }),
{
    law_cookie_header_empty_iff_no_cookies(cs);
}

/// Before the deadline a tick reads the cookies of the wait's URL; at or
/// after it, the wait gives up.
pub proof fn law_cookie_ticks(s: CookieWaitView, elapsed_nanos: u128)
    requires
        s.phase == WaitPhase::AwaitingTick,
    ensures
        elapsed_nanos < s.timeout_nanos ==> cookie_wait_next(s, CookieEventView::Tick { elapsed_nanos }).1
            == (CookieActionView::Fetch { url: s.url }),
        elapsed_nanos >= s.timeout_nanos ==> cookie_wait_next(s, CookieEventView::Tick { elapsed_nanos }).1
            == CookieActionView::GiveUp(NO_COOKIE_MESSAGE@),
{
}

/// A single cookie is `name=value`; each further cookie adds `"; "` and its
/// own `name=value`.
pub proof fn law_cookie_header_parts(cs: Seq<(Seq<char>, Seq<char>)>, c: (Seq<char>, Seq<char>))
    ensures
        cookie_header(seq![c]) == c.0 + "="@ + c.1,
        cs.len() > 0 ==> cookie_header(cs.push(c)) == cookie_header(cs) + "; "@ + c.0 + "="@ + c.1,
{
    assert(cs.push(c).drop_last() == cs);
    assert(seq![c][0] == c);
    assert(cookie_header(cs) + "; "@ + (c.0 + "="@ + c.1) == cookie_header(cs) + "; "@ + c.0 + "="@
        + c.1);
}

} // verus!
