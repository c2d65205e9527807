//! The settings of quick registration (timings, rounds, messages), the rule
//! for replacing a saved account's e-mail, and the local callback route that
//! receives the token from the registration page.

use vstd::prelude::*;
use vstd::string::*;
use crate::text::{blank, has_char, is_blank};

verus! {

/// The message when a browser login is already running.
pub const LOGIN_BUSY_MESSAGE: &'static str = "浏览器登录正在进行中，请稍后再试";

/// The first part of the message when the registration window does not open.
pub const WINDOW_ERROR_HEAD: &'static str = "无法打开注册窗口: ";

/// The message when neither a token nor cookies were obtained.
pub const NO_CREDENTIALS_MESSAGE: &'static str = "未能获取 Token 或 Cookies";

/// The callback page's answer when a token came.
pub const TOKEN_RECEIVED_HTML: &'static str = "已收到 Token，注册成功。";

/// The callback page's answer when no token came.
pub const NO_TOKEN_HTML: &'static str = "未收到 Token";

/// How long the page is given to load, and the page to react after the
/// e-mail and after the sign-up, in milliseconds.
pub const SETTLE_MILLIS: u64 = 5000;

/// Pause before each round of filling the page, in milliseconds.
pub const ROUND_PAUSE_MILLIS: u64 = 500;

/// Rounds of filling the e-mail, and of filling the code and password.
pub const ROUNDS: u8 = 10;

/// The round in which the send-code button is pressed.
pub const SEND_CODE_ROUND: u8 = 5;

/// From this round on, the sign-up button is pressed.
pub const FIRST_SUBMIT_ROUND: u8 = 5;

/// How long the mailbox is watched for the code, in seconds.
pub const CODE_TIMEOUT_SECS: u64 = 60;

/// How long the callback is awaited for the token, in seconds.
pub const TOKEN_TIMEOUT_SECS: u64 = 30;

/// How long the cookies of the token request are awaited, in milliseconds.
pub const REQUEST_COOKIES_TIMEOUT_MILLIS: u64 = 6000;

// ---------------------------------------------------------------------------
// The account's e-mail

/// An account's e-mail is to be replaced by the generated address when it is
/// blank, masked (holds `*`), or not an address (lacks `@`).
pub open spec fn email_needs_update(email: Seq<char>) -> bool {
    blank(email) || email.contains('*') || !email.contains('@')
}

/// Whether the stored e-mail of a new account is to be replaced.
pub fn needs_email_update(email: &str) -> (r: bool)
    ensures
        r == email_needs_update(email@),
{
    is_blank(email) || has_char(email, '*') || !has_char(email, '@')
}

// ---------------------------------------------------------------------------
// The callback route

/// The answer to one call of the local callback route.
#[derive(Debug, PartialEq, Eq)]
pub struct CallbackReply {
    /// The (token, url) to hand on; when present, the server is also to shut
    /// down.
    pub delivery: Option<(String, String)>,
    /// The page returned to the caller.
    pub html: String,
}

/// Whether a call with `token` hands it on, given whether one was handed on
/// before: only a non-empty token, and only the first time.
pub open spec fn gate_delivers(delivered: bool, token: Seq<char>) -> bool {
    token.len() > 0 && !delivered
}

/// Whether a token was handed on after a call with `token`.
pub open spec fn gate_after(delivered: bool, token: Seq<char>) -> bool {
    delivered || token.len() > 0
}

/// The callback route hands a token on at most once: after a call that
/// delivered, no later call delivers.
pub proof fn law_single_delivery(delivered: bool, first: Seq<char>, later: Seq<char>)
    ensures
        gate_delivers(delivered, first) ==> !gate_delivers(gate_after(delivered, first), later),
        gate_after(delivered, first) ==> gate_after(gate_after(delivered, first), later),
        !delivered ==> (gate_delivers(delivered, first) <==> first.len() > 0),
        !delivered ==> (gate_after(delivered, first) <==> first.len() > 0),
{
}

/// The callback route's memory: whether a token was handed on already.
pub struct CallbackGate {
    pub delivered: bool,
}

impl CallbackGate {
    /// A route that has handed nothing on.
    pub fn new() -> (r: CallbackGate)
        ensures
            !r.delivered,
    {
        CallbackGate { delivered: false }
    }

    /// Answers a call whose query held `token` and `url` (each `None` when
    /// absent): a non-empty token is handed on the first time only.
    pub fn handle(&mut self, token: Option<String>, url: Option<String>) -> (r: CallbackReply)
        ensures
            ({
                let t = match token {
                    Some(t) => t@,
                    None => Seq::<char>::empty(),
                };
                let u = match url {
                    Some(u) => u@,
                    None => Seq::<char>::empty(),
                };
                &&& r.html@ == if t.len() > 0 {
                    TOKEN_RECEIVED_HTML@
                } else {
                    NO_TOKEN_HTML@
                }
                &&& final(self).delivered == gate_after(old(self).delivered, t)
                &&& r.delivery.deep_view() == if gate_delivers(old(self).delivered, t) {
                    Some((t, u))
                } else {
                    None
                }
            }),
    {
        let token = match token {
            Some(t) => t,
            None => String::new(),
        };
        let url = match url {
            Some(u) => u,
            None => String::new(),
        };
        if !token.as_str().is_empty() {
            let delivery = if !self.delivered {
                Some((token, url))
            } else {
                None
            };
            self.delivered = true;
            CallbackReply { delivery, html: String::from_str(TOKEN_RECEIVED_HTML) }
        } else {
            CallbackReply { delivery: None, html: String::from_str(NO_TOKEN_HTML) }
        }
    }
}

} // verus!
