//! Waiting for the verification code: while time is left, ask the mail
//! service, then pause; stop at the first code, or give up at the deadline.
//! The application performs each action and reports back what happened.

use vstd::prelude::*;
use vstd::string::*;
use crate::text::{decimal, push_decimal};

verus! {

/// Pause between two checks of the mailbox, in milliseconds.
pub const CHECK_PAUSE_MILLIS: u64 = 2000;

/// First part of the message given when no code came in time.
pub const TIMEOUT_MESSAGE_HEAD: &'static str = "等待验证码超时 (";

/// Last part of the message given when no code came in time.
pub const TIMEOUT_MESSAGE_TAIL: &'static str = " 秒)\n\n可能原因:\n1. 邮件发送延迟\n2. 邮箱服务不可用\n3. 注册页未发送验证码\n4. 验证码已过期（超过1分钟）";

/// The message given when no code came within `secs` seconds.
pub open spec fn timeout_message(secs: nat) -> Seq<char> {
    TIMEOUT_MESSAGE_HEAD@ + decimal(secs) + TIMEOUT_MESSAGE_TAIL@
}

/// Builds the message given when no code came within `secs` seconds.
pub fn code_timeout_message(secs: u64) -> (r: String)
    ensures
        r@ == timeout_message(secs as nat),
{
    let mut m = String::from_str(TIMEOUT_MESSAGE_HEAD);
    push_decimal(&mut m, secs);
    m.append(TIMEOUT_MESSAGE_TAIL);
    m
}

/// Where the wait stands.
#[derive(Debug, PartialEq, Eq, Structural, Clone, Copy)]
pub enum WaitPhase {
    /// The clock is to be read next.
    AwaitingTick,
    /// The mailbox is being checked.
    AwaitingCheck,
    /// A code was delivered or the wait gave up; nothing follows.
    Done,
}

/// The state of one wait for a code.
#[derive(Debug, PartialEq, Eq)]
pub struct CodeWait {
    /// The address whose mailbox is checked.
    pub email: String,
    pub timeout_nanos: u128,
    pub timeout_secs: u64,
    /// How many checks were asked for so far.
    pub checks: u64,
    pub phase: WaitPhase,
}

/// Model of a [`CodeWait`].
pub struct CodeWaitView {
    pub email: Seq<char>,
    pub timeout_nanos: u128,
    pub timeout_secs: u64,
    pub checks: u64,
    pub phase: WaitPhase,
}

impl View for CodeWait {
    type V = CodeWaitView;

    open spec fn view(&self) -> CodeWaitView {
        CodeWaitView {
            email: self.email@,
            timeout_nanos: self.timeout_nanos,
            timeout_secs: self.timeout_secs,
            checks: self.checks,
            phase: self.phase,
        }
    }
}

/// What one check of the mailbox came to.
#[derive(Debug, PartialEq, Eq)]
pub enum CodeCheck {
    /// The service gave a code.
    Found(String),
    /// The service answered without a code.
    Empty,
    /// The request failed.
    Error,
}

/// What the application reports.
#[derive(Debug, PartialEq, Eq)]
pub enum WaitEvent {
    /// The time elapsed since the wait began.
    Tick { elapsed_nanos: u128 },
    /// The outcome of the check that was asked for.
    Checked(CodeCheck),
}

/// What the application is to do next.
#[derive(Debug, PartialEq, Eq)]
pub enum WaitAction {
    /// Check the mailbox of `email`; this is check number `attempt`.
    CheckMail { attempt: u64, email: String },
    /// Pause, then report a `Tick`.
    Sleep { millis: u64 },
    /// The wait succeeded with this code.
    Deliver(String),
    /// The wait failed with this message.
    GiveUp(String),
    /// The event did not fit the state; nothing changed.
    Ignore,
}

/// Model of a [`WaitEvent`].
pub enum WaitEventView {
    Tick { elapsed_nanos: u128 },
    Found(Seq<char>),
    Empty,
    Error,
}

/// Model of a [`WaitAction`].
pub enum WaitActionView {
    CheckMail { attempt: u64, email: Seq<char> },
    Sleep { millis: u64 },
    Deliver(Seq<char>),
    GiveUp(Seq<char>),
    Ignore,
}

impl View for WaitEvent {
    type V = WaitEventView;

    open spec fn view(&self) -> WaitEventView {
        match self {
            WaitEvent::Tick { elapsed_nanos } => WaitEventView::Tick { elapsed_nanos: *elapsed_nanos },
            WaitEvent::Checked(CodeCheck::Found(c)) => WaitEventView::Found(c@),
            WaitEvent::Checked(CodeCheck::Empty) => WaitEventView::Empty,
            WaitEvent::Checked(CodeCheck::Error) => WaitEventView::Error,
        }
    }
}

impl View for WaitAction {
    type V = WaitActionView;

    open spec fn view(&self) -> WaitActionView {
        match self {
            WaitAction::CheckMail { attempt, email } => WaitActionView::CheckMail {
                attempt: *attempt,
                email: email@,
            },
            WaitAction::Sleep { millis } => WaitActionView::Sleep { millis: *millis },
            WaitAction::Deliver(c) => WaitActionView::Deliver(c@),
            WaitAction::GiveUp(m) => WaitActionView::GiveUp(m@),
            WaitAction::Ignore => WaitActionView::Ignore,
        }
    }
}

/// The checks counted one more (the count stays at its largest value).
pub open spec fn one_more(checks: u64) -> u64 {
    if checks < u64::MAX {
        (checks + 1) as u64
    } else {
        checks
    }
}

/// One step of the wait: the next state and the action, given an event.
pub open spec fn code_wait_next(s: CodeWaitView, e: WaitEventView) -> (CodeWaitView, WaitActionView) {
    match (s.phase, e) {
        (WaitPhase::AwaitingTick, WaitEventView::Tick { elapsed_nanos }) => if elapsed_nanos
            < s.timeout_nanos {
            (
                CodeWaitView { checks: one_more(s.checks), phase: WaitPhase::AwaitingCheck, ..s },
                WaitActionView::CheckMail { attempt: one_more(s.checks), email: s.email },
            )
        } else {
            (
                CodeWaitView { phase: WaitPhase::Done, ..s },
                WaitActionView::GiveUp(timeout_message(s.timeout_secs as nat)),
            )
        },
        (WaitPhase::AwaitingCheck, WaitEventView::Found(c)) => (
            CodeWaitView { phase: WaitPhase::Done, ..s },
            WaitActionView::Deliver(c),
        ),
        (WaitPhase::AwaitingCheck, WaitEventView::Empty) | (
            WaitPhase::AwaitingCheck,
            WaitEventView::Error,
        ) => (
            CodeWaitView { phase: WaitPhase::AwaitingTick, ..s },
            WaitActionView::Sleep { millis: CHECK_PAUSE_MILLIS },
        ),
        _ => (s, WaitActionView::Ignore),
    }
}

impl CodeWait {
    /// A wait for the code sent to `email` that gives up once `timeout_nanos`
    /// have passed; `timeout_secs` is the same span in whole seconds, for the
    /// message.
    pub fn new(email: String, timeout_nanos: u128, timeout_secs: u64) -> (r: CodeWait)
        ensures
            r@ == (CodeWaitView {
                email: email@,
                timeout_nanos,
                timeout_secs,
                checks: 0,
                phase: WaitPhase::AwaitingTick,
            }),
    {
        CodeWait { email, timeout_nanos, timeout_secs, checks: 0, phase: WaitPhase::AwaitingTick }
    }

    /// Takes one event and says what to do next.
    pub fn step(&mut self, event: WaitEvent) -> (r: WaitAction)
        ensures
            (final(self)@, r@) == code_wait_next(old(self)@, event@),
    {
        match (self.phase, event) {
            (WaitPhase::AwaitingTick, WaitEvent::Tick { elapsed_nanos }) => {
                if elapsed_nanos < self.timeout_nanos {
                    if self.checks < u64::MAX {
                        self.checks = self.checks + 1;
                    }
                    self.phase = WaitPhase::AwaitingCheck;
                    WaitAction::CheckMail { attempt: self.checks, email: self.email.clone() }
                } else {
                    self.phase = WaitPhase::Done;
                    WaitAction::GiveUp(code_timeout_message(self.timeout_secs))
                }
            },
            (WaitPhase::AwaitingCheck, WaitEvent::Checked(CodeCheck::Found(c))) => {
                self.phase = WaitPhase::Done;
                WaitAction::Deliver(c)
            },
            (WaitPhase::AwaitingCheck, WaitEvent::Checked(_)) => {
                self.phase = WaitPhase::AwaitingTick;
                WaitAction::Sleep { millis: CHECK_PAUSE_MILLIS }
            },
            _ => WaitAction::Ignore,
        }
    }
}

/// The wait for a code checks the mailbox only before its deadline, gives
/// up only at or after it, delivers exactly the code a check found, counts
/// each check it asks for, and, once done, ignores everything.
pub proof fn law_code_wait(s: CodeWaitView, e: WaitEventView)
    ensures
        code_wait_next(s, e).1 is CheckMail ==> (e matches WaitEventView::Tick { elapsed_nanos }
            && elapsed_nanos < s.timeout_nanos),
        code_wait_next(s, e).1 is GiveUp ==> (e matches WaitEventView::Tick { elapsed_nanos }
            && elapsed_nanos >= s.timeout_nanos),
        code_wait_next(s, e).1 matches WaitActionView::Deliver(c) ==> e == WaitEventView::Found(c),
        code_wait_next(s, e).0.checks == if code_wait_next(s, e).1 is CheckMail {
            one_more(s.checks)
        } else {
            s.checks
        },
        s.phase == WaitPhase::Done ==> code_wait_next(s, e) == (s, WaitActionView::Ignore),
        code_wait_next(s, e).0.timeout_nanos == s.timeout_nanos,
        code_wait_next(s, e).0.email == s.email,
        code_wait_next(s, e).1 matches WaitActionView::CheckMail { email, .. } ==> email == s.email,
{
}

/// The event that answers an action: a `Tick` after a pause (or at the
/// start), the outcome of a check after a check.
pub open spec fn answers_wait(a: WaitActionView, e: WaitEventView) -> bool {
    match a {
        WaitActionView::CheckMail { .. } => !(e is Tick),
        WaitActionView::Sleep { .. } => e is Tick,
        _ => false,
    }
}

/// The wait never ignores the event that answers its last action, nor the
/// first `Tick` of a new wait.
pub proof fn law_code_wait_answers_are_taken(s: CodeWaitView, e: WaitEventView, answer: WaitEventView)
    ensures
        answers_wait(code_wait_next(s, e).1, answer) ==> !(code_wait_next(
            code_wait_next(s, e).0,
            answer,
        ).1 is Ignore),
        s.phase == WaitPhase::AwaitingTick && answer is Tick ==> !(code_wait_next(s, answer).1 is Ignore),
{
}

/// Before the deadline, a tick always leads to a check of the wait's own
/// mailbox, counted as the next attempt, however many checks came before.
pub proof fn law_tick_before_deadline_checks(s: CodeWaitView, elapsed_nanos: u128)
    requires
        s.phase == WaitPhase::AwaitingTick,
        elapsed_nanos < s.timeout_nanos,
    ensures
        ({
            let (n, a) = code_wait_next(s, WaitEventView::Tick { elapsed_nanos });
            &&& a matches WaitActionView::CheckMail { attempt, email } && email == s.email
                && attempt == n.checks
            &&& s.checks < u64::MAX ==> n.checks == s.checks + 1
            &&& n.phase == WaitPhase::AwaitingCheck
            &&& n.email == s.email && n.timeout_nanos == s.timeout_nanos
        }),
{
}

/// At or after the deadline, a tick ends the wait with the timeout message.
pub proof fn law_tick_at_deadline_gives_up(s: CodeWaitView, elapsed_nanos: u128)
    requires
        s.phase == WaitPhase::AwaitingTick,
        elapsed_nanos >= s.timeout_nanos,
    ensures
        code_wait_next(s, WaitEventView::Tick { elapsed_nanos }).1 == WaitActionView::GiveUp(
            TIMEOUT_MESSAGE_HEAD@ + decimal(s.timeout_secs as nat) + TIMEOUT_MESSAGE_TAIL@,
        ),
        code_wait_next(s, WaitEventView::Tick { elapsed_nanos }).0.phase == WaitPhase::Done,
{
}

/// A check that finds a code ends the wait with exactly that code; a check
/// that finds none, or fails, leads to a pause of two seconds and then to
/// the next tick, with the count of checks unchanged.
pub proof fn law_check_outcomes(s: CodeWaitView, c: Seq<char>, e: WaitEventView)
    requires
        s.phase == WaitPhase::AwaitingCheck,
    ensures
        code_wait_next(s, WaitEventView::Found(c)).1 == WaitActionView::Deliver(c),
        code_wait_next(s, WaitEventView::Found(c)).0.phase == WaitPhase::Done,
        (e == WaitEventView::Empty || e == WaitEventView::Error) ==> code_wait_next(s, e).1
            == (WaitActionView::Sleep { millis: 2000 }) && code_wait_next(s, e).0.phase
            == WaitPhase::AwaitingTick && code_wait_next(s, e).0.checks == s.checks,
{
}

} // verus!
