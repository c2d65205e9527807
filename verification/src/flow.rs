//! The quick-registration flow as a state machine: from the start of a
//! registration to a saved account or a failure message.

use vstd::prelude::*;
use vstd::string::*;
use crate::scripts::{
    CLICK_SEND_CODE,
    CLICK_SUBMIT,
    code_fill_script,
    email_fill_script,
    fill_code_script,
    fill_email_script,
    fill_password_script,
    interceptor_script,
    password_fill_script,
    token_interceptor_script,
};
use crate::text::is_white_space;
use crate::register::{
    CODE_TIMEOUT_SECS,
    FIRST_SUBMIT_ROUND,
    LOGIN_BUSY_MESSAGE,
    NO_CREDENTIALS_MESSAGE,
    REQUEST_COOKIES_TIMEOUT_MILLIS,
    ROUNDS,
    ROUND_PAUSE_MILLIS,
    SEND_CODE_ROUND,
    SETTLE_MILLIS,
    TOKEN_TIMEOUT_SECS,
    WINDOW_ERROR_HEAD,
    email_needs_update,
    needs_email_update,
};

verus! {

/// Where the registration stands; each stage names the action last asked for.
#[derive(Debug, PartialEq, Eq, Structural, Clone, Copy)]
pub enum Stage {
    /// Nothing asked yet.
    Idle,
    OpeningMailClient,
    StartingServer,
    ClosingOldWindow,
    OpeningWindow,
    /// Waiting for the page to load.
    LoadingPage,
    /// In round `round` (1 to 10) of filling the e-mail; `step` 0 pauses,
    /// 1 fills the field, 2 presses send-code.
    EmailRound { round: u8, step: u8 },
    /// Waiting for the mail to go out.
    AwaitingMail,
    WaitingCode,
    /// In round `round` (1 to 10) of filling the code; `step` 0 pauses, 1 fills
    /// the code, 2 fills the password, 3 presses sign-up.
    CodeRound { round: u8, step: u8 },
    /// Waiting for the sign-up to go through.
    AwaitingRegistration,
    WaitingToken,
    FetchingCookies,
    ClosingWindow,
    /// Closing the window after the code did not come; the failure follows.
    ClosingAfterFailure,
    SavingAccount,
    UpdatingEmail,
    ReloadingAccount,
    Finished,
    Failed,
}

/// The registration's state.
pub struct RegisterFlow {
    stage: Stage,
    email: String,
    password: String,
    port: u16,
    code: String,
    token: Option<String>,
    cookies: String,
    account_id: String,
    pending_error: String,
}

/// Model of a [`RegisterFlow`].
pub struct RegisterFlowView {
    pub stage: Stage,
    /// The generated address.
    pub email: Seq<char>,
    /// The generated password.
    pub password: Seq<char>,
    /// The callback server's port.
    pub port: u16,
    /// The verification code.
    pub code: Seq<char>,
    /// The token from the callback, if one came.
    pub token: Option<Seq<char>>,
    /// The `Cookie`-header text obtained.
    pub cookies: Seq<char>,
    /// The saved account's id.
    pub account_id: Seq<char>,
    /// The failure to report once the window is closed.
    pub pending_error: Seq<char>,
}

impl View for RegisterFlow {
    type V = RegisterFlowView;

    closed spec fn view(&self) -> RegisterFlowView {
        RegisterFlowView {
            stage: self.stage,
            email: self.email@,
            password: self.password@,
            port: self.port,
            code: self.code@,
            token: self.token.deep_view(),
            cookies: self.cookies@,
            account_id: self.account_id@,
            pending_error: self.pending_error@,
        }
    }
}

/// What the application reports: the start, or how the last action went.
#[derive(Debug, PartialEq, Eq)]
pub enum RegisterEvent {
    /// Start: whether a browser login is running, and the API key from the
    /// settings (empty when none).
    Begin { login_in_progress: bool, settings_api_key: String },
    /// The mail client is ready, with the generated address and password.
    MailClientReady { email: String, password: String },
    /// The callback server listens on `port`.
    ServerStarted { port: u16 },
    /// The last action completed.
    Done,
    /// The last action failed with `message`.
    Failed { message: String },
    /// The verification code arrived.
    CodeReceived { code: String },
    /// The callback delivered a token and the URL of the request that gave it.
    TokenReceived { token: String, url: String },
    /// No token came in time.
    TokenMissing,
    /// The cookies obtained, as `Cookie`-header text (empty when none).
    CookiesRead { cookies: String },
    /// The account was saved; `email` is the address it was stored with.
    AccountSaved { id: String, email: String },
}

/// What the application is to do next.
#[derive(Debug, PartialEq, Eq)]
pub enum RegisterAction {
    /// Create the mail client with this key.
    OpenMailClient { api_key: Option<String> },
    /// Start the local callback server.
    StartCallbackServer,
    /// Close a registration window left open earlier.
    CloseExistingWindow,
    /// Open the registration window with this script installed.
    OpenWindow { init_script: String },
    Sleep { millis: u64 },
    /// Run this script in the page.
    Eval { script: String },
    /// Wait for the verification code sent to `email`, at most `timeout_secs`.
    WaitForCode { email: String, timeout_secs: u64 },
    /// Wait for the callback's token, at most `timeout_secs`.
    WaitForToken { timeout_secs: u64 },
    /// Read the cookies stored for `url`, trying for at most `timeout_millis`.
    FetchRequestCookies { url: String, timeout_millis: u64 },
    /// Read the cookies of the current page.
    FetchPageCookies,
    CloseWindow,
    AddAccountByToken { token: String, cookies: String, password: String },
    AddAccountByCookies { cookies: String, password: String },
    UpdateAccountEmail { id: String, email: String },
    ReloadAccount { id: String },
    /// The registration succeeded; return the account.
    Finish,
    /// The registration failed with `message`.
    Fail { message: String },
    /// The event did not fit the state; nothing changed.
    Ignore,
}

/// Model of a [`RegisterEvent`].
pub enum RegisterEventView {
    Begin { login_in_progress: bool, settings_api_key: Seq<char> },
    MailClientReady { email: Seq<char>, password: Seq<char> },
    ServerStarted { port: u16 },
    Done,
    Failed { message: Seq<char> },
    CodeReceived { code: Seq<char> },
    TokenReceived { token: Seq<char>, url: Seq<char> },
    TokenMissing,
    CookiesRead { cookies: Seq<char> },
    AccountSaved { id: Seq<char>, email: Seq<char> },
}

/// Model of a [`RegisterAction`].
pub enum RegisterActionView {
    OpenMailClient { api_key: Option<Seq<char>> },
    StartCallbackServer,
    CloseExistingWindow,
    OpenWindow { init_script: Seq<char> },
    Sleep { millis: u64 },
    Eval { script: Seq<char> },
    WaitForCode { email: Seq<char>, timeout_secs: u64 },
    WaitForToken { timeout_secs: u64 },
    FetchRequestCookies { url: Seq<char>, timeout_millis: u64 },
    FetchPageCookies,
    CloseWindow,
    AddAccountByToken { token: Seq<char>, cookies: Seq<char>, password: Seq<char> },
    AddAccountByCookies { cookies: Seq<char>, password: Seq<char> },
    UpdateAccountEmail { id: Seq<char>, email: Seq<char> },
    ReloadAccount { id: Seq<char> },
    Finish,
    Fail { message: Seq<char> },
    Ignore,
}

impl View for RegisterEvent {
    type V = RegisterEventView;

    open spec fn view(&self) -> RegisterEventView {
        match self {
            RegisterEvent::Begin { login_in_progress, settings_api_key } => RegisterEventView::Begin {
                login_in_progress: *login_in_progress,
                settings_api_key: settings_api_key@,
            },
            RegisterEvent::MailClientReady { email, password } =>
                RegisterEventView::MailClientReady { email: email@, password: password@ },
            RegisterEvent::ServerStarted { port } => RegisterEventView::ServerStarted { port: *port },
            RegisterEvent::Done => RegisterEventView::Done,
            RegisterEvent::Failed { message } => RegisterEventView::Failed { message: message@ },
            RegisterEvent::CodeReceived { code } => RegisterEventView::CodeReceived { code: code@ },
            RegisterEvent::TokenReceived { token, url } => RegisterEventView::TokenReceived {
                token: token@,
                url: url@,
            },
            RegisterEvent::TokenMissing => RegisterEventView::TokenMissing,
            RegisterEvent::CookiesRead { cookies } => RegisterEventView::CookiesRead {
                cookies: cookies@,
            },
            RegisterEvent::AccountSaved { id, email } => RegisterEventView::AccountSaved {
                id: id@,
                email: email@,
            },
        }
    }
}

impl View for RegisterAction {
    type V = RegisterActionView;

    open spec fn view(&self) -> RegisterActionView {
        match self {
            RegisterAction::OpenMailClient { api_key } => RegisterActionView::OpenMailClient {
                api_key: api_key.deep_view(),
            },
            RegisterAction::StartCallbackServer => RegisterActionView::StartCallbackServer,
            RegisterAction::CloseExistingWindow => RegisterActionView::CloseExistingWindow,
            RegisterAction::OpenWindow { init_script } => RegisterActionView::OpenWindow {
                init_script: init_script@,
            },
            RegisterAction::Sleep { millis } => RegisterActionView::Sleep { millis: *millis },
            RegisterAction::Eval { script } => RegisterActionView::Eval { script: script@ },
            RegisterAction::WaitForCode { email, timeout_secs } => RegisterActionView::WaitForCode {
                email: email@,
                timeout_secs: *timeout_secs,
            },
            RegisterAction::WaitForToken { timeout_secs } => RegisterActionView::WaitForToken {
                timeout_secs: *timeout_secs,
            },
            RegisterAction::FetchRequestCookies { url, timeout_millis } =>
                RegisterActionView::FetchRequestCookies { url: url@, timeout_millis: *timeout_millis },
            RegisterAction::FetchPageCookies => RegisterActionView::FetchPageCookies,
            RegisterAction::CloseWindow => RegisterActionView::CloseWindow,
            RegisterAction::AddAccountByToken { token, cookies, password } =>
                RegisterActionView::AddAccountByToken {
                token: token@,
                cookies: cookies@,
                password: password@,
            },
            RegisterAction::AddAccountByCookies { cookies, password } =>
                RegisterActionView::AddAccountByCookies { cookies: cookies@, password: password@ },
            RegisterAction::UpdateAccountEmail { id, email } => RegisterActionView::UpdateAccountEmail {
                id: id@,
                email: email@,
            },
            RegisterAction::ReloadAccount { id } => RegisterActionView::ReloadAccount { id: id@ },
            RegisterAction::Finish => RegisterActionView::Finish,
            RegisterAction::Fail { message } => RegisterActionView::Fail { message: message@ },
            RegisterAction::Ignore => RegisterActionView::Ignore,
        }
    }
}

/// The rounds run from 1 to 10; send-code is pressed (step 2) in round 5
/// only, sign-up (step 3) from round 5 on.
pub open spec fn rounds_well_placed(stage: Stage) -> bool {
    match stage {
        Stage::EmailRound { round, step } => 1 <= round <= ROUNDS && step <= 2 && (step == 2
            ==> round == SEND_CODE_ROUND),
        Stage::CodeRound { round, step } => 1 <= round <= ROUNDS && step <= 3 && (step == 3
            ==> round >= FIRST_SUBMIT_ROUND),
        _ => true,
    }
}

/// The round position after (`round`, `step`) of filling the e-mail, or
/// `None` after the last.
pub open spec fn email_round_after(round: u8, step: u8) -> Option<(u8, u8)> {
    if step == 0 {
        Some((round, 1u8))
    } else if step == 1 && round == SEND_CODE_ROUND {
        Some((round, 2u8))
    } else if round < ROUNDS {
        Some(((round + 1) as u8, 0u8))
    } else {
        None
    }
}

/// The action at `step` of a round of filling the e-mail.
pub open spec fn email_round_action(email: Seq<char>, step: u8) -> RegisterActionView {
    if step == 0 {
        RegisterActionView::Sleep { millis: ROUND_PAUSE_MILLIS }
    } else if step == 1 {
        RegisterActionView::Eval { script: fill_email_script(email) }
    } else {
        RegisterActionView::Eval { script: CLICK_SEND_CODE@ }
    }
}

/// The round position after (`round`, `step`) of filling the code, or `None`
/// after the last.
pub open spec fn code_round_after(round: u8, step: u8) -> Option<(u8, u8)> {
    if step < 2 {
        Some((round, (step + 1) as u8))
    } else if step == 2 && round >= FIRST_SUBMIT_ROUND {
        Some((round, 3u8))
    } else if round < ROUNDS {
        Some(((round + 1) as u8, 0u8))
    } else {
        None
    }
}

/// The action at `step` of a round of filling the code.
pub open spec fn code_round_action(code: Seq<char>, password: Seq<char>, step: u8) -> RegisterActionView {
    if step == 0 {
        RegisterActionView::Sleep { millis: ROUND_PAUSE_MILLIS }
    } else if step == 1 {
        RegisterActionView::Eval { script: fill_code_script(code) }
    } else if step == 2 {
        RegisterActionView::Eval { script: fill_password_script(password) }
    } else {
        RegisterActionView::Eval { script: CLICK_SUBMIT@ }
    }
}

/// The registration fails with `message`.
pub open spec fn fail_with(s: RegisterFlowView, message: Seq<char>) -> (RegisterFlowView, RegisterActionView) {
    (RegisterFlowView { stage: Stage::Failed, ..s }, RegisterActionView::Fail { message })
}

/// The event is ignored.
pub open spec fn ignored(s: RegisterFlowView) -> (RegisterFlowView, RegisterActionView) {
    (s, RegisterActionView::Ignore)
}

/// One step of the registration: the next state and the action, given an
/// event.
pub open spec fn register_next(s: RegisterFlowView, e: RegisterEventView) -> (RegisterFlowView, RegisterActionView) {
    match s.stage {
        Stage::Idle => match e {
            RegisterEventView::Begin { login_in_progress, settings_api_key } => if login_in_progress {
                fail_with(s, LOGIN_BUSY_MESSAGE@)
            } else {
                (
                    RegisterFlowView { stage: Stage::OpeningMailClient, ..s },
                    RegisterActionView::OpenMailClient {
                        api_key: if settings_api_key.len() == 0 {
                            None
                        } else {
                            Some(settings_api_key)
                        },
                    },
                )
            },
            _ => ignored(s),
        },
        Stage::OpeningMailClient => match e {
            RegisterEventView::MailClientReady { email, password } => (
                RegisterFlowView { stage: Stage::StartingServer, email, password, ..s },
                RegisterActionView::StartCallbackServer,
            ),
            RegisterEventView::Failed { message } => fail_with(s, message),
            _ => ignored(s),
        },
        Stage::StartingServer => match e {
            RegisterEventView::ServerStarted { port } => (
                RegisterFlowView { stage: Stage::ClosingOldWindow, port, ..s },
                RegisterActionView::CloseExistingWindow,
            ),
            _ => ignored(s),
        },
        Stage::ClosingOldWindow => match e {
            RegisterEventView::Done => (
                RegisterFlowView { stage: Stage::OpeningWindow, ..s },
                RegisterActionView::OpenWindow { init_script: interceptor_script(s.port as nat) },
            ),
            _ => ignored(s),
        },
        Stage::OpeningWindow => match e {
            RegisterEventView::Done => (
                RegisterFlowView { stage: Stage::LoadingPage, ..s },
                RegisterActionView::Sleep { millis: SETTLE_MILLIS },
            ),
            RegisterEventView::Failed { message } => fail_with(s, WINDOW_ERROR_HEAD@ + message),
            _ => ignored(s),
        },
        Stage::LoadingPage => match e {
            RegisterEventView::Done => (
                RegisterFlowView { stage: Stage::EmailRound { round: 1, step: 0 }, ..s },
                RegisterActionView::Sleep { millis: ROUND_PAUSE_MILLIS },
            ),
            _ => ignored(s),
        },
        Stage::EmailRound { round, step } => match e {
            RegisterEventView::Done => match email_round_after(round, step) {
                Some((r2, s2)) => (
                    RegisterFlowView { stage: Stage::EmailRound { round: r2, step: s2 }, ..s },
                    email_round_action(s.email, s2),
                ),
                None => (
                    RegisterFlowView { stage: Stage::AwaitingMail, ..s },
                    RegisterActionView::Sleep { millis: SETTLE_MILLIS },
                ),
            },
            _ => ignored(s),
        },
        Stage::AwaitingMail => match e {
            RegisterEventView::Done => (
                RegisterFlowView { stage: Stage::WaitingCode, ..s },
                RegisterActionView::WaitForCode { email: s.email, timeout_secs: CODE_TIMEOUT_SECS },
            ),
            _ => ignored(s),
        },
        Stage::WaitingCode => match e {
            RegisterEventView::CodeReceived { code } => (
                RegisterFlowView { stage: Stage::CodeRound { round: 1, step: 0 }, code, ..s },
                RegisterActionView::Sleep { millis: ROUND_PAUSE_MILLIS },
            ),
            RegisterEventView::Failed { message } => (
                RegisterFlowView { stage: Stage::ClosingAfterFailure, pending_error: message, ..s },
                RegisterActionView::CloseWindow,
            ),
            _ => ignored(s),
        },
        Stage::CodeRound { round, step } => match e {
            RegisterEventView::Done => match code_round_after(round, step) {
                Some((r2, s2)) => (
                    RegisterFlowView { stage: Stage::CodeRound { round: r2, step: s2 }, ..s },
                    code_round_action(s.code, s.password, s2),
                ),
                None => (
                    RegisterFlowView { stage: Stage::AwaitingRegistration, ..s },
                    RegisterActionView::Sleep { millis: SETTLE_MILLIS },
                ),
            },
            _ => ignored(s),
        },
        Stage::AwaitingRegistration => match e {
            RegisterEventView::Done => (
                RegisterFlowView { stage: Stage::WaitingToken, ..s },
                RegisterActionView::WaitForToken { timeout_secs: TOKEN_TIMEOUT_SECS },
            ),
            _ => ignored(s),
        },
        Stage::WaitingToken => match e {
            RegisterEventView::TokenReceived { token, url } => (
                RegisterFlowView { stage: Stage::FetchingCookies, token: Some(token), ..s },
                RegisterActionView::FetchRequestCookies {
                    url,
                    timeout_millis: REQUEST_COOKIES_TIMEOUT_MILLIS,
                },
            ),
            RegisterEventView::TokenMissing => (
                RegisterFlowView { stage: Stage::FetchingCookies, token: None, ..s },
                RegisterActionView::FetchPageCookies,
            ),
            _ => ignored(s),
        },
        Stage::FetchingCookies => match e {
            RegisterEventView::CookiesRead { cookies } => (
                RegisterFlowView { stage: Stage::ClosingWindow, cookies, ..s },
                RegisterActionView::CloseWindow,
            ),
            _ => ignored(s),
        },
        Stage::ClosingWindow => match e {
            RegisterEventView::Done => match s.token {
                Some(token) => (
                    RegisterFlowView { stage: Stage::SavingAccount, ..s },
                    RegisterActionView::AddAccountByToken {
                        token,
                        cookies: s.cookies,
                        password: s.password,
                    },
                ),
                None => if s.cookies.len() == 0 {
                    fail_with(s, NO_CREDENTIALS_MESSAGE@)
                } else {
                    (
                        RegisterFlowView { stage: Stage::SavingAccount, ..s },
                        RegisterActionView::AddAccountByCookies {
                            cookies: s.cookies,
                            password: s.password,
                        },
                    )
                },
            },
            _ => ignored(s),
        },
        Stage::ClosingAfterFailure => match e {
            RegisterEventView::Done => fail_with(s, s.pending_error),
            _ => ignored(s),
        },
        Stage::SavingAccount => match e {
            RegisterEventView::AccountSaved { id, email } => if email_needs_update(email) {
                (
                    RegisterFlowView { stage: Stage::UpdatingEmail, account_id: id, ..s },
                    RegisterActionView::UpdateAccountEmail { id, email: s.email },
                )
            } else {
                (
                    RegisterFlowView { stage: Stage::Finished, account_id: id, ..s },
                    RegisterActionView::Finish,
                )
            },
            RegisterEventView::Failed { message } => fail_with(s, message),
            _ => ignored(s),
        },
        Stage::UpdatingEmail => match e {
            RegisterEventView::Done => (
                RegisterFlowView { stage: Stage::ReloadingAccount, ..s },
                RegisterActionView::ReloadAccount { id: s.account_id },
            ),
            RegisterEventView::Failed { message } => fail_with(s, message),
            _ => ignored(s),
        },
        Stage::ReloadingAccount => match e {
            RegisterEventView::Done => (
                RegisterFlowView { stage: Stage::Finished, ..s },
                RegisterActionView::Finish,
            ),
            RegisterEventView::Failed { message } => fail_with(s, message),
            _ => ignored(s),
        },
        Stage::Finished | Stage::Failed => ignored(s),
    }
}

impl RegisterFlow {
    /// The rounds stay within their bounds.
    #[verifier::type_invariant]
    spec fn rounds_in_bounds(self) -> bool {
        rounds_well_placed(self.stage)
    }

    /// A registration that has not started.
    pub fn new() -> (r: RegisterFlow)
        ensures
            r@ == (RegisterFlowView {
                stage: Stage::Idle,
                email: Seq::empty(),
                password: Seq::empty(),
                port: 0,
                code: Seq::empty(),
                token: None,
                cookies: Seq::empty(),
                account_id: Seq::empty(),
                pending_error: Seq::empty(),
            }),
    {
        RegisterFlow {
            stage: Stage::Idle,
            email: String::new(),
            password: String::new(),
            port: 0,
            code: String::new(),
            token: None,
            cookies: String::new(),
            account_id: String::new(),
            pending_error: String::new(),
        }
    }

    /// Where the registration stands.
    pub fn stage(&self) -> (r: Stage)
        ensures
            r == self@.stage,
            rounds_well_placed(r),
    {
        proof {
            use_type_invariant(self);
        }
        self.stage
    }

    fn fail(&mut self, message: String) -> (r: RegisterAction)
        ensures
            (final(self)@, r@) == fail_with(old(self)@, message@),
    {
        self.stage = Stage::Failed;
        RegisterAction::Fail { message }
    }

    fn email_round_next(&mut self, round: u8, step: u8) -> (r: RegisterAction)
        requires
            old(self)@.stage == (Stage::EmailRound { round, step }),
            1 <= round <= ROUNDS,
            step <= 2,
        ensures
            (final(self)@, r@) == register_next(old(self)@, RegisterEventView::Done),
    {
        let next: Option<(u8, u8)> = if step == 0 {
            Some((round, 1u8))
        } else if step == 1 && round == SEND_CODE_ROUND {
            Some((round, 2u8))
        } else if round < ROUNDS {
            Some((round + 1, 0u8))
        } else {
            None
        };
        match next {
            Some((r2, s2)) => {
                self.stage = Stage::EmailRound { round: r2, step: s2 };
                if s2 == 0 {
                    RegisterAction::Sleep { millis: ROUND_PAUSE_MILLIS }
                } else if s2 == 1 {
                    RegisterAction::Eval { script: email_fill_script(self.email.as_str()) }
                } else {
                    RegisterAction::Eval { script: String::from_str(CLICK_SEND_CODE) }
                }
            },
            None => {
                self.stage = Stage::AwaitingMail;
                RegisterAction::Sleep { millis: SETTLE_MILLIS }
            },
        }
    }

    fn code_round_next(&mut self, round: u8, step: u8) -> (r: RegisterAction)
        requires
            old(self)@.stage == (Stage::CodeRound { round, step }),
            1 <= round <= ROUNDS,
            step <= 3,
        ensures
            (final(self)@, r@) == register_next(old(self)@, RegisterEventView::Done),
    {
        let next: Option<(u8, u8)> = if step < 2 {
            Some((round, step + 1))
        } else if step == 2 && round >= FIRST_SUBMIT_ROUND {
            Some((round, 3u8))
        } else if round < ROUNDS {
            Some((round + 1, 0u8))
        } else {
            None
        };
        match next {
            Some((r2, s2)) => {
                self.stage = Stage::CodeRound { round: r2, step: s2 };
                if s2 == 0 {
                    RegisterAction::Sleep { millis: ROUND_PAUSE_MILLIS }
                } else if s2 == 1 {
                    RegisterAction::Eval { script: code_fill_script(self.code.as_str()) }
                } else if s2 == 2 {
                    RegisterAction::Eval { script: password_fill_script(self.password.as_str()) }
                } else {
                    RegisterAction::Eval { script: String::from_str(CLICK_SUBMIT) }
                }
            },
            None => {
                self.stage = Stage::AwaitingRegistration;
                RegisterAction::Sleep { millis: SETTLE_MILLIS }
            },
        }
    }

    fn save_account(&mut self) -> (r: RegisterAction)
        requires
            old(self)@.stage == Stage::ClosingWindow,
        ensures
            (final(self)@, r@) == register_next(old(self)@, RegisterEventView::Done),
    {
        match &self.token {
            Some(token) => {
                let token = token.clone();
                self.stage = Stage::SavingAccount;
                RegisterAction::AddAccountByToken {
                    token,
                    cookies: self.cookies.clone(),
                    password: self.password.clone(),
                }
            },
            None => {
                if self.cookies.as_str().is_empty() {
                    self.fail(String::from_str(NO_CREDENTIALS_MESSAGE))
                } else {
                    self.stage = Stage::SavingAccount;
                    RegisterAction::AddAccountByCookies {
                        cookies: self.cookies.clone(),
                        password: self.password.clone(),
                    }
                }
            },
        }
    }

    /// Takes one event and says what to do next.
    pub fn step(&mut self, event: RegisterEvent) -> (r: RegisterAction)
        ensures
            (final(self)@, r@) == register_next(old(self)@, event@),
            rounds_well_placed(final(self)@.stage),
    {
        proof {
            use_type_invariant(&*self);
        }
        match self.stage {
            Stage::Idle => match event {
                RegisterEvent::Begin { login_in_progress, settings_api_key } => {
                    if login_in_progress {
                        self.fail(String::from_str(LOGIN_BUSY_MESSAGE))
                    } else {
                        let api_key = if settings_api_key.as_str().is_empty() {
                            None
                        } else {
                            Some(settings_api_key)
                        };
                        self.stage = Stage::OpeningMailClient;
                        RegisterAction::OpenMailClient { api_key }
                    }
                },
                _ => RegisterAction::Ignore,
            },
            Stage::OpeningMailClient => match event {
                RegisterEvent::MailClientReady { email, password } => {
                    self.email = email;
                    self.password = password;
                    self.stage = Stage::StartingServer;
                    RegisterAction::StartCallbackServer
                },
                RegisterEvent::Failed { message } => self.fail(message),
                _ => RegisterAction::Ignore,
            },
            Stage::StartingServer => match event {
                RegisterEvent::ServerStarted { port } => {
                    self.port = port;
                    self.stage = Stage::ClosingOldWindow;
                    RegisterAction::CloseExistingWindow
                },
                _ => RegisterAction::Ignore,
            },
            Stage::ClosingOldWindow => match event {
                RegisterEvent::Done => {
                    self.stage = Stage::OpeningWindow;
                    RegisterAction::OpenWindow { init_script: token_interceptor_script(self.port) }
                },
                _ => RegisterAction::Ignore,
            },
            Stage::OpeningWindow => match event {
                RegisterEvent::Done => {
                    self.stage = Stage::LoadingPage;
                    RegisterAction::Sleep { millis: SETTLE_MILLIS }
                },
                RegisterEvent::Failed { message } => {
                    let mut m = String::from_str(WINDOW_ERROR_HEAD);
                    m.append(message.as_str());
                    self.fail(m)
                },
                _ => RegisterAction::Ignore,
            },
            Stage::LoadingPage => match event {
                RegisterEvent::Done => {
                    self.stage = Stage::EmailRound { round: 1, step: 0 };
                    RegisterAction::Sleep { millis: ROUND_PAUSE_MILLIS }
                },
                _ => RegisterAction::Ignore,
            },
            Stage::EmailRound { round, step } => match event {
                RegisterEvent::Done => self.email_round_next(round, step),
                _ => RegisterAction::Ignore,
            },
            Stage::AwaitingMail => match event {
                RegisterEvent::Done => {
                    self.stage = Stage::WaitingCode;
                    RegisterAction::WaitForCode {
                        email: self.email.clone(),
                        timeout_secs: CODE_TIMEOUT_SECS,
                    }
                },
                _ => RegisterAction::Ignore,
            },
            Stage::WaitingCode => match event {
                RegisterEvent::CodeReceived { code } => {
                    self.code = code;
                    self.stage = Stage::CodeRound { round: 1, step: 0 };
                    RegisterAction::Sleep { millis: ROUND_PAUSE_MILLIS }
                },
                RegisterEvent::Failed { message } => {
                    self.pending_error = message;
                    self.stage = Stage::ClosingAfterFailure;
                    RegisterAction::CloseWindow
                },
                _ => RegisterAction::Ignore,
            },
            Stage::CodeRound { round, step } => match event {
                RegisterEvent::Done => self.code_round_next(round, step),
                _ => RegisterAction::Ignore,
            },
            Stage::AwaitingRegistration => match event {
                RegisterEvent::Done => {
                    self.stage = Stage::WaitingToken;
                    RegisterAction::WaitForToken { timeout_secs: TOKEN_TIMEOUT_SECS }
                },
                _ => RegisterAction::Ignore,
            },
            Stage::WaitingToken => match event {
                RegisterEvent::TokenReceived { token, url } => {
                    self.token = Some(token);
                    self.stage = Stage::FetchingCookies;
                    RegisterAction::FetchRequestCookies {
                        url,
                        timeout_millis: REQUEST_COOKIES_TIMEOUT_MILLIS,
                    }
                },
                RegisterEvent::TokenMissing => {
                    self.token = None;
                    self.stage = Stage::FetchingCookies;
                    RegisterAction::FetchPageCookies
                },
                _ => RegisterAction::Ignore,
            },
            Stage::FetchingCookies => match event {
                RegisterEvent::CookiesRead { cookies } => {
                    self.cookies = cookies;
                    self.stage = Stage::ClosingWindow;
                    RegisterAction::CloseWindow
                },
                _ => RegisterAction::Ignore,
            },
            Stage::ClosingWindow => match event {
                RegisterEvent::Done => self.save_account(),
                _ => RegisterAction::Ignore,
            },
            Stage::ClosingAfterFailure => match event {
                RegisterEvent::Done => {
                    let m = self.pending_error.clone();
                    self.fail(m)
                },
                _ => RegisterAction::Ignore,
            },
            Stage::SavingAccount => match event {
                RegisterEvent::AccountSaved { id, email } => {
                    if needs_email_update(email.as_str()) {
                        let update = RegisterAction::UpdateAccountEmail {
                            id: id.clone(),
                            email: self.email.clone(),
                        };
                        self.account_id = id;
                        self.stage = Stage::UpdatingEmail;
                        update
                    } else {
                        self.account_id = id;
                        self.stage = Stage::Finished;
                        RegisterAction::Finish
                    }
                },
                RegisterEvent::Failed { message } => self.fail(message),
                _ => RegisterAction::Ignore,
            },
            Stage::UpdatingEmail => match event {
                RegisterEvent::Done => {
                    self.stage = Stage::ReloadingAccount;
                    RegisterAction::ReloadAccount { id: self.account_id.clone() }
                },
                RegisterEvent::Failed { message } => self.fail(message),
                _ => RegisterAction::Ignore,
            },
            Stage::ReloadingAccount => match event {
                RegisterEvent::Done => {
                    self.stage = Stage::Finished;
                    RegisterAction::Finish
                },
                RegisterEvent::Failed { message } => self.fail(message),
                _ => RegisterAction::Ignore,
            },
            Stage::Finished | Stage::Failed => RegisterAction::Ignore,
        }
    }
}


/// A finished or failed registration ignores every event; a failure always
/// ends in the failed stage, a finish in the finished stage, and an ignored
/// event changes nothing.
pub proof fn law_outcomes_are_final(s: RegisterFlowView, e: RegisterEventView)
    ensures
        (s.stage == Stage::Finished || s.stage == Stage::Failed) ==> register_next(s, e) == (
            s,
            RegisterActionView::Ignore,
        ),
        register_next(s, e).1 is Fail ==> register_next(s, e).0.stage == Stage::Failed,
        register_next(s, e).1 is Finish ==> register_next(s, e).0.stage == Stage::Finished,
        register_next(s, e).1 is Ignore ==> register_next(s, e).0 == s,
{
}

/// Once the mail client is ready, the generated address and password never
/// change; an account is only ever saved with the generated password, with
/// the token that came (if any), and never from empty cookies alone.
pub proof fn law_credentials(s: RegisterFlowView, e: RegisterEventView)
    ensures
        s.stage != Stage::Idle && s.stage != Stage::OpeningMailClient ==> register_next(s, e).0.email
            == s.email && register_next(s, e).0.password == s.password,
        register_next(s, e).1 matches RegisterActionView::AddAccountByToken { token, cookies, password }
            ==> (password == s.password && s.token == Some(token) && cookies == s.cookies),
        register_next(s, e).1 matches RegisterActionView::AddAccountByCookies { cookies, password }
            ==> (password == s.password && s.token is None && cookies == s.cookies && cookies.len()
            > 0),
{
}

/// The rounds stay well placed: the send-code button is pressed at one point
/// only, step 2 of round 5 of filling the e-mail; the sign-up button only
/// from round 5 on; the window gets the interceptor for the callback's port;
/// every other
/// script of those rounds fills in the generated address, code or password.
pub proof fn law_page_scripts(s: RegisterFlowView, e: RegisterEventView)
    ensures
        rounds_well_placed(s.stage) ==> rounds_well_placed(register_next(s, e).0.stage),
        s.stage is EmailRound && register_next(s, e).0.stage is EmailRound && register_next(
            s,
            e,
        ).1 is Eval ==> (register_next(s, e).1 == (RegisterActionView::Eval {
            script: fill_email_script(s.email),
        }) || (register_next(s, e).1 == (RegisterActionView::Eval { script: CLICK_SEND_CODE@ })
            && register_next(s, e).0.stage == (Stage::EmailRound {
            round: SEND_CODE_ROUND,
            step: 2,
        }))),
        s.stage is CodeRound && register_next(s, e).0.stage is CodeRound && register_next(
            s,
            e,
        ).1 is Eval ==> (register_next(s, e).1 == (RegisterActionView::Eval {
            script: fill_code_script(s.code),
        }) || register_next(s, e).1 == (RegisterActionView::Eval {
            script: fill_password_script(s.password),
        }) || register_next(s, e).1 == (RegisterActionView::Eval { script: CLICK_SUBMIT@ })),
        register_next(s, e).1 matches RegisterActionView::OpenWindow { init_script } ==> init_script
            == interceptor_script(s.port as nat),
{
}

/// When the code does not come, the window is closed first, and then the
/// registration fails with the waiting's own message.
pub proof fn law_code_failure_closes_window(s: RegisterFlowView, message: Seq<char>)
    requires
        s.stage == Stage::WaitingCode,
    ensures
        register_next(s, RegisterEventView::Failed { message }).1 == RegisterActionView::CloseWindow,
        register_next(register_next(s, RegisterEventView::Failed { message }).0, RegisterEventView::Done).1
            == (RegisterActionView::Fail { message }),
{
}

/// A saved account's e-mail is replaced only when it is blank, masked or not
/// an address, and then by the generated address.
pub proof fn law_email_update(s: RegisterFlowView, e: RegisterEventView)
    ensures
        register_next(s, e).1 matches RegisterActionView::UpdateAccountEmail { id, email } ==> (
        email == s.email && (e matches RegisterEventView::AccountSaved { id: saved, email: stored }
            && saved == id && email_needs_update(stored))),
{
}

/// The events that answer an action.
pub open spec fn answers(a: RegisterActionView, e: RegisterEventView) -> bool {
    match a {
        RegisterActionView::OpenMailClient { .. } => e is MailClientReady || e is Failed,
        RegisterActionView::StartCallbackServer => e is ServerStarted,
        RegisterActionView::CloseExistingWindow => e is Done,
        RegisterActionView::OpenWindow { .. } => e is Done || e is Failed,
        RegisterActionView::Sleep { .. } => e is Done,
        RegisterActionView::Eval { .. } => e is Done,
        RegisterActionView::WaitForCode { .. } => e is CodeReceived || e is Failed,
        RegisterActionView::WaitForToken { .. } => e is TokenReceived || e is TokenMissing,
        RegisterActionView::FetchRequestCookies { .. } => e is CookiesRead,
        RegisterActionView::FetchPageCookies => e is CookiesRead,
        RegisterActionView::CloseWindow => e is Done,
        RegisterActionView::AddAccountByToken { .. } => e is AccountSaved || e is Failed,
        RegisterActionView::AddAccountByCookies { .. } => e is AccountSaved || e is Failed,
        RegisterActionView::UpdateAccountEmail { .. } => e is Done || e is Failed,
        RegisterActionView::ReloadAccount { .. } => e is Done || e is Failed,
        _ => false,
    }
}

/// The registration never ignores the event that answers its last action,
/// nor the `Begin` of a registration that has not started.
pub proof fn law_answers_are_taken(s: RegisterFlowView, e: RegisterEventView, answer: RegisterEventView)
    requires
        rounds_well_placed(s.stage),
    ensures
        answers(register_next(s, e).1, answer) ==> !(register_next(register_next(s, e).0, answer).1 is Ignore),
        s.stage == Stage::Idle && answer is Begin ==> !(register_next(s, answer).1 is Ignore),
{
}

/// The stages in which the registration window is open.
pub open spec fn window_open(stage: Stage) -> bool {
    match stage {
        Stage::LoadingPage | Stage::EmailRound { .. } | Stage::AwaitingMail | Stage::WaitingCode
        | Stage::CodeRound { .. } | Stage::AwaitingRegistration | Stage::WaitingToken
        | Stage::FetchingCookies => true,
        _ => false,
    }
}

/// The window opens only when its building is reported done, and once open
/// it stays open until the flow closes it: no failure and no finish comes
/// while it is open.
pub proof fn law_window_closed_before_outcome(s: RegisterFlowView, e: RegisterEventView)
    ensures
        window_open(s.stage) ==> !(register_next(s, e).1 is Fail) && !(register_next(s, e).1 is Finish)
            && (window_open(register_next(s, e).0.stage) || register_next(s, e).1
            == RegisterActionView::CloseWindow),
        !window_open(s.stage) && window_open(register_next(s, e).0.stage) ==> s.stage
            == Stage::OpeningWindow && e == RegisterEventView::Done,
{
}

/// The code is awaited for the address that was filled into the sign-up
/// form: the generated one.
pub proof fn law_code_awaited_for_filled_address(s: RegisterFlowView, e: RegisterEventView)
    ensures
        register_next(s, e).1 matches RegisterActionView::WaitForCode { email, timeout_secs } ==> (
        email == s.email && timeout_secs == CODE_TIMEOUT_SECS),
        register_next(s, e).1 matches RegisterActionView::Eval { script } ==> (s.stage is EmailRound
            && script != CLICK_SEND_CODE@ ==> script == fill_email_script(s.email)),
{
}

/// The start: a running browser login fails the registration at once with
/// its message; otherwise the mail client is opened with the settings' key,
/// or with none when that key is empty; once it is ready, its address and
/// password are kept and the callback server is started; the reported port
/// is kept and goes into the window's interceptor script.
pub proof fn law_start(s: RegisterFlowView, key: Seq<char>, email: Seq<char>, password: Seq<char>, port: u16)
    ensures
        s.stage == Stage::Idle ==> register_next(
            s,
            RegisterEventView::Begin { login_in_progress: true, settings_api_key: key },
        ).1 == (RegisterActionView::Fail { message: LOGIN_BUSY_MESSAGE@ }),
        s.stage == Stage::Idle ==> register_next(
            s,
            RegisterEventView::Begin { login_in_progress: false, settings_api_key: key },
        ).1 == (RegisterActionView::OpenMailClient {
            api_key: if key.len() == 0 { None } else { Some(key) },
        }),
        s.stage == Stage::OpeningMailClient ==> ({
            let (n, a) = register_next(s, RegisterEventView::MailClientReady { email, password });
            &&& a == RegisterActionView::StartCallbackServer
            &&& n.email == email && n.password == password && n.stage == Stage::StartingServer
        }),
        s.stage == Stage::StartingServer ==> ({
            let (n, a) = register_next(s, RegisterEventView::ServerStarted { port });
            &&& a == RegisterActionView::CloseExistingWindow
            &&& register_next(n, RegisterEventView::Done).1 == (RegisterActionView::OpenWindow {
                init_script: interceptor_script(port as nat),
            })
        }),
        s.stage == Stage::OpeningWindow ==> register_next(s, RegisterEventView::Done).1
            == (RegisterActionView::Sleep { millis: 5000 }) && register_next(
            s,
            RegisterEventView::Failed { message: key },
        ).1 == (RegisterActionView::Fail { message: WINDOW_ERROR_HEAD@ + key }),
{
}

/// The rounds of filling the e-mail: each round pauses 500 ms and fills the
/// generated address; round 5 then presses send-code; after round 10 the
/// flow pauses 5 s and waits 60 s for the code sent to that same address.
pub proof fn law_email_rounds(s: RegisterFlowView, round: u8)
    requires
        1 <= round <= 10,
    ensures
        s.stage == Stage::LoadingPage ==> register_next(s, RegisterEventView::Done) == (
            RegisterFlowView { stage: Stage::EmailRound { round: 1, step: 0 }, ..s },
            RegisterActionView::Sleep { millis: 500 },
        ),
        s.stage == (Stage::EmailRound { round, step: 0 }) ==> register_next(s, RegisterEventView::Done)
            == (
            RegisterFlowView { stage: Stage::EmailRound { round, step: 1 }, ..s },
            RegisterActionView::Eval { script: fill_email_script(s.email) },
        ),
        s.stage == (Stage::EmailRound { round: 5, step: 1 }) ==> register_next(
            s,
            RegisterEventView::Done,
        ) == (
            RegisterFlowView { stage: Stage::EmailRound { round: 5, step: 2 }, ..s },
            RegisterActionView::Eval { script: CLICK_SEND_CODE@ },
        ),
        ((s.stage == (Stage::EmailRound { round, step: 1 }) && round != 5) || s.stage == (
        Stage::EmailRound { round, step: 2 })) && round < 10 ==> register_next(
            s,
            RegisterEventView::Done,
        ) == (
            RegisterFlowView { stage: Stage::EmailRound { round: (round + 1) as u8, step: 0 }, ..s },
            RegisterActionView::Sleep { millis: 500 },
        ),
        s.stage == (Stage::EmailRound { round: 10, step: 1 }) ==> register_next(
            s,
            RegisterEventView::Done,
        ) == (
            RegisterFlowView { stage: Stage::AwaitingMail, ..s },
            RegisterActionView::Sleep { millis: 5000 },
        ),
        s.stage == Stage::AwaitingMail ==> register_next(s, RegisterEventView::Done).1 == (
        RegisterActionView::WaitForCode { email: s.email, timeout_secs: 60 }),
{
}

/// The code that arrives is the code filled in: it is kept as received,
/// and the first round pauses 500 ms, fills exactly that code, then the
/// generated password.
pub proof fn law_received_code_is_filled(s: RegisterFlowView, code: Seq<char>)
    requires
        s.stage == Stage::WaitingCode,
    ensures
        ({
            let (s1, a1) = register_next(s, RegisterEventView::CodeReceived { code });
            let (s2, a2) = register_next(s1, RegisterEventView::Done);
            let (s3, a3) = register_next(s2, RegisterEventView::Done);
            &&& s1.code == code && s1.stage == (Stage::CodeRound { round: 1, step: 0 })
            &&& a1 == RegisterActionView::Sleep { millis: 500 }
            &&& a2 == RegisterActionView::Eval { script: fill_code_script(code) }
            &&& a3 == RegisterActionView::Eval { script: fill_password_script(s.password) }
        }),
{
}

/// The rounds of filling the code: each round pauses 500 ms, fills the kept
/// code, then the password; from round 5 on it then presses sign-up; after
/// round 10 the flow pauses 5 s and waits 30 s for the token. The kept code
/// never changes during the rounds.
pub proof fn law_code_rounds(s: RegisterFlowView, round: u8, e: RegisterEventView)
    requires
        1 <= round <= 10,
    ensures
        s.stage is CodeRound ==> register_next(s, e).0.code == s.code,
        s.stage == (Stage::CodeRound { round, step: 0 }) ==> register_next(s, RegisterEventView::Done)
            == (
            RegisterFlowView { stage: Stage::CodeRound { round, step: 1 }, ..s },
            RegisterActionView::Eval { script: fill_code_script(s.code) },
        ),
        s.stage == (Stage::CodeRound { round, step: 1 }) ==> register_next(s, RegisterEventView::Done)
            == (
            RegisterFlowView { stage: Stage::CodeRound { round, step: 2 }, ..s },
            RegisterActionView::Eval { script: fill_password_script(s.password) },
        ),
        s.stage == (Stage::CodeRound { round, step: 2 }) && round >= 5 ==> register_next(
            s,
            RegisterEventView::Done,
        ) == (
            RegisterFlowView { stage: Stage::CodeRound { round, step: 3 }, ..s },
            RegisterActionView::Eval { script: CLICK_SUBMIT@ },
        ),
        ((s.stage == (Stage::CodeRound { round, step: 2 }) && round < 5) || s.stage == (
        Stage::CodeRound { round, step: 3 })) && round < 10 ==> register_next(
            s,
            RegisterEventView::Done,
        ) == (
            RegisterFlowView { stage: Stage::CodeRound { round: (round + 1) as u8, step: 0 }, ..s },
            RegisterActionView::Sleep { millis: 500 },
        ),
        s.stage == (Stage::CodeRound { round: 10, step: 3 }) ==> register_next(
            s,
            RegisterEventView::Done,
        ) == (
            RegisterFlowView { stage: Stage::AwaitingRegistration, ..s },
            RegisterActionView::Sleep { millis: 5000 },
        ),
        s.stage == Stage::AwaitingRegistration ==> register_next(s, RegisterEventView::Done).1
            == (RegisterActionView::WaitForToken { timeout_secs: 30 }),
{
}

/// Token and cookies: a token that came is kept and the cookies of its
/// request are read for up to 6 s; without a token the page's cookies are
/// read; the cookies read are kept and the window is closed; then the
/// account is saved by the token when there is one, else by non-empty
/// cookies, and without either the registration fails.
pub proof fn law_token_and_cookies(
    s: RegisterFlowView,
    token: Seq<char>,
    url: Seq<char>,
    cookies: Seq<char>,
)
    ensures
        s.stage == Stage::WaitingToken ==> register_next(
            s,
            RegisterEventView::TokenReceived { token, url },
        ) == (
            RegisterFlowView { stage: Stage::FetchingCookies, token: Some(token), ..s },
            RegisterActionView::FetchRequestCookies { url, timeout_millis: 6000 },
        ),
        s.stage == Stage::WaitingToken ==> register_next(s, RegisterEventView::TokenMissing) == (
            RegisterFlowView { stage: Stage::FetchingCookies, token: None, ..s },
            RegisterActionView::FetchPageCookies,
        ),
        s.stage == Stage::FetchingCookies ==> register_next(s, RegisterEventView::CookiesRead { cookies })
            == (
            RegisterFlowView { stage: Stage::ClosingWindow, cookies, ..s },
            RegisterActionView::CloseWindow,
        ),
        s.stage == Stage::ClosingWindow && s.token == Some(token) ==> register_next(
            s,
            RegisterEventView::Done,
        ).1 == (RegisterActionView::AddAccountByToken {
            token,
            cookies: s.cookies,
            password: s.password,
        }),
        s.stage == Stage::ClosingWindow && s.token is None && s.cookies.len() > 0 ==> register_next(
            s,
            RegisterEventView::Done,
        ).1 == (RegisterActionView::AddAccountByCookies { cookies: s.cookies, password: s.password }),
        s.stage == Stage::ClosingWindow && s.token is None && s.cookies.len() == 0 ==> register_next(
            s,
            RegisterEventView::Done,
        ).1 == (RegisterActionView::Fail { message: NO_CREDENTIALS_MESSAGE@ }),
{
}

/// After saving: an account stored with a blank e-mail (only whitespace),
/// one holding `*`, or one without `@` has its e-mail replaced by the
/// generated address and is then reloaded; any other account finishes the
/// registration as saved.
pub proof fn law_saved_account_email(s: RegisterFlowView, id: Seq<char>, stored: Seq<char>)
    requires
        s.stage == Stage::SavingAccount,
    ensures
        ({
            let (n, a) = register_next(s, RegisterEventView::AccountSaved { id, email: stored });
            let replace = (forall|i: int| 0 <= i < stored.len() ==> is_white_space(#[trigger] stored[i]))
                || stored.contains('*') || !stored.contains('@');
            &&& replace ==> a == (RegisterActionView::UpdateAccountEmail { id, email: s.email })
                && n.stage == Stage::UpdatingEmail && n.account_id == id
                && register_next(n, RegisterEventView::Done).1 == (RegisterActionView::ReloadAccount { id })
            &&& !replace ==> a == RegisterActionView::Finish && n.stage == Stage::Finished
        }),
{
}

} // verus!
