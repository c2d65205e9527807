use trae_register::flow::{RegisterAction, RegisterEvent, RegisterFlow, Stage};
use trae_register::register::{needs_email_update, CallbackGate};
use trae_register::scripts::{
    code_fill_script, email_fill_script, password_fill_script, token_interceptor_script,
    CLICK_SEND_CODE, CLICK_SUBMIT,
};

fn s(x: &str) -> String {
    x.to_string()
}

fn sleep(ms: u64) -> RegisterAction {
    RegisterAction::Sleep { millis: ms }
}

fn eval(script: String) -> RegisterAction {
    RegisterAction::Eval { script }
}

/// Runs the flow up to the point where it waits for the code.
fn until_code_wait(f: &mut RegisterFlow, email: &str, password: &str) -> Vec<RegisterAction> {
    let mut seen = Vec::new();
    assert_eq!(
        f.step(RegisterEvent::Begin { login_in_progress: false, settings_api_key: s("") }),
        RegisterAction::OpenMailClient { api_key: None }
    );
    assert_eq!(
        f.step(RegisterEvent::MailClientReady { email: s(email), password: s(password) }),
        RegisterAction::StartCallbackServer
    );
    assert_eq!(f.step(RegisterEvent::ServerStarted { port: 41234 }), RegisterAction::CloseExistingWindow);
    assert_eq!(
        f.step(RegisterEvent::Done),
        RegisterAction::OpenWindow { init_script: token_interceptor_script(41234) }
    );
    assert_eq!(f.step(RegisterEvent::Done), sleep(5000));
    loop {
        let a = f.step(RegisterEvent::Done);
        if a == (RegisterAction::WaitForCode { email: s(email), timeout_secs: 60 }) {
            return seen;
        }
        assert!(!matches!(a, RegisterAction::WaitForCode { .. } | RegisterAction::Ignore), "{:?}", a);
        seen.push(a);
    }
}

/// Runs the code rounds, from the code's arrival to the wait for the token.
fn until_token_wait(f: &mut RegisterFlow, code: &str) -> Vec<RegisterAction> {
    let mut seen = vec![f.step(RegisterEvent::CodeReceived { code: s(code) })];
    loop {
        let a = f.step(RegisterEvent::Done);
        if a == (RegisterAction::WaitForToken { timeout_secs: 30 }) {
            return seen;
        }
        assert_ne!(a, RegisterAction::Ignore);
        seen.push(a);
    }
}

#[test]
fn email_rounds_fill_ten_times_and_send_once() {
    let mut f = RegisterFlow::new();
    let seen = until_code_wait(&mut f, "ab\"c@hhxyyq.online", "Aabcdef!012345");
    let mut expected = Vec::new();
    for round in 1..=10 {
        expected.push(sleep(500));
        expected.push(eval(email_fill_script("ab\"c@hhxyyq.online")));
        if round == 5 {
            expected.push(eval(s(CLICK_SEND_CODE)));
        }
    }
    expected.push(sleep(5000));
    assert_eq!(seen, expected);
    assert_eq!(f.stage(), Stage::WaitingCode);
}

#[test]
fn code_rounds_fill_ten_times_and_submit_from_round_five() {
    let mut f = RegisterFlow::new();
    until_code_wait(&mut f, "e@hhxyyq.online", "Apw");
    let seen = until_token_wait(&mut f, "123456");
    let mut expected = Vec::new();
    for round in 1..=10 {
        expected.push(sleep(500));
        expected.push(eval(code_fill_script("123456")));
        expected.push(eval(password_fill_script("Apw")));
        if round >= 5 {
            expected.push(eval(s(CLICK_SUBMIT)));
        }
    }
    expected.push(sleep(5000));
    assert_eq!(seen, expected);
    assert_eq!(seen.iter().filter(|a| **a == eval(s(CLICK_SUBMIT))).count(), 6);
}

#[test]
fn token_path_saves_by_token_and_fixes_masked_email() {
    let mut f = RegisterFlow::new();
    until_code_wait(&mut f, "e@hhxyyq.online", "Apw");
    until_token_wait(&mut f, "123456");
    assert_eq!(
        f.step(RegisterEvent::TokenReceived { token: s("tok"), url: s("https://www.trae.ai/t?x") }),
        RegisterAction::FetchRequestCookies { url: s("https://www.trae.ai/t?x"), timeout_millis: 6000 }
    );
    assert_eq!(f.step(RegisterEvent::CookiesRead { cookies: s("") }), RegisterAction::CloseWindow);
    assert_eq!(
        f.step(RegisterEvent::Done),
        RegisterAction::AddAccountByToken { token: s("tok"), cookies: s(""), password: s("Apw") }
    );
    assert_eq!(
        f.step(RegisterEvent::AccountSaved { id: s("id1"), email: s("e***@x.com") }),
        RegisterAction::UpdateAccountEmail { id: s("id1"), email: s("e@hhxyyq.online") }
    );
    assert_eq!(f.step(RegisterEvent::Done), RegisterAction::ReloadAccount { id: s("id1") });
    assert_eq!(f.step(RegisterEvent::Done), RegisterAction::Finish);
    assert_eq!(f.stage(), Stage::Finished);
    assert_eq!(f.step(RegisterEvent::Done), RegisterAction::Ignore);
    assert_eq!(f.stage(), Stage::Finished);
}

#[test]
fn cookie_path_saves_by_cookies_and_keeps_good_email() {
    let mut f = RegisterFlow::new();
    until_code_wait(&mut f, "e@hhxyyq.online", "Apw");
    until_token_wait(&mut f, "123456");
    assert_eq!(f.step(RegisterEvent::TokenMissing), RegisterAction::FetchPageCookies);
    assert_eq!(f.step(RegisterEvent::CookiesRead { cookies: s("a=1") }), RegisterAction::CloseWindow);
    assert_eq!(
        f.step(RegisterEvent::Done),
        RegisterAction::AddAccountByCookies { cookies: s("a=1"), password: s("Apw") }
    );
    assert_eq!(
        f.step(RegisterEvent::AccountSaved { id: s("id2"), email: s("me@x.com") }),
        RegisterAction::Finish
    );
}

#[test]
fn no_token_and_no_cookies_fails() {
    let mut f = RegisterFlow::new();
    until_code_wait(&mut f, "e@hhxyyq.online", "Apw");
    until_token_wait(&mut f, "123456");
    assert_eq!(f.step(RegisterEvent::TokenMissing), RegisterAction::FetchPageCookies);
    assert_eq!(f.step(RegisterEvent::CookiesRead { cookies: s("") }), RegisterAction::CloseWindow);
    assert_eq!(
        f.step(RegisterEvent::Done),
        RegisterAction::Fail { message: s("未能获取 Token 或 Cookies") }
    );
    assert_eq!(f.stage(), Stage::Failed);
}

#[test]
fn busy_login_fails_at_once() {
    let mut f = RegisterFlow::new();
    assert_eq!(
        f.step(RegisterEvent::Begin { login_in_progress: true, settings_api_key: s("k") }),
        RegisterAction::Fail { message: s("浏览器登录正在进行中，请稍后再试") }
    );
    assert_eq!(f.step(RegisterEvent::Done), RegisterAction::Ignore);
}

#[test]
fn settings_key_goes_to_the_mail_client() {
    let mut f = RegisterFlow::new();
    assert_eq!(
        f.step(RegisterEvent::Begin { login_in_progress: false, settings_api_key: s("key") }),
        RegisterAction::OpenMailClient { api_key: Some(s("key")) }
    );
}

#[test]
fn mail_client_failure_fails() {
    let mut f = RegisterFlow::new();
    f.step(RegisterEvent::Begin { login_in_progress: false, settings_api_key: s("") });
    assert_eq!(
        f.step(RegisterEvent::Failed { message: s("tls") }),
        RegisterAction::Fail { message: s("tls") }
    );
}

#[test]
fn window_failure_fails_with_prefix() {
    let mut f = RegisterFlow::new();
    f.step(RegisterEvent::Begin { login_in_progress: false, settings_api_key: s("") });
    f.step(RegisterEvent::MailClientReady { email: s("e"), password: s("p") });
    f.step(RegisterEvent::ServerStarted { port: 1 });
    f.step(RegisterEvent::Done);
    assert_eq!(
        f.step(RegisterEvent::Failed { message: s("boom") }),
        RegisterAction::Fail { message: s("无法打开注册窗口: boom") }
    );
}

#[test]
fn code_failure_closes_window_then_fails() {
    let mut f = RegisterFlow::new();
    until_code_wait(&mut f, "e@hhxyyq.online", "Apw");
    assert_eq!(f.step(RegisterEvent::Failed { message: s("timeout") }), RegisterAction::CloseWindow);
    assert_eq!(f.step(RegisterEvent::Done), RegisterAction::Fail { message: s("timeout") });
    assert_eq!(f.stage(), Stage::Failed);
}

#[test]
fn saving_failure_fails() {
    let mut f = RegisterFlow::new();
    until_code_wait(&mut f, "e@hhxyyq.online", "Apw");
    until_token_wait(&mut f, "123456");
    f.step(RegisterEvent::TokenMissing);
    f.step(RegisterEvent::CookiesRead { cookies: s("a=1") });
    f.step(RegisterEvent::Done);
    assert_eq!(
        f.step(RegisterEvent::Failed { message: s("db") }),
        RegisterAction::Fail { message: s("db") }
    );
}

#[test]
fn events_out_of_turn_are_ignored() {
    let mut f = RegisterFlow::new();
    assert_eq!(f.step(RegisterEvent::Done), RegisterAction::Ignore);
    assert_eq!(f.stage(), Stage::Idle);
    f.step(RegisterEvent::Begin { login_in_progress: false, settings_api_key: s("") });
    assert_eq!(f.step(RegisterEvent::TokenMissing), RegisterAction::Ignore);
    assert_eq!(f.stage(), Stage::OpeningMailClient);
}

#[test]
fn interceptor_script_calls_back_on_the_port() {
    let script = token_interceptor_script(41234);
    assert!(script.contains("var callbackUrl = 'http://127.0.0.1:41234/callback';"));
    assert!(script.starts_with("\n        (function() {\n"));
    assert!(script.contains("catch (e) {}"));
    assert!(!script.contains("{{"));
}

#[test]
fn fill_scripts_embed_escaped_values() {
    assert!(email_fill_script("a\"b@c").contains("input.value = \"a\\\"b@c\";"));
    assert!(code_fill_script("123456").contains("input.value = \"123456\";"));
    assert!(code_fill_script("123456").contains("input[maxlength=\"6\"]"));
    assert!(password_fill_script("A1!").contains("input[type=\"password\"]"));
    assert!(password_fill_script("A1!").contains("input.value = \"A1!\";"));
}

#[test]
fn email_update_rule() {
    assert!(needs_email_update(""));
    assert!(needs_email_update("  \t"));
    assert!(needs_email_update("ab***@x.com"));
    assert!(needs_email_update("nobody"));
    assert!(!needs_email_update("me@x.com"));
    assert!(!needs_email_update(" me@x.com "));
}

#[test]
fn callback_hands_on_the_first_token_only() {
    let mut g = CallbackGate::new();
    let r = g.handle(None, Some(s("u")));
    assert_eq!(r.delivery, None);
    assert_eq!(r.html, "未收到 Token");
    let r = g.handle(Some(s("")), None);
    assert_eq!(r.delivery, None);
    assert_eq!(r.html, "未收到 Token");
    let r = g.handle(Some(s("tok")), Some(s("https://x/y")));
    assert_eq!(r.delivery, Some((s("tok"), s("https://x/y"))));
    assert_eq!(r.html, "已收到 Token，注册成功。");
    let r = g.handle(Some(s("tok2")), None);
    assert_eq!(r.delivery, None);
    assert_eq!(r.html, "已收到 Token，注册成功。");
    assert!(g.delivered);
}

#[test]
fn callback_without_url_hands_on_empty_url() {
    let mut g = CallbackGate::new();
    let r = g.handle(Some(s("tok")), None);
    assert_eq!(r.delivery, Some((s("tok"), s(""))));
}
