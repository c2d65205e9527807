use trae_register::code_wait::{
    code_timeout_message, CodeCheck, CodeWait, WaitAction, WaitEvent, WaitPhase,
};
use trae_register::cookies::{
    join_cookies, normalize_request_url, CookieAction, CookieEvent, CookieWait,
};

const SEC: u128 = 1_000_000_000;

fn pairs(v: &[(&str, &str)]) -> Vec<(String, String)> {
    v.iter().map(|(a, b)| (a.to_string(), b.to_string())).collect()
}

#[test]
fn timeout_message_names_the_seconds() {
    assert_eq!(
        code_timeout_message(60),
        "等待验证码超时 (60 秒)\n\n可能原因:\n1. 邮件发送延迟\n2. 邮箱服务不可用\n3. 注册页未发送验证码\n4. 验证码已过期（超过1分钟）"
    );
}

#[test]
fn code_wait_checks_until_a_code_comes() {
    let mut w = CodeWait::new("ab@hhxyyq.online".to_string(), 60 * SEC, 60);
    assert_eq!(w.step(WaitEvent::Tick { elapsed_nanos: 0 }), WaitAction::CheckMail { attempt: 1, email: "ab@hhxyyq.online".to_string() });
    assert_eq!(w.step(WaitEvent::Checked(CodeCheck::Empty)), WaitAction::Sleep { millis: 2000 });
    assert_eq!(w.step(WaitEvent::Tick { elapsed_nanos: 2 * SEC }), WaitAction::CheckMail { attempt: 2, email: "ab@hhxyyq.online".to_string() });
    assert_eq!(w.step(WaitEvent::Checked(CodeCheck::Error)), WaitAction::Sleep { millis: 2000 });
    assert_eq!(w.step(WaitEvent::Tick { elapsed_nanos: 4 * SEC }), WaitAction::CheckMail { attempt: 3, email: "ab@hhxyyq.online".to_string() });
    assert_eq!(
        w.step(WaitEvent::Checked(CodeCheck::Found("123456".to_string()))),
        WaitAction::Deliver("123456".to_string())
    );
    assert_eq!(w.checks, 3);
    assert_eq!(w.phase, WaitPhase::Done);
    assert_eq!(w.step(WaitEvent::Tick { elapsed_nanos: 5 * SEC }), WaitAction::Ignore);
    assert_eq!(w.checks, 3);
}

#[test]
fn code_wait_gives_up_at_the_deadline() {
    let mut w = CodeWait::new("ab@hhxyyq.online".to_string(), 60 * SEC, 60);
    assert_eq!(w.step(WaitEvent::Tick { elapsed_nanos: 60 * SEC - 1 }), WaitAction::CheckMail { attempt: 1, email: "ab@hhxyyq.online".to_string() });
    assert_eq!(w.step(WaitEvent::Checked(CodeCheck::Empty)), WaitAction::Sleep { millis: 2000 });
    assert_eq!(
        w.step(WaitEvent::Tick { elapsed_nanos: 60 * SEC }),
        WaitAction::GiveUp(code_timeout_message(60))
    );
    assert_eq!(w.step(WaitEvent::Checked(CodeCheck::Found("1".to_string()))), WaitAction::Ignore);
}

#[test]
fn code_wait_with_zero_timeout_never_checks() {
    let mut w = CodeWait::new("ab@hhxyyq.online".to_string(), 0, 0);
    assert_eq!(w.step(WaitEvent::Tick { elapsed_nanos: 0 }), WaitAction::GiveUp(code_timeout_message(0)));
    assert_eq!(w.checks, 0);
}

#[test]
fn code_wait_ignores_events_out_of_turn() {
    let mut w = CodeWait::new("ab@hhxyyq.online".to_string(), 60 * SEC, 60);
    assert_eq!(w.step(WaitEvent::Checked(CodeCheck::Empty)), WaitAction::Ignore);
    assert_eq!(w.step(WaitEvent::Tick { elapsed_nanos: 0 }), WaitAction::CheckMail { attempt: 1, email: "ab@hhxyyq.online".to_string() });
    assert_eq!(w.step(WaitEvent::Tick { elapsed_nanos: 0 }), WaitAction::Ignore);
    assert_eq!(w.checks, 1);
}

#[test]
fn cookies_join_into_header_text() {
    assert_eq!(join_cookies(&pairs(&[])), "");
    assert_eq!(join_cookies(&pairs(&[("a", "1")])), "a=1");
    assert_eq!(join_cookies(&pairs(&[("a", "1"), ("b", "2"), ("c", "")])), "a=1; b=2; c=");
    assert_eq!(join_cookies(&pairs(&[("", "")])), "=");
}

#[test]
fn request_url_loses_its_query_and_resolves() {
    assert_eq!(
        normalize_request_url("https://www.trae.ai/api/GetUserToken?x=1&y=2"),
        Some("https://www.trae.ai/api/GetUserToken".to_string())
    );
    assert_eq!(
        normalize_request_url("/cloudide/api/v3/trae/GetUserToken?a"),
        Some("https://www.trae.ai/cloudide/api/v3/trae/GetUserToken".to_string())
    );
    assert_eq!(
        normalize_request_url("https://api.example.com/user"),
        Some("https://api.example.com/user".to_string())
    );
    assert_eq!(normalize_request_url(""), Some("https://www.trae.ai/".to_string()));
    assert_eq!(normalize_request_url("http://[::1"), None);
}

#[test]
fn cookie_wait_refuses_bad_urls() {
    match CookieWait::start("http://[::1?x", 6 * SEC) {
        Err(m) => assert_eq!(m, "URL 无效: http://[::1?x"),
        Ok(_) => panic!("accepted a bad URL"),
    }
}

#[test]
fn cookie_wait_delivers_the_first_non_empty_cookies() {
    let mut w = match CookieWait::start("https://www.trae.ai/api/token?x=1", 6 * SEC) {
        Ok(w) => w,
        Err(m) => panic!("{}", m),
    };
    let url = "https://www.trae.ai/api/token".to_string();
    assert_eq!(w.step(CookieEvent::Tick { elapsed_nanos: 0 }), CookieAction::Fetch { url: url.clone() });
    assert_eq!(w.step(CookieEvent::Cookies(Some(vec![]))), CookieAction::Sleep { millis: 300 });
    assert_eq!(w.step(CookieEvent::Tick { elapsed_nanos: SEC }), CookieAction::Fetch { url: url.clone() });
    assert_eq!(w.step(CookieEvent::Cookies(None)), CookieAction::Sleep { millis: 300 });
    assert_eq!(w.step(CookieEvent::Tick { elapsed_nanos: 2 * SEC }), CookieAction::Fetch { url });
    assert_eq!(
        w.step(CookieEvent::Cookies(Some(pairs(&[("sid", "x"), ("lang", "en")])))),
        CookieAction::Deliver("sid=x; lang=en".to_string())
    );
    assert_eq!(w.step(CookieEvent::Tick { elapsed_nanos: 3 * SEC }), CookieAction::Ignore);
}

#[test]
fn cookie_wait_gives_up_at_the_deadline() {
    let mut w = match CookieWait::start("/x", 6 * SEC) {
        Ok(w) => w,
        Err(m) => panic!("{}", m),
    };
    assert_eq!(
        w.step(CookieEvent::Tick { elapsed_nanos: 6 * SEC }),
        CookieAction::GiveUp("未能获取 Cookie".to_string())
    );
    assert_eq!(w.step(CookieEvent::Cookies(Some(pairs(&[("a", "1")])))), CookieAction::Ignore);
}
