//! The scripts run in the registration page: the token interceptor installed
//! when the page is created, and the scripts that fill and press its fields.

use vstd::prelude::*;
use vstd::string::*;
use crate::text::{decimal, escape_quotes, escape_double_quotes, push_decimal};

verus! {

/// The page script that forwards a token to the local callback: the part
/// before the callback port.
pub const INIT_SCRIPT_HEAD: &'static str = r#"
        (function() {
            if (window.__tokenInterceptorInstalled) return;
            window.__tokenInterceptorInstalled = true;
            
            var callbackUrl = 'http://127.0.0.1:"#;

/// The page script that forwards a token: the part after the callback port.
pub const INIT_SCRIPT_TAIL: &'static str = r#"/callback';
            
            var sendToken = function(token, url) {
                if (!token) return;
                var fullUrl = callbackUrl + '?token=' + encodeURIComponent(token) + '&url=' + encodeURIComponent(url);
                if (navigator.sendBeacon) {
                    navigator.sendBeacon(fullUrl);
                } else {
                    fetch(fullUrl, { mode: 'no-cors' });
                }
            };
            
            var parseToken = function(data) {
                if (!data) return null;
                return data.result?.token || data.result?.Token || data.data?.token || data.data?.Token || data.token || data.Token || null;
            };
            
            // 拦截所有请求并记录
            var originalFetch = window.fetch;
            window.fetch = async function() {
                var url = arguments[0];
                var urlStr = typeof url === 'string' ? url : (url.url || '');
                
                var response = await originalFetch.apply(this, arguments);
                
                // 检查是否包含 token 或 user 相关接口
                if (urlStr.includes('GetUserToken') || urlStr.includes('token') || urlStr.includes('user')) {
                    try {
                        var cloned = response.clone();
                        var data = await cloned.json();
                        var token = parseToken(data);
                        if (token) {
                            sendToken(token, urlStr);
                        }
                    } catch (e) {}
                }
                return response;
            };
            
            // 拦截 XHR
            var originalOpen = XMLHttpRequest.prototype.open;
            var originalSend = XMLHttpRequest.prototype.send;
            XMLHttpRequest.prototype.open = function(method, url) {
                this._url = url;
                return originalOpen.apply(this, arguments);
            };
            XMLHttpRequest.prototype.send = function() {
                var xhr = this;
                var url = this._url || '';
                if (url.includes('GetUserToken') || url.includes('token') || url.includes('user')) {
                    this.addEventListener('load', function() {
                        try {
                            var data = JSON.parse(xhr.responseText);
                            var token = parseToken(data);
                            if (token) {
                                sendToken(token, url);
                            }
                        } catch (e) {}
                    });
                }
                return originalSend.apply(this, arguments);
            };
        })();
        "#;

/// The script that fills the e-mail field: the part before the address.
pub const FILL_EMAIL_HEAD: &'static str = r#"(function() {
                var input = document.querySelector('input[type="email"]') || document.querySelector('input[name="email"]');
                if (input && !input.value) {
                    input.value = ""#;

/// The script that fills the e-mail field: the part after the address.
pub const FILL_EMAIL_TAIL: &'static str = r#"";
                    input.dispatchEvent(new Event('input', { bubbles: true }));
                    input.dispatchEvent(new Event('change', { bubbles: true }));
                }
            })()"#;

/// The script that presses the page's send-code button.
pub const CLICK_SEND_CODE: &'static str = r#"
                (function() {
                    var btn = document.querySelector('.right-part.send-code') || document.querySelector('.send-code');
                    if (btn) {
                        btn.click();
                    }
                })()
            "#;

/// The script that fills the code field: the part before the code.
pub const FILL_CODE_HEAD: &'static str = r#"(function() {
                var input = document.querySelector('input[placeholder*="Verification"]') || document.querySelector('input[maxlength="6"]');
                if (input) {
                    input.value = ""#;

/// The script that fills the code field: the part after the code.
pub const FILL_CODE_TAIL: &'static str = r#"";
                    input.dispatchEvent(new Event('input', { bubbles: true }));
                    input.dispatchEvent(new Event('change', { bubbles: true }));
                }
            })()"#;

/// The script that fills the password field: the part before the password.
pub const FILL_PASSWORD_HEAD: &'static str = r#"(function() {
                var input = document.querySelector('input[type="password"]');
                if (input) {
                    input.value = ""#;

/// The script that fills the password field: the part after the password.
pub const FILL_PASSWORD_TAIL: &'static str = r#"";
                    input.dispatchEvent(new Event('input', { bubbles: true }));
                    input.dispatchEvent(new Event('change', { bubbles: true }));
                }
            })()"#;

/// The script that presses the page's sign-up button.
pub const CLICK_SUBMIT: &'static str = r#"
                (function() {
                    var btn = document.querySelector('.btn-submit') || document.querySelector('.trae__btn');
                    if (btn) {
                        btn.click();
                    }
                })()
            "#;

/// The interceptor script for a callback server listening on `port`.
pub open spec fn interceptor_script(port: nat) -> Seq<char> {
    INIT_SCRIPT_HEAD@ + decimal(port) + INIT_SCRIPT_TAIL@
}

/// The script that fills the e-mail field with `email` (quotes escaped).
pub open spec fn fill_email_script(email: Seq<char>) -> Seq<char> {
    FILL_EMAIL_HEAD@ + escape_quotes(email) + FILL_EMAIL_TAIL@
}

/// The script that fills the code field with `code` (quotes escaped).
pub open spec fn fill_code_script(code: Seq<char>) -> Seq<char> {
    FILL_CODE_HEAD@ + escape_quotes(code) + FILL_CODE_TAIL@
}

/// The script that fills the password field with `password` (quotes escaped).
pub open spec fn fill_password_script(password: Seq<char>) -> Seq<char> {
    FILL_PASSWORD_HEAD@ + escape_quotes(password) + FILL_PASSWORD_TAIL@
}

/// `head`, then `middle` with its quotes escaped, then `tail`.
fn wrap_escaped(head: &str, middle: &str, tail: &str) -> (r: String)
    ensures
        r@ == head@ + escape_quotes(middle@) + tail@,
{
    let mut s = String::from_str(head);
    let escaped = escape_double_quotes(middle);
    s.append(escaped.as_str());
    s.append(tail);
    s
}

/// Builds the interceptor script for the callback port.
pub fn token_interceptor_script(port: u16) -> (r: String)
    ensures
        r@ == interceptor_script(port as nat),
{
    let mut s = String::from_str(INIT_SCRIPT_HEAD);
    push_decimal(&mut s, port as u64);
    s.append(INIT_SCRIPT_TAIL);
    s
}

/// Builds the script that fills the e-mail field.
pub fn email_fill_script(email: &str) -> (r: String)
    ensures
        r@ == fill_email_script(email@),
{
    wrap_escaped(FILL_EMAIL_HEAD, email, FILL_EMAIL_TAIL)
}

/// Builds the script that fills the code field.
pub fn code_fill_script(code: &str) -> (r: String)
    ensures
        r@ == fill_code_script(code@),
{
    wrap_escaped(FILL_CODE_HEAD, code, FILL_CODE_TAIL)
}

/// Builds the script that fills the password field.
pub fn password_fill_script(password: &str) -> (r: String)
    ensures
        r@ == fill_password_script(password@),
{
    wrap_escaped(FILL_PASSWORD_HEAD, password, FILL_PASSWORD_TAIL)
}

} // verus!
