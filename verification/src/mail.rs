//! The mail-code service: the client's key, the address and password it makes
//! up, the request it sends for a code, and how it reads the reply.

use vstd::prelude::*;
use vstd::string::*;

verus! {

/// Where the mail-code service answers.
pub const API_BASE: &'static str = "https://email.hhxyyq.online";

/// The domain of the throw-away addresses, with its `@`.
pub const EMAIL_DOMAIN: &'static str = "@hhxyyq.online";

/// A lowercase hexadecimal digit.
pub open spec fn is_lower_hex(c: char) -> bool {
    ('0' <= c <= '9') || ('a' <= c <= 'f')
}

/// The text of a version-4 UUID in its simple form: 32 lowercase hexadecimal
/// digits, the version digit `4` at index 12 and one of `8`, `9`, `a`, `b` at
/// index 16.
pub open spec fn is_simple_v4_uuid(s: Seq<char>) -> bool {
    &&& s.len() == 32
    &&& forall|i: int| 0 <= i < 32 ==> is_lower_hex(#[trigger] s[i])
    &&& s[12] == '4'
    &&& s[16] == '8' || s[16] == '9' || s[16] == 'a' || s[16] == 'b'
}

/// A fresh random UUID in simple form.
///
/// Trusted: calls `uuid::Uuid::new_v4()` and renders it with `.simple()`. The
/// value is random; what is claimed is what holds of every outcome: the uuid
/// crate writes the simple form as 32 lowercase hex digits, and `new_v4` sets
/// the version and variant bits. `new_v4` panics only when the operating
/// system's random source fails, which no argument can rule out.
#[verifier::external_body]
fn random_uuid_simple() -> (r: String)
    ensures
        is_simple_v4_uuid(r@),
{
    uuid::Uuid::new_v4().simple().to_string()
}

/// The address made from the first 12 characters of `raw`.
pub open spec fn email_from(raw: Seq<char>) -> Seq<char> {
    raw.take(12) + EMAIL_DOMAIN@
}

/// The password made from the first 12 characters of `raw`: an `A`, six
/// characters, a `!`, six more.
pub open spec fn password_from(raw: Seq<char>) -> Seq<char> {
    seq!['A'] + raw.subrange(0, 6) + seq!['!'] + raw.subrange(6, 12)
}

/// The throw-away address built from the text of a UUID.
pub fn email_address_for(raw: &str) -> (r: String)
    requires
        raw@.len() >= 12,
    ensures
        r@ == email_from(raw@),
{
    let head = raw.substring_char(0, 12);
    let mut out = String::from_str(head);
    out.append(EMAIL_DOMAIN);
    out
}

/// The password built from the text of a UUID.
pub fn password_for(raw: &str) -> (r: String)
    requires
        raw@.len() >= 12,
    ensures
        r@ == password_from(raw@),
{
    let mut out = String::new();
    crate::text::push_char(&mut out, 'A');
    out.append(raw.substring_char(0, 6));
    crate::text::push_char(&mut out, '!');
    out.append(raw.substring_char(6, 12));
    proof {
        assert(out@ =~= password_from(raw@));
    }
    out
}

/// A random address at the service's domain: 12 lowercase hex digits, then
/// the domain.
pub fn generate_email() -> (r: String)
    ensures
        exists|raw: Seq<char>| is_simple_v4_uuid(raw) && r@ == email_from(raw),
{
    let raw = random_uuid_simple();
    email_address_for(raw.as_str())
}

/// A random password: `A`, six lowercase hex digits, `!`, six more.
pub fn generate_password() -> (r: String)
    ensures
        exists|raw: Seq<char>| is_simple_v4_uuid(raw) && r@ == password_from(raw),
{
    let raw = random_uuid_simple();
    password_for(raw.as_str())
}

/// The client of the mail-code service: it holds the API key, which may be
/// empty (then the service's shared mailbox view is read).
pub struct MailClient {
    api_key: String,
}

impl View for MailClient {
    type V = Seq<char>;

    /// The API key.
    closed spec fn view(&self) -> Seq<char> {
        self.api_key@
    }
}

/// The URL that asks the service for the code sent to `email`.
pub open spec fn code_url_for(key: Seq<char>, email: Seq<char>) -> Seq<char> {
    if key.len() == 0 {
        API_BASE@ + "/view"@
    } else {
        API_BASE@ + "/api/get-code?key="@ + key + "&email="@ + email
    }
}

impl MailClient {
    /// A client with the given key; no key means the empty key.
    pub fn new(api_key: Option<String>) -> (r: MailClient)
        ensures
            r@ == match api_key {
                Some(k) => k@,
                None => Seq::<char>::empty(),
            },
    {
        let api_key = match api_key {
            Some(k) => k,
            None => String::new(),
        };
        MailClient { api_key }
    }

    /// The API key.
    pub fn api_key(&self) -> (r: &str)
        ensures
            r@ == self@,
    {
        self.api_key.as_str()
    }

    /// Whether a key of the user's own is in use.
    pub fn has_custom_key(&self) -> (r: bool)
        ensures
            r == (self@.len() > 0),
    {
        !self.api_key.as_str().is_empty()
    }

    /// The URL of the request for the code sent to `email`.
    pub fn code_url(&self, email: &str) -> (r: String)
        ensures
            r@ == code_url_for(self@, email@),
    {
        let mut url = String::from_str(API_BASE);
        if self.api_key.as_str().is_empty() {
            url.append("/view");
        } else {
            url.append("/api/get-code?key=");
            url.append(self.api_key.as_str());
            url.append("&email=");
            url.append(email);
        }
        url
    }
}

/// A reply body as the mail-code logic reads it: not JSON at all, JSON whose
/// top-level value is not an object, or the members of a top-level object,
/// each with its value where that value is a JSON string.
#[derive(Debug, PartialEq, Eq)]
pub enum JsonReply {
    Malformed,
    NotObject,
    Object(Vec<(String, Option<String>)>),
}

/// The model of a [`JsonReply`].
pub enum JsonReplyView {
    Malformed,
    NotObject,
    Object(Seq<(Seq<char>, Option<Seq<char>>)>),
}

impl View for JsonReply {
    type V = JsonReplyView;

    open spec fn view(&self) -> JsonReplyView {
        match self {
            JsonReply::Malformed => JsonReplyView::Malformed,
            JsonReply::NotObject => JsonReplyView::NotObject,
            JsonReply::Object(m) => JsonReplyView::Object(m.deep_view()),
        }
    }
}

/// What `serde_json` makes of a text, read as a [`JsonReplyView`].
pub uninterp spec fn json_reply_of(content: Seq<char>) -> JsonReplyView;

/// Parses a reply body.
///
/// Trusted: calls `serde_json::from_str::<serde_json::Value>` and converts the
/// result: a parse error, a non-object value, or the object's members with
/// each `Value::String` kept. Claimed: the result is a function of the text
/// (named `json_reply_of`), and an object's keys are distinct (serde_json
/// keeps an object in a map, one entry per key).
#[verifier::external_body]
fn parse_json_reply(content: &str) -> (r: JsonReply)
    ensures
        r@ == json_reply_of(content@),
        r matches JsonReply::Object(m) ==> forall|i: int, j: int|
            0 <= i < j < m@.len() ==> m@[i].0@ != m@[j].0@,
{
    match serde_json::from_str::<serde_json::Value>(content) {
        Err(_) => JsonReply::Malformed,
        Ok(serde_json::Value::Object(map)) => JsonReply::Object(
            map.into_iter().map(
                |(k, v)|
                    match v {
                        serde_json::Value::String(s) => (k, Some(s)),
                        _ => (k, None),
                    },
            ).collect(),
        ),
        Ok(_) => JsonReply::NotObject,
    }
}

/// The string value of member `key`: `None` when there is no such member or
/// its value is not a string (the first member with that key counts).
pub open spec fn string_member(m: Seq<(Seq<char>, Option<Seq<char>>)>, key: Seq<char>) -> Option<
    Seq<char>,
>
    decreases m.len(),
{
    if m.len() == 0 {
        None
    } else if m[0].0 == key {
        m[0].1
    } else {
        string_member(m.drop_first(), key)
    }
}

proof fn lemma_string_member_at(m: Seq<(Seq<char>, Option<Seq<char>>)>, key: Seq<char>, i: int)
    requires
        0 <= i <= m.len(),
        forall|j: int| 0 <= j < i ==> (#[trigger] m[j]).0 != key,
        i < m.len() ==> m[i].0 == key,
    ensures
        string_member(m, key) == if i < m.len() { m[i].1 } else { None },
    decreases m.len(),
{
    if m.len() > 0 && i > 0 {
        let t = m.drop_first();
        assert forall|j: int| 0 <= j < i - 1 implies (#[trigger] t[j]).0 != key by {
            assert(t[j] == m[j + 1]);
        }
        if i < m.len() {
            assert(t[i - 1] == m[i]);
        }
        assert(m[0].0 != key);
        lemma_string_member_at(t, key, i - 1);
    }
}

/// The string value of member `key` of an object's members.
pub fn find_string_member(members: &Vec<(String, Option<String>)>, key: &String) -> (r: Option<
    String,
>)
    ensures
        r.deep_view() == string_member(members.deep_view(), key@),
{
    let n = members.len();
    let mut i: usize = 0;
    while i < n
        invariant
            n == members@.len(),
            i <= n,
            forall|j: int| 0 <= j < i ==> (#[trigger] members.deep_view()[j]).0 != key@,
        decreases n - i,
    {
        if members[i].0 == *key {
            proof {
                assert(members.deep_view()[i as int].0 == key@);
                lemma_string_member_at(members.deep_view(), key@, i as int);
            }
            return match &members[i].1 {
                Some(v) => Some(v.clone()),
                None => None,
            };
        }
        proof {
            assert(members.deep_view()[i as int].0 != key@);
        }
        i = i + 1;
    }
    proof {
        lemma_string_member_at(members.deep_view(), key@, n as int);
    }
    None
}

/// A verification code: exactly six ASCII digits.
pub open spec fn is_verification_code(s: Seq<char>) -> bool {
    s.len() == 6 && forall|i: int| 0 <= i < 6 ==> '0' <= #[trigger] s[i] <= '9'
}

/// Whether `s` is a verification code.
pub fn looks_like_code(s: &str) -> (r: bool)
    ensures
        r == is_verification_code(s@),
{
    let n = s.unicode_len();
    if n != 6 {
        return false;
    }
    let mut i: usize = 0;
    while i < 6
        invariant
            n == s@.len(),
            n == 6,
            i <= 6,
            forall|j: int| 0 <= j < i ==> '0' <= #[trigger] s@[j] <= '9',
        decreases 6 - i,
    {
        let c = s.get_char(i);
        if !('0' <= c && c <= '9') {
            return false;
        }
        i = i + 1;
    }
    true
}

/// The code that a parsed reply carries: none when the reply is not an
/// object, when it has a string `error` member, or when its `code` member is
/// not a string of six digits.
pub open spec fn code_in(reply: JsonReplyView) -> Option<Seq<char>> {
    match reply {
        JsonReplyView::Object(m) => if string_member(m, "error"@) is Some {
            None
        } else {
            match string_member(m, "code"@) {
                Some(c) => if is_verification_code(c) {
                    Some(c)
                } else {
                    None
                },
                None => None,
            }
        },
        _ => None,
    }
}

/// The code a parsed reply carries.
pub fn code_from_reply(reply: &JsonReply) -> (r: Option<String>)
    ensures
        r.deep_view() == code_in(reply@),
{
    match reply {
        JsonReply::Object(m) => {
            let error_key = String::from_str("error");
            let code_key = String::from_str("code");
            if find_string_member(m, &error_key).is_some() {
                return None;
            }
            match find_string_member(m, &code_key) {
                Some(c) => if looks_like_code(c.as_str()) {
                    Some(c)
                } else {
                    None
                },
                None => None,
            }
        },
        _ => None,
    }
}

/// The code that a reply of the service gives: none unless the status was a
/// success; otherwise what the body, parsed as JSON, carries.
pub open spec fn code_in_response(success: bool, content: Seq<char>) -> Option<Seq<char>> {
    if success {
        code_in(json_reply_of(content))
    } else {
        None
    }
}

impl MailClient {
    /// Reads a reply of the service: `success` is whether its status was a
    /// success, `content` its body.
    pub fn read_code_reply(success: bool, content: &str) -> (r: Option<String>)
        ensures
            r.deep_view() == code_in_response(success, content@),
            r matches Some(c) ==> is_verification_code(c@),
    {
        if !success {
            return None;
        }
        let reply = parse_json_reply(content);
        code_from_reply(&reply)
    }
}

/// A generated address is 12 lowercase hex digits, `@`, and the domain; the
/// rule that replaces blank, masked or `@`-less account e-mails never
/// replaces it.
pub proof fn law_generated_email_shape(raw: Seq<char>)
    requires
        is_simple_v4_uuid(raw),
    ensures
        email_from(raw).len() == 12 + EMAIL_DOMAIN@.len(),
        forall|i: int| 0 <= i < 12 ==> is_lower_hex(#[trigger] email_from(raw)[i]),
        email_from(raw)[12] == '@',
        !crate::register::email_needs_update(email_from(raw)),
{
    reveal_strlit("@hhxyyq.online");
    let e = email_from(raw);
    assert(e[12] == '@');
    assert(e.contains('@'));
    assert(!crate::text::blank(e)) by {
        assert(!crate::text::is_white_space(e[12]));
    }
    assert(!e.contains('*')) by {
        if e.contains('*') {
            let i = choose|i: int| 0 <= i < e.len() && e[i] == '*';
            if i < 12 {
                assert(is_lower_hex(raw[i]));
            } else {
                assert(e[i] == EMAIL_DOMAIN@[i - 12]);
            }
        }
    }
}

/// A generated password is 14 characters: `A`, six lowercase hex digits,
/// `!`, six lowercase hex digits.
pub proof fn law_generated_password_shape(raw: Seq<char>)
    requires
        is_simple_v4_uuid(raw),
    ensures
        password_from(raw).len() == 14,
        password_from(raw)[0] == 'A',
        password_from(raw)[7] == '!',
        forall|i: int|
            1 <= i < 14 && i != 7 ==> is_lower_hex(#[trigger] password_from(raw)[i]),
{
    let p = password_from(raw);
    assert forall|i: int| 1 <= i < 14 && i != 7 implies is_lower_hex(#[trigger] p[i]) by {
        if i < 7 {
            assert(p[i] == raw[i - 1]);
        } else {
            assert(p[i] == raw[i - 2]);
        }
    }
}

/// A reply that reports an error carries no code, whatever else it holds.
pub proof fn law_error_reply_has_no_code(m: Seq<(Seq<char>, Option<Seq<char>>)>)
    requires
        string_member(m, "error"@) is Some,
    ensures
        code_in(JsonReplyView::Object(m)) is None,
{
}

/// A reply with a failing status carries no code, whatever its body.
pub proof fn law_failed_status_has_no_code(content: Seq<char>)
    ensures
        code_in_response(false, content) is None,
{
}

/// Without an API key, the request does not depend on the address.
pub proof fn law_keyless_request_ignores_email(e1: Seq<char>, e2: Seq<char>)
    ensures
        code_url_for(Seq::empty(), e1) == code_url_for(Seq::empty(), e2),
{
}

/// A member's looked-up string value is the value of a member with that key.
proof fn lemma_string_member_witness(m: Seq<(Seq<char>, Option<Seq<char>>)>, key: Seq<char>)
    ensures
        string_member(m, key) matches Some(v) ==> exists|j: int|
            0 <= j < m.len() && m[j].0 == key && m[j].1 == Some(v),
    decreases m.len(),
{
    if m.len() > 0 && m[0].0 != key {
        let t = m.drop_first();
        lemma_string_member_witness(t, key);
        if let Some(v) = string_member(m, key) {
            let j = choose|j: int| 0 <= j < t.len() && t[j].0 == key && t[j].1 == Some(v);
            assert(m[j + 1] == t[j]);
        }
    }
}

/// With distinct keys, a member's value is what the lookup gives.
proof fn lemma_string_member_unique(m: Seq<(Seq<char>, Option<Seq<char>>)>, key: Seq<char>, i: int)
    requires
        forall|a: int, b: int| 0 <= a < b < m.len() ==> m[a].0 != m[b].0,
        0 <= i < m.len(),
        m[i].0 == key,
    ensures
        string_member(m, key) == m[i].1,
{
    assert forall|j: int| 0 <= j < i implies (#[trigger] m[j]).0 != key by {
        assert(m[j].0 != m[i].0);
    }
    lemma_string_member_at(m, key, i);
}

/// A JSON object whose keys are distinct (as every parsed object's are),
/// whose `code` member is a string of exactly six ASCII digits — leading
/// zeros included — and which has no string `error` member, carries exactly
/// that code; a reply with a successful status and such a body gives it.
pub proof fn law_six_digit_code_accepted(
    m: Seq<(Seq<char>, Option<Seq<char>>)>,
    i: int,
    c: Seq<char>,
    content: Seq<char>,
)
    requires
        forall|a: int, b: int| 0 <= a < b < m.len() ==> m[a].0 != m[b].0,
        0 <= i < m.len(),
        m[i] == ("code"@, Some(c)),
        c.len() == 6,
        forall|k: int| 0 <= k < 6 ==> '0' <= #[trigger] c[k] <= '9',
        forall|j: int| 0 <= j < m.len() && (#[trigger] m[j]).0 == "error"@ ==> m[j].1 is None,
    ensures
        code_in(JsonReplyView::Object(m)) == Some(c),
        json_reply_of(content) == JsonReplyView::Object(m) ==> code_in_response(true, content)
            == Some(c),
{
    lemma_string_member_unique(m, "code"@, i);
    lemma_string_member_witness(m, "error"@);
}

/// A code that a reply yields is six ASCII digits and is the string value of
/// one of its `code` members; the reply is an object, its status succeeded,
/// and its lookup of `error` gives no string.
pub proof fn law_accepted_code_comes_from_reply(success: bool, content: Seq<char>, c: Seq<char>)
    requires
        code_in_response(success, content) == Some(c),
    ensures
        success,
        c.len() == 6,
        forall|k: int| 0 <= k < 6 ==> '0' <= #[trigger] c[k] <= '9',
        json_reply_of(content) matches JsonReplyView::Object(m) && string_member(m, "error"@) is None
            && exists|j: int| 0 <= j < m.len() && m[j] == ("code"@, Some(c)),
{
    if let JsonReplyView::Object(m) = json_reply_of(content) {
        lemma_string_member_witness(m, "code"@);
        let j = choose|j: int| 0 <= j < m.len() && m[j].0 == "code"@ && m[j].1 == Some(c);
        assert(m[j] == ("code"@, Some(c)));
    }
}

/// With an API key, the request asks the service's get-code endpoint for the
/// given key and address, in that order.
pub proof fn law_keyed_request(key: Seq<char>, email: Seq<char>)
    requires
        key.len() > 0,
    ensures
        code_url_for(key, email) == "https://email.hhxyyq.online"@ + "/api/get-code?key="@ + key
            + "&email="@ + email,
        code_url_for(Seq::empty(), email) == "https://email.hhxyyq.online"@ + "/view"@,
{
}

} // verus!
