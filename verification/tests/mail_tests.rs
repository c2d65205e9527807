use trae_register::mail::{
    code_from_reply, email_address_for, find_string_member, generate_email, generate_password,
    looks_like_code, password_for, JsonReply, MailClient,
};

fn is_lower_hex(c: char) -> bool {
    c.is_ascii_digit() || ('a'..='f').contains(&c)
}

#[test]
fn address_from_uuid_text() {
    assert_eq!(
        email_address_for("0123456789abcdef0123456789abcdef"),
        "0123456789ab@hhxyyq.online"
    );
}

#[test]
fn password_from_uuid_text() {
    assert_eq!(password_for("0123456789abcdef0123456789abcdef"), "A012345!6789ab");
}

#[test]
fn generated_email_has_its_shape() {
    let e = generate_email();
    assert_eq!(e.len(), 26);
    assert!(e.ends_with("@hhxyyq.online"));
    assert!(e[..12].chars().all(is_lower_hex));
    assert!(!trae_register::register::needs_email_update(&e));
}

#[test]
fn generated_password_has_its_shape() {
    let p = generate_password();
    let chars: Vec<char> = p.chars().collect();
    assert_eq!(chars.len(), 14);
    assert_eq!(chars[0], 'A');
    assert_eq!(chars[7], '!');
    for (i, c) in chars.iter().enumerate() {
        if i != 0 && i != 7 {
            assert!(is_lower_hex(*c), "{}", p);
        }
    }
}

#[test]
fn generated_values_are_fresh() {
    assert_ne!(generate_email(), generate_email());
    assert_ne!(generate_password(), generate_password());
}

#[test]
fn client_without_key_reads_shared_view() {
    let c = MailClient::new(None);
    assert_eq!(c.api_key(), "");
    assert!(!c.has_custom_key());
    assert_eq!(c.code_url("a@b"), "https://email.hhxyyq.online/view");
    assert_eq!(c.code_url("x@y"), c.code_url("a@b"));
}

#[test]
fn client_with_key_asks_for_the_address() {
    let c = MailClient::new(Some("k123".to_string()));
    assert_eq!(c.api_key(), "k123");
    assert!(c.has_custom_key());
    assert_eq!(
        c.code_url("ab@hhxyyq.online"),
        "https://email.hhxyyq.online/api/get-code?key=k123&email=ab@hhxyyq.online"
    );
}

#[test]
fn client_with_empty_key_is_keyless() {
    let c = MailClient::new(Some(String::new()));
    assert!(!c.has_custom_key());
    assert_eq!(c.code_url("a@b"), "https://email.hhxyyq.online/view");
}

#[test]
fn reply_with_code() {
    let body = r#"{"email":"xxx@xxx.com","code":"123456","time":"2024"}"#;
    assert_eq!(MailClient::read_code_reply(true, body), Some("123456".to_string()));
}

#[test]
fn failed_status_gives_no_code() {
    let body = r#"{"email":"xxx@xxx.com","code":"123456","time":"2024"}"#;
    assert_eq!(MailClient::read_code_reply(false, body), None);
}

#[test]
fn error_reply_gives_no_code() {
    let body = r#"{"error":"no mail","code":"123456"}"#;
    assert_eq!(MailClient::read_code_reply(true, body), None);
}

#[test]
fn non_string_error_is_no_error() {
    let body = r#"{"error":null,"code":"654321"}"#;
    assert_eq!(MailClient::read_code_reply(true, body), Some("654321".to_string()));
    let body = r#"{"error":5,"code":"654321"}"#;
    assert_eq!(MailClient::read_code_reply(true, body), Some("654321".to_string()));
}

#[test]
fn malformed_codes_are_refused() {
    for body in [
        r#"{"code":"12345"}"#,
        r#"{"code":"1234567"}"#,
        r#"{"code":"12a456"}"#,
        r#"{"code":123456}"#,
        r#"{"code":"１２３４５６"}"#,
        r#"{"code":" 12345"}"#,
        r#"{}"#,
    ] {
        assert_eq!(MailClient::read_code_reply(true, body), None, "{}", body);
    }
}

#[test]
fn non_object_or_non_json_gives_no_code() {
    for body in ["", "123456", "\"123456\"", "[\"123456\"]", "{\"code\":\"123456\"", "null"] {
        assert_eq!(MailClient::read_code_reply(true, body), None, "{}", body);
    }
}

#[test]
fn duplicate_keys_resolve_as_serde_does() {
    let body = r#"{"code":"111111","code":"222222"}"#;
    let v: serde_json::Value = serde_json::from_str(body).unwrap();
    let expected = v.get("code").and_then(|c| c.as_str()).map(|s| s.to_string());
    assert_eq!(MailClient::read_code_reply(true, body), expected);
}

#[test]
fn member_lookup() {
    let members = vec![
        ("a".to_string(), Some("1".to_string())),
        ("b".to_string(), None),
        ("c".to_string(), Some("3".to_string())),
    ];
    assert_eq!(find_string_member(&members, &"a".to_string()), Some("1".to_string()));
    assert_eq!(find_string_member(&members, &"b".to_string()), None);
    assert_eq!(find_string_member(&members, &"c".to_string()), Some("3".to_string()));
    assert_eq!(find_string_member(&members, &"d".to_string()), None);
}

#[test]
fn code_shape() {
    assert!(looks_like_code("000000"));
    assert!(looks_like_code("987654"));
    assert!(!looks_like_code("98765"));
    assert!(!looks_like_code("98765x"));
    assert!(!looks_like_code(""));
}

#[test]
fn code_from_parsed_replies() {
    let ok = JsonReply::Object(vec![("code".to_string(), Some("123456".to_string()))]);
    assert_eq!(code_from_reply(&ok), Some("123456".to_string()));
    let err = JsonReply::Object(vec![
        ("code".to_string(), Some("123456".to_string())),
        ("error".to_string(), Some("x".to_string())),
    ]);
    assert_eq!(code_from_reply(&err), None);
    assert_eq!(code_from_reply(&JsonReply::NotObject), None);
    assert_eq!(code_from_reply(&JsonReply::Malformed), None);
}
