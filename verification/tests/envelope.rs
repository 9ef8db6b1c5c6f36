use mcpg_backend_email::envelope::{
    build_result_envelope, classify_error, email_downstream_error, judged_words, rejects,
};
use mcpg_backend_email::json::{Json, JsonObject};

fn member<'a>(json: &'a Json, key: &str) -> &'a Json {
    json.get(key).expect(key)
}

fn text(words: &str) -> Json {
    Json::Str(words.to_owned())
}

fn object(members: Vec<(&str, Json)>) -> Json {
    let mut built = JsonObject::new();
    for (key, value) in members {
        built.insert(key, value);
    }
    Json::Object(built)
}

#[test]
fn connect_failure_is_retryable_transport_error() {
    let e = classify_error("IMAP connect failed: connection refused");
    assert_eq!(member(&e, "kind"), &text("transport_error"));
    assert_eq!(member(&e, "retryable"), &Json::Bool(true));
}

#[test]
fn login_failure_is_not_retryable() {
    let e = classify_error("IMAP login failed: authentication failed");
    assert_eq!(member(&e, "kind"), &text("email_error"));
    assert_eq!(member(&e, "retryable"), &Json::Bool(false));
}

#[test]
fn send_envelope_shape() {
    let env = build_result_envelope(
        "mail.send",
        "mail.send",
        "send",
        "smtp.x",
        "",
        Some(true),
        None,
        12,
        None,
        None,
    );
    assert_eq!(member(member(&env, "response"), "sent"), &Json::Bool(true));
    assert_eq!(member(&env, "downstreamError"), &Json::Null);
}

#[test]
fn read_envelope_has_messages_and_count() {
    let msgs = vec![object(vec![("subject", text("hi"))])];
    let env = build_result_envelope(
        "mail.read",
        "mail.read",
        "read",
        "imap.x",
        "INBOX",
        None,
        Some(&msgs),
        30,
        None,
        None,
    );
    assert_eq!(member(member(&env, "response"), "count"), &Json::Number(1));
    match member(member(&env, "response"), "messages") {
        Json::Array(items) => assert_eq!(member(&items[0], "subject"), &text("hi")),
        other => panic!("{:?}", other),
    }
}

#[test]
fn envelope_of_a_send_in_full() {
    let env = build_result_envelope(
        "alerts.notify",
        "alerts",
        "send",
        "smtp.corp.example.com",
        "",
        Some(true),
        None,
        120,
        None,
        None,
    );
    assert_eq!(
        env,
        object(vec![
            ("toolName", text("alerts.notify")),
            ("profile", text("alerts")),
            (
                "request",
                object(vec![
                    ("op", text("send")),
                    ("host", text("smtp.corp.example.com")),
                    ("mailbox", text("")),
                ]),
            ),
            (
                "response",
                object(vec![
                    ("sent", Json::Bool(true)),
                    ("messages", Json::Null),
                    ("count", Json::Null),
                    ("durationMs", Json::Number(120)),
                ]),
            ),
            ("downstreamError", Json::Null),
            ("downstreamErrors", Json::Array(vec![])),
            ("error", Json::Null),
        ])
    );
}

#[test]
fn failed_envelope_has_no_response() {
    let error = classify_error("SMTP send failed: Broken Pipe");
    let env = build_result_envelope(
        "t",
        "p",
        "send",
        "h",
        "",
        None,
        None,
        u128::MAX,
        Some(&error),
        Some("SMTP send failed: Broken Pipe"),
    );
    assert_eq!(member(&env, "response"), &Json::Null);
    assert_eq!(member(&env, "downstreamError"), &error);
    assert_eq!(member(&env, "downstreamErrors"), &Json::Array(vec![error.clone()]));
    assert_eq!(member(&env, "error"), &text("SMTP send failed: Broken Pipe"));
}

#[test]
fn downstream_error_in_full() {
    assert_eq!(
        email_downstream_error("transport_error", "m", true),
        object(vec![
            ("kind", text("transport_error")),
            ("code", text("mcpg.downstream_email.transport_error")),
            ("message", text("m")),
            ("retryable", Json::Bool(true)),
            ("retryClass", text("with_backoff")),
            ("suggestedAction", text("check_mail_server_connectivity_and_retry")),
        ])
    );
    assert_eq!(
        email_downstream_error("email_error", "", false),
        object(vec![
            ("kind", text("email_error")),
            ("code", text("mcpg.downstream_email.email_error")),
            ("message", text("")),
            ("retryable", Json::Bool(false)),
            ("retryClass", text("do_not_retry")),
            ("suggestedAction", text("inspect_email_error")),
        ])
    );
}

#[test]
fn every_transient_phrase_counts_in_any_case() {
    for phrase in [
        "Connect",
        "timed OUT",
        "Timeout",
        "Handshake",
        "Broken pipe",
        "Connection reset",
        "Incomplete response",
        "Response error",
        "connection closed",
        "unexpected EOF",
    ] {
        let e = classify_error(&format!("before {phrase} after"));
        assert_eq!(member(&e, "retryable"), &Json::Bool(true), "{}", phrase);
        assert_eq!(member(&e, "kind"), &text("transport_error"), "{}", phrase);
    }
    for phrase in ["", "invalid to address 'x'", "time out", "eof", "broken", "response"] {
        let e = classify_error(phrase);
        assert_eq!(member(&e, "retryable"), &Json::Bool(false), "{}", phrase);
        assert_eq!(member(&e, "message"), &text(phrase));
    }
}

#[test]
fn inserting_again_replaces() {
    let mut members = JsonObject::new();
    members.insert("a", Json::Number(1));
    members.insert("b", Json::Null);
    members.insert("a", Json::Number(2));
    assert_eq!(members.get("a"), Some(&Json::Number(2)));
    assert_eq!(members.get("b"), Some(&Json::Null));
    assert_eq!(members.get("c"), None);
}

#[test]
fn rejected_addresses_and_names_are_not_retried() {
    for words in [
        "invalid to address 'connect': Missing domain or user",
        "invalid from address 'timeout@': Missing domain or user",
        "Invalid IMAP server name 'connect x': invalid dns name",
    ] {
        assert!(rejects(words), "{}", words);
        let e = classify_error(words);
        assert_eq!(member(&e, "kind"), &text("email_error"), "{}", words);
        assert_eq!(member(&e, "retryable"), &Json::Bool(false), "{}", words);
    }
    assert!(!rejects("smtp: invalid to address 'x'"));
    assert!(!rejects("invalid address"));
}

#[test]
fn selection_is_judged_by_the_words_of_the_server() {
    for (words, retryable) in [
        ("IMAP select 'Reconnects' failed: no response", false),
        ("IMAP select 'Timeouts' failed: it isn't there", false),
        ("IMAP select 'Reconnects' failed: connection lost", true),
        ("IMAP select 'INBOX' failed: 'x' failed: Timed out", true),
        ("IMAP select 'connect", true),
    ] {
        let e = classify_error(words);
        assert_eq!(member(&e, "retryable"), &Json::Bool(retryable), "{}", words);
    }
    let words: String = judged_words("IMAP select 'A B' failed: No Such").into_iter().collect();
    assert_eq!(words, "no such");
    let words: String = judged_words("SMTP Send failed: X").into_iter().collect();
    assert_eq!(words, "smtp send failed: x");
}
