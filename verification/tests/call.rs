use mcpg_backend_email::backend::{answer_with, finalize_payload, BackendError, BackendResponse};
use mcpg_backend_email::call::{
    label_failure, read_arguments, tool_name, value_arguments, Call, CallArguments, Work,
    WorkOutcome,
};
use mcpg_backend_email::email::{fetch_to_json, FetchedMessage};
use mcpg_backend_email::imap::ReadAction;
use mcpg_backend_email::json::{Json, JsonObject};
use mcpg_backend_email::observe::audit_action_for_outcome;
use mcpg_backend_email::profile::EmailProfile;
use mcpg_backend_email::wire::{to_value, write_json};
use mcpg_backend_email::{EmailOp, TlsMode};

fn text(words: &str) -> Json {
    Json::Str(words.to_owned())
}

fn arguments(to: Option<&str>, subject: Option<&str>, body: Option<&str>) -> CallArguments {
    CallArguments {
        to: to.map(str::to_owned),
        subject: subject.map(str::to_owned),
        body: body.map(str::to_owned),
    }
}

fn call(op: EmailOp, arguments: CallArguments) -> Call {
    Call {
        backend_name: "mail".to_owned(),
        tool_name: "alerts.notify".to_owned(),
        profile: EmailProfile {
            op,
            host: "mail.x".to_owned(),
            port: 465,
            tls: TlsMode::Implicit,
            username: String::new(),
            password: "pw".to_owned(),
            from: "alerts@x.org".to_owned(),
            mailbox: "INBOX".to_owned(),
            limit: 10,
            timeout_ms: 15_000,
        },
        arguments,
    }
}

fn header(name: &str, value: &str) -> (String, String) {
    (name.to_owned(), value.to_owned())
}

#[test]
fn arguments_are_read_from_the_payload() {
    assert_eq!(
        read_arguments(r#"{"to":"a@x.org","subject":"S é","body":"B","more":1.5}"#.as_bytes()),
        arguments(Some("a@x.org"), Some("S \u{e9}"), Some("B"))
    );
}

#[test]
fn arguments_that_are_not_strings_are_not_there() {
    assert_eq!(
        read_arguments(br#"{"to":["a"],"subject":7,"body":null}"#),
        arguments(None, None, None)
    );
    assert_eq!(read_arguments(b""), arguments(None, None, None));
    assert_eq!(read_arguments(b"{not json"), arguments(None, None, None));
    assert_eq!(read_arguments(br#"["to"]"#), arguments(None, None, None));
    assert_eq!(read_arguments(b"null"), arguments(None, None, None));
}

#[test]
fn arguments_of_a_value() {
    let mut members = JsonObject::new();
    members.insert("to", text("b@y.org"));
    members.insert("body", Json::Bool(true));
    let value = to_value(&Json::Object(members));
    assert_eq!(value_arguments(&value), arguments(Some("b@y.org"), None, None));
}

#[test]
fn tool_is_named_by_the_first_such_header() {
    let headers = vec![
        header("x", "1"),
        header("MCPG-Tool-Name", "first"),
        header("mcpg-tool-name", "second"),
    ];
    assert_eq!(tool_name(&headers, "mail"), "first");
    assert_eq!(tool_name(&vec![header("mcpg-tool", "x")], "mail"), "mail");
    assert_eq!(tool_name(&vec![], "mail"), "mail");
}

#[test]
fn sending_needs_a_recipient() {
    let refused = call(EmailOp::Send, arguments(None, Some("s"), Some("b"))).work();
    assert_eq!(
        refused.err().expect("refused"),
        "send requires a string 'to' argument"
    );
}

#[test]
fn sending_delivers_what_the_arguments_say() {
    let work = call(EmailOp::Send, arguments(Some("b@y.org"), None, None)).work();
    match work {
        Ok(Work::Deliver(delivery)) => {
            assert_eq!(delivery.host, "mail.x");
            assert_eq!(delivery.port, 465);
            assert_eq!(delivery.tls, TlsMode::Implicit);
            assert!(delivery.credentials.is_none());
            let headers = delivery.message.headers();
            assert_eq!(headers.get_raw("From"), Some("alerts@x.org"));
            assert_eq!(headers.get_raw("To"), Some("b@y.org"));
            assert_eq!(headers.get_raw("Subject"), Some(""));
            let written = String::from_utf8(delivery.message.formatted()).expect("text");
            assert!(written.ends_with("\r\n\r\n"));
        }
        _ => panic!("deliver"),
    }
}

#[test]
fn sending_refuses_what_is_no_address() {
    let refused = call(EmailOp::Send, arguments(Some("nobody"), None, None)).work();
    assert!(refused
        .err()
        .expect("refused")
        .starts_with("invalid to address 'nobody': "));
}

#[test]
fn reading_takes_no_arguments() {
    for given in [arguments(None, None, None), arguments(Some("nobody"), None, None)] {
        match call(EmailOp::Read, given).work() {
            Ok(Work::Converse(read, ReadAction::Connect { host, port })) => {
                assert_eq!(host, "mail.x");
                assert_eq!(port, 465);
                assert!(read.messages.is_empty());
            }
            _ => panic!("converse"),
        }
    }
}

#[test]
fn report_of_a_message_that_was_sent() {
    let report = call(EmailOp::Send, arguments(None, None, None)).report(WorkOutcome::Sent, 120);
    assert_eq!(report.label, "ok");
    assert_eq!(report.reason, None);
    assert_eq!(report.envelope.get("toolName"), Some(&text("alerts.notify")));
    assert_eq!(report.envelope.get("profile"), Some(&text("mail")));
    assert_eq!(report.envelope.get("downstreamError"), Some(&Json::Null));
    assert_eq!(report.envelope.get("error"), Some(&Json::Null));
    let response = report.envelope.get("response").expect("response");
    assert_eq!(response.get("sent"), Some(&Json::Bool(true)));
    assert_eq!(response.get("messages"), Some(&Json::Null));
    assert_eq!(response.get("durationMs"), Some(&Json::Number(120)));
}

#[test]
fn report_of_messages_that_were_read() {
    let messages = vec![text("one"), text("two")];
    let report =
        call(EmailOp::Read, arguments(None, None, None)).report(WorkOutcome::Read { messages }, 1);
    let response = report.envelope.get("response").expect("response");
    assert_eq!(response.get("sent"), Some(&Json::Null));
    assert_eq!(response.get("count"), Some(&Json::Number(2)));
    assert_eq!(
        response.get("messages"),
        Some(&Json::Array(vec![text("one"), text("two")]))
    );
    let request = report.envelope.get("request").expect("request");
    assert_eq!(request.get("op"), Some(&text("read")));
    assert_eq!(request.get("host"), Some(&text("mail.x")));
    assert_eq!(request.get("mailbox"), Some(&text("INBOX")));
}

#[test]
fn report_of_a_failure() {
    let report = call(EmailOp::Read, arguments(None, None, None)).report(
        WorkOutcome::Failed {
            message: "IMAP login failed: no".to_owned(),
        },
        1,
    );
    assert_eq!(report.label, "email_error");
    assert_eq!(report.reason, Some("IMAP login failed: no".to_owned()));
    assert_eq!(report.envelope.get("response"), Some(&Json::Null));
    assert_eq!(report.envelope.get("error"), Some(&text("IMAP login failed: no")));
    let error = report.envelope.get("downstreamError").expect("error");
    assert_eq!(error.get("kind"), Some(&text("email_error")));
}

#[test]
fn report_of_a_timeout() {
    let report = call(EmailOp::Send, arguments(None, None, None)).report(WorkOutcome::TimedOut, 1);
    assert_eq!(report.label, "timeout");
    assert_eq!(report.reason, Some("email operation timed out".to_owned()));
    let error = report.envelope.get("downstreamError").expect("error");
    assert_eq!(error.get("kind"), Some(&text("transport_error")));
    assert_eq!(error.get("retryable"), Some(&Json::Bool(true)));
}

#[test]
fn labels_of_failures() {
    assert_eq!(label_failure("connect: TIMED OUT"), "timeout");
    assert_eq!(label_failure("Timeout"), "timeout");
    assert_eq!(label_failure("IMAP connect failed: refused"), "transport_error");
    assert_eq!(label_failure("IMAP login failed: no"), "email_error");
    assert_eq!(label_failure("invalid to address 'timeout': no"), "email_error");
    assert_eq!(label_failure("IMAP select 'Timeouts' failed: no"), "email_error");
    assert_eq!(label_failure("IMAP select 'x' failed: timeout"), "timeout");
}

#[test]
fn envelope_is_answered_as_json_text() {
    let report = call(EmailOp::Send, arguments(None, None, None)).report(WorkOutcome::Sent, 5);
    let response = finalize_payload(&report.envelope).expect("response");
    assert!(!response.truncated);
    assert_eq!(
        String::from_utf8(response.payload).expect("text"),
        concat_lines(&[
            r#"{"downstreamError":null,"downstreamErrors":[],"error":null,"profile":"mail","#,
            r#""request":{"host":"mail.x","mailbox":"INBOX","op":"send"},"#,
            r#""response":{"count":null,"durationMs":5,"messages":null,"sent":true},"#,
            r#""toolName":"alerts.notify"}"#,
        ])
    );
}

fn concat_lines(lines: &[&str]) -> String {
    lines.concat()
}

#[test]
fn answer_that_could_not_be_written() {
    assert_eq!(
        answer_with(Err("why".to_owned())),
        Err(BackendError::Transport {
            message: "Email plugin envelope serialization failed: why".to_owned(),
        })
    );
    assert_eq!(
        answer_with(Ok(vec![1, 2])),
        Ok(BackendResponse {
            payload: vec![1, 2],
            truncated: false,
        })
    );
}

#[test]
fn json_text_says_what_the_tree_says() {
    let mut members = JsonObject::new();
    members.insert("b", Json::Number(u64::MAX));
    members.insert("a", Json::Array(vec![Json::Null, Json::Bool(false), text("\"\u{e9}\n")]));
    members.insert("b", Json::Number(0));
    let tree = Json::Object(members);
    let written = write_json(&tree).expect("text");
    assert_eq!(
        String::from_utf8(written.clone()).expect("text"),
        "{\"a\":[null,false,\"\\\"\u{e9}\\n\"],\"b\":0}"
    );
    let back: serde_json::Value = serde_json::from_slice(&written).expect("json");
    assert_eq!(back, to_value(&tree));
}

#[test]
fn answers_tell_no_credentials() {
    let plain = call(EmailOp::Send, arguments(None, None, None));
    let mut other = call(EmailOp::Send, arguments(None, None, None));
    other.profile.username = "someone".to_owned();
    other.profile.password = "hidden-word".to_owned();
    let answer = other.report(WorkOutcome::Sent, 1).envelope;
    assert_eq!(answer, plain.report(WorkOutcome::Sent, 1).envelope);
    let written = String::from_utf8(write_json(&answer).expect("text")).expect("text");
    assert!(!written.contains("hidden-word") && !written.contains("someone"));
}

#[test]
fn calls_that_failed_are_audited() {
    let made = call(EmailOp::Read, arguments(None, None, None));
    let failed = |message: &str| WorkOutcome::Failed {
        message: message.to_owned(),
    };
    for (outcome, audited) in [
        (WorkOutcome::Sent, false),
        (WorkOutcome::Read { messages: vec![] }, false),
        (WorkOutcome::TimedOut, true),
        (failed("refused"), true),
        (failed("connection reset"), true),
    ] {
        let label = made.report(outcome, 1).label;
        assert_eq!(audit_action_for_outcome(label).is_some(), audited, "{}", label);
    }
}

#[test]
fn recipient_that_reads_like_a_failure_is_a_rejection() {
    let made = call(EmailOp::Send, arguments(Some("connect timeout"), None, None));
    let message = made.work().err().expect("refused");
    let report = made.report(WorkOutcome::Failed { message }, 1);
    assert_eq!(report.label, "email_error");
    let error = report.envelope.get("downstreamError").expect("error");
    assert_eq!(error.get("kind"), Some(&text("email_error")));
    assert_eq!(error.get("retryable"), Some(&Json::Bool(false)));
}

#[test]
fn answers_are_read_back() {
    let made = call(EmailOp::Read, arguments(None, None, None));
    let message = fetch_to_json(&FetchedMessage {
        seq: 3,
        envelope: None,
        internal_date: None,
        text: Some("\"\u{0}\u{1f600}\\".as_bytes().to_vec()),
    });
    let report = made.report(WorkOutcome::Read { messages: vec![message] }, 2);
    let response = finalize_payload(&report.envelope).expect("response");
    let back: serde_json::Value = serde_json::from_slice(&response.payload).expect("json");
    assert_eq!(back, to_value(&report.envelope));
}

#[test]
fn depth_to_which_text_is_read_back() {
    let nested = |depth: u32| {
        let mut json = Json::Number(u64::MAX);
        for _ in 0..depth {
            json = Json::Array(vec![json]);
        }
        json
    };
    let written = write_json(&nested(127)).expect("text");
    let back: serde_json::Value = serde_json::from_slice(&written).expect("json");
    assert_eq!(back, to_value(&nested(127)));
    let deeper = write_json(&nested(128)).expect("text");
    assert!(serde_json::from_slice::<serde_json::Value>(&deeper).is_err());
}
