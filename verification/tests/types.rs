use mcpg_backend_email::types::{default_limit, default_mailbox, default_timeout_ms, EmailSpecFields};
use mcpg_backend_email::{EmailBackendSpec, EmailOp, TlsMode};

fn fields(host: &str, port: u16) -> EmailSpecFields {
    EmailSpecFields {
        op: None,
        host: host.to_owned(),
        port,
        tls: None,
        username: None,
        password: None,
        from: None,
        mailbox: None,
        limit: None,
        timeout_ms: None,
    }
}

#[test]
fn op_defaults_to_send() {
    assert_eq!(EmailOp::default(), EmailOp::Send);
}

#[test]
fn tls_defaults_to_implicit() {
    assert_eq!(TlsMode::default(), TlsMode::Implicit);
}

#[test]
fn send_spec_applies_defaults() {
    let spec = EmailBackendSpec::from_fields(EmailSpecFields {
        tls: Some(TlsMode::Starttls),
        username: Some("svc".to_owned()),
        password: Some("${env.SMTP_PW}".to_owned()),
        from: Some("noreply@example.com".to_owned()),
        ..fields("smtp.example.com", 587)
    });
    assert_eq!(spec.op, EmailOp::Send);
    assert_eq!(spec.tls, TlsMode::Starttls);
    assert_eq!(spec.mailbox, "INBOX");
    assert_eq!(spec.limit, 10);
    assert_eq!(spec.timeout_ms, 15_000);
}

#[test]
fn parses_read_spec() {
    let spec = EmailBackendSpec::from_fields(EmailSpecFields {
        op: Some(EmailOp::Read),
        username: Some("svc".to_owned()),
        password: Some("p".to_owned()),
        mailbox: Some("Archive".to_owned()),
        limit: Some(5),
        ..fields("imap.example.com", 993)
    });
    assert_eq!(spec.op, EmailOp::Read);
    assert_eq!(spec.mailbox, "Archive");
    assert_eq!(spec.limit, 5);
}

#[test]
fn what_is_left_out_is_filled_in() {
    let spec = EmailBackendSpec::from_fields(fields("h", 1));
    assert_eq!(spec.host, "h");
    assert_eq!(spec.port, 1);
    assert_eq!(spec.tls, TlsMode::Implicit);
    assert_eq!(spec.username, "");
    assert_eq!(spec.password, "");
    assert_eq!(spec.from, None);
}

#[test]
fn what_is_given_is_kept() {
    let spec = EmailBackendSpec::from_fields(EmailSpecFields {
        op: Some(EmailOp::Read),
        host: "imap.x".to_owned(),
        port: 143,
        tls: Some(TlsMode::Plain),
        username: Some("u".to_owned()),
        password: Some("p".to_owned()),
        from: Some("f@x.org".to_owned()),
        mailbox: Some("M".to_owned()),
        limit: Some(0),
        timeout_ms: Some(1),
    });
    assert_eq!(spec.op, EmailOp::Read);
    assert_eq!(spec.host, "imap.x");
    assert_eq!(spec.port, 143);
    assert_eq!(spec.tls, TlsMode::Plain);
    assert_eq!(spec.username, "u");
    assert_eq!(spec.password, "p");
    assert_eq!(spec.from, Some("f@x.org".to_owned()));
    assert_eq!(spec.mailbox, "M");
    assert_eq!(spec.limit, 0);
    assert_eq!(spec.timeout_ms, 1);
}

#[test]
fn words_for_operations_and_modes() {
    assert_eq!(EmailOp::Send.as_str(), "send");
    assert_eq!(EmailOp::Read.as_str(), "read");
    assert_eq!(TlsMode::Plain.as_str(), "none");
    assert_eq!(TlsMode::Starttls.as_str(), "starttls");
    assert_eq!(TlsMode::Implicit.as_str(), "implicit");
}

#[test]
fn default_values() {
    assert_eq!(default_mailbox(), "INBOX");
    assert_eq!(default_limit(), 10);
    assert_eq!(default_timeout_ms(), 15_000);
}
