use mcpg_backend_email::backend::{BackendError, BackendRequest};
use mcpg_backend_email::types::EmailSpecFields;
use mcpg_backend_email::{EmailBackendPlugin, EmailOp, TlsMode};

fn send_spec() -> EmailSpecFields {
    EmailSpecFields {
        op: Some(EmailOp::Send),
        host: "smtp.example.com".to_owned(),
        port: 587,
        tls: Some(TlsMode::Starttls),
        username: Some("svc".to_owned()),
        password: Some("${env.SMTP_PW}".to_owned()),
        from: Some("noreply@example.com".to_owned()),
        mailbox: None,
        limit: None,
        timeout_ms: None,
    }
}

fn read_spec() -> EmailSpecFields {
    EmailSpecFields {
        op: Some(EmailOp::Read),
        host: "imap.x".to_owned(),
        port: 993,
        tls: None,
        username: Some("svc".to_owned()),
        password: None,
        from: None,
        mailbox: None,
        limit: None,
        timeout_ms: None,
    }
}

fn request(payload: &[u8]) -> BackendRequest {
    BackendRequest {
        payload: payload.to_vec(),
        headers: vec![("Mcpg-Tool-Name".to_owned(), "alerts.notify".to_owned())],
        request_id: "rq-1".to_owned(),
    }
}

fn refusal(spec: EmailSpecFields) -> String {
    let mut plugin = EmailBackendPlugin::new();
    match plugin.register_profile("x", Ok(spec)) {
        Err(BackendError::InvalidSpec { message }) => {
            assert!(plugin.profile("x").is_none());
            message
        }
        other => panic!("{:?}", other),
    }
}

#[test]
fn kind_is_email() {
    assert_eq!(EmailBackendPlugin::new().kind(), "email");
}

#[test]
fn register_accepts_send_spec() {
    let mut plugin = EmailBackendPlugin::new();
    plugin.register_profile("mail", Ok(send_spec())).expect("register");
    assert_eq!(plugin.profile("mail").unwrap().op, EmailOp::Send);
}

#[test]
fn register_rejects_send_without_from() {
    let mut plugin = EmailBackendPlugin::new();
    let mut spec = send_spec();
    spec.from = None;
    let err = plugin.register_profile("x", Ok(spec)).expect_err("no from");
    assert!(matches!(err, BackendError::InvalidSpec { .. }));
}

#[test]
fn register_rejects_read_without_username() {
    let mut plugin = EmailBackendPlugin::new();
    let mut spec = read_spec();
    spec.username = None;
    assert_eq!(spec.host, "imap.x");
    assert_eq!(spec.port, 993);
    let err = plugin.register_profile("x", Ok(spec)).expect_err("no username");
    assert!(matches!(err, BackendError::InvalidSpec { .. }));
}

#[test]
fn register_rejects_cred_password() {
    let mut plugin = EmailBackendPlugin::new();
    let mut spec = send_spec();
    spec.password = Some("cred://vault/smtp".to_owned());
    let err = plugin.register_profile("x", Ok(spec)).expect_err("cred password");
    assert!(matches!(err, BackendError::InvalidSpec { .. }));
}

#[test]
fn register_omitting_tls_resolves_to_secure_implicit() {
    let mut plugin = EmailBackendPlugin::new();
    let mut spec = send_spec();
    spec.tls = None;
    assert!(spec.tls.is_none(), "precondition: spec must omit tls");
    plugin.register_profile("mail", Ok(spec)).expect("register");
    let resolved = plugin.profile("mail").expect("profile").tls;
    assert_eq!(
        resolved,
        TlsMode::Implicit,
        "omitted tls must resolve to the secure implicit default, never plaintext"
    );
    assert_ne!(resolved, TlsMode::Plain, "must never downgrade to plaintext");
}

#[test]
fn register_rejects_bad_tls_value() {
    let mut plugin = EmailBackendPlugin::new();
    let words = "unknown variant `bogus`, expected one of `none`, `starttls`, `implicit`";
    let err = plugin
        .register_profile("x", Err(words.to_owned()))
        .expect_err("bad tls");
    assert!(matches!(err, BackendError::InvalidSpec { .. }));
    assert_eq!(
        err,
        BackendError::InvalidSpec {
            message: format!("Email binding spec: {words}"),
        }
    );
    assert!(plugin.profile("x").is_none());
}

#[test]
fn register_rejects_cred_in_transport_only_host() {
    let mut plugin = EmailBackendPlugin::new();
    let mut spec = send_spec();
    spec.host = "cred://vault/smtp-host".to_owned();
    let err = plugin.register_profile("x", Ok(spec)).expect_err("cred host");
    assert!(matches!(err, BackendError::InvalidSpec { .. }));
}

#[test]
fn execute_unknown_profile_is_profile_not_found() {
    let plugin = EmailBackendPlugin::new();
    let req = BackendRequest {
        payload: vec![],
        headers: vec![],
        request_id: "rq-1".to_owned(),
    };
    let err = plugin.begin("missing", &req).err().expect("missing");
    assert!(matches!(err, BackendError::ProfileNotFound { .. }));
    assert_eq!(
        err,
        BackendError::ProfileNotFound {
            backend_name: "missing".to_owned(),
        }
    );
}

#[test]
fn words_for_each_rule() {
    let mut spec = send_spec();
    spec.host = " \t".to_owned();
    spec.port = 0;
    assert_eq!(refusal(spec), "host must not be empty");
    let mut spec = send_spec();
    spec.port = 0;
    spec.timeout_ms = Some(0);
    assert_eq!(refusal(spec), "port must be greater than 0");
    let mut spec = send_spec();
    spec.timeout_ms = Some(0);
    spec.password = Some("cred://x".to_owned());
    assert_eq!(refusal(spec), "timeout_ms must be greater than 0");
    let mut spec = send_spec();
    spec.password = Some("cred://x".to_owned());
    spec.host = "cred://x".to_owned();
    assert_eq!(
        refusal(spec),
        "password must not be a cred:// URI — per-caller credentials are unsupported; \
         use ${env.X} / vault:// (resolved at config load)"
    );
    let mut spec = send_spec();
    spec.host = "  cred://x".to_owned();
    spec.from = None;
    assert_eq!(
        refusal(spec),
        "host is a transport-only field and must not be a cred:// URI"
    );
    let mut spec = send_spec();
    spec.from = Some("  ".to_owned());
    assert_eq!(refusal(spec), "op 'send' requires a 'from' address");
    let mut spec = read_spec();
    spec.username = Some(" ".to_owned());
    spec.tls = Some(TlsMode::Starttls);
    assert_eq!(refusal(spec), "op 'read' requires a username (IMAP login)");
    let mut spec = read_spec();
    spec.tls = Some(TlsMode::Starttls);
    assert_eq!(
        refusal(spec),
        "op 'read' does not support tls 'starttls' in v1 — use 'implicit' or 'none'"
    );
}

#[test]
fn profile_keeps_what_its_operation_needs() {
    let mut plugin = EmailBackendPlugin::default();
    let mut spec = read_spec();
    spec.from = Some("ignored@x.org".to_owned());
    spec.limit = Some(3);
    plugin.register_profile("in", Ok(spec)).expect("register");
    let mut spec = send_spec();
    spec.mailbox = Some("ignored".to_owned());
    plugin.register_profile("out", Ok(spec)).expect("register");
    let reading = plugin.profile("in").expect("in");
    assert_eq!(reading.from, "");
    assert_eq!(reading.mailbox, "INBOX");
    assert_eq!(reading.limit, 3);
    assert_eq!(reading.timeout_ms, 15_000);
    let sending = plugin.profile("out").expect("out");
    assert_eq!(sending.from, "noreply@example.com");
    assert_eq!(sending.mailbox, "");
    assert_eq!(sending.username, "svc");
    assert_eq!(sending.password, "${env.SMTP_PW}");
}

#[test]
fn registering_again_replaces_and_touches_no_other() {
    let mut plugin = EmailBackendPlugin::new();
    plugin.register_profile("a", Ok(send_spec())).expect("a");
    plugin.register_profile("b", Ok(read_spec())).expect("b");
    let mut spec = send_spec();
    spec.host = "other.example.com".to_owned();
    plugin.register_profile("a", Ok(spec)).expect("a again");
    assert_eq!(plugin.profile("a").expect("a").host, "other.example.com");
    assert_eq!(plugin.profile("b").expect("b").host, "imap.x");
    let mut spec = send_spec();
    spec.port = 0;
    plugin.register_profile("a", Ok(spec)).expect_err("refused");
    assert_eq!(plugin.profile("a").expect("a").host, "other.example.com");
    assert_eq!(plugin.profile("a").expect("a").port, 587);
    assert!(plugin.profile("A").is_none());
}

#[test]
fn call_of_a_binding() {
    let mut plugin = EmailBackendPlugin::new();
    plugin.register_profile("mail", Ok(send_spec())).expect("register");
    let call = match plugin.begin("mail", &request(br#"{"to":"b@y.org"}"#)) {
        Ok(call) => call,
        Err(error) => panic!("{:?}", error),
    };
    assert_eq!(call.backend_name, "mail");
    assert_eq!(call.tool_name, "alerts.notify");
    assert_eq!(call.profile.host, "smtp.example.com");
    assert_eq!(call.arguments.to, Some("b@y.org".to_owned()));
    assert_eq!(call.arguments.subject, None);
}

#[test]
fn metadata_names_the_transport() {
    let metadata = EmailBackendPlugin::audit_metadata("mail");
    assert_eq!(metadata.len(), 1);
    assert_eq!(
        metadata.get("email.transport").and_then(|v| v.as_str()),
        Some("plugin")
    );
}

#[test]
fn order_of_registration_is_of_no_account() {
    let mut one = EmailBackendPlugin::new();
    one.register_profile("a", Ok(send_spec())).expect("a");
    one.register_profile("b", Ok(read_spec())).expect("b");
    let mut other = EmailBackendPlugin::new();
    other.register_profile("b", Ok(read_spec())).expect("b");
    other.register_profile("a", Ok(send_spec())).expect("a");
    for name in ["a", "b"] {
        let left = one.profile(name).expect(name);
        let right = other.profile(name).expect(name);
        assert_eq!(left.op, right.op);
        assert_eq!(left.host, right.host);
    }
    assert!(one.profile("c").is_none() && other.profile("c").is_none());
}
