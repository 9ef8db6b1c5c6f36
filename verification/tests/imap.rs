use mcpg_backend_email::email::FetchedMessage;
use mcpg_backend_email::imap::{
    fetch_range, fetch_sequence, invalid_server_name, ImapRead, ReadAction, ReadEvent, ReadStage,
};
use mcpg_backend_email::json::Json;
use mcpg_backend_email::profile::EmailProfile;
use mcpg_backend_email::{EmailOp, TlsMode};

fn profile(tls: TlsMode, limit: usize) -> EmailProfile {
    EmailProfile {
        op: EmailOp::Read,
        host: "imap.example.com".to_owned(),
        port: 993,
        tls,
        username: "svc".to_owned(),
        password: "pw".to_owned(),
        from: String::new(),
        mailbox: "INBOX".to_owned(),
        limit,
        timeout_ms: 15_000,
    }
}

fn message(seq: u32) -> FetchedMessage {
    FetchedMessage {
        seq,
        envelope: None,
        internal_date: None,
        text: None,
    }
}

fn failed() -> ReadEvent {
    ReadEvent::Failed {
        detail: "why".to_owned(),
    }
}

fn step(read: &mut ImapRead, event: ReadEvent) -> ReadAction {
    assert!(read.expects(&event));
    read.step(event)
}

/// A conversation that was led to the given stage.
fn led_to(stage: ReadStage) -> ImapRead {
    let (mut read, _) = ImapRead::start(profile(TlsMode::Implicit, 10));
    while read.stage != stage {
        let event = match read.stage {
            ReadStage::Select => ReadEvent::Selected { exists: 3 },
            ReadStage::Receive => ReadEvent::Exhausted,
            _ => ReadEvent::Done,
        };
        step(&mut read, event);
    }
    read
}

fn failure_words(action: ReadAction) -> (String, bool) {
    match action {
        ReadAction::Fail { failure } => (failure.message, failure.redact),
        _ => panic!("no failure"),
    }
}

#[test]
fn ranges_of_recent_messages() {
    assert_eq!(fetch_range(0, 10), None);
    assert_eq!(fetch_range(3, 0), None);
    assert_eq!(fetch_range(3, 10), Some((1, 3)));
    assert_eq!(fetch_range(10, 10), Some((1, 10)));
    assert_eq!(fetch_range(11, 10), Some((2, 11)));
    assert_eq!(fetch_range(5, 1), Some((5, 5)));
    assert_eq!(fetch_range(5, usize::MAX), Some((1, 5)));
    assert_eq!(fetch_range(u32::MAX, 2), Some((u32::MAX - 1, u32::MAX)));
    assert_eq!(fetch_range(u32::MAX, usize::MAX), Some((1, u32::MAX)));
}

#[test]
fn sequences_are_written_with_a_colon() {
    assert_eq!(fetch_sequence(2, 11), "2:11");
    assert_eq!(fetch_sequence(1, u32::MAX), "1:4294967295");
}

#[test]
fn secured_conversation_from_start_to_end() {
    let (mut read, first) = ImapRead::start(profile(TlsMode::Implicit, 2));
    match first {
        ReadAction::Connect { host, port } => {
            assert_eq!(host, "imap.example.com");
            assert_eq!(port, 993);
        }
        _ => panic!("connect"),
    }
    assert!(matches!(step(&mut read, ReadEvent::Done), ReadAction::ConfigureTls));
    match step(&mut read, ReadEvent::Done) {
        ReadAction::Handshake { server_name } => {
            assert_eq!(server_name.to_str(), "imap.example.com");
        }
        _ => panic!("handshake"),
    }
    match step(&mut read, ReadEvent::Done) {
        ReadAction::Login { username, password } => {
            assert_eq!(username, "svc");
            assert_eq!(password, "pw");
        }
        _ => panic!("login"),
    }
    match step(&mut read, ReadEvent::Done) {
        ReadAction::Select { mailbox } => assert_eq!(mailbox, "INBOX"),
        _ => panic!("select"),
    }
    match step(&mut read, ReadEvent::Selected { exists: 7 }) {
        ReadAction::Fetch { sequence, items } => {
            assert_eq!(sequence, "6:7");
            assert_eq!(items, "(ENVELOPE INTERNALDATE BODY.PEEK[TEXT])");
        }
        _ => panic!("fetch"),
    }
    assert!(matches!(step(&mut read, ReadEvent::Done), ReadAction::Receive));
    for seq in [6, 7] {
        let event = ReadEvent::Received {
            message: message(seq),
        };
        assert!(matches!(step(&mut read, event), ReadAction::Receive));
    }
    assert!(matches!(step(&mut read, ReadEvent::Exhausted), ReadAction::Logout));
    match step(&mut read, ReadEvent::Done) {
        ReadAction::Finish { messages } => {
            assert_eq!(messages.len(), 2);
            assert_eq!(messages[0].get("seq"), Some(&Json::Number(6)));
            assert_eq!(messages[1].get("seq"), Some(&Json::Number(7)));
        }
        _ => panic!("finish"),
    }
    assert_eq!(read.stage, ReadStage::End);
    assert!(!read.expects(&ReadEvent::Done));
    assert!(!read.expects(&failed()));
}

#[test]
fn plaintext_conversation_logs_in_at_once() {
    let (mut read, _) = ImapRead::start(profile(TlsMode::Plain, 10));
    assert!(matches!(step(&mut read, ReadEvent::Done), ReadAction::Login { .. }));
}

#[test]
fn upgrade_is_not_supported() {
    let (mut read, _) = ImapRead::start(profile(TlsMode::Starttls, 10));
    assert_eq!(
        failure_words(step(&mut read, ReadEvent::Done)),
        (
            "IMAP STARTTLS is not supported in v1; use implicit TLS (imaps) or none".to_owned(),
            false
        )
    );
}

#[test]
fn host_that_is_no_server_name() {
    let mut bad = profile(TlsMode::Implicit, 10);
    bad.host = "not a name".to_owned();
    let (mut read, _) = ImapRead::start(bad);
    step(&mut read, ReadEvent::Done);
    let (words, redact) = failure_words(step(&mut read, ReadEvent::Done));
    assert!(words.starts_with("invalid IMAP server name 'not a name': "), "{}", words);
    assert!(!redact);
    assert_eq!(
        invalid_server_name("h", "why").message,
        "invalid IMAP server name 'h': why"
    );
}

#[test]
fn server_can_be_an_ip_address() {
    let mut by_number = profile(TlsMode::Implicit, 10);
    by_number.host = "127.0.0.1".to_owned();
    let (mut read, _) = ImapRead::start(by_number);
    step(&mut read, ReadEvent::Done);
    match step(&mut read, ReadEvent::Done) {
        ReadAction::Handshake { server_name } => assert_eq!(server_name.to_str(), "127.0.0.1"),
        _ => panic!("handshake"),
    }
}

#[test]
fn words_for_each_step_that_fails() {
    for (stage, words, redact) in [
        (ReadStage::Connect, "IMAP connect failed: why", true),
        (ReadStage::ConfigureTls, "rustls config: why", false),
        (ReadStage::Handshake, "IMAP TLS handshake failed: why", false),
        (ReadStage::Login, "IMAP login failed: why", true),
        (ReadStage::Select, "IMAP select 'INBOX' failed: why", false),
        (ReadStage::Fetch, "IMAP fetch failed: why", false),
        (ReadStage::Receive, "IMAP fetch read failed: why", false),
    ] {
        let mut read = led_to(stage);
        assert_eq!(
            failure_words(step(&mut read, failed())),
            (words.to_owned(), redact)
        );
        assert_eq!(read.stage, ReadStage::End);
    }
}

#[test]
fn logout_that_fails_is_of_no_account() {
    let mut read = led_to(ReadStage::Logout);
    assert!(matches!(step(&mut read, failed()), ReadAction::Finish { .. }));
}

#[test]
fn nothing_is_fetched_of_an_empty_mailbox() {
    let mut read = led_to(ReadStage::Select);
    assert!(matches!(
        step(&mut read, ReadEvent::Selected { exists: 0 }),
        ReadAction::Logout
    ));
    match step(&mut read, ReadEvent::Done) {
        ReadAction::Finish { messages } => assert!(messages.is_empty()),
        _ => panic!("finish"),
    }
}

#[test]
fn nothing_is_fetched_where_the_limit_is_zero() {
    let (mut read, _) = ImapRead::start(profile(TlsMode::Plain, 0));
    step(&mut read, ReadEvent::Done);
    step(&mut read, ReadEvent::Done);
    assert!(matches!(
        step(&mut read, ReadEvent::Selected { exists: 9 }),
        ReadAction::Logout
    ));
}

#[test]
fn events_fit_their_steps() {
    let read = led_to(ReadStage::Select);
    assert!(read.expects(&ReadEvent::Selected { exists: 1 }));
    assert!(read.expects(&failed()));
    assert!(!read.expects(&ReadEvent::Done));
    assert!(!read.expects(&ReadEvent::Exhausted));
    let receiving = led_to(ReadStage::Receive);
    assert!(receiving.expects(&ReadEvent::Received { message: message(1) }));
    assert!(receiving.expects(&ReadEvent::Exhausted));
    assert!(!receiving.expects(&ReadEvent::Done));
}
