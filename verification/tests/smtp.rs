use mcpg_backend_email::smtp::{
    invalid_address, prepare_send, smtp_credentials, smtp_failure, smtp_transport, transport_with,
    SmtpDelivery, SmtpStage,
};
use mcpg_backend_email::TlsMode;

fn prepare(from: &str, to: &str, subject: &str, body: &str) -> Result<SmtpDelivery, String> {
    prepare_send(
        "smtp.x",
        587,
        TlsMode::Starttls,
        "svc",
        "pw",
        from,
        to,
        subject,
        body.to_owned(),
    )
}

fn header(delivery: &SmtpDelivery, name: &str) -> String {
    delivery.message.headers().get_raw(name).expect(name).to_owned()
}

#[test]
fn message_is_built_from_the_arguments() {
    let delivery = match prepare("Alerts <alerts@x.org>", "bob@y.org", "A subject", "the body") {
        Ok(delivery) => delivery,
        Err(words) => panic!("{}", words),
    };
    assert_eq!(header(&delivery, "From"), "Alerts <alerts@x.org>");
    assert_eq!(header(&delivery, "To"), "bob@y.org");
    assert_eq!(header(&delivery, "Subject"), "A subject");
    let written = String::from_utf8(delivery.message.formatted()).expect("text");
    assert!(written.ends_with("\r\n\r\nthe body"));
    assert_eq!(delivery.host, "smtp.x");
    assert_eq!(delivery.port, 587);
    assert_eq!(delivery.tls, TlsMode::Starttls);
    let login = delivery.credentials.expect("login");
    assert_eq!(login.username, "svc");
    assert_eq!(login.password, "pw");
}

#[test]
fn addresses_are_looked_at_in_turn() {
    let from = prepare("nobody", "bob@y.org", "", "").err().expect("from");
    assert!(from.starts_with("invalid from address 'nobody': "), "{}", from);
    let to = prepare("a@x.org", "@", "", "").err().expect("to");
    assert!(to.starts_with("invalid to address '@': "), "{}", to);
    let both = prepare("nobody", "@", "", "").err().expect("both");
    assert!(both.starts_with("invalid from address"), "{}", both);
}

#[test]
fn words_for_an_address() {
    assert_eq!(invalid_address("to", "x", "why"), "invalid to address 'x': why");
}

#[test]
fn only_a_user_logs_in() {
    assert!(smtp_credentials("", "secret").is_none());
    let login = smtp_credentials("u", "").expect("login");
    assert_eq!(login.username, "u");
    assert_eq!(login.password, "");
    let blank = smtp_credentials(" ", "p").expect("login");
    assert_eq!(blank.username, " ");
}

#[test]
fn failures_of_a_delivery_are_redacted() {
    for (stage, words) in [
        (SmtpStage::StarttlsRelay, "smtp starttls relay: no"),
        (SmtpStage::Relay, "smtp relay: no"),
        (SmtpStage::Delivery, "SMTP send failed: no"),
    ] {
        let failure = smtp_failure(stage, "no");
        assert_eq!(failure.message, words);
        assert!(failure.redact);
    }
}

fn envelope(delivery: &SmtpDelivery) -> (Option<String>, Vec<String>) {
    let envelope = delivery.message.envelope();
    (
        envelope.from().map(|a| a.to_string()),
        envelope.to().iter().map(|a| a.to_string()).collect(),
    )
}

#[test]
fn message_goes_from_the_one_to_the_other() {
    let delivery = match prepare("A <a@x.org>", "\"B, C\" <b@y.org>", "", "") {
        Ok(delivery) => delivery,
        Err(words) => panic!("{}", words),
    };
    assert_eq!(
        envelope(&delivery),
        (Some("a@x.org".to_owned()), vec!["b@y.org".to_owned()])
    );
}

#[test]
fn whatever_is_read_without_quotes_is_sent() {
    let names = [
        "", "A", "A B", "  A\t B ", "a.b", "9", "A9 .", "\"\"", "\" \"", "\"a,b\"", "\"a \\\" b\"",
        "\"\\\\\"", "\"x\" y", "\u{e9}t\u{e9}", "\u{3000}", "\"\u{3000}\"", "a\u{a0}b", "\"\u{1}\"",
        "\"\\\t\"", "\"  a   b  \"", "\"<c@d.org>\"", "=?utf-8?q?x?=", "\u{7f}", "a@b", "\"\u{b}x\"",
    ];
    let users = [
        "a", "a.b", "A+b", "\u{e9}", "\"a\"", "\"a.b\"", "\"a b\"", "\"a,b\"", "'o'", "9", "a b",
        "\"\\\"a\\\"\"", "\"\\\"a,b\\\"\"", "\"a\".b", "!#$%&'*+-/=?^_`{|}~", "\"\u{3000}\"",
    ];
    let domains = [
        "x.org", "x", "1.2.3.4", "b\u{fc}cher.example", "x..org", "a-b.c", " x.org", "x . org", "[1.2.3.4]",
    ];
    let mut read: u32 = 0;
    for name in names {
        for user in users {
            for domain in domains {
                for written in [
                    format!("{user}@{domain}"),
                    format!("{name}<{user}@{domain}>"),
                    format!(" {name} <{user}@{domain}> "),
                ] {
                    let mailbox = match written.parse::<lettre::message::Mailbox>() {
                        Ok(mailbox) => mailbox,
                        Err(_) => continue,
                    };
                    let address = mailbox.email.to_string();
                    if address.contains('"') {
                        let _ = prepare(&written, &written, "", "");
                        continue;
                    }
                    read += 1;
                    let delivery = match prepare(&written, &written, "s", "b") {
                        Ok(delivery) => delivery,
                        Err(words) => panic!("{} {}", written, words),
                    };
                    assert_eq!(
                        envelope(&delivery),
                        (Some(address.clone()), vec![address]),
                        "{}",
                        written
                    );
                    assert_eq!(header(&delivery, "From"), mailbox.to_string());
                    assert_eq!(header(&delivery, "To"), mailbox.to_string());
                }
            }
        }
    }
    assert!(read > 1000, "{}", read);
}

#[test]
fn address_that_is_not_read_back_is_refused() {
    let refused = prepare("a@x.org", "\"\\\"a,b\\\"\"@x.org", "", "");
    assert!(refused
        .err()
        .expect("refused")
        .starts_with("building message: "));
}

#[test]
fn subjects_and_bodies_of_any_text() {
    for words in ["", "a\r\nBcc: c@z.org", "\u{0}", "gr\u{fc}\u{df}e \u{1f600}", "\n.\n"] {
        let delivery = match prepare("a@x.org", "b@y.org", words, words) {
            Ok(delivery) => delivery,
            Err(refused) => panic!("{}", refused),
        };
        assert_eq!(header(&delivery, "Subject"), words);
        assert_eq!(envelope(&delivery).1, vec!["b@y.org".to_owned()]);
    }
}

#[test]
fn connection_is_secured_as_the_mode_says() {
    for (tls, shown) in [
        (TlsMode::Plain, "tls: None"),
        (TlsMode::Starttls, "tls: Required"),
        (TlsMode::Implicit, "tls: Wrapper"),
    ] {
        let builder = match smtp_transport("smtp.x", 2525, tls, smtp_credentials("u", "p")) {
            Ok(builder) => builder,
            Err(failure) => panic!("{:?}", failure),
        };
        let held = format!("{builder:?}");
        assert!(held.contains(shown), "{}", held);
        assert!(held.contains("server: \"smtp.x\""), "{}", held);
        assert!(held.contains("port: 2525"), "{}", held);
        assert!(held.contains("credentials: Some("), "{}", held);
    }
}

#[test]
fn connection_without_a_user_has_no_login() {
    let builder = match smtp_transport("smtp.x", 25, TlsMode::Plain, smtp_credentials("", "p")) {
        Ok(builder) => builder,
        Err(failure) => panic!("{:?}", failure),
    };
    assert!(format!("{builder:?}").contains("credentials: None"));
}

#[test]
fn delivery_reaches_the_server_that_it_names() {
    let delivery = match prepare("a@x.org", "b@y.org", "s", "b") {
        Ok(delivery) => delivery,
        Err(words) => panic!("{}", words),
    };
    let (builder, message) = match delivery.transport() {
        Ok(reached) => reached,
        Err(failure) => panic!("{:?}", failure),
    };
    let held = format!("{builder:?}");
    assert!(held.contains("server: \"smtp.x\""), "{}", held);
    assert!(held.contains("port: 587"), "{}", held);
    assert!(held.contains("tls: Required"), "{}", held);
    assert!(held.contains("credentials: Some("), "{}", held);
    assert_eq!(message.headers().get_raw("To"), Some("b@y.org"));
}

#[test]
fn connection_that_cannot_be_set_up() {
    for (stage, words) in [
        (SmtpStage::StarttlsRelay, "smtp starttls relay: why"),
        (SmtpStage::Relay, "smtp relay: why"),
    ] {
        let failure = transport_with(Err("why".to_owned()), stage, 25, None)
            .err()
            .expect("failure");
        assert_eq!(failure.message, words);
        assert!(failure.redact);
    }
}
