use mcpg_backend_email::email::{
    address_to_string, addresses_to_json, bytes_lossy, fetch_to_json, format_address, show,
    Address, FetchedMessage, InternalDate, MessageEnvelope,
};
use mcpg_backend_email::json::Json;

fn address(name: Option<&str>, mailbox: Option<&str>, host: Option<&str>) -> Address {
    Address {
        name: name.map(|s| s.as_bytes().to_vec()),
        adl: None,
        mailbox: mailbox.map(|s| s.as_bytes().to_vec()),
        host: host.map(|s| s.as_bytes().to_vec()),
    }
}

fn text(words: &str) -> Json {
    Json::Str(words.to_owned())
}

#[test]
fn address_with_name() {
    let a = Address {
        name: Some(b"Alice".to_vec()),
        adl: None,
        mailbox: Some(b"alice".to_vec()),
        host: Some(b"example.org".to_vec()),
    };
    assert_eq!(address_to_string(&a), "Alice <alice@example.org>");
}

#[test]
fn address_without_name() {
    let a = Address {
        name: None,
        adl: None,
        mailbox: Some(b"bob".to_vec()),
        host: Some(b"example.org".to_vec()),
    };
    assert_eq!(address_to_string(&a), "bob@example.org");
}

#[test]
fn address_with_parts_missing() {
    assert_eq!(address_to_string(&address(Some(""), Some("bob"), Some("x"))), "bob@x");
    assert_eq!(address_to_string(&address(None, Some("bob"), None)), "bob");
    assert_eq!(address_to_string(&address(None, Some("bob"), Some(""))), "bob");
    assert_eq!(address_to_string(&address(None, None, Some("x"))), "@x");
    assert_eq!(address_to_string(&address(Some("N"), None, None)), "N <>");
    assert_eq!(address_to_string(&address(None, None, None)), "");
    assert_eq!(format_address("N", "m", "h"), "N <m@h>");
}

#[test]
fn addresses_keep_their_order() {
    let list = vec![
        address(None, Some("a"), Some("x")),
        address(Some("B"), Some("b"), Some("x")),
    ];
    assert_eq!(addresses_to_json(&list), vec!["a@x".to_owned(), "B <b@x>".to_owned()]);
    assert!(addresses_to_json(&vec![]).is_empty());
}

#[test]
fn bytes_that_are_not_text_are_replaced() {
    assert_eq!(bytes_lossy("gr\u{fc}\u{df}e".as_bytes()), "gr\u{fc}\u{df}e");
    assert_eq!(bytes_lossy(b"a\xffb"), "a\u{fffd}b");
    assert_eq!(bytes_lossy(b""), "");
    for bytes in [b"a\xffb".as_slice(), b"\xc3", b"\xed\xa0\x80x", b" \xe2\x82 "] {
        let shown = bytes_lossy(bytes);
        assert!(shown.contains('\u{fffd}'));
        assert_eq!(bytes_lossy(shown.as_bytes()), shown);
    }
}

#[test]
fn message_in_full() {
    let message = FetchedMessage {
        seq: 12,
        envelope: Some(MessageEnvelope {
            from: Some(vec![address(Some("Alice"), Some("alice"), Some("x"))]),
            to: Some(vec![address(None, Some("shared"), Some("corp"))]),
            subject: Some(b"Re: ticket".to_vec()),
            date: Some(b"Tue, 10 Jun 2026".to_vec()),
        }),
        internal_date: Some(InternalDate {
            timestamp: 1_781_082_000,
            subsec_nanos: 0,
            offset_seconds: 0,
        }),
        text: Some(b"the plain-text body".to_vec()),
    };
    let json = fetch_to_json(&message);
    assert_eq!(json.get("seq"), Some(&Json::Number(12)));
    assert_eq!(json.get("from"), Some(&Json::Array(vec![text("Alice <alice@x>")])));
    assert_eq!(json.get("to"), Some(&Json::Array(vec![text("shared@corp")])));
    assert_eq!(json.get("subject"), Some(&text("Re: ticket")));
    assert_eq!(json.get("date"), Some(&text("Tue, 10 Jun 2026")));
    assert_eq!(json.get("internalDate"), Some(&text("2026-06-10T09:00:00+00:00")));
    assert_eq!(json.get("body"), Some(&text("the plain-text body")));
}

#[test]
fn message_without_anything() {
    let message = FetchedMessage {
        seq: 1,
        envelope: None,
        internal_date: None,
        text: None,
    };
    let json = fetch_to_json(&message);
    assert_eq!(json.get("seq"), Some(&Json::Number(1)));
    for key in ["from", "to", "subject", "date", "internalDate", "body"] {
        assert_eq!(json.get(key), Some(&Json::Null), "{}", key);
    }
}

#[test]
fn dates_are_shown_in_the_time_of_the_server() {
    let mut message = FetchedMessage {
        seq: 1,
        envelope: None,
        internal_date: Some(InternalDate {
            timestamp: 1_781_082_000,
            subsec_nanos: 500_000_000,
            offset_seconds: 5_400,
        }),
        text: None,
    };
    assert_eq!(
        show(&message).internal_date,
        Some("2026-06-10T10:30:00.500+01:30".to_owned())
    );
    message.internal_date = Some(InternalDate {
        timestamp: 0,
        subsec_nanos: 0,
        offset_seconds: 86_400,
    });
    assert_eq!(show(&message).internal_date, None);
}
