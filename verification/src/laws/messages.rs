//! Laws of messages: what a response says of one that was fetched.
use crate::email::{address_text, lossy_text, message_view, rfc3339_text, text_of};
use crate::email::{Address, FetchedMessage};
use crate::json::JsonView;
use vstd::prelude::*;
use vstd::utf8::{decode_utf8, encode_utf8, encode_utf8_decode_utf8, encode_utf8_valid_utf8, valid_utf8};

verus! {

/// Bytes that are UTF-8 are shown as what they decode to, and others as the standard library replaces
/// them.
pub proof fn how_bytes_are_shown(bytes: Seq<u8>)
    ensures
        valid_utf8(bytes) ==> text_of(bytes) == decode_utf8(bytes),
        !valid_utf8(bytes) ==> text_of(bytes) == lossy_text(bytes),
{
}

/// The text that optional bytes are shown as: none where there are none.
pub open spec fn part(bytes: Option<Vec<u8>>) -> Seq<char> {
    match bytes {
        Some(b) => text_of(b@),
        None => Seq::empty(),
    }
}

/// How an address is shown: its name, and its mailbox and host in angle brackets; without the name, and
/// the brackets, where there is no name; without the host where there is none.
pub proof fn how_an_address_is_shown(address: Address)
    ensures
        ({
            let name = part(address.name);
            let mailbox = part(address.mailbox);
            let host = part(address.host);
            &&& name.len() > 0 && host.len() > 0 ==> address_text(address) == name + " <"@ + mailbox
                + "@"@ + host + ">"@
            &&& name.len() > 0 && host.len() == 0 ==> address_text(address) == name + " <"@ + mailbox
                + ">"@
            &&& name.len() == 0 && host.len() > 0 ==> address_text(address) == mailbox + "@"@ + host
            &&& name.len() == 0 && host.len() == 0 ==> address_text(address) == mailbox
        }),
{
    let name = part(address.name);
    let mailbox = part(address.mailbox);
    let host = part(address.host);
    assert(name + " <"@ + (mailbox + "@"@ + host) + ">"@ =~= name + " <"@ + mailbox + "@"@ + host
        + ">"@);
}

/// An address whose parts are texts is shown with those texts.
pub proof fn addresses_of_texts(address: Address, name: Seq<char>, mailbox: Seq<char>, host: Seq<char>)
    requires
        address.name matches Some(b) && b@ == encode_utf8(name),
        address.mailbox matches Some(b) && b@ == encode_utf8(mailbox),
        address.host matches Some(b) && b@ == encode_utf8(host),
        name.len() > 0,
        host.len() > 0,
    ensures
        address_text(address) == name + " <"@ + mailbox + "@"@ + host + ">"@,
{
    how_an_address_is_shown(address);
    encode_utf8_valid_utf8(name);
    encode_utf8_decode_utf8(name);
    encode_utf8_valid_utf8(mailbox);
    encode_utf8_decode_utf8(mailbox);
    encode_utf8_valid_utf8(host);
    encode_utf8_decode_utf8(host);
}

/// Whether a value lists addresses: as many as there are, each as it is shown and in its place.
pub open spec fn lists(json: JsonView, addresses: Seq<Address>) -> bool {
    json matches JsonView::Array(items) && items.len() == addresses.len() && forall|i: int|
        0 <= i < addresses.len() ==> #[trigger] items[i] == JsonView::Str(address_text(addresses[i]))
}

/// Whether a value lists addresses where there is a list, and is `null` where there is none.
pub open spec fn lists_any(json: JsonView, addresses: Option<Vec<Address>>) -> bool {
    match addresses {
        Some(list) => lists(json, list@),
        None => json == JsonView::Null,
    }
}

/// Whether a value is the text of bytes where there are any, and `null` where there are none.
pub open spec fn shows_any(json: JsonView, bytes: Option<Vec<u8>>) -> bool {
    match bytes {
        Some(b) => json == JsonView::Str(text_of(b@)),
        None => json == JsonView::Null,
    }
}

/// What a response says of a message: its number; every sender and every recipient of its envelope, in
/// order; its subject and date; when the server received it; and its body. What the server did not send is
/// `null`, and nothing else is said.
pub proof fn what_is_said_of_a_message(message: FetchedMessage)
    ensures
        message_view(message) is Object,
        message_view(message)->Object_0.dom() == set![
            "seq"@,
            "from"@,
            "to"@,
            "subject"@,
            "date"@,
            "internalDate"@,
            "body"@,
        ],
        ({
            let members = message_view(message)->Object_0;
            &&& members["seq"@] == JsonView::Number(message.seq as u64)
            &&& message.envelope matches Some(envelope) ==> {
                &&& lists_any(members["from"@], envelope.from)
                &&& lists_any(members["to"@], envelope.to)
                &&& shows_any(members["subject"@], envelope.subject)
                &&& shows_any(members["date"@], envelope.date)
            }
            &&& message.envelope is None ==> {
                &&& members["from"@] == JsonView::Null
                &&& members["to"@] == JsonView::Null
                &&& members["subject"@] == JsonView::Null
                &&& members["date"@] == JsonView::Null
            }
            &&& members["internalDate"@] == match message.internal_date {
                Some(d) => match rfc3339_text(d.timestamp, d.subsec_nanos, d.offset_seconds) {
                    Some(text) => JsonView::Str(text),
                    None => JsonView::Null,
                },
                None => JsonView::Null,
            }
            &&& shows_any(members["body"@], message.text)
        }),
{
    reveal_strlit("seq");
    reveal_strlit("from");
    reveal_strlit("to");
    reveal_strlit("subject");
    reveal_strlit("date");
    reveal_strlit("internalDate");
    reveal_strlit("body");
    assert("seq"@.len() == 3 && "to"@.len() == 2 && "subject"@.len() == 7);
    assert("from"@.len() == 4 && "date"@.len() == 4 && "body"@.len() == 4);
    assert("from"@[0] == 'f' && "date"@[0] == 'd' && "body"@[0] == 'b');
    assert("internalDate"@.len() == 12);
    assert(message_view(message)->Object_0.dom() =~= set![
        "seq"@,
        "from"@,
        "to"@,
        "subject"@,
        "date"@,
        "internalDate"@,
        "body"@,
    ]);
}

} // verus!
