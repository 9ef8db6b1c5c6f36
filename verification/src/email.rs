//! Messages that were fetched from a mailbox, and what a response says of them.
use crate::json::{items_model, lemma_items_model};
use crate::json::{Json, JsonObject, JsonView};
use crate::text::joined;
use crate::types::text_view;
use vstd::prelude::*;
use vstd::utf8::{decode_utf8, encode_utf8, valid_utf8};
use vstd::utf8::{encode_utf8_decode_utf8, encode_utf8_valid_utf8};

verus! {

// ----------------------------------------------------------------------------- types

/// An address of a message's envelope, each part as the server sent it.
#[derive(Debug)]
pub struct Address {
    pub name: Option<Vec<u8>>,
    pub adl: Option<Vec<u8>>,
    pub mailbox: Option<Vec<u8>>,
    pub host: Option<Vec<u8>>,
}

/// The parts of a message's envelope that a response shows.
#[derive(Debug)]
pub struct MessageEnvelope {
    pub from: Option<Vec<Address>>,
    pub to: Option<Vec<Address>>,
    pub subject: Option<Vec<u8>>,
    pub date: Option<Vec<u8>>,
}

/// When the server received a message: seconds and nanoseconds since the start of 1970 in UTC (a
/// leap second has more than 999_999_999 of the latter), and how many seconds the local time that
/// the server gave is ahead of UTC.
#[derive(Debug, Clone, Copy, PartialEq, Eq)]
pub struct InternalDate {
    pub timestamp: i64,
    pub subsec_nanos: u32,
    pub offset_seconds: i32,
}

/// A message as it was fetched.
#[derive(Debug)]
pub struct FetchedMessage {
    /// Its ordinal number in the mailbox.
    pub seq: u32,
    pub envelope: Option<MessageEnvelope>,
    pub internal_date: Option<InternalDate>,
    pub text: Option<Vec<u8>>,
}

// ---------------------------------------------------------------------- outside calls

/// What `String::from_utf8_lossy` makes of bytes.
pub uninterp spec fn lossy_text(bytes: Seq<u8>) -> Seq<char>;

/// `String::from_utf8_lossy`: the text depends on the bytes alone. Bytes that are UTF-8 are decoded as
/// they stand; where some are not, a replacement character stands in the text. How many bytes one such
/// character stands for is not said here.
#[verifier::external_body]
fn from_utf8_lossy(bytes: &[u8]) -> (text: String)
    ensures
        text@ == lossy_text(bytes@),
        valid_utf8(bytes@) ==> text@ == decode_utf8(bytes@),
        !valid_utf8(bytes@) ==> text@.contains('\u{fffd}'),
{
    String::from_utf8_lossy(bytes).into_owned()
}

/// Bytes as text: as they stand where they are UTF-8, with replacements where they are not.
pub open spec fn text_of(bytes: Seq<u8>) -> Seq<char> {
    if valid_utf8(bytes) {
        decode_utf8(bytes)
    } else {
        lossy_text(bytes)
    }
}

/// How `chrono` writes a moment, given by its timestamp, nanoseconds and offset from UTC; nothing
/// where it takes no such moment or offset.
pub uninterp spec fn rfc3339_text(timestamp: i64, subsec_nanos: u32, offset_seconds: i32) -> Option<
    Seq<char>,
>;

/// `chrono::DateTime::to_rfc3339`, on the moment that `DateTime::from_timestamp` and
/// `FixedOffset::east_opt` make of the numbers: what is written depends on the numbers alone.
#[verifier::external_body]
fn to_rfc3339(timestamp: i64, subsec_nanos: u32, offset_seconds: i32) -> (text: Option<String>)
    ensures
        match text {
            Some(t) => rfc3339_text(timestamp, subsec_nanos, offset_seconds) == Some(t@),
            None => rfc3339_text(timestamp, subsec_nanos, offset_seconds) is None,
        },
{
    let offset = chrono::FixedOffset::east_opt(offset_seconds)?;
    let moment = chrono::DateTime::from_timestamp(timestamp, subsec_nanos)?;
    Some(moment.with_timezone(&offset).to_rfc3339())
}

// --------------------------------------------------------------------------- addresses

/// Bytes as text, or nothing where there are none.
pub open spec fn text_or_empty(bytes: Option<Vec<u8>>) -> Seq<char> {
    match bytes {
        Some(b) => text_of(b@),
        None => Seq::empty(),
    }
}

/// `mailbox@host`, or the mailbox alone where the host is empty.
pub open spec fn mail_address(mailbox: Seq<char>, host: Seq<char>) -> Seq<char> {
    if host.len() == 0 {
        mailbox
    } else {
        mailbox + "@"@ + host
    }
}

/// `name <email>`, or the address alone where the name is empty.
pub open spec fn named_address(name: Seq<char>, email: Seq<char>) -> Seq<char> {
    if name.len() == 0 {
        email
    } else {
        name + " <"@ + email + ">"@
    }
}

/// How an address is shown.
pub open spec fn address_text(address: Address) -> Seq<char> {
    named_address(
        text_or_empty(address.name),
        mail_address(text_or_empty(address.mailbox), text_or_empty(address.host)),
    )
}

/// How each of a list of addresses is shown.
pub open spec fn addresses_text(addresses: Seq<Address>) -> Seq<Seq<char>> {
    Seq::new(addresses.len(), |i: int| address_text(addresses[i]))
}

/// Bytes as text; what is not UTF-8 is replaced.
pub fn bytes_lossy(bytes: &[u8]) -> (text: String)
    ensures
        text@ == text_of(bytes@),
        !valid_utf8(bytes@) ==> text@.contains('\u{fffd}'),
{
    from_utf8_lossy(bytes)
}

/// Optional bytes as text.
fn optional_lossy(bytes: &Option<Vec<u8>>) -> (text: String)
    ensures
        text@ == text_or_empty(*bytes),
{
    match bytes {
        Some(b) => bytes_lossy(b.as_slice()),
        None => String::new(),
    }
}

/// `name <mailbox@host>` from its three parts, without those that are empty.
pub fn format_address(name: &str, mailbox: &str, host: &str) -> (text: String)
    ensures
        text@ == named_address(name@, mail_address(mailbox@, host@)),
{
    let email = if host.is_empty() {
        mailbox.to_owned()
    } else {
        joined(mailbox, "@").concat(host)
    };
    if name.is_empty() {
        email
    } else {
        joined(name, " <").concat(email.as_str()).concat(">")
    }
}

/// How an address is shown.
pub fn address_to_string(address: &Address) -> (text: String)
    ensures
        text@ == address_text(*address),
{
    let name = optional_lossy(&address.name);
    let mailbox = optional_lossy(&address.mailbox);
    let host = optional_lossy(&address.host);
    format_address(name.as_str(), mailbox.as_str(), host.as_str())
}

/// How each of a list of addresses is shown.
pub fn addresses_to_json(addresses: &Vec<Address>) -> (texts: Vec<String>)
    ensures
        texts@.len() == addresses@.len(),
        forall|i: int|
            0 <= i < texts@.len() ==> (#[trigger] texts@[i])@ == address_text(addresses@[i]),
{
    let mut texts: Vec<String> = Vec::new();
    let mut i: usize = 0;
    while i < addresses.len()
        invariant
            i == texts@.len(),
            i <= addresses@.len(),
            forall|j: int| 0 <= j < i ==> (#[trigger] texts@[j])@ == address_text(addresses@[j]),
        decreases addresses@.len() - i,
    {
        texts.push(address_to_string(&addresses[i]));
        i += 1;
    }
    texts
}

// ---------------------------------------------------------------------------- messages

/// What a response shows of a message, as text.
#[derive(Debug)]
pub struct ShownMessage {
    pub seq: u32,
    pub from: Option<Vec<String>>,
    pub to: Option<Vec<String>>,
    pub subject: Option<String>,
    pub date: Option<String>,
    pub internal_date: Option<String>,
    pub body: Option<String>,
}

/// What a [`ShownMessage`] says.
pub ghost struct ShownView {
    pub seq: u32,
    pub from: Option<Seq<Seq<char>>>,
    pub to: Option<Seq<Seq<char>>>,
    pub subject: Option<Seq<char>>,
    pub date: Option<Seq<char>>,
    pub internal_date: Option<Seq<char>>,
    pub body: Option<Seq<char>>,
}

/// An optional list of texts.
pub open spec fn texts_view(texts: Option<Vec<String>>) -> Option<Seq<Seq<char>>> {
    match texts {
        Some(list) => Some(Seq::new(list@.len(), |i: int| list@[i]@)),
        None => None,
    }
}

impl View for ShownMessage {
    type V = ShownView;

    open spec fn view(&self) -> ShownView {
        ShownView {
            seq: self.seq,
            from: texts_view(self.from),
            to: texts_view(self.to),
            subject: text_view(self.subject),
            date: text_view(self.date),
            internal_date: text_view(self.internal_date),
            body: text_view(self.body),
        }
    }
}

/// A list of texts as JSON; `null` where there is none.
pub open spec fn strings_view(texts: Option<Seq<Seq<char>>>) -> JsonView {
    match texts {
        Some(list) => JsonView::Array(Seq::new(list.len(), |i: int| JsonView::Str(list[i]))),
        None => JsonView::Null,
    }
}

/// A text as JSON; `null` where there is none.
pub open spec fn string_view(text: Option<Seq<char>>) -> JsonView {
    match text {
        Some(t) => JsonView::Str(t),
        None => JsonView::Null,
    }
}

/// What a response says of a message that is shown with these texts.
pub open spec fn shown_json(shown: ShownView) -> JsonView {
    JsonView::Object(
        map![
            "seq"@ => JsonView::Number(shown.seq as u64),
            "from"@ => strings_view(shown.from),
            "to"@ => strings_view(shown.to),
            "subject"@ => string_view(shown.subject),
            "date"@ => string_view(shown.date),
            "internalDate"@ => string_view(shown.internal_date),
            "body"@ => string_view(shown.body),
        ],
    )
}

/// How a list of addresses is shown, where there is one.
pub open spec fn shown_addresses(addresses: Option<Vec<Address>>) -> Option<Seq<Seq<char>>> {
    match addresses {
        Some(list) => Some(addresses_text(list@)),
        None => None,
    }
}

/// How bytes are shown, where there are any.
pub open spec fn shown_bytes(bytes: Option<Vec<u8>>) -> Option<Seq<char>> {
    match bytes {
        Some(b) => Some(text_of(b@)),
        None => None,
    }
}

/// How a message is shown: nothing of its envelope where the server sent none.
pub open spec fn shown(message: FetchedMessage) -> ShownView {
    ShownView {
        seq: message.seq,
        from: match message.envelope {
            Some(e) => shown_addresses(e.from),
            None => None,
        },
        to: match message.envelope {
            Some(e) => shown_addresses(e.to),
            None => None,
        },
        subject: match message.envelope {
            Some(e) => shown_bytes(e.subject),
            None => None,
        },
        date: match message.envelope {
            Some(e) => shown_bytes(e.date),
            None => None,
        },
        internal_date: match message.internal_date {
            Some(d) => rfc3339_text(d.timestamp, d.subsec_nanos, d.offset_seconds),
            None => None,
        },
        body: shown_bytes(message.text),
    }
}

/// What a response says of a fetched message.
pub open spec fn message_view(message: FetchedMessage) -> JsonView {
    shown_json(shown(message))
}

/// A list of texts as JSON; `null` where there is none.
fn optional_strings(texts: &Option<Vec<String>>) -> (json: Json)
    ensures
        json@ == strings_view(texts_view(*texts)),
{
    match texts {
        Some(list) => {
            let mut items: Vec<Json> = Vec::new();
            let mut i: usize = 0;
            while i < list.len()
                invariant
                    i == items@.len(),
                    i <= list@.len(),
                    forall|j: int| 0 <= j < i ==> (#[trigger] items@[j])@ == JsonView::Str(list@[j]@),
                decreases list@.len() - i,
            {
                items.push(Json::Str(list[i].clone()));
                i += 1;
            }
            proof {
                lemma_items_model(items@);
                let texts = texts_view(*texts)->0;
                assert(items_model(items@) =~= Seq::new(
                    texts.len(),
                    |i: int| JsonView::Str(texts[i]),
                ));
            }
            Json::Array(items)
        },
        None => Json::Null,
    }
}

/// A text as JSON; `null` where there is none.
fn optional_text(text: &Option<String>) -> (json: Json)
    ensures
        json@ == string_view(text_view(*text)),
{
    match text {
        Some(t) => Json::Str(t.clone()),
        None => Json::Null,
    }
}

/// What a response says of a message that is shown with these texts.
pub fn shown_to_json(shown: &ShownMessage) -> (json: Json)
    ensures
        json@ == shown_json(shown@),
{
    let mut members = JsonObject::new();
    members.insert("seq", Json::Number(shown.seq as u64));
    members.insert("from", optional_strings(&shown.from));
    members.insert("to", optional_strings(&shown.to));
    members.insert("subject", optional_text(&shown.subject));
    members.insert("date", optional_text(&shown.date));
    members.insert("internalDate", optional_text(&shown.internal_date));
    members.insert("body", optional_text(&shown.body));
    Json::Object(members)
}

/// How a list of addresses is shown, where there is one.
fn show_addresses(addresses: &Option<Vec<Address>>) -> (texts: Option<Vec<String>>)
    ensures
        texts_view(texts) == shown_addresses(*addresses),
{
    match addresses {
        Some(list) => {
            let texts = addresses_to_json(list);
            assert(Seq::new(texts@.len(), |i: int| texts@[i]@) =~= addresses_text(list@));
            Some(texts)
        },
        None => None,
    }
}

/// How bytes are shown, where there are any.
fn show_bytes(bytes: &Option<Vec<u8>>) -> (text: Option<String>)
    ensures
        text_view(text) == shown_bytes(*bytes),
{
    match bytes {
        Some(b) => Some(bytes_lossy(b.as_slice())),
        None => None,
    }
}

/// How a fetched message is shown.
pub fn show(message: &FetchedMessage) -> (texts: ShownMessage)
    ensures
        texts@ == shown(*message),
{
    let internal_date = match &message.internal_date {
        Some(d) => to_rfc3339(d.timestamp, d.subsec_nanos, d.offset_seconds),
        None => None,
    };
    let body = show_bytes(&message.text);
    match &message.envelope {
        Some(envelope) => ShownMessage {
            seq: message.seq,
            from: show_addresses(&envelope.from),
            to: show_addresses(&envelope.to),
            subject: show_bytes(&envelope.subject),
            date: show_bytes(&envelope.date),
            internal_date,
            body,
        },
        None => ShownMessage {
            seq: message.seq,
            from: None,
            to: None,
            subject: None,
            date: None,
            internal_date,
            body,
        },
    }
}

/// What a response says of a fetched message.
pub fn fetch_to_json(message: &FetchedMessage) -> (json: Json)
    ensures
        json@ == message_view(*message),
{
    shown_to_json(&show(message))
}

// ------------------------------------------------------------------------------ laws

/// Text is kept: the bytes of a text are shown as that text, nothing trimmed.
pub proof fn text_is_kept(text: Seq<char>)
    ensures
        text_of(encode_utf8(text)) == text,
{
    encode_utf8_valid_utf8(text);
    encode_utf8_decode_utf8(text);
}

/// Showing bytes twice is showing them once: what was shown is text, and is kept.
pub proof fn shown_text_is_kept(bytes: Seq<u8>)
    ensures
        text_of(encode_utf8(text_of(bytes))) == text_of(bytes),
{
    text_is_kept(text_of(bytes));
}

/// What a response says of a message is shallow: an object whose members hold no more than a list of
/// texts, and no number but a count.
pub proof fn message_is_shallow(message: FetchedMessage)
    ensures
        message_view(message).nests_within(2),
{
    let json = message_view(message);
    assert forall|key: Seq<char>| #[trigger] json->Object_0.contains_key(key) implies json->Object_0[key].nests_within(
        1,
    ) by {
        let member = json->Object_0[key];
        if member is Array {
            assert forall|i: int| 0 <= i < member->Array_0.len() implies (
            #[trigger] member->Array_0[i]).nests_within(0) by {
            }
        }
    }
}

} // verus!
