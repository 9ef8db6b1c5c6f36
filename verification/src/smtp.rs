//! Sending: the message that is delivered, and how the server is reached.
use crate::failure::{Failure, FailureView};
use crate::text::joined;
use crate::types::TlsMode;
use lettre::message::Mailbox;
use lettre::transport::smtp::AsyncSmtpTransportBuilder;
use lettre::Message;
use vstd::prelude::*;

verus! {

// ------------------------------------------------------------------- lettre's types

/// `lettre::message::Mailbox`, a parsed address with an optional name.
#[verifier::external_type_specification]
#[verifier::external_body]
pub struct ExMailbox(lettre::message::Mailbox);

/// `lettre::Message`, a message that is ready to be delivered.
#[verifier::external_type_specification]
#[verifier::external_body]
pub struct ExMessage(lettre::Message);

/// The parts of a mailbox.
pub ghost struct MailboxParts {
    pub name: Option<Seq<char>>,
    pub address: Seq<char>,
}

impl MailboxParts {
    /// Whether the mailbox was read from a text.
    pub open spec fn is_read(self) -> bool {
        exists|text: Seq<char>| parsed_mailbox(text) == Ok::<MailboxParts, Seq<char>>(self)
    }

    /// Whether the address is written without quotes.
    pub open spec fn is_unquoted(self) -> bool {
        !self.address.contains('"')
    }
}

/// Who a server is told that a message comes from and goes to.
pub ghost struct EnvelopeParts {
    pub sender: Option<Seq<char>>,
    pub recipients: Seq<Seq<char>>,
}

/// Whether the addresses of both mailboxes are written without quotes.
pub open spec fn both_unquoted(from: MailboxParts, to: MailboxParts) -> bool {
    from.is_unquoted() && to.is_unquoted()
}

/// The envelope with the addresses of the two mailboxes.
pub open spec fn direct_envelope(from: MailboxParts, to: MailboxParts) -> EnvelopeParts {
    EnvelopeParts { sender: Some(from.address), recipients: seq![to.address] }
}

/// The parts of a message: who it comes from and goes to, its `From`, `To` and `Subject` headers
/// before they are encoded for transport, and its encoded body.
pub ghost struct MessageParts {
    pub envelope: EnvelopeParts,
    pub from: Seq<char>,
    pub to: Seq<char>,
    pub subject: Seq<char>,
    pub body: Seq<u8>,
}

/// What a `lettre::message::Mailbox` holds: its `name`, and its `email` as it is displayed.
pub uninterp spec fn mailbox_parts(mailbox: lettre::message::Mailbox) -> MailboxParts;

/// What a `lettre::Message` holds: the addresses of its `envelope`, as they are displayed, the values
/// that `Headers::get_raw` gives for `From`, `To` and `Subject`, and the bytes of its body.
pub uninterp spec fn message_parts(message: lettre::Message) -> MessageParts;

/// What parsing a text as a `lettre::message::Mailbox` gives: the mailbox, or the words of the
/// error.
pub uninterp spec fn parsed_mailbox(text: Seq<char>) -> Result<MailboxParts, Seq<char>>;

/// How a `lettre::message::Mailbox` is displayed.
pub uninterp spec fn mailbox_text(mailbox: MailboxParts) -> Seq<char>;

/// How `lettre::message::Body::new` encodes a text.
pub uninterp spec fn encoded_body(text: Seq<char>) -> Seq<u8>;

/// Why `lettre::message::MessageBuilder::body` refuses a message from the one mailbox to the other,
/// where it does.
pub uninterp spec fn composition_refusal(from: MailboxParts, to: MailboxParts) -> Option<Seq<char>>;

/// The envelope that `lettre::address::Envelope::try_from` takes from the headers of a message from
/// the one mailbox to the other: it reads the mailboxes back from how they are displayed.
pub uninterp spec fn derived_envelope(from: MailboxParts, to: MailboxParts) -> EnvelopeParts;

/// `<lettre::message::Mailbox as FromStr>::from_str`: the mailbox, or the error as it is displayed,
/// depends on the text alone.
#[verifier::external_body]
fn parse_mailbox(text: &str) -> (mailbox: Result<lettre::message::Mailbox, String>)
    ensures
        match mailbox {
            Ok(m) => parsed_mailbox(text@) == Ok::<_, Seq<char>>(mailbox_parts(m)),
            Err(words) => parsed_mailbox(text@) == Err::<MailboxParts, _>(words@),
        },
{
    text.parse::<lettre::message::Mailbox>().map_err(|e| e.to_string())
}

/// `lettre::message::MessageBuilder::body`, on a builder that was given the two mailboxes and the
/// subject. Whether it refuses, and the envelope, depends on the mailboxes alone; the message has the
/// parts that it was built from. Mailboxes that were read from a text, with addresses that are not
/// quoted, are read back as they are, so the message is not refused, and comes from the one address
/// and goes to the other. Its `Date` header is the time of the call, which the clock gives: of that
/// nothing is said. A name that ends a line cannot be written as a header; none that was read does.
#[verifier::external_body]
fn build_message(
    from: lettre::message::Mailbox,
    to: lettre::message::Mailbox,
    subject: &str,
    body: String,
) -> (message: Result<lettre::Message, String>)
    requires
        mailbox_parts(from).is_read(),
        mailbox_parts(to).is_read(),
    ensures
        match message {
            Ok(m) => composition_refusal(mailbox_parts(from), mailbox_parts(to)) is None
                && message_parts(m) == (MessageParts {
                envelope: derived_envelope(mailbox_parts(from), mailbox_parts(to)),
                from: mailbox_text(mailbox_parts(from)),
                to: mailbox_text(mailbox_parts(to)),
                subject: subject@,
                body: encoded_body(body@),
            }) && (both_unquoted(mailbox_parts(from), mailbox_parts(to)) ==> message_parts(m).envelope
                == direct_envelope(mailbox_parts(from), mailbox_parts(to))),
            Err(words) => composition_refusal(mailbox_parts(from), mailbox_parts(to)) == Some(
                words@,
            ) && !both_unquoted(mailbox_parts(from), mailbox_parts(to)),
        },
{
    let builder = lettre::Message::builder().from(from).to(to).subject(subject);
    builder.body(body).map_err(|e| e.to_string())
}

// --------------------------------------------------------------- lettre's transport

/// `lettre::transport::smtp::AsyncSmtpTransportBuilder`, how a server is to be reached.
#[verifier::external_type_specification]
#[verifier::external_body]
pub struct ExAsyncSmtpTransportBuilder(lettre::transport::smtp::AsyncSmtpTransportBuilder);

/// The parts of a transport: the server and its port, how the connection is secured, the domain that
/// the server's certificate is held to where it is, and what is logged in with, name and password.
pub ghost struct TransportParts {
    pub server: Seq<char>,
    pub port: u16,
    pub tls: TlsMode,
    pub domain: Option<Seq<char>>,
    pub credentials: Option<(Seq<char>, Seq<char>)>,
}

/// What an `AsyncSmtpTransportBuilder` holds: its `server`, `port` and `credentials`; its `tls`, which is
/// `Plain` for `Tls::None` (plaintext), `Starttls` for `Tls::Required` (the connection has to be upgraded
/// before anything else is sent) and `Implicit` for `Tls::Wrapper` (TLS from the first byte); and the
/// `domain` of the parameters of the latter two.
pub uninterp spec fn transport_parts(
    builder: lettre::transport::smtp::AsyncSmtpTransportBuilder,
) -> TransportParts;

/// `lettre::AsyncSmtpTransport::builder_dangerous`: a plaintext connection to the host, at the port of
/// mail servers and without a login.
#[verifier::external_body]
fn plaintext_builder(host: &str) -> (builder: lettre::transport::smtp::AsyncSmtpTransportBuilder)
    ensures
        transport_parts(builder) == (TransportParts {
            server: host@,
            port: 25,
            tls: TlsMode::Plain,
            domain: None,
            credentials: None,
        }),
{
    lettre::AsyncSmtpTransport::<lettre::Tokio1Executor>::builder_dangerous(host)
}

/// `lettre::AsyncSmtpTransport::starttls_relay`: a connection to the host that has to be upgraded, at the
/// port of submission and without a login; or the error as it is displayed. Whether there is one depends
/// on the TLS provider that was installed for the process: of that nothing is said.
#[verifier::external_body]
fn starttls_builder(host: &str) -> (builder: Result<
    lettre::transport::smtp::AsyncSmtpTransportBuilder,
    String,
>)
    ensures
        match builder {
            Ok(b) => transport_parts(b) == (TransportParts {
                server: host@,
                port: 587,
                tls: TlsMode::Starttls,
                domain: Some(host@),
                credentials: None,
            }),
            Err(_) => true,
        },
{
    lettre::AsyncSmtpTransport::<lettre::Tokio1Executor>::starttls_relay(host).map_err(
        |e| e.to_string(),
    )
}

/// `lettre::AsyncSmtpTransport::relay`: a connection to the host that is secured throughout, at the port
/// of submission over TLS and without a login; or the error as it is displayed. Whether there is one
/// depends on the TLS provider that was installed for the process: of that nothing is said.
#[verifier::external_body]
fn implicit_builder(host: &str) -> (builder: Result<
    lettre::transport::smtp::AsyncSmtpTransportBuilder,
    String,
>)
    ensures
        match builder {
            Ok(b) => transport_parts(b) == (TransportParts {
                server: host@,
                port: 465,
                tls: TlsMode::Implicit,
                domain: Some(host@),
                credentials: None,
            }),
            Err(_) => true,
        },
{
    lettre::AsyncSmtpTransport::<lettre::Tokio1Executor>::relay(host).map_err(|e| e.to_string())
}

/// `AsyncSmtpTransportBuilder::port`: the port is replaced, the rest stays.
#[verifier::external_body]
fn builder_port(
    builder: lettre::transport::smtp::AsyncSmtpTransportBuilder,
    port: u16,
) -> (changed: lettre::transport::smtp::AsyncSmtpTransportBuilder)
    ensures
        transport_parts(changed) == (TransportParts { port, ..transport_parts(builder) }),
{
    builder.port(port)
}

/// `AsyncSmtpTransportBuilder::credentials`: the login is replaced, the rest stays.
#[verifier::external_body]
fn builder_credentials(
    builder: lettre::transport::smtp::AsyncSmtpTransportBuilder,
    username: String,
    password: String,
) -> (changed: lettre::transport::smtp::AsyncSmtpTransportBuilder)
    ensures
        transport_parts(changed) == (TransportParts {
            credentials: Some((username@, password@)),
            ..transport_parts(builder)
        }),
{
    builder.credentials(
        lettre::transport::smtp::authentication::Credentials::new(username, password),
    )
}

// ------------------------------------------------------------------------- delivery

/// What the user logs in with.
pub struct SmtpCredentials {
    pub username: String,
    pub password: String,
}

/// One message, and how it is delivered.
pub struct SmtpDelivery {
    pub host: String,
    pub port: u16,
    pub tls: TlsMode,
    /// None for a server that takes mail from anyone.
    pub credentials: Option<SmtpCredentials>,
    pub message: Message,
}

/// What an [`SmtpDelivery`] says.
pub ghost struct DeliveryView {
    pub host: Seq<char>,
    pub port: u16,
    pub tls: TlsMode,
    pub credentials: Option<(Seq<char>, Seq<char>)>,
    pub message: MessageParts,
}

/// What credentials say.
pub open spec fn credentials_view(credentials: Option<SmtpCredentials>) -> Option<
    (Seq<char>, Seq<char>),
> {
    match credentials {
        Some(c) => Some((c.username@, c.password@)),
        None => None,
    }
}

impl View for SmtpDelivery {
    type V = DeliveryView;

    open spec fn view(&self) -> DeliveryView {
        DeliveryView {
            host: self.host@,
            port: self.port,
            tls: self.tls,
            credentials: credentials_view(self.credentials),
            message: message_parts(self.message),
        }
    }
}

/// What a user without a name logs in with: nothing.
pub open spec fn login(username: Seq<char>, password: Seq<char>) -> Option<(Seq<char>, Seq<char>)> {
    if username.len() == 0 {
        None
    } else {
        Some((username, password))
    }
}

/// The words for an address that is not one.
pub open spec fn invalid_address_words(
    role: Seq<char>,
    address: Seq<char>,
    detail: Seq<char>,
) -> Seq<char> {
    "invalid "@ + role + " address '"@ + address + "': "@ + detail
}

/// Why a message from `from` to `to` is not sent, where it is not: the sender's address is looked at
/// first, then the recipient's, then the two together.
pub open spec fn send_refusal(from: Seq<char>, to: Seq<char>) -> Option<Seq<char>> {
    match parsed_mailbox(from) {
        Err(detail) => Some(invalid_address_words("from"@, from, detail)),
        Ok(sender) => match parsed_mailbox(to) {
            Err(detail) => Some(invalid_address_words("to"@, to, detail)),
            Ok(recipient) => match composition_refusal(sender, recipient) {
                Some(detail) => Some("building message: "@ + detail),
                None => None,
            },
        },
    }
}

/// The delivery of a message from `from` to `to`, where there is nothing against it.
pub open spec fn delivered(
    host: Seq<char>,
    port: u16,
    tls: TlsMode,
    username: Seq<char>,
    password: Seq<char>,
    from: Seq<char>,
    to: Seq<char>,
    subject: Seq<char>,
    body: Seq<char>,
) -> DeliveryView {
    DeliveryView {
        host,
        port,
        tls,
        credentials: login(username, password),
        message: MessageParts {
            envelope: derived_envelope(parsed_mailbox(from)->Ok_0, parsed_mailbox(to)->Ok_0),
            from: mailbox_text(parsed_mailbox(from)->Ok_0),
            to: mailbox_text(parsed_mailbox(to)->Ok_0),
            subject,
            body: encoded_body(body),
        },
    }
}

/// Whether a text is read as a mailbox whose address is written without quotes.
pub open spec fn is_plain_address(text: Seq<char>) -> bool {
    parsed_mailbox(text) matches Ok(mailbox) && mailbox.is_unquoted()
}

/// The words for an address that is not one.
pub fn invalid_address(role: &str, address: &str, detail: &str) -> (words: String)
    ensures
        words@ == invalid_address_words(role@, address@, detail@),
{
    joined("invalid ", role).concat(" address '").concat(address).concat("': ").concat(detail)
}

/// The login of a user: nothing where the name is empty.
pub fn smtp_credentials(username: &str, password: &str) -> (credentials: Option<SmtpCredentials>)
    ensures
        credentials_view(credentials) == login(username@, password@),
{
    if username.is_empty() {
        None
    } else {
        Some(SmtpCredentials { username: username.to_owned(), password: password.to_owned() })
    }
}

/// Builds one message, and says how it is delivered. Between addresses that are not quoted there is
/// nothing against it, and the message goes from the one to the other.
pub fn prepare_send(
    host: &str,
    port: u16,
    tls: TlsMode,
    username: &str,
    password: &str,
    from: &str,
    to: &str,
    subject: &str,
    body: String,
) -> (delivery: Result<SmtpDelivery, String>)
    ensures
        match delivery {
            Ok(d) => send_refusal(from@, to@) is None && d@ == delivered(
                host@,
                port,
                tls,
                username@,
                password@,
                from@,
                to@,
                subject@,
                body@,
            ),
            Err(words) => send_refusal(from@, to@) == Some(words@),
        },
        is_plain_address(from@) && is_plain_address(to@) ==> (delivery matches Ok(d)
            && d@.message.envelope == direct_envelope(
            parsed_mailbox(from@)->Ok_0,
            parsed_mailbox(to@)->Ok_0,
        )),
{
    let sender: Mailbox = match parse_mailbox(from) {
        Ok(mailbox) => mailbox,
        Err(detail) => {
            return Err(invalid_address("from", from, detail.as_str()));
        },
    };
    let recipient: Mailbox = match parse_mailbox(to) {
        Ok(mailbox) => mailbox,
        Err(detail) => {
            return Err(invalid_address("to", to, detail.as_str()));
        },
    };
    match build_message(sender, recipient, subject, body) {
        Ok(message) => Ok(
            SmtpDelivery {
                host: host.to_owned(),
                port,
                tls,
                credentials: smtp_credentials(username, password),
                message,
            },
        ),
        Err(detail) => Err(joined("building message: ", detail.as_str())),
    }
}

/// Where a delivery can fail.
#[derive(Debug, Clone, Copy, PartialEq, Eq, Structural)]
pub enum SmtpStage {
    /// The connection that is upgraded cannot be set up.
    StarttlsRelay,
    /// The connection that is secured throughout cannot be set up.
    Relay,
    /// The server did not take the message.
    Delivery,
}

impl SmtpStage {
    /// The words that the failure begins with.
    pub open spec fn words(self) -> Seq<char> {
        match self {
            SmtpStage::StarttlsRelay => "smtp starttls relay: "@,
            SmtpStage::Relay => "smtp relay: "@,
            SmtpStage::Delivery => "SMTP send failed: "@,
        }
    }
}

/// What is said of a delivery that failed.
pub open spec fn stage_words(stage: SmtpStage, detail: Seq<char>) -> FailureView {
    FailureView { message: stage.words() + detail, redact: true }
}

/// A delivery that failed. Its words are redacted at every stage.
pub fn smtp_failure(stage: SmtpStage, detail: &str) -> (failure: Failure)
    ensures
        failure@ == stage_words(stage, detail@),
{
    match stage {
        SmtpStage::StarttlsRelay => Failure::redacted("smtp starttls relay: ", detail),
        SmtpStage::Relay => Failure::redacted("smtp relay: ", detail),
        SmtpStage::Delivery => Failure::redacted("SMTP send failed: ", detail),
    }
}

/// The domain that the server's certificate is held to: none on a plaintext connection.
pub open spec fn certified_domain(host: Seq<char>, tls: TlsMode) -> Option<Seq<char>> {
    match tls {
        TlsMode::Plain => None,
        _ => Some(host),
    }
}

/// How a server is reached, given what the connection was set up as, or why it could not be: at the
/// given port, and with the given login where there is one.
pub fn transport_with(
    relay: Result<AsyncSmtpTransportBuilder, String>,
    stage: SmtpStage,
    port: u16,
    credentials: Option<SmtpCredentials>,
) -> (builder: Result<AsyncSmtpTransportBuilder, Failure>)
    ensures
        match relay {
            Ok(r) => builder matches Ok(b) && transport_parts(b) == (TransportParts {
                port,
                credentials: match credentials {
                    Some(c) => Some((c.username@, c.password@)),
                    None => transport_parts(r).credentials,
                },
                ..transport_parts(r)
            }),
            Err(detail) => builder matches Err(failure) && failure@ == stage_words(stage, detail@),
        },
{
    match relay {
        Ok(relay) => {
            let reached = builder_port(relay, port);
            match credentials {
                Some(login) => Ok(builder_credentials(reached, login.username, login.password)),
                None => Ok(reached),
            }
        },
        Err(detail) => Err(smtp_failure(stage, detail.as_str())),
    }
}

/// How a server is reached: the one that is named, at the port that is named whatever the mode is, in
/// the mode that is asked for and no other, and with the login where there is one. A plaintext
/// connection can always be set up; where another cannot, the failure says at which stage.
pub fn smtp_transport(
    host: &str,
    port: u16,
    tls: TlsMode,
    credentials: Option<SmtpCredentials>,
) -> (builder: Result<AsyncSmtpTransportBuilder, Failure>)
    ensures
        match builder {
            Ok(b) => transport_parts(b) == (TransportParts {
                server: host@,
                port,
                tls,
                domain: certified_domain(host@, tls),
                credentials: credentials_view(credentials),
            }),
            Err(failure) => match tls {
                TlsMode::Plain => false,
                TlsMode::Starttls => exists|detail: Seq<char>|
                    failure@ == #[trigger] stage_words(SmtpStage::StarttlsRelay, detail),
                TlsMode::Implicit => exists|detail: Seq<char>|
                    failure@ == #[trigger] stage_words(SmtpStage::Relay, detail),
            },
        },
{
    match tls {
        TlsMode::Plain => transport_with(
            Ok(plaintext_builder(host)),
            SmtpStage::Relay,
            port,
            credentials,
        ),
        TlsMode::Starttls => transport_with(
            starttls_builder(host),
            SmtpStage::StarttlsRelay,
            port,
            credentials,
        ),
        TlsMode::Implicit => transport_with(
            implicit_builder(host),
            SmtpStage::Relay,
            port,
            credentials,
        ),
    }
}

impl SmtpDelivery {
    /// How the server is reached, and the message that it is to be given. There is no way but the one
    /// that the delivery names: where it names a secured connection, there is no other.
    pub fn transport(self) -> (reached: Result<(AsyncSmtpTransportBuilder, Message), Failure>)
        ensures
            match reached {
                Ok((builder, message)) => {
                    &&& transport_parts(builder) == (TransportParts {
                        server: self@.host,
                        port: self@.port,
                        tls: self@.tls,
                        domain: certified_domain(self@.host, self@.tls),
                        credentials: self@.credentials,
                    })
                    &&& message_parts(message) == self@.message
                },
                Err(failure) => match self@.tls {
                    TlsMode::Plain => false,
                    TlsMode::Starttls => exists|detail: Seq<char>|
                        failure@ == #[trigger] stage_words(SmtpStage::StarttlsRelay, detail),
                    TlsMode::Implicit => exists|detail: Seq<char>|
                        failure@ == #[trigger] stage_words(SmtpStage::Relay, detail),
                },
            },
    {
        match smtp_transport(self.host.as_str(), self.port, self.tls, self.credentials) {
            Ok(builder) => Ok((builder, self.message)),
            Err(failure) => Err(failure),
        }
    }
}

/// Authentication: a delivery logs in exactly where the binding names a user, and then as that user.
pub proof fn login_needs_a_user(username: Seq<char>, password: Seq<char>)
    ensures
        login(username, password) is None <==> username =~= Seq::empty(),
        login(username, password) matches Some(pair) ==> pair == (username, password),
{
}

} // verus!
