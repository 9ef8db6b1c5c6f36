//! Reading: the conversation with an IMAP server, step by step.
//!
//! [`ImapRead`] decides; whoever holds the connection does what it says, and tells it what came of
//! that. A mailbox is read without changing it: what is fetched is peeked at.
use crate::email::{fetch_to_json, message_view, FetchedMessage};
use crate::failure::{Failure, FailureView};
use crate::json::{items_model, Json, JsonView};
use crate::profile::{valid_profile, EmailProfile, ProfileView};
use crate::text::{decimal, occurs, occurs_at};
use crate::text::{decimal_text, joined};
use crate::types::{EmailOp, TlsMode};
use tokio_rustls::rustls::pki_types::ServerName;
use vstd::prelude::*;

verus! {

// -------------------------------------------------------------- the outside server name

/// `rustls_pki_types::ServerName`, the name that a server's certificate is held to.
#[verifier::external_type_specification]
#[verifier::external_body]
pub struct ExServerName<'a>(tokio_rustls::rustls::pki_types::ServerName<'a>);

/// What a `ServerName` holds: the text that `ServerName::to_str` gives.
pub uninterp spec fn server_name_text(
    name: tokio_rustls::rustls::pki_types::ServerName<'static>,
) -> Seq<char>;

/// What `ServerName::try_from` makes of a host: the text of the name, or the words of the error.
pub uninterp spec fn parsed_server_name(host: Seq<char>) -> Result<Seq<char>, Seq<char>>;

/// `<ServerName<'static> as TryFrom<String>>::try_from`: the name, or the error as it is displayed,
/// depends on the host alone.
#[verifier::external_body]
fn parse_server_name(host: String) -> (name: Result<
    tokio_rustls::rustls::pki_types::ServerName<'static>,
    String,
>)
    ensures
        match name {
            Ok(n) => parsed_server_name(host@) == Ok::<_, Seq<char>>(server_name_text(n)),
            Err(words) => parsed_server_name(host@) == Err::<Seq<char>, _>(words@),
        },
{
    tokio_rustls::rustls::pki_types::ServerName::try_from(host).map_err(|e| e.to_string())
}

// ------------------------------------------------------------------------ what is fetched

/// The first and the last of the messages that are fetched from a mailbox with `exists` of them: the
/// most recent `limit`, or all where there are no more.
pub open spec fn recent_messages(exists: u32, limit: usize) -> Option<(u32, u32)> {
    if exists == 0 || limit == 0 {
        None
    } else if limit >= exists {
        Some((1, exists))
    } else {
        Some(((exists - limit + 1) as u32, exists))
    }
}

/// A range of messages, as it is written in a command.
pub open spec fn sequence_text(first: u32, last: u32) -> Seq<char> {
    decimal(first as nat) + ":"@ + decimal(last as nat)
}

/// What is asked for of each message: nothing that would mark it as seen.
pub open spec fn fetch_items() -> Seq<char> {
    "(ENVELOPE INTERNALDATE BODY.PEEK[TEXT])"@
}

/// The first and the last of the messages that are fetched.
pub fn fetch_range(exists: u32, limit: usize) -> (range: Option<(u32, u32)>)
    ensures
        range == recent_messages(exists, limit),
{
    if exists == 0 || limit == 0 {
        None
    } else if limit >= exists as usize {
        Some((1, exists))
    } else {
        Some((exists - limit as u32 + 1, exists))
    }
}

/// A range of messages, as it is written in a command.
pub fn fetch_sequence(first: u32, last: u32) -> (text: String)
    ensures
        text@ == sequence_text(first, last),
{
    let start = decimal_text(first as u128);
    let end = decimal_text(last as u128);
    joined(start.as_str(), ":").concat(end.as_str())
}

// --------------------------------------------------------------------------- the machine

/// The step that was last asked for.
#[derive(Debug, Clone, Copy, PartialEq, Eq, Structural)]
pub enum ReadStage {
    Connect,
    ConfigureTls,
    Handshake,
    Login,
    Select,
    Fetch,
    Receive,
    Logout,
    /// Nothing more is asked for.
    End,
}

/// What came of a step.
#[derive(Debug)]
pub enum ReadEvent {
    /// It was done.
    Done,
    /// The mailbox was selected, and has this many messages.
    Selected { exists: u32 },
    /// A message came.
    Received { message: FetchedMessage },
    /// No more messages come.
    Exhausted,
    /// It failed.
    Failed { detail: String },
}

/// What a [`ReadEvent`] says.
pub ghost enum EventView {
    Done,
    Selected { exists: u32 },
    Received { message: JsonView },
    Exhausted,
    Failed { detail: Seq<char> },
}

impl View for ReadEvent {
    type V = EventView;

    open spec fn view(&self) -> EventView {
        match *self {
            ReadEvent::Done => EventView::Done,
            ReadEvent::Selected { exists } => EventView::Selected { exists },
            ReadEvent::Received { message } => EventView::Received {
                message: message_view(message),
            },
            ReadEvent::Exhausted => EventView::Exhausted,
            ReadEvent::Failed { detail } => EventView::Failed { detail: detail@ },
        }
    }
}

/// The step to take next.
pub enum ReadAction {
    /// Open a connection.
    Connect { host: String, port: u16 },
    /// Make ready to secure the connection.
    ConfigureTls,
    /// Secure the connection, with a server that proves to be this one.
    Handshake { server_name: ServerName<'static> },
    /// Log in.
    Login { username: String, password: String },
    /// Select a mailbox.
    Select { mailbox: String },
    /// Ask for messages.
    Fetch { sequence: String, items: &'static str },
    /// Wait for the next of the messages that were asked for.
    Receive,
    /// Log out.
    Logout,
    /// Nothing: these messages were read.
    Finish { messages: Vec<Json> },
    /// Nothing: reading failed.
    Fail { failure: Failure },
}

/// What a [`ReadAction`] says.
pub ghost enum ActionView {
    Connect { host: Seq<char>, port: u16 },
    ConfigureTls,
    Handshake { server_name: Seq<char> },
    Login { username: Seq<char>, password: Seq<char> },
    Select { mailbox: Seq<char> },
    Fetch { sequence: Seq<char>, items: Seq<char> },
    Receive,
    Logout,
    Finish { messages: Seq<JsonView> },
    Fail { failure: FailureView },
}

impl View for ReadAction {
    type V = ActionView;

    open spec fn view(&self) -> ActionView {
        match *self {
            ReadAction::Connect { host, port } => ActionView::Connect { host: host@, port },
            ReadAction::ConfigureTls => ActionView::ConfigureTls,
            ReadAction::Handshake { server_name } => ActionView::Handshake {
                server_name: server_name_text(server_name),
            },
            ReadAction::Login { username, password } => ActionView::Login {
                username: username@,
                password: password@,
            },
            ReadAction::Select { mailbox } => ActionView::Select { mailbox: mailbox@ },
            ReadAction::Fetch { sequence, items } => ActionView::Fetch {
                sequence: sequence@,
                items: items@,
            },
            ReadAction::Receive => ActionView::Receive,
            ReadAction::Logout => ActionView::Logout,
            ReadAction::Finish { messages } => ActionView::Finish {
                messages: items_model(messages@),
            },
            ReadAction::Fail { failure } => ActionView::Fail { failure: failure@ },
        }
    }
}

/// A conversation with an IMAP server.
pub struct ImapRead {
    pub profile: EmailProfile,
    pub stage: ReadStage,
    /// The messages that came so far.
    pub messages: Vec<Json>,
}

/// What an [`ImapRead`] says.
pub ghost struct ReadView {
    pub profile: ProfileView,
    pub stage: ReadStage,
    pub messages: Seq<JsonView>,
}

impl View for ImapRead {
    type V = ReadView;

    open spec fn view(&self) -> ReadView {
        ReadView {
            profile: self.profile@,
            stage: self.stage,
            messages: items_model(self.messages@),
        }
    }
}

/// Whether `event` can come of the step `stage`: any step but the last can fail, and each is done in
/// its own way.
pub open spec fn event_fits(stage: ReadStage, event: EventView) -> bool {
    match event {
        EventView::Done => match stage {
            ReadStage::Select | ReadStage::Receive | ReadStage::End => false,
            _ => true,
        },
        EventView::Selected { .. } => stage == ReadStage::Select,
        EventView::Received { .. } => stage == ReadStage::Receive,
        EventView::Exhausted => stage == ReadStage::Receive,
        EventView::Failed { .. } => stage != ReadStage::End,
    }
}

/// What is said of a step that failed. What the server answered to a login, and what names the
/// connection, is redacted.
pub open spec fn stage_failure(
    profile: ProfileView,
    stage: ReadStage,
    detail: Seq<char>,
) -> FailureView {
    match stage {
        ReadStage::Connect => FailureView {
            message: "IMAP connect failed: "@ + detail,
            redact: true,
        },
        ReadStage::ConfigureTls => FailureView {
            message: "rustls config: "@ + detail,
            redact: false,
        },
        ReadStage::Handshake => FailureView {
            message: "IMAP TLS handshake failed: "@ + detail,
            redact: false,
        },
        ReadStage::Login => FailureView { message: "IMAP login failed: "@ + detail, redact: true },
        ReadStage::Select => FailureView {
            message: "IMAP select '"@ + profile.mailbox + "' failed: "@ + detail,
            redact: false,
        },
        ReadStage::Fetch => FailureView { message: "IMAP fetch failed: "@ + detail, redact: false },
        _ => FailureView { message: "IMAP fetch read failed: "@ + detail, redact: false },
    }
}

/// What is said of a host that no certificate can be held to.
pub open spec fn server_name_failure(host: Seq<char>, detail: Seq<char>) -> FailureView {
    FailureView { message: "invalid IMAP server name '"@ + host + "': "@ + detail, redact: false }
}

/// What is said of a connection that would have to be upgraded.
pub open spec fn starttls_failure() -> FailureView {
    FailureView {
        message: "IMAP STARTTLS is not supported in v1; use implicit TLS (imaps) or none"@,
        redact: false,
    }
}

/// The step that makes a connection ready to log in, once it is open.
pub open spec fn secure(profile: ProfileView) -> ActionView {
    match profile.tls {
        TlsMode::Plain => login(profile),
        TlsMode::Implicit => ActionView::ConfigureTls,
        TlsMode::Starttls => ActionView::Fail { failure: starttls_failure() },
    }
}

/// The step that secures the connection, given the name that the host was parsed as.
pub open spec fn handshake(
    profile: ProfileView,
    server_name: Result<Seq<char>, Seq<char>>,
) -> ActionView {
    match server_name {
        Ok(name) => ActionView::Handshake { server_name: name },
        Err(detail) => ActionView::Fail { failure: server_name_failure(profile.host, detail) },
    }
}

/// The step that logs in.
pub open spec fn login(profile: ProfileView) -> ActionView {
    ActionView::Login { username: profile.username, password: profile.password }
}

/// The step that follows the selection of a mailbox with `exists` messages.
pub open spec fn ask_for(profile: ProfileView, exists: u32) -> ActionView {
    match recent_messages(exists, profile.limit) {
        Some((first, last)) => ActionView::Fetch {
            sequence: sequence_text(first, last),
            items: fetch_items(),
        },
        None => ActionView::Logout,
    }
}

/// The step that follows what came of the last.
pub open spec fn next_action(read: ReadView, event: EventView) -> ActionView {
    match event {
        EventView::Done => match read.stage {
            ReadStage::Connect => secure(read.profile),
            ReadStage::ConfigureTls => handshake(
                read.profile,
                parsed_server_name(read.profile.host),
            ),
            ReadStage::Handshake => login(read.profile),
            ReadStage::Login => ActionView::Select { mailbox: read.profile.mailbox },
            ReadStage::Fetch => ActionView::Receive,
            _ => ActionView::Finish { messages: read.messages },
        },
        EventView::Selected { exists } => ask_for(read.profile, exists),
        EventView::Received { .. } => ActionView::Receive,
        EventView::Exhausted => ActionView::Logout,
        EventView::Failed { detail } => if read.stage == ReadStage::Logout {
            ActionView::Finish { messages: read.messages }
        } else {
            ActionView::Fail { failure: stage_failure(read.profile, read.stage, detail) }
        },
    }
}

/// The stage in which a step is waited for.
pub open spec fn stage_of(action: ActionView) -> ReadStage {
    match action {
        ActionView::Connect { .. } => ReadStage::Connect,
        ActionView::ConfigureTls => ReadStage::ConfigureTls,
        ActionView::Handshake { .. } => ReadStage::Handshake,
        ActionView::Login { .. } => ReadStage::Login,
        ActionView::Select { .. } => ReadStage::Select,
        ActionView::Fetch { .. } => ReadStage::Fetch,
        ActionView::Receive => ReadStage::Receive,
        ActionView::Logout => ReadStage::Logout,
        ActionView::Finish { .. } | ActionView::Fail { .. } => ReadStage::End,
    }
}

/// The messages that an event brings.
pub open spec fn brought(event: EventView) -> Seq<JsonView> {
    match event {
        EventView::Received { message } => seq![message],
        _ => Seq::empty(),
    }
}

/// The conversation after an event. A message that comes is added to those that came before; they
/// are handed over with the last step.
pub open spec fn next_read(read: ReadView, event: EventView) -> ReadView {
    ReadView {
        profile: read.profile,
        stage: stage_of(next_action(read, event)),
        messages: if next_action(read, event) is Finish {
            Seq::empty()
        } else {
            read.messages + brought(event)
        },
    }
}

/// The words for a host that no certificate can be held to.
pub fn invalid_server_name(host: &str, detail: &str) -> (failure: Failure)
    ensures
        failure@ == server_name_failure(host@, detail@),
{
    let what = joined("invalid IMAP server name '", host).concat("': ");
    Failure::plain(what.as_str(), detail)
}

impl ImapRead {
    /// Begins a conversation: the first step is to connect.
    pub fn start(profile: EmailProfile) -> (begun: (ImapRead, ReadAction))
        ensures
            begun.0@ == started(profile@),
            begun.1@ == (ActionView::Connect { host: profile@.host, port: profile@.port }),
    {
        let action = ReadAction::Connect { host: profile.host.clone(), port: profile.port };
        (ImapRead { profile, stage: ReadStage::Connect, messages: Vec::new() }, action)
    }

    /// The words for the step that failed.
    fn failed(&self, detail: &str) -> (failure: Failure)
        ensures
            failure@ == stage_failure(self@.profile, self@.stage, detail@),
    {
        match self.stage {
            ReadStage::Connect => Failure::redacted("IMAP connect failed: ", detail),
            ReadStage::ConfigureTls => Failure::plain("rustls config: ", detail),
            ReadStage::Handshake => Failure::plain("IMAP TLS handshake failed: ", detail),
            ReadStage::Login => Failure::redacted("IMAP login failed: ", detail),
            ReadStage::Select => {
                let what = joined("IMAP select '", self.profile.mailbox.as_str()).concat(
                    "' failed: ",
                );
                Failure::plain(what.as_str(), detail)
            },
            ReadStage::Fetch => Failure::plain("IMAP fetch failed: ", detail),
            _ => Failure::plain("IMAP fetch read failed: ", detail),
        }
    }

    /// The step that logs in.
    fn login(&self) -> (action: ReadAction)
        ensures
            action@ == login(self@.profile),
    {
        ReadAction::Login {
            username: self.profile.username.clone(),
            password: self.profile.password.clone(),
        }
    }

    /// The step that follows one that was done, where that was not the last.
    fn proceed(&self) -> (action: ReadAction)
        requires
            event_fits(self@.stage, EventView::Done),
            self@.stage != ReadStage::Logout,
        ensures
            action@ == next_action(self@, EventView::Done),
    {
        match self.stage {
            ReadStage::Connect => match self.profile.tls {
                TlsMode::Plain => self.login(),
                TlsMode::Implicit => ReadAction::ConfigureTls,
                TlsMode::Starttls => ReadAction::Fail {
                    failure: Failure {
                        message:
                            "IMAP STARTTLS is not supported in v1; use implicit TLS (imaps) or none".to_owned(),
                        redact: false,
                    },
                },
            },
            ReadStage::ConfigureTls => match parse_server_name(self.profile.host.clone()) {
                Ok(server_name) => ReadAction::Handshake { server_name },
                Err(detail) => ReadAction::Fail {
                    failure: invalid_server_name(self.profile.host.as_str(), detail.as_str()),
                },
            },
            ReadStage::Handshake => self.login(),
            ReadStage::Login => ReadAction::Select { mailbox: self.profile.mailbox.clone() },
            _ => ReadAction::Receive,
        }
    }

    /// The step that follows the selection of the mailbox.
    fn ask_for(&self, exists: u32) -> (action: ReadAction)
        ensures
            action@ == ask_for(self@.profile, exists),
    {
        match fetch_range(exists, self.profile.limit) {
            Some((first, last)) => ReadAction::Fetch {
                sequence: fetch_sequence(first, last),
                items: "(ENVELOPE INTERNALDATE BODY.PEEK[TEXT])",
            },
            None => ReadAction::Logout,
        }
    }

    /// Hands over the messages.
    fn finish(&mut self) -> (action: ReadAction)
        ensures
            action@ == (ActionView::Finish { messages: old(self)@.messages }),
            final(self)@ == (ReadView { messages: Seq::empty(), ..old(self)@ }),
    {
        let mut messages: Vec<Json> = Vec::new();
        std::mem::swap(&mut messages, &mut self.messages);
        ReadAction::Finish { messages }
    }

    /// Whether `event` can come of the step that was last asked for.
    pub fn expects(&self, event: &ReadEvent) -> (expected: bool)
        ensures
            expected == event_fits(self@.stage, event@),
    {
        match event {
            ReadEvent::Done => match self.stage {
                ReadStage::Select | ReadStage::Receive | ReadStage::End => false,
                _ => true,
            },
            ReadEvent::Selected { .. } => self.stage == ReadStage::Select,
            ReadEvent::Received { .. } => self.stage == ReadStage::Receive,
            ReadEvent::Exhausted => self.stage == ReadStage::Receive,
            ReadEvent::Failed { .. } => self.stage != ReadStage::End,
        }
    }

    /// Takes what came of the last step, and says which is the next. The server's answer to a
    /// logout is of no account: the messages were read by then.
    pub fn step(&mut self, event: ReadEvent) -> (action: ReadAction)
        requires
            event_fits(old(self)@.stage, event@),
        ensures
            action@ == next_action(old(self)@, event@),
            final(self)@ == next_read(old(self)@, event@),
    {
        let ghost next = next_read(self@, event@);
        let action = match event {
            ReadEvent::Done => match self.stage {
                ReadStage::Logout => self.finish(),
                _ => self.proceed(),
            },
            ReadEvent::Selected { exists } => self.ask_for(exists),
            ReadEvent::Received { message } => {
                let ghost before = self.messages@;
                self.messages.push(fetch_to_json(&message));
                assert(self.messages@.drop_last() =~= before);
                ReadAction::Receive
            },
            ReadEvent::Exhausted => ReadAction::Logout,
            ReadEvent::Failed { detail } => match self.stage {
                ReadStage::Logout => self.finish(),
                _ => ReadAction::Fail { failure: self.failed(detail.as_str()) },
            },
        };
        self.stage = stage_after(&action);
        assert(self@.messages =~= next.messages);
        action
    }
}

/// The stage in which a step is waited for.
fn stage_after(action: &ReadAction) -> (stage: ReadStage)
    ensures
        stage == stage_of(action@),
{
    match action {
        ReadAction::Connect { .. } => ReadStage::Connect,
        ReadAction::ConfigureTls => ReadStage::ConfigureTls,
        ReadAction::Handshake { .. } => ReadStage::Handshake,
        ReadAction::Login { .. } => ReadStage::Login,
        ReadAction::Select { .. } => ReadStage::Select,
        ReadAction::Fetch { .. } => ReadStage::Fetch,
        ReadAction::Receive => ReadStage::Receive,
        ReadAction::Logout => ReadStage::Logout,
        ReadAction::Finish { .. } | ReadAction::Fail { .. } => ReadStage::End,
    }
}

// ------------------------------------------------------------------------------ laws

/// A conversation at its beginning.
pub open spec fn started(profile: ProfileView) -> ReadView {
    ReadView { profile, stage: ReadStage::Connect, messages: Seq::empty() }
}

/// The conversation after a list of events.
pub open spec fn after(read: ReadView, events: Seq<EventView>) -> ReadView
    decreases events.len(),
{
    if events.len() == 0 {
        read
    } else {
        next_read(after(read, events.drop_last()), events.last())
    }
}

/// Whether each of a list of events can come of the step that was asked for when it came.
pub open spec fn possible(read: ReadView, events: Seq<EventView>) -> bool
    decreases events.len(),
{
    events.len() > 0 ==> {
        &&& possible(read, events.drop_last())
        &&& event_fits(after(read, events.drop_last()).stage, events.last())
    }
}

/// The messages that a list of events brings, in their order.
pub open spec fn received(events: Seq<EventView>) -> Seq<JsonView>
    decreases events.len(),
{
    if events.len() == 0 {
        Seq::empty()
    } else {
        received(events.drop_last()) + brought(events.last())
    }
}

/// A conversation that goes on holds what came so far.
proof fn lemma_messages_so_far(profile: ProfileView, events: Seq<EventView>)
    requires
        possible(started(profile), events),
        after(started(profile), events).stage != ReadStage::End,
    ensures
        after(started(profile), events).messages == received(events),
    decreases events.len(),
{
    if events.len() > 0 {
        lemma_messages_so_far(profile, events.drop_last());
    }
}

/// A conversation keeps to its profile.
proof fn lemma_profile_stays(read: ReadView, events: Seq<EventView>)
    ensures
        after(read, events).profile == read.profile,
    decreases events.len(),
{
    if events.len() > 0 {
        lemma_profile_stays(read, events.drop_last());
    }
}

/// Reading is complete and in order: a conversation that finishes hands over exactly the messages
/// that came in it, each once and the first one first.
pub proof fn finish_hands_over_what_came(
    profile: ProfileView,
    events: Seq<EventView>,
    last: EventView,
)
    requires
        possible(started(profile), events.push(last)),
    ensures
        next_action(after(started(profile), events), last) matches ActionView::Finish { messages }
            ==> messages == received(events.push(last)),
{
    assert(events.push(last).drop_last() =~= events);
    lemma_messages_so_far(profile, events);
    assert(received(events) + Seq::empty() =~= received(events));
}

/// The messages that are asked for are the most recent ones, and no more than the limit: of a mailbox
/// that has any, and with a limit above zero, the last is asked for, and as many as there are or as
/// the limit allows; else none are.
pub proof fn most_recent_within_limit(read: ReadView, exists: u32)
    ensures
        match recent_messages(exists, read.profile.limit) {
            Some((first, last)) => {
                &&& 1 <= first <= last == exists
                &&& last - first + 1 <= read.profile.limit
                &&& last - first + 1 == read.profile.limit || first == 1
                &&& next_action(read, EventView::Selected { exists }) == (ActionView::Fetch {
                    sequence: sequence_text(first, last),
                    items: fetch_items(),
                })
            },
            None => {
                &&& exists == 0 || read.profile.limit == 0
                &&& next_action(read, EventView::Selected { exists }) == ActionView::Logout
            },
        },
{
}

/// Reading is non-destructive: of all the steps that a conversation can ask for, the one that takes
/// messages asks for them with `BODY.PEEK`, which leaves them unseen.
pub proof fn messages_are_only_peeked_at(read: ReadView, event: EventView)
    ensures
        next_action(read, event) matches ActionView::Fetch { items, .. } ==> items == fetch_items(),
        occurs(fetch_items(), "BODY.PEEK[TEXT]"@),
{
    reveal_strlit("(ENVELOPE INTERNALDATE BODY.PEEK[TEXT])");
    reveal_strlit("BODY.PEEK[TEXT]");
    assert(occurs_at(fetch_items(), "BODY.PEEK[TEXT]"@, 23)) by {
        assert(fetch_items().subrange(23, 38) =~= "BODY.PEEK[TEXT]"@);
    }
}

/// Credentials are kept for the secured connection: where the profile asks for TLS, the login
/// follows the handshake and nothing else.
pub proof fn login_follows_handshake(read: ReadView, event: EventView)
    requires
        read.profile.tls == TlsMode::Implicit,
        event_fits(read.stage, event),
    ensures
        next_action(read, event) is Login ==> read.stage == ReadStage::Handshake && event
            == EventView::Done,
{
}

/// A conversation of a valid profile that reads never comes to ask for an upgrade of its connection,
/// which is not supported: such a profile is refused when it is registered.
pub proof fn upgrade_is_never_asked_for(
    profile: ProfileView,
    events: Seq<EventView>,
    last: EventView,
)
    requires
        valid_profile(profile),
        profile.op == EmailOp::Read,
        possible(started(profile), events.push(last)),
    ensures
        next_action(after(started(profile), events), last) != (ActionView::Fail {
            failure: starttls_failure(),
        }),
{
    lemma_profile_stays(started(profile), events);
    reveal_strlit("IMAP STARTTLS is not supported in v1; use implicit TLS (imaps) or none");
    reveal_strlit("invalid IMAP server name '");
    reveal_strlit("IMAP connect failed: ");
    reveal_strlit("rustls config: ");
    reveal_strlit("IMAP TLS handshake failed: ");
    reveal_strlit("IMAP login failed: ");
    reveal_strlit("IMAP select '");
    reveal_strlit("IMAP fetch failed: ");
    reveal_strlit("IMAP fetch read failed: ");
    let read = after(started(profile), events);
    assert(starttls_failure().message[5] == 'S');
    assert(starttls_failure().message[1] == 'M');
    if let EventView::Failed { detail } = last {
        let words = stage_failure(read.profile, read.stage, detail).message;
        assert(words[5] != 'S' || words[1] != 'M');
    } else if let Err(detail) = parsed_server_name(profile.host) {
        assert(server_name_failure(profile.host, detail).message[1] == 'n');
    }
}

/// How far a conversation has come.
pub open spec fn rank(stage: ReadStage) -> int {
    match stage {
        ReadStage::Connect => 0,
        ReadStage::ConfigureTls => 1,
        ReadStage::Handshake => 2,
        ReadStage::Login => 3,
        ReadStage::Select => 4,
        ReadStage::Fetch => 5,
        ReadStage::Receive => 6,
        ReadStage::Logout => 7,
        ReadStage::End => 8,
    }
}

/// A conversation moves on: after each event it has come further, unless a message was received,
/// after which the next one is waited for.
pub proof fn conversation_moves_on(read: ReadView, event: EventView)
    requires
        event_fits(read.stage, event),
    ensures
        event is Received ==> next_read(read, event).stage == read.stage,
        !(event is Received) ==> rank(next_read(read, event).stage) > rank(read.stage),
{
}

} // verus!
