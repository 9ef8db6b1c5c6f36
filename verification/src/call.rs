//! One call of a binding: what it asks for, what is done, and what it is answered with.
use crate::envelope::{build_result_envelope, classify_error, judged_words, rejects};
use crate::envelope::{classified, downstream_view, error_kind, is_rejection, is_transient};
use crate::envelope::{judged, speaks_of_connection};
use crate::envelope::{envelope_slots, request_view, response_view, result_view};
use crate::imap::{server_name_failure, stage_failure, started, ActionView, ReadStage, ReadView};
use crate::imap::{ImapRead, ReadAction};
use crate::json::{items_model, lemma_nests_deeper};
use crate::json::{Json, JsonView};
use crate::profile::{EmailProfile, ProfileView};
use crate::smtp::{delivered, direct_envelope, is_plain_address, send_refusal, DeliveryView};
use crate::smtp::{invalid_address_words, login, mailbox_text, parsed_mailbox};
use crate::smtp::{prepare_send, SmtpDelivery};
use crate::text::{after_first, ascii_lower, begins_with, occurs, occurs_at};
use crate::text::lemma_begins_alike;
use crate::text::{contains, eq_ignore_ascii_case, same_text};
use crate::types::{text_view, EmailOp};
use crate::wire::{from_slice, value_as_str, value_get};
use crate::wire::{no_members, parsed_json, value_json};
use serde_json::Value;
use vstd::prelude::*;

verus! {

// -------------------------------------------------------------------------- arguments

/// The arguments that a call can have. One that is not a string is as if it were not there.
#[derive(Debug, PartialEq, Eq)]
pub struct CallArguments {
    pub to: Option<String>,
    pub subject: Option<String>,
    pub body: Option<String>,
}

/// What [`CallArguments`] say.
pub ghost struct ArgumentsView {
    pub to: Option<Seq<char>>,
    pub subject: Option<Seq<char>>,
    pub body: Option<Seq<char>>,
}

impl View for CallArguments {
    type V = ArgumentsView;

    open spec fn view(&self) -> ArgumentsView {
        ArgumentsView {
            to: text_view(self.to),
            subject: text_view(self.subject),
            body: text_view(self.body),
        }
    }
}

/// The arguments that a JSON value gives.
pub open spec fn arguments_of(json: JsonView) -> ArgumentsView {
    ArgumentsView {
        to: json.string_member("to"@),
        subject: json.string_member("subject"@),
        body: json.string_member("body"@),
    }
}

/// The JSON value that a payload, read as `parsed`, stands for: one without members where there is
/// no payload, and `null` where it is not JSON.
pub open spec fn payload_json(payload: Seq<u8>, parsed: Option<JsonView>) -> JsonView {
    if payload.len() == 0 {
        JsonView::Object(no_members())
    } else {
        match parsed {
            Some(json) => json,
            None => JsonView::Null,
        }
    }
}

/// The member `key` of a value, where it is a string.
fn string_member(value: &Value, key: &str) -> (text: Option<String>)
    ensures
        text_view(text) == value_json(*value).string_member(key@),
{
    match value_get(value, key) {
        Some(member) => match value_as_str(member) {
            Some(text) => Some(text.to_owned()),
            None => None,
        },
        None => None,
    }
}

/// The arguments that a JSON value gives.
pub fn value_arguments(value: &Value) -> (arguments: CallArguments)
    ensures
        arguments@ == arguments_of(value_json(*value)),
{
    CallArguments {
        to: string_member(value, "to"),
        subject: string_member(value, "subject"),
        body: string_member(value, "body"),
    }
}

/// The arguments that a payload gives: none where it is empty or not JSON.
pub fn read_arguments(payload: &[u8]) -> (arguments: CallArguments)
    ensures
        arguments@ == arguments_of(payload_json(payload@, parsed_json(payload@))),
{
    if payload.len() > 0 {
        if let Ok(value) = from_slice(payload) {
            return value_arguments(&value);
        }
    }
    CallArguments { to: None, subject: None, body: None }
}

// -------------------------------------------------------------------------- tool name

/// The header that names the tool.
pub open spec fn names_tool(header: (String, String)) -> bool {
    ascii_lower(header.0@) == ascii_lower("mcpg-tool-name"@)
}

/// The value of the first header that names the tool; the name of the binding where there is none.
pub open spec fn tool_name_of(headers: Seq<(String, String)>, backend_name: Seq<char>) -> Seq<char>
    decreases headers.len(),
{
    if headers.len() == 0 {
        backend_name
    } else if names_tool(headers[0]) {
        headers[0].1@
    } else {
        tool_name_of(headers.drop_first(), backend_name)
    }
}

/// The value of the first header that names the tool; the name of the binding where there is none.
pub fn tool_name(headers: &Vec<(String, String)>, backend_name: &str) -> (name: String)
    ensures
        name@ == tool_name_of(headers@, backend_name@),
{
    let mut i: usize = 0;
    assert(headers@.skip(0) =~= headers@);
    while i < headers.len()
        invariant
            i <= headers@.len(),
            tool_name_of(headers@.skip(i as int), backend_name@) == tool_name_of(
                headers@,
                backend_name@,
            ),
        decreases headers@.len() - i,
    {
        assert(headers@.skip(i as int).drop_first() =~= headers@.skip(i + 1));
        if eq_ignore_ascii_case(headers[i].0.as_str(), "mcpg-tool-name") {
            return headers[i].1.clone();
        }
        i += 1;
    }
    backend_name.to_owned()
}

// ------------------------------------------------------------------------------- work

/// A call, once its binding was found.
pub struct Call {
    pub backend_name: String,
    pub tool_name: String,
    pub profile: EmailProfile,
    pub arguments: CallArguments,
}

/// What a [`Call`] says.
pub ghost struct CallView {
    pub backend_name: Seq<char>,
    pub tool_name: Seq<char>,
    pub profile: ProfileView,
    pub arguments: ArgumentsView,
}

impl View for Call {
    type V = CallView;

    open spec fn view(&self) -> CallView {
        CallView {
            backend_name: self.backend_name@,
            tool_name: self.tool_name@,
            profile: self.profile@,
            arguments: self.arguments@,
        }
    }
}

/// What is to be done for a call.
pub enum Work {
    /// Deliver a message.
    Deliver(SmtpDelivery),
    /// Hold a conversation that begins with this step.
    Converse(ImapRead, ReadAction),
}

/// What [`Work`] says.
pub ghost enum WorkView {
    Deliver(DeliveryView),
    Converse(ReadView, ActionView),
}

impl View for Work {
    type V = WorkView;

    open spec fn view(&self) -> WorkView {
        match *self {
            Work::Deliver(delivery) => WorkView::Deliver(delivery@),
            Work::Converse(read, action) => WorkView::Converse(read@, action@),
        }
    }
}

/// A text, or none.
pub open spec fn or_empty(text: Option<Seq<char>>) -> Seq<char> {
    match text {
        Some(t) => t,
        None => Seq::empty(),
    }
}

/// Why nothing is done for a call, where nothing is: a binding that sends needs a recipient, and a
/// message that can be built.
pub open spec fn work_refusal(profile: ProfileView, arguments: ArgumentsView) -> Option<Seq<char>> {
    match profile.op {
        EmailOp::Send => match arguments.to {
            Some(to) => send_refusal(profile.from, to),
            None => Some("send requires a string 'to' argument"@),
        },
        EmailOp::Read => None,
    }
}

/// What is done for a call where nothing is against it. Whatever the arguments leave out of a
/// message is empty in it; a binding that reads takes none.
pub open spec fn work_view(profile: ProfileView, arguments: ArgumentsView) -> WorkView {
    match profile.op {
        EmailOp::Send => WorkView::Deliver(
            delivered(
                profile.host,
                profile.port,
                profile.tls,
                profile.username,
                profile.password,
                profile.from,
                or_empty(arguments.to),
                or_empty(arguments.subject),
                or_empty(arguments.body),
            ),
        ),
        EmailOp::Read => WorkView::Converse(
            started(profile),
            ActionView::Connect { host: profile.host, port: profile.port },
        ),
    }
}

/// A text, or an empty one.
fn text_or_empty(text: &Option<String>) -> (filled: String)
    ensures
        filled@ == or_empty(text_view(*text)),
{
    match text {
        Some(t) => t.clone(),
        None => String::new(),
    }
}

impl Call {
    /// What is to be done for the call, or why nothing is. Where the sender and the recipient have
    /// addresses that are not quoted, the message goes from the one to the other.
    pub fn work(&self) -> (work: Result<Work, String>)
        ensures
            match work {
                Ok(w) => work_refusal(self@.profile, self@.arguments) is None && w@ == work_view(
                    self@.profile,
                    self@.arguments,
                ),
                Err(words) => work_refusal(self@.profile, self@.arguments) == Some(words@),
            },
            self@.profile.op == EmailOp::Send && is_plain_address(self@.profile.from) && (
            self@.arguments.to matches Some(to) && is_plain_address(to)) ==> (work matches Ok(
                Work::Deliver(d),
            ) && d@.message.envelope == direct_envelope(
                parsed_mailbox(self@.profile.from)->Ok_0,
                parsed_mailbox(or_empty(self@.arguments.to))->Ok_0,
            )),
    {
        let profile = &self.profile;
        match profile.op {
            EmailOp::Send => {
                let to = match &self.arguments.to {
                    Some(to) => to.as_str(),
                    None => {
                        return Err("send requires a string 'to' argument".to_owned());
                    },
                };
                let subject = text_or_empty(&self.arguments.subject);
                let body = text_or_empty(&self.arguments.body);
                match prepare_send(
                    profile.host.as_str(),
                    profile.port,
                    profile.tls,
                    profile.username.as_str(),
                    profile.password.as_str(),
                    profile.from.as_str(),
                    to,
                    subject.as_str(),
                    body,
                ) {
                    Ok(delivery) => Ok(Work::Deliver(delivery)),
                    Err(words) => Err(words),
                }
            },
            EmailOp::Read => {
                let (read, action) = ImapRead::start(profile.clone());
                Ok(Work::Converse(read, action))
            },
        }
    }
}

// ----------------------------------------------------------------------------- report

/// What came of the work.
#[derive(Debug)]
pub enum WorkOutcome {
    /// The message was delivered.
    Sent,
    /// These messages were read.
    Read { messages: Vec<Json> },
    /// It failed.
    Failed { message: String },
    /// It took longer than the binding allows.
    TimedOut,
}

/// What a [`WorkOutcome`] says.
pub ghost enum OutcomeView {
    Sent,
    Read { messages: Seq<JsonView> },
    Failed { message: Seq<char> },
    TimedOut,
}

impl View for WorkOutcome {
    type V = OutcomeView;

    open spec fn view(&self) -> OutcomeView {
        match *self {
            WorkOutcome::Sent => OutcomeView::Sent,
            WorkOutcome::Read { messages } => OutcomeView::Read {
                messages: items_model(messages@),
            },
            WorkOutcome::Failed { message } => OutcomeView::Failed { message: message@ },
            WorkOutcome::TimedOut => OutcomeView::TimedOut,
        }
    }
}

impl OutcomeView {
    /// The words of the failure, where it is one.
    pub open spec fn failure(self) -> Option<Seq<char>> {
        match self {
            OutcomeView::Failed { message } => Some(message),
            OutcomeView::TimedOut => Some("email operation timed out"@),
            _ => None,
        }
    }

    /// Whether a message was sent, where one was to be.
    pub open spec fn sent(self) -> Option<bool> {
        match self {
            OutcomeView::Sent => Some(true),
            _ => None,
        }
    }

    /// The messages that were read, where any were to be.
    pub open spec fn messages(self) -> Option<Seq<JsonView>> {
        match self {
            OutcomeView::Read { messages } => Some(messages),
            _ => None,
        }
    }
}

/// Whether a failure is that something took too long.
pub open spec fn speaks_of_time(message: Seq<char>) -> bool {
    !is_rejection(message) && (occurs(judged(message), "timed out"@) || occurs(
        judged(message),
        "timeout"@,
    ))
}

/// The label under which a failure with these words is counted.
pub open spec fn failure_label(message: Seq<char>) -> Seq<char> {
    if speaks_of_time(message) {
        "timeout"@
    } else if error_kind(message) == "transport_error"@ {
        "transport_error"@
    } else {
        "email_error"@
    }
}

/// The label under which an outcome is counted.
pub open spec fn outcome_label(outcome: OutcomeView) -> Seq<char> {
    match outcome.failure() {
        Some(message) => failure_label(message),
        None => "ok"@,
    }
}

/// The envelope that a call is answered with.
pub open spec fn call_envelope(call: CallView, outcome: OutcomeView, duration_ms: u128) -> JsonView {
    result_view(
        call.tool_name,
        call.backend_name,
        call.profile.op.word(),
        call.profile.host,
        call.profile.mailbox,
        outcome.sent(),
        outcome.messages(),
        duration_ms,
        match outcome.failure() {
            Some(message) => Some(classified(message)),
            None => None,
        },
        outcome.failure(),
    )
}

/// The end of a call.
#[derive(Debug)]
pub struct CallReport {
    /// What the call is answered with.
    pub envelope: Json,
    /// What it is counted under.
    pub label: &'static str,
    /// The words of the failure, where it failed.
    pub reason: Option<String>,
}

/// The label under which a failure with these words is counted.
pub fn label_failure(message: &str) -> (label: &'static str)
    ensures
        label@ == failure_label(message@),
{
    let lower = judged_words(message);
    let downstream = classify_error(message);
    proof {
        crate::envelope::classification_is_coherent(message@);
    }
    if !rejects(message) && (contains(&lower, "timed out") || contains(&lower, "timeout")) {
        "timeout"
    } else if kind_is(&downstream, "transport_error") {
        "transport_error"
    } else {
        "email_error"
    }
}

/// Whether an error is of a kind.
fn kind_is(downstream: &Json, kind: &str) -> (same: bool)
    ensures
        same == (downstream@.member("kind"@) == Some(JsonView::Str(kind@))),
{
    match downstream.get("kind") {
        Some(member) => match member.as_str() {
            Some(text) => same_text(text, kind),
            None => false,
        },
        None => false,
    }
}

impl Call {
    /// The envelope of a call that succeeded.
    fn success(&self, sent: Option<bool>, messages: Option<&[Json]>, duration_ms: u128) -> (report:
        CallReport)
        requires
            duration_ms <= u64::MAX,
        ensures
            report.envelope@ == result_view(
                self@.tool_name,
                self@.backend_name,
                self@.profile.op.word(),
                self@.profile.host,
                self@.profile.mailbox,
                sent,
                crate::envelope::messages_view(messages),
                duration_ms,
                None,
                None,
            ),
            report.label@ == "ok"@,
            report.reason is None,
    {
        CallReport {
            envelope: build_result_envelope(
                self.tool_name.as_str(),
                self.backend_name.as_str(),
                self.profile.op.as_str(),
                self.profile.host.as_str(),
                self.profile.mailbox.as_str(),
                sent,
                messages,
                duration_ms,
                None,
                None,
            ),
            label: "ok",
            reason: None,
        }
    }

    /// The envelope of a call that failed.
    fn failure(&self, message: String, duration_ms: u128) -> (report: CallReport)
        ensures
            report.envelope@ == result_view(
                self@.tool_name,
                self@.backend_name,
                self@.profile.op.word(),
                self@.profile.host,
                self@.profile.mailbox,
                None,
                None,
                duration_ms,
                Some(classified(message@)),
                Some(message@),
            ),
            report.label@ == failure_label(message@),
            text_view(report.reason) == Some(message@),
    {
        let downstream = classify_error(message.as_str());
        CallReport {
            envelope: build_result_envelope(
                self.tool_name.as_str(),
                self.backend_name.as_str(),
                self.profile.op.as_str(),
                self.profile.host.as_str(),
                self.profile.mailbox.as_str(),
                None,
                None,
                duration_ms,
                Some(&downstream),
                Some(message.as_str()),
            ),
            label: label_failure(message.as_str()),
            reason: Some(message),
        }
    }

    /// The end of the call, given what came of the work and how long it took. The duration of a call
    /// that succeeded is written as a JSON number, so it has to fit one.
    pub fn report(&self, outcome: WorkOutcome, duration_ms: u128) -> (report: CallReport)
        requires
            outcome@.failure() is None ==> duration_ms <= u64::MAX,
        ensures
            report.envelope@ == call_envelope(self@, outcome@, duration_ms),
            report.label@ == outcome_label(outcome@),
            text_view(report.reason) == outcome@.failure(),
    {
        match outcome {
            WorkOutcome::Sent => self.success(Some(true), None, duration_ms),
            WorkOutcome::Read { messages } => self.success(
                None,
                Some(messages.as_slice()),
                duration_ms,
            ),
            WorkOutcome::Failed { message } => self.failure(message, duration_ms),
            WorkOutcome::TimedOut => self.failure(
                "email operation timed out".to_owned(),
                duration_ms,
            ),
        }
    }
}

// ------------------------------------------------------------------------------- laws

/// A call that takes too long is counted as a timeout, and is answered with a transport error that
/// can be retried.
pub proof fn timeout_is_retryable(call: CallView, duration_ms: u128)
    ensures
        outcome_label(OutcomeView::TimedOut) == "timeout"@,
        call_envelope(call, OutcomeView::TimedOut, duration_ms).member("downstreamError"@) == Some(
            downstream_view("transport_error"@, "email operation timed out"@, true),
        ),
{
    reveal_strlit("email operation timed out");
    reveal_strlit("timed out");
    let words = "email operation timed out"@;
    let lower = ascii_lower(words);
    assert(lower[0] == 'e');
    reveal_strlit("invalid from address '");
    reveal_strlit("invalid to address '");
    reveal_strlit("invalid imap server name '");
    reveal_strlit("imap select '");
    lemma_begins_alike(lower, "invalid from address '"@, 0);
    lemma_begins_alike(lower, "invalid to address '"@, 0);
    lemma_begins_alike(lower, "invalid imap server name '"@, 0);
    lemma_begins_alike(lower, "imap select '"@, 0);
    assert(lower.subrange(16, 25) =~= "timed out"@);
    assert(occurs_at(lower, "timed out"@, 16));
    envelope_slots(
        call.tool_name,
        call.backend_name,
        request_view(call.profile.op.word(), call.profile.host, call.profile.mailbox),
        JsonView::Null,
        Some(classified(words)),
        Some(words),
    );
}

/// Labels agree with the answer: what is counted as a timeout or a transport error is answered as one
/// that can be retried, and what is counted as an email error as one that cannot.
pub proof fn label_agrees_with_classification(message: Seq<char>)
    ensures
        failure_label(message) == "email_error"@ <==> !is_transient(message),
        failure_label(message) == "timeout"@ <==> speaks_of_time(message),
        speaks_of_time(message) ==> is_transient(message),
{
    reveal_strlit("timeout");
    reveal_strlit("transport_error");
    reveal_strlit("email_error");
    assert("timeout"@.len() == 7 && "transport_error"@.len() == 15 && "email_error"@.len() == 11);
}

/// A rejected address is not retried, whatever it reads like: it is an email error.
pub proof fn rejected_addresses_are_not_retried(
    role: Seq<char>,
    address: Seq<char>,
    detail: Seq<char>,
)
    requires
        role == "from"@ || role == "to"@,
    ensures
        is_rejection(invalid_address_words(role, address, detail)),
        !is_transient(invalid_address_words(role, address, detail)),
        failure_label(invalid_address_words(role, address, detail)) == "email_error"@,
{
    reveal_strlit("invalid ");
    reveal_strlit("from");
    reveal_strlit("to");
    reveal_strlit(" address '");
    reveal_strlit("invalid from address '");
    reveal_strlit("invalid to address '");
    let lower = ascii_lower(invalid_address_words(role, address, detail));
    if role == "from"@ {
        assert(lower.subrange(0, 22) =~= "invalid from address '"@);
    } else {
        assert(lower.subrange(0, 20) =~= "invalid to address '"@);
    }
    label_agrees_with_classification(invalid_address_words(role, address, detail));
}

/// A host that no certificate can be held to is not tried again, whatever it reads like.
pub proof fn rejected_server_names_are_not_retried(host: Seq<char>, detail: Seq<char>)
    ensures
        is_rejection(server_name_failure(host, detail).message),
        !is_transient(server_name_failure(host, detail).message),
        failure_label(server_name_failure(host, detail).message) == "email_error"@,
{
    reveal_strlit("invalid IMAP server name '");
    reveal_strlit("invalid imap server name '");
    let words = server_name_failure(host, detail).message;
    assert(ascii_lower(words).subrange(0, 26) =~= "invalid imap server name '"@);
    label_agrees_with_classification(words);
}

/// What follows a text that does not hold the marker, and the marker, is what follows the marker.
pub proof fn lemma_after_marker(before: Seq<char>, after: Seq<char>)
    requires
        !occurs(before, "' failed: "@),
    ensures
        after_first(before + "' failed: "@ + after, "' failed: "@) == Some(after),
    decreases before.len(),
{
    reveal_strlit("' failed: ");
    let marker = "' failed: "@;
    let whole = before + marker + after;
    if before.len() == 0 {
        assert(whole.subrange(0, marker.len() as int) =~= marker);
        assert(whole.skip(marker.len() as int) =~= after);
    } else {
        if begins_with(whole, marker) {
            assert(forall|i: int| 0 <= i < marker.len() ==> whole[i] == #[trigger] marker[i]);
            if before.len() < marker.len() {
                assert(whole[before.len() as int] == marker[0]);
                assert(marker[before.len() as int] == marker[0]);
            } else {
                assert(before.subrange(0, marker.len() as int) =~= marker);
                assert(occurs_at(before, marker, 0));
            }
        }
        let rest = before.drop_first();
        if occurs(rest, marker) {
            let at = choose|at: int| occurs_at(rest, marker, at);
            assert(before.subrange(at + 1, at + 1 + marker.len()) =~= rest.subrange(
                at,
                at + marker.len(),
            ));
            assert(occurs_at(before, marker, at + 1));
        }
        lemma_after_marker(rest, after);
        assert(whole.drop_first() =~= rest + marker + after);
    }
}

/// A mailbox that could not be selected is judged by what the server says of it, whatever it is called;
/// only a name that holds the words by which the server's are found is another matter.
pub proof fn selection_is_judged_by_the_server(profile: ProfileView, detail: Seq<char>)
    requires
        !occurs(ascii_lower(profile.mailbox), "' failed: "@),
    ensures
        is_transient(stage_failure(profile, ReadStage::Select, detail).message)
            == speaks_of_connection(ascii_lower(detail)),
{
    reveal_strlit("IMAP select '");
    reveal_strlit("imap select '");
    reveal_strlit("' failed: ");
    reveal_strlit("invalid from address '");
    reveal_strlit("invalid to address '");
    reveal_strlit("invalid imap server name '");
    let lower = ascii_lower(stage_failure(profile, ReadStage::Select, detail).message);
    assert(lower.subrange(0, 13) =~= "imap select '"@);
    assert(lower[1] == 'm');
    lemma_begins_alike(lower, "invalid from address '"@, 1);
    lemma_begins_alike(lower, "invalid to address '"@, 1);
    lemma_begins_alike(lower, "invalid imap server name '"@, 1);
    lemma_after_marker(ascii_lower(profile.mailbox), ascii_lower(detail));
    assert(lower.skip(13) =~= ascii_lower(profile.mailbox) + "' failed: "@ + ascii_lower(detail));
}

/// The success signal: a call is counted as `ok` exactly where its envelope has no downstream error,
/// and then a binding that sent says so, and one that read gives the messages.
pub proof fn ok_where_nothing_failed(call: CallView, outcome: OutcomeView, duration_ms: u128)
    ensures
        outcome_label(outcome) == "ok"@ <==> outcome.failure() is None,
        outcome.failure() is None <==> call_envelope(call, outcome, duration_ms).member(
            "downstreamError"@,
        ) == Some(JsonView::Null),
        outcome == OutcomeView::Sent ==> call_envelope(call, outcome, duration_ms).member(
            "response"@,
        ) == Some(response_view(Some(true), None, duration_ms as u64)),
        outcome matches OutcomeView::Read { messages } ==> call_envelope(
            call,
            outcome,
            duration_ms,
        ).member("response"@) == Some(response_view(None, Some(messages), duration_ms as u64)),
        call_envelope(call, outcome, duration_ms).member("error"@) == Some(
            match outcome.failure() {
                Some(words) => JsonView::Str(words),
                None => JsonView::Null,
            },
        ),
{
    reveal_strlit("ok");
    reveal_strlit("timeout");
    reveal_strlit("transport_error");
    reveal_strlit("email_error");
    assert("ok"@.len() == 2 && "timeout"@.len() == 7);
    assert("transport_error"@.len() == 15 && "email_error"@.len() == 11);
    envelope_slots(
        call.tool_name,
        call.backend_name,
        request_view(call.profile.op.word(), call.profile.host, call.profile.mailbox),
        if outcome.failure() is Some {
            JsonView::Null
        } else {
            response_view(outcome.sent(), outcome.messages(), duration_ms as u64)
        },
        match outcome.failure() {
            Some(message) => Some(classified(message)),
            None => None,
        },
        outcome.failure(),
    );
}

/// No credential gets into an answer: what a call is answered with is the same whatever the user and
/// the password of the binding are.
pub proof fn envelope_tells_no_credentials(
    call: CallView,
    outcome: OutcomeView,
    duration_ms: u128,
    username: Seq<char>,
    password: Seq<char>,
)
    ensures
        call_envelope(call, outcome, duration_ms) == call_envelope(
            CallView { profile: ProfileView { username, password, ..call.profile }, ..call },
            outcome,
            duration_ms,
        ),
{
}

/// The case of header names is of no account: headers that differ in nothing else give the same
/// tool name.
pub proof fn header_names_ignore_case(
    a: Seq<(String, String)>,
    b: Seq<(String, String)>,
    backend_name: Seq<char>,
)
    requires
        a.len() == b.len(),
        forall|i: int|
            0 <= i < a.len() ==> ascii_lower((#[trigger] a[i]).0@) == ascii_lower(b[i].0@) && a[i].1@
                == b[i].1@,
    ensures
        tool_name_of(a, backend_name) == tool_name_of(b, backend_name),
    decreases a.len(),
{
    if a.len() > 0 {
        assert(ascii_lower(a[0].0@) == ascii_lower(b[0].0@));
        assert forall|i: int| 0 <= i < a.drop_first().len() implies ascii_lower(
            (#[trigger] a.drop_first()[i]).0@,
        ) == ascii_lower(b.drop_first()[i].0@) && a.drop_first()[i].1@ == b.drop_first()[i].1@ by {
            assert(a.drop_first()[i] == a[i + 1]);
        }
        header_names_ignore_case(a.drop_first(), b.drop_first(), backend_name);
    }
}

/// A call without a header that names the tool is one of the tool that the binding is named after.
pub proof fn tool_is_binding_by_default(headers: Seq<(String, String)>, backend_name: Seq<char>)
    requires
        forall|i: int| 0 <= i < headers.len() ==> !names_tool(#[trigger] headers[i]),
    ensures
        tool_name_of(headers, backend_name) == backend_name,
    decreases headers.len(),
{
    if headers.len() > 0 {
        assert(!names_tool(headers[0]));
        assert forall|i: int| 0 <= i < headers.drop_first().len() implies !names_tool(
            #[trigger] headers.drop_first()[i],
        ) by {
            assert(headers.drop_first()[i] == headers[i + 1]);
        }
        tool_is_binding_by_default(headers.drop_first(), backend_name);
    }
}

/// Only a call of a binding that sends delivers, and only one of a binding that reads converses; what
/// a binding that reads does is the same whatever the arguments are.
pub proof fn work_follows_the_binding(
    profile: ProfileView,
    arguments: ArgumentsView,
    others: ArgumentsView,
)
    ensures
        work_view(profile, arguments) is Deliver <==> profile.op == EmailOp::Send,
        profile.op == EmailOp::Read ==> work_refusal(profile, arguments) is None && work_view(
            profile,
            arguments,
        ) == work_view(profile, others),
{
}

/// A message is sent as the binding's sender and through its server, whatever the arguments are: they
/// give the recipient, the subject and the body.
pub proof fn arguments_choose_no_server(profile: ProfileView, arguments: ArgumentsView)
    ensures
        work_view(profile, arguments) matches WorkView::Deliver(delivery) ==> {
            &&& delivery.host == profile.host
            &&& delivery.port == profile.port
            &&& delivery.tls == profile.tls
            &&& delivery.credentials == login(profile.username, profile.password)
            &&& delivery.message.from == mailbox_text(parsed_mailbox(profile.from)->Ok_0)
            &&& delivery.message.subject == or_empty(arguments.subject)
        },
{
}

/// Answers can be read: the envelope of a call nests no deeper than what reads it allows, as long as the
/// messages in it nest no deeper than a response says of one.
pub proof fn answers_can_be_read(call: CallView, outcome: OutcomeView, duration_ms: u128)
    requires
        outcome.messages() matches Some(messages) ==> forall|i: int|
            0 <= i < messages.len() ==> (#[trigger] messages[i]).nests_within(2),
    ensures
        call_envelope(call, outcome, duration_ms).nests_within(127),
{
    let envelope = call_envelope(call, outcome, duration_ms);
    assert forall|key: Seq<char>| #[trigger]
        envelope->Object_0.contains_key(key) implies envelope->Object_0[key].nests_within(4) by {
        let slot = envelope->Object_0[key];
        if let JsonView::Object(members) = slot {
            assert forall|name: Seq<char>| #[trigger]
                members.contains_key(name) implies members[name].nests_within(3) by {
                if let JsonView::Array(items) = members[name] {
                    assert(outcome.messages() == Some(items));
                    assert forall|i: int| 0 <= i < items.len() implies (
                    #[trigger] items[i]).nests_within(2) by {
                    }
                }
            }
        } else if let JsonView::Array(items) = slot {
            assert forall|i: int| 0 <= i < items.len() implies (#[trigger] items[i]).nests_within(
                3,
            ) by {
                let message = outcome.failure()->0;
                assert(items[i] == classified(message));
                assert forall|name: Seq<char>| #[trigger]
                    classified(message)->Object_0.contains_key(name) implies classified(
                    message,
                )->Object_0[name].nests_within(2) by {
                }
            }
        }
    }
    lemma_nests_deeper(envelope, 5, 127);
}

} // verus!
