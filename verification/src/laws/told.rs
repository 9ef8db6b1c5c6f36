//! Laws of what is told to others: audit events, answers, and what the values of this crate say.
use crate::backend::{answer_of, answer_view, AnswerView, BackendError, BackendResponse, ErrorView};
use crate::call::{Call, CallArguments, OutcomeView, Work, WorkOutcome, WorkView};
use crate::email::{message_view, FetchedMessage};
use crate::envelope::{messages_view, optional_text, optional_view};
use crate::failure::{Failure, FailureView};
use crate::imap::{server_name_text, ActionView, EventView, ImapRead, ReadAction, ReadEvent};
use crate::json::{entries_model, items_model, Json, JsonObject, JsonView};
use crate::laws::failures::has;
use crate::laws::strings::{is_numeral, numbers_are_written_as_their_numerals, numeral_value};
use crate::observe::{audit_action, details_say_what_happened, details_view, event_says};
use crate::observe::{not_found_label, Actor, AuditEvent, AuditOutcome};
use crate::profile::EmailProfile;
use crate::smtp::{direct_envelope, is_plain_address, message_parts, parsed_mailbox};
use crate::smtp::{MailboxParts, SmtpDelivery};
use crate::types::{text_or, text_view, EmailBackendSpec, EmailOp, TlsMode};
use vstd::prelude::*;

verus! {

// ------------------------------------------------------------------------------- audit

/// Which labels are audited, and as what: four, and no other.
pub proof fn what_is_audited(label: Seq<char>)
    ensures
        label == "timeout"@ ==> audit_action(label) == Some(
            "dev.mcpg.backend.email.request_timeout"@,
        ),
        label == "transport_error"@ ==> audit_action(label) == Some(
            "dev.mcpg.backend.email.request_failed"@,
        ),
        label == "invalid_spec"@ ==> audit_action(label) == Some(
            "dev.mcpg.backend.email.request_failed"@,
        ),
        label == "email_error"@ ==> audit_action(label) == Some(
            "dev.mcpg.backend.email.operation_rejected"@,
        ),
        label != "timeout"@ && label != "transport_error"@ && label != "invalid_spec"@ && label
            != "email_error"@ ==> audit_action(label) is None,
        not_found_label() == "profile_not_found"@,
{
    reveal_strlit("timeout");
    reveal_strlit("transport_error");
    reveal_strlit("invalid_spec");
    reveal_strlit("email_error");
    assert("timeout"@.len() == 7 && "transport_error"@.len() == 15);
    assert("invalid_spec"@.len() == 12 && "email_error"@.len() == 11);
}

/// Whether a duration is that many whole milliseconds, of which 64 bits are told: the count starts again
/// as often as they ran over.
pub open spec fn counts_millis(duration_nanos: u128, millis: u64, wraps: nat) -> bool {
    let whole = millis + wraps * 0x1_0000_0000_0000_0000;
    whole * 1_000_000 <= duration_nanos < (whole + 1) * 1_000_000
}

/// A count that did not run over is the whole milliseconds.
pub proof fn short_durations_are_counted_once(duration_nanos: u128, millis: u64, wraps: nat)
    requires
        counts_millis(duration_nanos, millis, wraps),
        duration_nanos < 0x1_0000_0000_0000_0000 * 1_000_000,
    ensures
        millis * 1_000_000 <= duration_nanos < (millis + 1) * 1_000_000,
{
    if wraps > 0 {
        assert(millis + wraps * 0x1_0000_0000_0000_0000 >= 0x1_0000_0000_0000_0000);
    }
}

/// What an audit event tells: which call it was and how many nanoseconds it took, written as a numeral;
/// when; who made it, or that the system did; what it is put down as; of which binding; that it failed; and
/// the details: the binding, the whole milliseconds, the label, the host's alias, and the reason where there
/// is one.
pub proof fn what_an_audit_event_tells(
    event: AuditEvent,
    action: Seq<char>,
    backend_name: Seq<char>,
    label: Seq<char>,
    reason: Option<Seq<char>>,
    has_identity: bool,
    request_id: Seq<char>,
    duration_nanos: u128,
    alias: Seq<char>,
    occurred_at: Seq<char>,
)
    requires
        event_says(
            event,
            action,
            backend_name,
            label,
            reason,
            has_identity,
            request_id,
            duration_nanos,
            alias,
            occurred_at,
        ),
    ensures
        exists|nanos: Seq<char>|
            {
                &&& event.event_id@ == "email-"@ + request_id + "-"@ + nanos
                &&& #[trigger] is_numeral(nanos)
                &&& numeral_value(nanos) == duration_nanos
            },
        event.occurred_at@ == occurred_at,
        has_identity ==> event.actor == Actor::Caller,
        !has_identity ==> (event.actor matches Actor::System(identity) && {
            &&& identity.kind@ == "system"@
            &&& identity.trust_level@ == "verified"@
            &&& identity.subject_id matches Some(id) && id@ == "dev.mcpg.backend.email"@
            &&& identity.auth_provider is None
            &&& identity.issuer is None
            &&& identity.roles@.len() == 0
            &&& identity.groups@.len() == 0
            &&& identity.scopes@.len() == 0
            &&& identity.attributes@.len() == 0
        }),
        event.action@ == action,
        event.resource@ == "email-binding://"@ + backend_name,
        event.outcome == AuditOutcome::Failure,
        event.request_id@ == request_id,
        has(event.details@, "backend"@, JsonView::Str(backend_name)),
        has(event.details@, "outcome"@, JsonView::Str(label)),
        has(event.details@, "alias"@, JsonView::Str(alias)),
        reason matches Some(words) ==> has(event.details@, "reason"@, JsonView::Str(words)),
        reason is None ==> !event.details@->Object_0.contains_key("reason"@),
        exists|millis: u64, wraps: nat| #[trigger]
            counts_millis(duration_nanos, millis, wraps) && has(
                event.details@,
                "duration_ms"@,
                JsonView::Number(millis),
            ),
        event.details@->Object_0.dom() == if reason is Some {
            set!["backend"@, "duration_ms"@, "outcome"@, "alias"@, "reason"@]
        } else {
            set!["backend"@, "duration_ms"@, "outcome"@, "alias"@]
        },
{
    let nanos = crate::text::decimal(duration_nanos as nat);
    numbers_are_written_as_their_numerals(duration_nanos as nat);
    assert(is_numeral(nanos));
    let millis = crate::observe::whole_millis(duration_nanos);
    details_say_what_happened(backend_name, millis, label, alias, reason);
    reveal_strlit("backend");
    reveal_strlit("duration_ms");
    reveal_strlit("outcome");
    reveal_strlit("alias");
    reveal_strlit("reason");
    assert("backend"@[0] != "outcome"@[0]);
    assert("backend"@.len() == 7 && "duration_ms"@.len() == 11 && "outcome"@.len() == 7);
    assert("alias"@.len() == 5 && "reason"@.len() == 6);
    let details = details_view(backend_name, millis, label, alias, reason);
    assert(has(details, "duration_ms"@, JsonView::Number(millis)));
    let whole = duration_nanos as int / 1_000_000;
    let wraps = (whole / 0x1_0000_0000_0000_0000) as nat;
    assert(millis == whole % 0x1_0000_0000_0000_0000);
    assert(counts_millis(duration_nanos, millis, wraps));
    assert(details->Object_0.dom() =~= if reason is Some {
        set!["backend"@, "duration_ms"@, "outcome"@, "alias"@, "reason"@]
    } else {
        set!["backend"@, "duration_ms"@, "outcome"@, "alias"@]
    });
}

// ------------------------------------------------------------------------------- answers

/// An answer is the text of the envelope, whole; or that, and why, it could not be written.
pub proof fn what_an_answer_is(text: Vec<u8>, words: String)
    ensures
        answer_of(Ok(text)) == (AnswerView::Response { payload: text@, truncated: false }),
        answer_of(Err(words)) == AnswerView::Error(
            ErrorView::Transport {
                message: "Email plugin envelope serialization failed: "@ + words@,
            },
        ),
{
}

// ---------------------------------------------------------------------------------- values

/// The last value that was inserted under a key is the one that an object has, and every other key keeps
/// its value.
pub proof fn the_last_insertion_counts(
    entries: Seq<(String, Json)>,
    entry: (String, Json),
    other: Seq<char>,
)
    ensures
        entries_model(entries.push(entry)).contains_key(entry.0@),
        entries_model(entries.push(entry))[entry.0@] == entry.1@,
        other != entry.0@ ==> {
            &&& entries_model(entries.push(entry)).contains_key(other) <==> entries_model(
                entries,
            ).contains_key(other)
            &&& entries_model(entries).contains_key(other) ==> entries_model(
                entries.push(entry),
            )[other] == entries_model(entries)[other]
        },
        entries_model(Seq::empty()) == Map::<Seq<char>, JsonView>::empty(),
{
    assert(entries.push(entry).drop_last() =~= entries);
}

/// What a JSON tree says is what stands in it.
pub proof fn what_json_says(b: bool, n: u64, text: String, items: Vec<Json>, object: JsonObject)
    ensures
        Json::Null@ == JsonView::Null,
        Json::Bool(b)@ == JsonView::Bool(b),
        Json::Number(n)@ == JsonView::Number(n),
        Json::Str(text)@ == JsonView::Str(text@),
        Json::Array(items)@ == JsonView::Array(items_model(items@)),
        Json::Object(object)@ == JsonView::Object(entries_model(object.entries@)),
{
}

/// What a list of JSON trees says is what each of them says, in their order.
pub proof fn what_lists_say(items: Seq<Json>, i: int)
    requires
        0 <= i < items.len(),
    ensures
        items_model(items).len() == items.len(),
        items_model(items)[i] == items[i]@,
{
    crate::json::lemma_items_model(items);
}

/// What profiles and specs say is what stands in their fields.
pub proof fn what_profiles_and_specs_say(profile: EmailProfile, spec: EmailBackendSpec)
    ensures
        profile@.op == profile.op,
        profile@.host == profile.host@,
        profile@.port == profile.port,
        profile@.tls == profile.tls,
        profile@.username == profile.username@,
        profile@.password == profile.password@,
        profile@.from == profile.from@,
        profile@.mailbox == profile.mailbox@,
        profile@.limit == profile.limit,
        profile@.timeout_ms == profile.timeout_ms,
        spec@.op == spec.op,
        spec@.host == spec.host@,
        spec@.port == spec.port,
        spec@.tls == spec.tls,
        spec@.username == spec.username@,
        spec@.password == spec.password@,
        spec.from matches Some(from) ==> spec@.from == Some(from@),
        spec.from is None ==> spec@.from is None,
        spec@.mailbox == spec.mailbox@,
        spec@.limit == spec.limit,
        spec@.timeout_ms == spec.timeout_ms,
{
}

/// What calls and deliveries say is what stands in their fields.
pub proof fn what_calls_and_deliveries_say(
    call: Call,
    arguments: CallArguments,
    delivery: SmtpDelivery,
)
    ensures
        call@.backend_name == call.backend_name@,
        call@.tool_name == call.tool_name@,
        call@.profile == call.profile@,
        call@.arguments == call.arguments@,
        arguments.to matches Some(to) ==> arguments@.to == Some(to@),
        arguments.to is None ==> arguments@.to is None,
        arguments.subject matches Some(subject) ==> arguments@.subject == Some(subject@),
        arguments.subject is None ==> arguments@.subject is None,
        arguments.body matches Some(body) ==> arguments@.body == Some(body@),
        arguments.body is None ==> arguments@.body is None,
        delivery@.host == delivery.host@,
        delivery@.port == delivery.port,
        delivery@.tls == delivery.tls,
        delivery.credentials matches Some(login) ==> delivery@.credentials == Some(
            (login.username@, login.password@),
        ),
        delivery.credentials is None ==> delivery@.credentials is None,
        delivery@.message == message_parts(delivery.message),
{
}

/// What the outcome of work, and a failure, say.
pub proof fn what_outcomes_say(messages: Vec<Json>, message: String, failure: Failure)
    ensures
        WorkOutcome::Sent@ == OutcomeView::Sent,
        WorkOutcome::TimedOut@ == OutcomeView::TimedOut,
        (WorkOutcome::Read { messages })@ == (OutcomeView::Read {
            messages: items_model(messages@),
        }),
        (WorkOutcome::Failed { message })@ == (OutcomeView::Failed { message: message@ }),
        failure@ == (FailureView { message: failure.message@, redact: failure.redact }),
{
}

/// What is to be done for a call says.
pub proof fn what_work_says(delivery: SmtpDelivery, read: ImapRead, action: ReadAction)
    ensures
        Work::Deliver(delivery)@ == WorkView::Deliver(delivery@),
        Work::Converse(read, action)@ == WorkView::Converse(read@, action@),
        read@.profile == read.profile@,
        read@.stage == read.stage,
        read@.messages == items_model(read.messages@),
{
}

/// What comes of a step says.
pub proof fn what_events_say(exists: u32, message: FetchedMessage, detail: String)
    ensures
        ReadEvent::Done@ == EventView::Done,
        (ReadEvent::Selected { exists })@ == (EventView::Selected { exists }),
        (ReadEvent::Received { message })@ == (EventView::Received {
            message: message_view(message),
        }),
        ReadEvent::Exhausted@ == EventView::Exhausted,
        (ReadEvent::Failed { detail })@ == (EventView::Failed { detail: detail@ }),
{
}

/// What the steps of a conversation say.
pub proof fn what_steps_say(action: ReadAction)
    ensures
        match action {
            ReadAction::Connect { host, port } => action@ == (ActionView::Connect {
                host: host@,
                port,
            }),
            ReadAction::ConfigureTls => action@ == ActionView::ConfigureTls,
            ReadAction::Handshake { server_name } => action@ == (ActionView::Handshake {
                server_name: server_name_text(server_name),
            }),
            ReadAction::Login { username, password } => action@ == (ActionView::Login {
                username: username@,
                password: password@,
            }),
            ReadAction::Select { mailbox } => action@ == (ActionView::Select { mailbox: mailbox@ }),
            ReadAction::Fetch { sequence, items } => action@ == (ActionView::Fetch {
                sequence: sequence@,
                items: items@,
            }),
            ReadAction::Receive => action@ == ActionView::Receive,
            ReadAction::Logout => action@ == ActionView::Logout,
            ReadAction::Finish { messages } => action@ == (ActionView::Finish {
                messages: items_model(messages@),
            }),
            ReadAction::Fail { failure } => action@ == (ActionView::Fail { failure: failure@ }),
        },
{
}

/// What answers and errors say.
pub proof fn what_errors_say(response: BackendResponse, error: BackendError)
    ensures
        answer_view(Ok(response)) == (AnswerView::Response {
            payload: response.payload@,
            truncated: response.truncated,
        }),
        answer_view(Err(error)) == AnswerView::Error(error@),
        match error {
            BackendError::InvalidSpec { message } => error@ == (ErrorView::InvalidSpec {
                message: message@,
            }),
            BackendError::Transport { message } => error@ == (ErrorView::Transport {
                message: message@,
            }),
            BackendError::ProfileNotFound { backend_name } => error@ == (
            ErrorView::ProfileNotFound { backend_name: backend_name@ }),
        },
{
}

/// The words for operations and modes.
pub proof fn words_for_operations_and_modes()
    ensures
        EmailOp::Send.word() == "send"@,
        EmailOp::Read.word() == "read"@,
        TlsMode::Plain.word() == "none"@,
        TlsMode::Starttls.word() == "starttls"@,
        TlsMode::Implicit.word() == "implicit"@,
{
}

/// What optional values say is what stands in them, and nothing where there is none.
pub proof fn what_optional_values_say(
    text: &str,
    json: &Json,
    items: &[Json],
    string: String,
    otherwise: Seq<char>,
)
    ensures
        optional_text(Some(text)) == Some(text@),
        optional_text(None) is None,
        optional_view(Some(json)) == Some(json@),
        optional_view(None) is None,
        messages_view(Some(items)) == Some(items_model(items@)),
        messages_view(None) is None,
        text_view(Some(string)) == Some(string@),
        text_view(None) is None,
        text_or(Some(string), otherwise) == string@,
        text_or(None, otherwise) == otherwise,
{
}

/// What it is for an address to be written without quotes, and which envelope is the direct one.
pub proof fn what_plain_addresses_are(from: MailboxParts, to: MailboxParts, text: Seq<char>)
    ensures
        from.is_unquoted() <==> forall|i: int|
            0 <= i < from.address.len() ==> #[trigger] from.address[i] != '"',
        is_plain_address(text) <==> (parsed_mailbox(text) is Ok && parsed_mailbox(
            text,
        )->Ok_0.is_unquoted()),
        direct_envelope(from, to).sender == Some(from.address),
        direct_envelope(from, to).recipients == seq![to.address],
{
}

/// A member of an object is the value that it has under that key; what is no object has none.
pub proof fn what_members_are(json: JsonView, key: Seq<char>, value: JsonView)
    ensures
        json.member(key) == Some(value) <==> has(json, key, value),
        json.string_member(key) is Some ==> has(json, key, JsonView::Str(json.string_member(key)->0)),
        value is Str && has(json, key, value) ==> json.string_member(key) is Some,
{
}

} // verus!
