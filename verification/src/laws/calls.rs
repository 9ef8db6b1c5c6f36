//! Laws of calls: what a call asks for, what is done for it, and what it is answered with.
use crate::call::{arguments_of, call_envelope, payload_json, tool_name_of, work_refusal, work_view};
use crate::call::{ArgumentsView, CallView, OutcomeView, WorkView};
use crate::envelope::{classified, envelope_slots, request_view, response_view, result_view};
use crate::imap::{ActionView, ReadStage};
use crate::json::JsonView;
use crate::laws::failures::{answered_as, failures_are_judged_by_their_words, has, holds_a_phrase};
use crate::profile::ProfileView;
use crate::smtp::{composition_refusal, derived_envelope, encoded_body, mailbox_text, parsed_mailbox};
use crate::text::{ascii_lower, lemma_begins_alike, occurs_at};
use crate::types::EmailOp;
use vstd::prelude::*;

verus! {

// ---------------------------------------------------------------------------- arguments

/// Whether an argument is what an object has for it: the text of the member of that name, where there is
/// one and it is a string.
pub open spec fn is_argument(
    argument: Option<Seq<char>>,
    members: Map<Seq<char>, JsonView>,
    name: Seq<char>,
) -> bool {
    match argument {
        Some(text) => members.contains_key(name) && members[name] == JsonView::Str(text),
        None => !members.contains_key(name) || !(members[name] is Str),
    }
}

/// Arguments are the members of an object; what is no object has none.
pub proof fn arguments_are_members(json: JsonView)
    ensures
        json matches JsonView::Object(members) ==> {
            &&& is_argument(arguments_of(json).to, members, "to"@)
            &&& is_argument(arguments_of(json).subject, members, "subject"@)
            &&& is_argument(arguments_of(json).body, members, "body"@)
        },
        !(json is Object) ==> arguments_of(json) == (ArgumentsView {
            to: None,
            subject: None,
            body: None,
        }),
{
}

/// A payload stands for what it is read as; one that is empty, or cannot be read, gives no arguments.
pub proof fn arguments_come_from_the_payload(payload: Seq<u8>, parsed: Option<JsonView>)
    ensures
        payload.len() > 0 && parsed is Some ==> payload_json(payload, parsed) == parsed->0,
        payload.len() == 0 || parsed is None ==> arguments_of(payload_json(payload, parsed)) == (
        ArgumentsView { to: None, subject: None, body: None }),
{
}

/// The tool is named by the header of that name, in whatever case, and by the first where there are
/// several; where there is none, it is called like the binding.
pub proof fn tools_are_named_by_the_first_header(
    headers: Seq<(String, String)>,
    backend_name: Seq<char>,
    at: int,
)
    requires
        0 <= at <= headers.len(),
        forall|i: int|
            0 <= i < at ==> ascii_lower((#[trigger] headers[i]).0@) != "mcpg-tool-name"@,
        at < headers.len() ==> ascii_lower(headers[at].0@) == "mcpg-tool-name"@,
    ensures
        tool_name_of(headers, backend_name) == if at < headers.len() {
            headers[at].1@
        } else {
            backend_name
        },
    decreases at,
{
    reveal_strlit("mcpg-tool-name");
    assert(ascii_lower("mcpg-tool-name"@) =~= "mcpg-tool-name"@);
    if headers.len() > 0 && at > 0 {
        assert(ascii_lower(headers[0].0@) != "mcpg-tool-name"@);
        let rest = headers.drop_first();
        assert forall|i: int| 0 <= i < at - 1 implies ascii_lower((#[trigger] rest[i]).0@)
            != "mcpg-tool-name"@ by {
            assert(rest[i] == headers[i + 1]);
        }
        tools_are_named_by_the_first_header(rest, backend_name, at - 1);
    }
}

// --------------------------------------------------------------------------------- work

/// A text that was given, or none.
pub open spec fn given(text: Option<Seq<char>>) -> Seq<char> {
    match text {
        Some(t) => t,
        None => Seq::empty(),
    }
}

/// What is sent: a message from the sender of the binding to the recipient of the call, with its subject
/// and its body, each empty where the call gives none; through the server of the binding, in its mode,
/// and with its login where it names a user.
pub proof fn what_is_sent(profile: ProfileView, arguments: ArgumentsView)
    requires
        profile.op == EmailOp::Send,
    ensures
        ({
            let from = parsed_mailbox(profile.from)->Ok_0;
            let to = parsed_mailbox(given(arguments.to))->Ok_0;
            work_view(profile, arguments) matches WorkView::Deliver(delivery) && {
                &&& delivery.host == profile.host
                &&& delivery.port == profile.port
                &&& delivery.tls == profile.tls
                &&& profile.username.len() == 0 ==> delivery.credentials is None
                &&& profile.username.len() > 0 ==> delivery.credentials == Some(
                    (profile.username, profile.password),
                )
                &&& delivery.message.envelope == derived_envelope(from, to)
                &&& delivery.message.from == mailbox_text(from)
                &&& delivery.message.to == mailbox_text(to)
                &&& delivery.message.subject == given(arguments.subject)
                &&& delivery.message.body == encoded_body(given(arguments.body))
            }
        }),
{
}

/// What a call that reads begins: a conversation with the server of the binding, by connecting to it.
pub proof fn what_is_read(profile: ProfileView, arguments: ArgumentsView)
    requires
        profile.op == EmailOp::Read,
    ensures
        work_refusal(profile, arguments) is None,
        work_view(profile, arguments) matches WorkView::Converse(read, action) && {
            &&& read.profile == profile
            &&& read.stage == ReadStage::Connect
            &&& read.messages == Seq::<JsonView>::empty()
            &&& action == (ActionView::Connect { host: profile.host, port: profile.port })
        },
{
}

/// Why nothing is sent: the call names no recipient, an address cannot be read, the sender's before the
/// recipient's, or the two make no message. Else there is nothing against it.
pub proof fn why_nothing_is_sent(profile: ProfileView, arguments: ArgumentsView)
    requires
        profile.op == EmailOp::Send,
    ensures
        ({
            let refusal = work_refusal(profile, arguments);
            let from = parsed_mailbox(profile.from);
            let to = parsed_mailbox(given(arguments.to));
            &&& arguments.to is None ==> refusal == Some("send requires a string 'to' argument"@)
            &&& arguments.to is Some ==> {
                &&& from matches Err(detail) ==> refusal == Some(
                    "invalid from address '"@ + profile.from + "': "@ + detail,
                )
                &&& from is Ok ==> (to matches Err(detail) ==> refusal == Some(
                    "invalid to address '"@ + given(arguments.to) + "': "@ + detail,
                ))
                &&& from is Ok && to is Ok ==> match composition_refusal(from->Ok_0, to->Ok_0) {
                    Some(detail) => refusal == Some("building message: "@ + detail),
                    None => refusal is None,
                }
            }
        }),
{
    reveal_strlit("invalid ");
    reveal_strlit("from");
    reveal_strlit("to");
    reveal_strlit(" address '");
    reveal_strlit("invalid from address '");
    reveal_strlit("invalid to address '");
    assert("invalid "@ + "from"@ + " address '"@ =~= "invalid from address '"@);
    assert("invalid "@ + "to"@ + " address '"@ =~= "invalid to address '"@);
}

// ------------------------------------------------------------------------------- answer

/// Whether an object says these four things of a call that succeeded, and nothing else.
pub open spec fn responds(
    response: JsonView,
    sent: JsonView,
    messages: JsonView,
    count: JsonView,
    duration_ms: u128,
) -> bool {
    &&& has(response, "sent"@, sent)
    &&& has(response, "messages"@, messages)
    &&& has(response, "count"@, count)
    &&& has(response, "durationMs"@, JsonView::Number(duration_ms as u64))
    &&& response->Object_0.dom() == set!["sent"@, "messages"@, "count"@, "durationMs"@]
}

proof fn lemma_response(sent: Option<bool>, messages: Option<Seq<JsonView>>, duration_ms: u128)
    ensures
        responds(
            response_view(sent, messages, duration_ms as u64),
            match sent {
                Some(b) => JsonView::Bool(b),
                None => JsonView::Null,
            },
            match messages {
                Some(items) => JsonView::Array(items),
                None => JsonView::Null,
            },
            match messages {
                Some(items) => JsonView::Number(items.len() as u64),
                None => JsonView::Null,
            },
            duration_ms,
        ),
{
    reveal_strlit("sent");
    reveal_strlit("messages");
    reveal_strlit("count");
    reveal_strlit("durationMs");
    assert("sent"@.len() == 4 && "messages"@.len() == 8);
    assert("count"@.len() == 5 && "durationMs"@.len() == 10);
    assert(response_view(sent, messages, duration_ms as u64)->Object_0.dom() =~= set![
        "sent"@,
        "messages"@,
        "count"@,
        "durationMs"@,
    ]);
}

proof fn lemma_request(op: Seq<char>, host: Seq<char>, mailbox: Seq<char>)
    ensures
        has(request_view(op, host, mailbox), "op"@, JsonView::Str(op)),
        has(request_view(op, host, mailbox), "host"@, JsonView::Str(host)),
        has(request_view(op, host, mailbox), "mailbox"@, JsonView::Str(mailbox)),
        request_view(op, host, mailbox)->Object_0.dom() == set!["op"@, "host"@, "mailbox"@],
{
    reveal_strlit("op");
    reveal_strlit("host");
    reveal_strlit("mailbox");
    assert("op"@.len() == 2 && "host"@.len() == 4 && "mailbox"@.len() == 7);
    assert(request_view(op, host, mailbox)->Object_0.dom() =~= set!["op"@, "host"@, "mailbox"@]);
}

/// Whether the error slots of an envelope tell of a failure with these words: one error, classified by
/// them, in both slots; no response; and the words themselves.
pub open spec fn tells_of_failure(members: Map<Seq<char>, JsonView>, words: Seq<char>) -> bool {
    &&& members["response"@] == JsonView::Null
    &&& members["downstreamError"@] == classified(words)
    &&& members["downstreamErrors"@] == JsonView::Array(seq![classified(words)])
    &&& members["error"@] == JsonView::Str(words)
}

/// Whether the error slots of an envelope are empty.
pub open spec fn tells_of_no_failure(members: Map<Seq<char>, JsonView>) -> bool {
    &&& members["downstreamError"@] == JsonView::Null
    &&& members["downstreamErrors"@] == JsonView::Array(Seq::empty())
    &&& members["error"@] == JsonView::Null
}

/// What an envelope says, whatever it is built from: each slot holds what it is given under its name;
/// there is a response exactly where there is no downstream error, and that error is listed once.
pub proof fn what_an_envelope_says(
    tool_name: Seq<char>,
    profile_name: Seq<char>,
    op: Seq<char>,
    host: Seq<char>,
    mailbox: Seq<char>,
    sent: Option<bool>,
    messages: Option<Seq<JsonView>>,
    duration_ms: u128,
    downstream_error: Option<JsonView>,
    error: Option<Seq<char>>,
)
    ensures
        ({
            let envelope = result_view(
                tool_name,
                profile_name,
                op,
                host,
                mailbox,
                sent,
                messages,
                duration_ms,
                downstream_error,
                error,
            );
            let members = envelope->Object_0;
            &&& envelope is Object
            &&& members.dom() == set![
                "toolName"@,
                "profile"@,
                "request"@,
                "response"@,
                "downstreamError"@,
                "downstreamErrors"@,
                "error"@,
            ]
            &&& members["toolName"@] == JsonView::Str(tool_name)
            &&& members["profile"@] == JsonView::Str(profile_name)
            &&& has(members["request"@], "op"@, JsonView::Str(op))
            &&& has(members["request"@], "host"@, JsonView::Str(host))
            &&& has(members["request"@], "mailbox"@, JsonView::Str(mailbox))
            &&& members["request"@]->Object_0.dom() == set!["op"@, "host"@, "mailbox"@]
            &&& match downstream_error {
                Some(d) => {
                    &&& members["response"@] == JsonView::Null
                    &&& members["downstreamError"@] == d
                    &&& members["downstreamErrors"@] == JsonView::Array(seq![d])
                },
                None => {
                    &&& responds(
                        members["response"@],
                        match sent {
                            Some(b) => JsonView::Bool(b),
                            None => JsonView::Null,
                        },
                        match messages {
                            Some(items) => JsonView::Array(items),
                            None => JsonView::Null,
                        },
                        match messages {
                            Some(items) => JsonView::Number(items.len() as u64),
                            None => JsonView::Null,
                        },
                        duration_ms,
                    )
                    &&& members["downstreamError"@] == JsonView::Null
                    &&& members["downstreamErrors"@] == JsonView::Array(Seq::empty())
                },
            }
            &&& error matches Some(words) ==> members["error"@] == JsonView::Str(words)
            &&& error is None ==> members["error"@] == JsonView::Null
        }),
{
    lemma_request(op, host, mailbox);
    lemma_response(sent, messages, duration_ms);
    let envelope = result_view(
        tool_name,
        profile_name,
        op,
        host,
        mailbox,
        sent,
        messages,
        duration_ms,
        downstream_error,
        error,
    );
    envelope_slots(
        tool_name,
        profile_name,
        request_view(op, host, mailbox),
        if downstream_error is Some {
            JsonView::Null
        } else {
            response_view(sent, messages, duration_ms as u64)
        },
        downstream_error,
        error,
    );
    assert(envelope->Object_0.dom() =~= set![
        "toolName"@,
        "profile"@,
        "request"@,
        "response"@,
        "downstreamError"@,
        "downstreamErrors"@,
        "error"@,
    ]);
}

/// What a call is answered with: its tool and its binding; what was asked of which server; that the
/// message was sent, or every message that was read and how many they are, and how long it took; or what
/// failed. There are seven slots, and no other.
pub proof fn what_a_call_is_answered_with(call: CallView, outcome: OutcomeView, duration_ms: u128)
    ensures
        call_envelope(call, outcome, duration_ms) is Object,
        ({
            let members = call_envelope(call, outcome, duration_ms)->Object_0;
            &&& members.dom() == set![
                "toolName"@,
                "profile"@,
                "request"@,
                "response"@,
                "downstreamError"@,
                "downstreamErrors"@,
                "error"@,
            ]
            &&& members["toolName"@] == JsonView::Str(call.tool_name)
            &&& members["profile"@] == JsonView::Str(call.backend_name)
            &&& has(
                members["request"@],
                "op"@,
                JsonView::Str(
                    match call.profile.op {
                        EmailOp::Send => "send"@,
                        EmailOp::Read => "read"@,
                    },
                ),
            )
            &&& has(members["request"@], "host"@, JsonView::Str(call.profile.host))
            &&& has(members["request"@], "mailbox"@, JsonView::Str(call.profile.mailbox))
            &&& members["request"@]->Object_0.dom() == set!["op"@, "host"@, "mailbox"@]
            &&& match outcome {
                OutcomeView::Sent => tells_of_no_failure(members) && responds(
                    members["response"@],
                    JsonView::Bool(true),
                    JsonView::Null,
                    JsonView::Null,
                    duration_ms,
                ),
                OutcomeView::Read { messages } => tells_of_no_failure(members) && responds(
                    members["response"@],
                    JsonView::Null,
                    JsonView::Array(messages),
                    JsonView::Number(messages.len() as u64),
                    duration_ms,
                ),
                OutcomeView::Failed { message } => tells_of_failure(members, message),
                OutcomeView::TimedOut => tells_of_failure(members, "email operation timed out"@),
            }
        }),
{
    let failure = match outcome {
        OutcomeView::Failed { message } => Some(message),
        OutcomeView::TimedOut => Some("email operation timed out"@),
        _ => None,
    };
    let sent = match outcome {
        OutcomeView::Sent => Some(true),
        _ => None,
    };
    let messages = match outcome {
        OutcomeView::Read { messages } => Some(messages),
        _ => None,
    };
    what_an_envelope_says(
        call.tool_name,
        call.backend_name,
        call.profile.op.word(),
        call.profile.host,
        call.profile.mailbox,
        sent,
        messages,
        duration_ms,
        match failure {
            Some(words) => Some(classified(words)),
            None => None,
        },
        failure,
    );
}

/// A call that runs out of time can be retried.
pub proof fn calls_that_run_out_of_time_can_be_retried()
    ensures
        answered_as("email operation timed out"@, true),
{
    reveal_strlit("email operation timed out");
    reveal_strlit("timed out");
    reveal_strlit("invalid from address '");
    reveal_strlit("invalid to address '");
    reveal_strlit("invalid imap server name '");
    reveal_strlit("imap select '");
    let lower = ascii_lower("email operation timed out"@);
    lemma_begins_alike(lower, "invalid from address '"@, 0);
    lemma_begins_alike(lower, "invalid to address '"@, 0);
    lemma_begins_alike(lower, "invalid imap server name '"@, 0);
    lemma_begins_alike(lower, "imap select '"@, 0);
    assert(lower[0] == 'e');
    assert(lower.subrange(16, 25) =~= "timed out"@);
    assert(occurs_at(lower, "timed out"@, 16));
    assert(holds_a_phrase(lower));
    failures_are_judged_by_their_words("email operation timed out"@);
}

} // verus!
