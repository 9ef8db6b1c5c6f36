//! The response envelope: the structured content that a call of an email binding answers with.
//!
//! A non-null `downstreamError` slot is the signal that the call failed.
use crate::json::{clone_items, optional_string, Json, JsonObject, JsonView};
use crate::json::{items_model, lemma_items_model, or_null};
use crate::text::{after_first, ascii_lower, begins_with, occurs, occurs_at};
use crate::text::{contains, joined, rest_after, starts_with, to_ascii_lowercase};
use crate::text::lemma_after_first_is_end;
use vstd::prelude::*;

verus! {

// ------------------------------------------------------------------ downstream error

/// What the `downstreamError` slot says of a failure.
pub open spec fn downstream_view(
    kind: Seq<char>,
    message: Seq<char>,
    retryable: bool,
) -> JsonView {
    JsonView::Object(
        map![
            "kind"@ => JsonView::Str(kind),
            "code"@ => JsonView::Str("mcpg.downstream_email."@ + kind),
            "message"@ => JsonView::Str(message),
            "retryable"@ => JsonView::Bool(retryable),
            "retryClass"@ => JsonView::Str(if retryable { "with_backoff"@ } else { "do_not_retry"@ }),
            "suggestedAction"@ => JsonView::Str(
                if retryable {
                    "check_mail_server_connectivity_and_retry"@
                } else {
                    "inspect_email_error"@
                },
            ),
        ],
    )
}

/// Builds the object for the envelope's `downstreamError` slot.
pub fn email_downstream_error(kind: &str, message: &str, retryable: bool) -> (error: Json)
    ensures
        error@ == downstream_view(kind@, message@, retryable),
{
    let mut members = JsonObject::new();
    members.insert("kind", Json::Str(kind.to_owned()));
    members.insert("code", Json::Str(joined("mcpg.downstream_email.", kind)));
    members.insert("message", Json::Str(message.to_owned()));
    members.insert("retryable", Json::Bool(retryable));
    let retry_class = if retryable {
        "with_backoff"
    } else {
        "do_not_retry"
    };
    members.insert("retryClass", Json::Str(retry_class.to_owned()));
    let suggested_action = if retryable {
        "check_mail_server_connectivity_and_retry"
    } else {
        "inspect_email_error"
    };
    members.insert("suggestedAction", Json::Str(suggested_action.to_owned()));
    Json::Object(members)
}

// -------------------------------------------------------------------- classification

/// Whether the words of a failure say that an address or a name was rejected before any server was
/// asked. They quote what was rejected, so nothing else in them counts.
pub open spec fn is_rejection(message: Seq<char>) -> bool {
    let lower = ascii_lower(message);
    ||| begins_with(lower, "invalid from address '"@)
    ||| begins_with(lower, "invalid to address '"@)
    ||| begins_with(lower, "invalid imap server name '"@)
}

/// The words by which a failure is judged, in small letters: those of the server where a mailbox could
/// not be selected, since the name of the mailbox is quoted before them; else all of them.
pub open spec fn judged(message: Seq<char>) -> Seq<char> {
    let lower = ascii_lower(message);
    if begins_with(lower, "imap select '"@) {
        match after_first(lower.skip("imap select '"@.len() as int), "' failed: "@) {
            Some(detail) => detail,
            None => lower,
        }
    } else {
        lower
    }
}

/// Whether words in small letters say that a connection could not be made, took too long or was cut. A
/// server that is still coming up can accept a connection and cut its response short, so a response
/// that broke off counts too.
pub open spec fn speaks_of_connection(lower: Seq<char>) -> bool {
    ||| occurs(lower, "connect"@)
    ||| occurs(lower, "timed out"@)
    ||| occurs(lower, "timeout"@)
    ||| occurs(lower, "handshake"@)
    ||| occurs(lower, "broken pipe"@)
    ||| occurs(lower, "connection reset"@)
    ||| occurs(lower, "incomplete response"@)
    ||| occurs(lower, "response error"@)
    ||| occurs(lower, "connection closed"@)
    ||| occurs(lower, "unexpected eof"@)
}

/// Whether a failure is one of the connection, and so may pass.
pub open spec fn is_transient(message: Seq<char>) -> bool {
    !is_rejection(message) && speaks_of_connection(judged(message))
}

/// The kind of a failure.
pub open spec fn error_kind(message: Seq<char>) -> Seq<char> {
    if is_transient(message) {
        "transport_error"@
    } else {
        "email_error"@
    }
}

/// What the `downstreamError` slot says of a failure with these words.
pub open spec fn classified(message: Seq<char>) -> JsonView {
    downstream_view(error_kind(message), message, is_transient(message))
}

/// Whether the words of a failure say that an address or a name was rejected.
pub fn rejects(message: &str) -> (rejected: bool)
    ensures
        rejected == is_rejection(message@),
{
    let lower = to_ascii_lowercase(message);
    starts_with(&lower, "invalid from address '") || starts_with(&lower, "invalid to address '")
        || starts_with(&lower, "invalid imap server name '")
}

/// The words by which a failure is judged, in small letters.
pub fn judged_words(message: &str) -> (words: Vec<char>)
    ensures
        words@ == judged(message@),
{
    let lower = to_ascii_lowercase(message);
    if starts_with(&lower, "imap select '") {
        proof {
            reveal_strlit("imap select '");
        }
        assert("imap select '"@.len() == 13);
        if let Some(detail) = rest_after(&lower, 13, "' failed: ") {
            return detail;
        }
    }
    lower
}

/// Classifies the words of a failure. Connect / timeout / dropped-connection failures are
/// retryable transport errors; login / address / protocol rejections are not.
pub fn classify_error(message: &str) -> (error: Json)
    ensures
        error@ == classified(message@),
{
    let lower = judged_words(message);
    let retryable = !rejects(message) && (contains(&lower, "connect") || contains(
        &lower,
        "timed out",
    ) || contains(&lower, "timeout") || contains(&lower, "handshake") || contains(
        &lower,
        "broken pipe",
    ) || contains(&lower, "connection reset") || contains(&lower, "incomplete response")
        || contains(&lower, "response error") || contains(&lower, "connection closed") || contains(
        &lower,
        "unexpected eof",
    ));
    let kind = if retryable {
        "transport_error"
    } else {
        "email_error"
    };
    email_downstream_error(kind, message, retryable)
}

// -------------------------------------------------------------------------- envelope

/// What the `response` slot says of a call that succeeded.
pub open spec fn response_view(
    sent: Option<bool>,
    messages: Option<Seq<JsonView>>,
    duration_ms: u64,
) -> JsonView {
    JsonView::Object(
        map![
            "sent"@ => match sent {
                Some(b) => JsonView::Bool(b),
                None => JsonView::Null,
            },
            "messages"@ => match messages {
                Some(items) => JsonView::Array(items),
                None => JsonView::Null,
            },
            "count"@ => match messages {
                Some(items) => JsonView::Number(items.len() as u64),
                None => JsonView::Null,
            },
            "durationMs"@ => JsonView::Number(duration_ms),
        ],
    )
}

/// What the `request` slot says.
pub open spec fn request_view(op: Seq<char>, host: Seq<char>, mailbox: Seq<char>) -> JsonView {
    JsonView::Object(
        map![
            "op"@ => JsonView::Str(op),
            "host"@ => JsonView::Str(host),
            "mailbox"@ => JsonView::Str(mailbox),
        ],
    )
}

/// What the envelope says.
pub open spec fn envelope_view(
    tool_name: Seq<char>,
    profile_name: Seq<char>,
    request: JsonView,
    response: JsonView,
    downstream_error: Option<JsonView>,
    error: Option<Seq<char>>,
) -> JsonView {
    JsonView::Object(
        map![
            "toolName"@ => JsonView::Str(tool_name),
            "profile"@ => JsonView::Str(profile_name),
            "request"@ => request,
            "response"@ => response,
            "downstreamError"@ => or_null(downstream_error),
            "downstreamErrors"@ => JsonView::Array(
                match downstream_error {
                    Some(d) => seq![d],
                    None => Seq::empty(),
                },
            ),
            "error"@ => match error {
                Some(words) => JsonView::Str(words),
                None => JsonView::Null,
            },
        ],
    )
}

/// What each of a list of messages says, where there is a list.
pub open spec fn messages_view(messages: Option<&[Json]>) -> Option<Seq<JsonView>> {
    match messages {
        Some(items) => Some(items_model(items@)),
        None => None,
    }
}

/// What an optional value says.
pub open spec fn optional_view(json: Option<&Json>) -> Option<JsonView> {
    match json {
        Some(j) => Some(j@),
        None => None,
    }
}

/// An optional text.
pub open spec fn optional_text(text: Option<&str>) -> Option<Seq<char>> {
    match text {
        Some(t) => Some(t@),
        None => None,
    }
}

/// What the envelope says, given what it is built from.
pub open spec fn result_view(
    tool_name: Seq<char>,
    profile_name: Seq<char>,
    op: Seq<char>,
    host: Seq<char>,
    mailbox: Seq<char>,
    sent: Option<bool>,
    messages: Option<Seq<JsonView>>,
    duration_ms: u128,
    downstream_error: Option<JsonView>,
    error: Option<Seq<char>>,
) -> JsonView {
    envelope_view(
        tool_name,
        profile_name,
        request_view(op, host, mailbox),
        if downstream_error is Some {
            JsonView::Null
        } else {
            response_view(sent, messages, duration_ms as u64)
        },
        downstream_error,
        error,
    )
}

/// Builds the envelope. A call that failed has no response; the duration of one that did not is
/// written as a JSON number, so it has to fit one.
pub fn build_result_envelope(
    tool_name: &str,
    profile_name: &str,
    op: &str,
    host: &str,
    mailbox: &str,
    sent: Option<bool>,
    messages: Option<&[Json]>,
    duration_ms: u128,
    downstream_error: Option<&Json>,
    error: Option<&str>,
) -> (envelope: Json)
    requires
        downstream_error is None ==> duration_ms <= u64::MAX,
    ensures
        envelope@ == result_view(
            tool_name@,
            profile_name@,
            op@,
            host@,
            mailbox@,
            sent,
            messages_view(messages),
            duration_ms,
            optional_view(downstream_error),
            optional_text(error),
        ),
{
    let mut errors: Vec<Json> = Vec::new();
    let response = match downstream_error {
        Some(d) => {
            errors.push(d.clone());
            proof {
                lemma_items_model(errors@);
            }
            assert(items_model(errors@) =~= seq![d@]);
            Json::Null
        },
        None => {
            assert(items_model(errors@) =~= Seq::empty());
            let mut members = JsonObject::new();
            members.insert(
                "sent",
                match sent {
                    Some(b) => Json::Bool(b),
                    None => Json::Null,
                },
            );
            members.insert(
                "messages",
                match messages {
                    Some(items) => Json::Array(clone_items(items)),
                    None => Json::Null,
                },
            );
            members.insert(
                "count",
                match messages {
                    Some(items) => {
                        proof {
                            lemma_items_model(items@);
                        }
                        Json::Number(items.len() as u64)
                    },
                    None => Json::Null,
                },
            );
            members.insert("durationMs", Json::Number(duration_ms as u64));
            Json::Object(members)
        },
    };
    let mut request = JsonObject::new();
    request.insert("op", Json::Str(op.to_owned()));
    request.insert("host", Json::Str(host.to_owned()));
    request.insert("mailbox", Json::Str(mailbox.to_owned()));
    let mut members = JsonObject::new();
    members.insert("toolName", Json::Str(tool_name.to_owned()));
    members.insert("profile", Json::Str(profile_name.to_owned()));
    members.insert("request", Json::Object(request));
    members.insert("response", response);
    members.insert(
        "downstreamError",
        match downstream_error {
            Some(d) => d.clone(),
            None => Json::Null,
        },
    );
    members.insert("downstreamErrors", Json::Array(errors));
    members.insert("error", optional_string(error));
    Json::Object(members)
}

// ------------------------------------------------------------------------------ laws

/// The slots of the envelope are distinct: each says what was put into it.
pub proof fn envelope_slots(
    tool_name: Seq<char>,
    profile_name: Seq<char>,
    request: JsonView,
    response: JsonView,
    downstream_error: Option<JsonView>,
    error: Option<Seq<char>>,
)
    ensures
        ({
            let envelope = envelope_view(
                tool_name,
                profile_name,
                request,
                response,
                downstream_error,
                error,
            );
            &&& envelope.member("toolName"@) == Some(JsonView::Str(tool_name))
            &&& envelope.member("profile"@) == Some(JsonView::Str(profile_name))
            &&& envelope.member("request"@) == Some(request)
            &&& envelope.member("response"@) == Some(response)
            &&& envelope.member("downstreamError"@) == Some(or_null(downstream_error))
            &&& envelope.member("downstreamErrors"@) == Some(
                JsonView::Array(
                    match downstream_error {
                        Some(d) => seq![d],
                        None => Seq::empty(),
                    },
                ),
            )
            &&& envelope.member("error"@) == Some(
                match error {
                    Some(words) => JsonView::Str(words),
                    None => JsonView::Null,
                },
            )
        }),
{
    reveal_strlit("toolName");
    reveal_strlit("profile");
    reveal_strlit("request");
    reveal_strlit("response");
    reveal_strlit("downstreamError");
    reveal_strlit("downstreamErrors");
    reveal_strlit("error");
    assert("toolName"@[0] != "response"@[0]);
    assert("profile"@[0] != "request"@[0]);
    assert("toolName"@.len() == 8 && "profile"@.len() == 7 && "request"@.len() == 7);
    assert("response"@.len() == 8 && "error"@.len() == 5);
    assert("downstreamError"@.len() == 15 && "downstreamErrors"@.len() == 16);
}

/// The failure signal: the `downstreamError` slot of an envelope is non-null exactly where the call
/// failed; then there is no response, and `downstreamErrors` lists that one error.
pub proof fn failure_signal(
    tool_name: Seq<char>,
    profile_name: Seq<char>,
    op: Seq<char>,
    host: Seq<char>,
    mailbox: Seq<char>,
    sent: Option<bool>,
    messages: Option<Seq<JsonView>>,
    duration_ms: u128,
    failure: Option<Seq<char>>,
    error: Option<Seq<char>>,
)
    ensures
        ({
            let downstream_error = match failure {
                Some(words) => Some(classified(words)),
                None => None,
            };
            let envelope = result_view(
                tool_name,
                profile_name,
                op,
                host,
                mailbox,
                sent,
                messages,
                duration_ms,
                downstream_error,
                error,
            );
            &&& envelope.member("downstreamError"@) == Some(JsonView::Null) <==> failure is None
            &&& envelope.member("response"@) == Some(JsonView::Null) <==> failure is Some
            &&& failure matches Some(words) ==> envelope.member("downstreamErrors"@) == Some(
                JsonView::Array(seq![classified(words)]),
            )
            &&& failure is None ==> envelope.member("downstreamErrors"@) == Some(
                JsonView::Array(Seq::empty()),
            )
        }),
{
    let downstream_error = match failure {
        Some(words) => Some(classified(words)),
        None => None,
    };
    envelope_slots(
        tool_name,
        profile_name,
        request_view(op, host, mailbox),
        if downstream_error is Some {
            JsonView::Null
        } else {
            response_view(sent, messages, duration_ms as u64)
        },
        downstream_error,
        error,
    );
}

/// The number of messages that a response gives is the number of messages in it.
pub proof fn count_is_number_of_messages(
    sent: Option<bool>,
    messages: Seq<JsonView>,
    duration_ms: u64,
)
    requires
        messages.len() <= u64::MAX,
    ensures
        response_view(sent, Some(messages), duration_ms).member("messages"@) == Some(
            JsonView::Array(messages),
        ),
        response_view(sent, Some(messages), duration_ms).member("count"@) == Some(
            JsonView::Number(messages.len() as u64),
        ),
        messages.len() as u64 as nat == messages.len(),
{
    reveal_strlit("sent");
    reveal_strlit("messages");
    reveal_strlit("count");
    reveal_strlit("durationMs");
    assert("messages"@.len() == 8 && "count"@.len() == 5 && "durationMs"@.len() == 10);
}

/// The slots of a classified failure agree with each other: it is of the kind `transport_error`
/// exactly where it is retryable, and then it is to be retried with backoff; else it is an
/// `email_error` that is not to be retried. Its words are kept.
pub proof fn classification_is_coherent(message: Seq<char>)
    ensures
        classified(message).member("kind"@) == Some(JsonView::Str("transport_error"@))
            <==> is_transient(message),
        classified(message).member("kind"@) == Some(JsonView::Str("email_error"@))
            <==> !is_transient(message),
        classified(message).member("retryable"@) == Some(JsonView::Bool(is_transient(message))),
        classified(message).member("retryClass"@) == Some(JsonView::Str("with_backoff"@))
            <==> is_transient(message),
        classified(message).member("message"@) == Some(JsonView::Str(message)),
        classified(message).member("code"@) == Some(
            JsonView::Str("mcpg.downstream_email."@ + error_kind(message)),
        ),
{
    reveal_strlit("kind");
    reveal_strlit("code");
    reveal_strlit("message");
    reveal_strlit("retryable");
    reveal_strlit("retryClass");
    reveal_strlit("suggestedAction");
    reveal_strlit("transport_error");
    reveal_strlit("email_error");
    reveal_strlit("with_backoff");
    reveal_strlit("do_not_retry");
    assert("kind"@[0] != "code"@[0]);
    assert("message"@.len() == 7 && "retryable"@.len() == 9);
    assert("retryClass"@.len() == 10 && "suggestedAction"@.len() == 15);
    assert("transport_error"@.len() == 15 && "email_error"@.len() == 11);
    assert("with_backoff"@[0] != "do_not_retry"@[0]);
}

/// Classification does not depend on the case of letters: words that differ in nothing else are
/// classified alike.
pub proof fn classification_ignores_case(a: Seq<char>, b: Seq<char>)
    requires
        ascii_lower(a) == ascii_lower(b),
    ensures
        is_rejection(a) == is_rejection(b),
        is_transient(a) == is_transient(b),
        error_kind(a) == error_kind(b),
{
}

/// The words by which a failure is judged are the end of all its words.
pub proof fn lemma_judged_is_end(message: Seq<char>)
    ensures
        judged(message).len() <= message.len(),
        judged(message) == ascii_lower(message).skip(message.len() - judged(message).len()),
{
    let lower = ascii_lower(message);
    if begins_with(lower, "imap select '"@) {
        let tail = lower.skip("imap select '"@.len() as int);
        lemma_after_first_is_end(tail, "' failed: "@);
        if let Some(detail) = after_first(tail, "' failed: "@) {
            assert(lower.skip(lower.len() - detail.len()) =~= tail.skip(tail.len() - detail.len()));
        } else {
            assert(lower.skip(0) =~= lower);
        }
    } else {
        assert(lower.skip(0) =~= lower);
    }
}

/// Words that are added to those of a transient failure, before or after, leave it transient, as long
/// as they do not make a rejection of it, nor put its words where a name is quoted.
pub proof fn transient_words_stay_transient(before: Seq<char>, message: Seq<char>, after: Seq<char>)
    requires
        is_transient(message),
        !is_rejection(before + message + after),
        judged(before + message + after).len() >= judged(message).len() + after.len(),
    ensures
        is_transient(before + message + after),
{
    let whole = before + message + after;
    let inner = judged(message);
    let outer = judged(whole);
    lemma_judged_is_end(message);
    lemma_judged_is_end(whole);
    let shift = outer.len() - after.len() - inner.len();
    assert forall|phrase: Seq<char>| occurs(inner, phrase) implies #[trigger] occurs(
        outer,
        phrase,
    ) by {
        let at = choose|at: int| occurs_at(inner, phrase, at);
        assert(outer.subrange(shift + at, shift + at + phrase.len()) =~= inner.subrange(
            at,
            at + phrase.len(),
        ));
        assert(occurs_at(outer, phrase, shift + at));
    }
}

} // verus!
