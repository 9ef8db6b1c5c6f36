//! Laws of failures: which can be retried, what is said of them, and what they are counted under.
use crate::call::{failure_label, lemma_after_marker, outcome_label, OutcomeView};
use crate::call::{label_agrees_with_classification, timeout_is_retryable, CallView};
use crate::envelope::{classified, downstream_view, is_rejection, is_transient, judged};
use crate::envelope::lemma_judged_is_end;
use crate::json::JsonView;
use crate::laws::strings::what_follows_a_marker;
use crate::smtp::{certified_domain, login, stage_words, SmtpStage};
use crate::failure::FailureView;
use crate::text::{ascii_lower, begins_with, lemma_begins_alike, occurs, occurs_at};
use crate::types::TlsMode;
use vstd::prelude::*;

verus! {

/// Whether an object has a member of that name, and that value.
pub open spec fn has(json: JsonView, key: Seq<char>, value: JsonView) -> bool {
    json matches JsonView::Object(members) && members.contains_key(key) && members[key] == value
}

/// Whether words in small letters speak of a connection that could not be made, took too long or was cut.
pub open spec fn holds_a_phrase(words: Seq<char>) -> bool {
    occurs(words, "connect"@) || occurs(words, "timed out"@) || occurs(words, "timeout"@) || occurs(
        words,
        "handshake"@,
    ) || occurs(words, "broken pipe"@) || occurs(words, "connection reset"@) || occurs(
        words,
        "incomplete response"@,
    ) || occurs(words, "response error"@) || occurs(words, "connection closed"@) || occurs(
        words,
        "unexpected eof"@,
    )
}

/// Whether words in small letters speak of time that ran out.
pub open spec fn holds_a_timeout(words: Seq<char>) -> bool {
    occurs(words, "timed out"@) || occurs(words, "timeout"@)
}

/// Whether a failure is answered as a transport error that can be retried, with backoff, or as an email
/// error that cannot: six slots, and no other.
pub open spec fn answered_as(message: Seq<char>, retryable: bool) -> bool {
    let error = classified(message);
    &&& has(error, "message"@, JsonView::Str(message))
    &&& has(error, "retryable"@, JsonView::Bool(retryable))
    &&& has(
        error,
        "kind"@,
        JsonView::Str(if retryable { "transport_error"@ } else { "email_error"@ }),
    )
    &&& has(
        error,
        "code"@,
        JsonView::Str(
            if retryable {
                "mcpg.downstream_email.transport_error"@
            } else {
                "mcpg.downstream_email.email_error"@
            },
        ),
    )
    &&& has(
        error,
        "retryClass"@,
        JsonView::Str(if retryable { "with_backoff"@ } else { "do_not_retry"@ }),
    )
    &&& has(
        error,
        "suggestedAction"@,
        JsonView::Str(
            if retryable {
                "check_mail_server_connectivity_and_retry"@
            } else {
                "inspect_email_error"@
            },
        ),
    )
    &&& error->Object_0.dom() == set![
        "message"@,
        "retryable"@,
        "kind"@,
        "code"@,
        "retryClass"@,
        "suggestedAction"@,
    ]
}

/// A slot for a failure holds what it is given, under its name.
pub proof fn slots_of_a_downstream_error(kind: Seq<char>, message: Seq<char>, retryable: bool)
    ensures
        ({
            let error = downstream_view(kind, message, retryable);
            &&& has(error, "message"@, JsonView::Str(message))
            &&& has(error, "retryable"@, JsonView::Bool(retryable))
            &&& has(error, "kind"@, JsonView::Str(kind))
            &&& has(error, "code"@, JsonView::Str("mcpg.downstream_email."@ + kind))
            &&& has(
                error,
                "retryClass"@,
                JsonView::Str(if retryable { "with_backoff"@ } else { "do_not_retry"@ }),
            )
            &&& has(
                error,
                "suggestedAction"@,
                JsonView::Str(
                    if retryable {
                        "check_mail_server_connectivity_and_retry"@
                    } else {
                        "inspect_email_error"@
                    },
                ),
            )
            &&& error->Object_0.dom() == set![
                "message"@,
                "retryable"@,
                "kind"@,
                "code"@,
                "retryClass"@,
                "suggestedAction"@,
            ]
        }),
{
    reveal_strlit("kind");
    reveal_strlit("code");
    reveal_strlit("message");
    reveal_strlit("retryable");
    reveal_strlit("retryClass");
    reveal_strlit("suggestedAction");
    assert("kind"@[0] != "code"@[0]);
    assert("kind"@.len() == 4 && "code"@.len() == 4);
    assert("message"@.len() == 7 && "retryable"@.len() == 9);
    assert("retryClass"@.len() == 10 && "suggestedAction"@.len() == 15);
    assert(downstream_view(kind, message, retryable)->Object_0.dom() =~= set![
        "message"@,
        "retryable"@,
        "kind"@,
        "code"@,
        "retryClass"@,
        "suggestedAction"@,
    ]);
}

proof fn lemma_answer(message: Seq<char>)
    ensures
        answered_as(message, is_transient(message)),
{
    let kind = if is_transient(message) {
        "transport_error"@
    } else {
        "email_error"@
    };
    slots_of_a_downstream_error(kind, message, is_transient(message));
    reveal_strlit("mcpg.downstream_email.");
    reveal_strlit("transport_error");
    reveal_strlit("email_error");
    reveal_strlit("mcpg.downstream_email.transport_error");
    reveal_strlit("mcpg.downstream_email.email_error");
    assert("mcpg.downstream_email."@ + "transport_error"@
        =~= "mcpg.downstream_email.transport_error"@);
    assert("mcpg.downstream_email."@ + "email_error"@ =~= "mcpg.downstream_email.email_error"@);
}

proof fn lemma_phrase_of_the_end(message: Seq<char>, phrase: Seq<char>)
    ensures
        occurs(judged(message), phrase) ==> occurs(ascii_lower(message), phrase),
{
    if occurs(judged(message), phrase) {
        lemma_judged_is_end(message);
        let lower = ascii_lower(message);
        let shift = lower.len() - judged(message).len();
        let at = choose|at: int| occurs_at(judged(message), phrase, at);
        assert(lower.subrange(shift + at, shift + at + phrase.len()) =~= judged(message).subrange(
            at,
            at + phrase.len(),
        ));
        assert(occurs_at(lower, phrase, shift + at));
    }
}

/// What speaks of no connection is not retried: where none of the ten phrases stands in the words, in
/// whatever case, the failure is an email error.
pub proof fn without_a_phrase_nothing_is_retried(message: Seq<char>)
    requires
        !holds_a_phrase(ascii_lower(message)),
    ensures
        answered_as(message, false),
        failure_label(message) == "email_error"@,
{
    lemma_phrase_of_the_end(message, "connect"@);
    lemma_phrase_of_the_end(message, "timed out"@);
    lemma_phrase_of_the_end(message, "timeout"@);
    lemma_phrase_of_the_end(message, "handshake"@);
    lemma_phrase_of_the_end(message, "broken pipe"@);
    lemma_phrase_of_the_end(message, "connection reset"@);
    lemma_phrase_of_the_end(message, "incomplete response"@);
    lemma_phrase_of_the_end(message, "response error"@);
    lemma_phrase_of_the_end(message, "connection closed"@);
    lemma_phrase_of_the_end(message, "unexpected eof"@);
    lemma_answer(message);
    label_agrees_with_classification(message);
}

/// A rejected address or server name is not retried, and is counted as an email error, whatever stands in
/// the words after that.
pub proof fn rejections_are_not_retried(message: Seq<char>)
    requires
        begins_with(ascii_lower(message), "invalid from address '"@) || begins_with(
            ascii_lower(message),
            "invalid to address '"@,
        ) || begins_with(ascii_lower(message), "invalid imap server name '"@),
    ensures
        answered_as(message, false),
        failure_label(message) == "email_error"@,
{
    lemma_answer(message);
    label_agrees_with_classification(message);
}

/// Whether the words are what a failure is counted and answered by: a timeout where they speak of time,
/// a transport error where they speak of the connection otherwise, else an email error.
pub open spec fn judged_by(message: Seq<char>, words: Seq<char>) -> bool {
    &&& answered_as(message, holds_a_phrase(words))
    &&& failure_label(message) == if holds_a_timeout(words) {
        "timeout"@
    } else if holds_a_phrase(words) {
        "transport_error"@
    } else {
        "email_error"@
    }
}

proof fn lemma_judged_by(message: Seq<char>)
    requires
        !is_rejection(message),
    ensures
        judged_by(message, judged(message)),
{
    lemma_answer(message);
    reveal_strlit("transport_error");
    reveal_strlit("email_error");
    assert("transport_error"@.len() != "email_error"@.len());
}

/// Any other failure is judged by all its words, in whatever case: it can be retried exactly where one of
/// the ten phrases stands in them.
pub proof fn failures_are_judged_by_their_words(message: Seq<char>)
    requires
        !begins_with(ascii_lower(message), "invalid from address '"@),
        !begins_with(ascii_lower(message), "invalid to address '"@),
        !begins_with(ascii_lower(message), "invalid imap server name '"@),
        !begins_with(ascii_lower(message), "imap select '"@),
    ensures
        judged_by(message, ascii_lower(message)),
{
    lemma_judged_by(message);
}

/// A mailbox that could not be selected is judged by the words that follow its name.
pub proof fn selections_are_judged_by_what_follows_the_name(
    message: Seq<char>,
    mailbox: Seq<char>,
    detail: Seq<char>,
)
    requires
        ascii_lower(message) == "imap select '"@ + mailbox + "' failed: "@ + detail,
        !occurs(mailbox, "' failed: "@),
    ensures
        judged_by(message, detail),
{
    let lower = ascii_lower(message);
    assert(lower.subrange(0, "imap select '"@.len() as int) =~= "imap select '"@);
    lemma_selection_is_no_rejection(message);
    assert(lower.skip("imap select '"@.len() as int) =~= mailbox + "' failed: "@ + detail);
    lemma_after_marker(mailbox, detail);
    lemma_judged_by(message);
}

/// Words that begin like those for a selection, and give no name, are judged as they are.
pub proof fn selections_without_a_name_are_judged_by_their_words(message: Seq<char>)
    requires
        begins_with(ascii_lower(message), "imap select '"@),
        !occurs(ascii_lower(message).skip("imap select '"@.len() as int), "' failed: "@),
    ensures
        judged_by(message, ascii_lower(message)),
{
    lemma_selection_is_no_rejection(message);
    what_follows_a_marker(
        ascii_lower(message).skip("imap select '"@.len() as int),
        "' failed: "@,
    );
    lemma_judged_by(message);
}

proof fn lemma_selection_is_no_rejection(message: Seq<char>)
    requires
        begins_with(ascii_lower(message), "imap select '"@),
    ensures
        !is_rejection(message),
{
    let lower = ascii_lower(message);
    reveal_strlit("imap select '");
    reveal_strlit("invalid from address '");
    reveal_strlit("invalid to address '");
    reveal_strlit("invalid imap server name '");
    lemma_begins_alike(lower, "imap select '"@, 1);
    lemma_begins_alike(lower, "invalid from address '"@, 1);
    lemma_begins_alike(lower, "invalid to address '"@, 1);
    lemma_begins_alike(lower, "invalid imap server name '"@, 1);
}

/// What a call is counted under: `ok` where it sent or read, a timeout where it ran out of time, and by
/// the words of the failure where it failed.
pub proof fn what_calls_are_counted_under(messages: Seq<JsonView>, message: Seq<char>)
    ensures
        outcome_label(OutcomeView::Sent) == "ok"@,
        outcome_label(OutcomeView::Read { messages }) == "ok"@,
        outcome_label(OutcomeView::TimedOut) == "timeout"@,
        outcome_label(OutcomeView::Failed { message }) == failure_label(message),
        OutcomeView::Sent.failure() is None,
        (OutcomeView::Read { messages }).failure() is None,
        OutcomeView::TimedOut.failure() == Some("email operation timed out"@),
        (OutcomeView::Failed { message }).failure() == Some(message),
{
    let call: CallView = arbitrary();
    timeout_is_retryable(call, 0);
}

/// What is said of a delivery that failed: at which stage and, after that, the words that came, marked to
/// be redacted.
pub proof fn words_for_deliveries_that_fail(detail: Seq<char>)
    ensures
        stage_words(SmtpStage::StarttlsRelay, detail) == (FailureView {
            message: "smtp starttls relay: "@ + detail,
            redact: true,
        }),
        stage_words(SmtpStage::Relay, detail) == (FailureView {
            message: "smtp relay: "@ + detail,
            redact: true,
        }),
        stage_words(SmtpStage::Delivery, detail) == (FailureView {
            message: "SMTP send failed: "@ + detail,
            redact: true,
        }),
{
}

/// Who is logged in as, and whose certificate is asked for: the user that is named, where one is; the
/// host, unless the connection is plaintext.
pub proof fn who_is_trusted(host: Seq<char>, username: Seq<char>, password: Seq<char>)
    ensures
        username.len() == 0 ==> login(username, password) is None,
        username.len() > 0 ==> login(username, password) == Some((username, password)),
        certified_domain(host, TlsMode::Plain) is None,
        certified_domain(host, TlsMode::Starttls) == Some(host),
        certified_domain(host, TlsMode::Implicit) == Some(host),
{
}

} // verus!
