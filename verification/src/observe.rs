//! What the host is told of a call: how it is measured, and the audit event of one that failed.
use crate::call::{outcome_label, OutcomeView};
use crate::envelope::optional_text;
use crate::json::{Json, JsonObject, JsonView};
use crate::text::{decimal, decimal_text, joined, same_text};
use crate::types::text_view;
use vstd::prelude::*;

verus! {

// ------------------------------------------------------------------------- the outside clock

/// How `chrono` writes a moment of UTC, given by its timestamp and nanoseconds, to the millisecond;
/// nothing where it takes no such moment.
pub uninterp spec fn utc_millis_text(timestamp: i64, subsec_nanos: u32) -> Option<Seq<char>>;

/// `chrono::DateTime::to_rfc3339_opts`, to the millisecond and with `Z` for UTC, on the moment that
/// `DateTime::from_timestamp` makes of the numbers: what is written depends on the numbers alone.
#[verifier::external_body]
fn to_rfc3339_millis(timestamp: i64, subsec_nanos: u32) -> (text: Option<String>)
    ensures
        text_view(text) == utc_millis_text(timestamp, subsec_nanos),
{
    let moment = chrono::DateTime::from_timestamp(timestamp, subsec_nanos)?;
    Some(moment.to_rfc3339_opts(chrono::SecondsFormat::Millis, true))
}

/// How an audit event writes the moment at which it occurred: seconds and nanoseconds since the
/// start of 1970 in UTC.
pub fn rfc3339_moment(timestamp: i64, subsec_nanos: u32) -> (text: Option<String>)
    ensures
        text_view(text) == utc_millis_text(timestamp, subsec_nanos),
{
    to_rfc3339_millis(timestamp, subsec_nanos)
}

// ------------------------------------------------------------------------------------ audit

/// The action that a call with this label is audited as; nothing for one that is not audited.
pub open spec fn audit_action(label: Seq<char>) -> Option<Seq<char>> {
    if label == "timeout"@ {
        Some("dev.mcpg.backend.email.request_timeout"@)
    } else if label == "transport_error"@ || label == "invalid_spec"@ {
        Some("dev.mcpg.backend.email.request_failed"@)
    } else if label == "email_error"@ {
        Some("dev.mcpg.backend.email.operation_rejected"@)
    } else {
        None
    }
}

/// The action that a call with this label is audited as; nothing for one that is not audited.
pub fn audit_action_for_outcome(label: &str) -> (action: Option<&'static str>)
    ensures
        optional_text(action) == audit_action(label@),
{
    if same_text(label, "timeout") {
        Some("dev.mcpg.backend.email.request_timeout")
    } else if same_text(label, "transport_error") || same_text(label, "invalid_spec") {
        Some("dev.mcpg.backend.email.request_failed")
    } else if same_text(label, "email_error") {
        Some("dev.mcpg.backend.email.operation_rejected")
    } else {
        None
    }
}

/// Who did something.
#[derive(Debug, PartialEq, Eq)]
pub struct PluginIdentity {
    pub kind: String,
    pub trust_level: String,
    pub subject_id: Option<String>,
    pub auth_provider: Option<String>,
    pub issuer: Option<String>,
    pub roles: Vec<String>,
    pub groups: Vec<String>,
    pub scopes: Vec<String>,
    pub attributes: Vec<(String, String)>,
}

/// Whether an identity is the plugin's own: a verified system identity without roles, groups, scopes
/// or attributes.
pub open spec fn is_system_identity(identity: PluginIdentity) -> bool {
    &&& identity.kind@ == "system"@
    &&& identity.trust_level@ == "verified"@
    &&& text_view(identity.subject_id) == Some("dev.mcpg.backend.email"@)
    &&& identity.auth_provider is None
    &&& identity.issuer is None
    &&& identity.roles@.len() == 0
    &&& identity.groups@.len() == 0
    &&& identity.scopes@.len() == 0
    &&& identity.attributes@.len() == 0
}

/// The identity that stands in for the caller of a call that has none.
pub fn synthetic_system_identity() -> (identity: PluginIdentity)
    ensures
        is_system_identity(identity),
{
    PluginIdentity {
        kind: "system".to_owned(),
        trust_level: "verified".to_owned(),
        subject_id: Some("dev.mcpg.backend.email".to_owned()),
        auth_provider: None,
        issuer: None,
        roles: Vec::new(),
        groups: Vec::new(),
        scopes: Vec::new(),
        attributes: Vec::new(),
    }
}

/// Who an audit event is put down to.
#[derive(Debug, PartialEq, Eq)]
pub enum Actor {
    /// The identity that made the call.
    Caller,
    /// The plugin itself.
    System(PluginIdentity),
}

/// How what is audited ended.
#[derive(Debug, Clone, Copy, PartialEq, Eq, Structural)]
pub enum AuditOutcome {
    Success,
    Failure,
}

/// The audit event of a call that failed.
#[derive(Debug)]
pub struct AuditEvent {
    pub event_id: String,
    pub occurred_at: String,
    pub actor: Actor,
    pub action: &'static str,
    pub resource: String,
    pub outcome: AuditOutcome,
    pub request_id: String,
    pub details: Json,
}

/// What the details of an audit event say.
pub open spec fn details_view(
    backend_name: Seq<char>,
    duration_ms: u64,
    label: Seq<char>,
    alias: Seq<char>,
    reason: Option<Seq<char>>,
) -> JsonView {
    let members = map![
        "backend"@ => JsonView::Str(backend_name),
        "duration_ms"@ => JsonView::Number(duration_ms),
        "outcome"@ => JsonView::Str(label),
        "alias"@ => JsonView::Str(alias),
    ];
    JsonView::Object(
        match reason {
            Some(words) => members.insert("reason"@, JsonView::Str(words)),
            None => members,
        },
    )
}

/// Whole milliseconds of a duration in nanoseconds; what does not fit 64 bits is cut off.
pub open spec fn whole_millis(duration_nanos: u128) -> u64 {
    ((duration_nanos as int / 1_000_000) % 0x1_0000_0000_0000_0000) as u64
}

/// What an audit event says of a call: the failure that it is put down as, to the caller where there
/// is one, under an identifier made of the request's and of how long the call took.
pub open spec fn event_says(
    event: AuditEvent,
    action: Seq<char>,
    backend_name: Seq<char>,
    label: Seq<char>,
    reason: Option<Seq<char>>,
    has_identity: bool,
    request_id: Seq<char>,
    duration_nanos: u128,
    alias: Seq<char>,
    occurred_at: Seq<char>,
) -> bool {
    &&& event.event_id@ == "email-"@ + request_id + "-"@ + decimal(duration_nanos as nat)
    &&& event.occurred_at@ == occurred_at
    &&& if has_identity {
        event.actor is Caller
    } else {
        event.actor matches Actor::System(identity) && is_system_identity(identity)
    }
    &&& event.action@ == action
    &&& event.resource@ == "email-binding://"@ + backend_name
    &&& event.outcome == AuditOutcome::Failure
    &&& event.request_id@ == request_id
    &&& event.details@ == details_view(
        backend_name,
        whole_millis(duration_nanos),
        label,
        alias,
        reason,
    )
}

/// The audit event of a call, where it is one to be audited.
pub fn audit_event(
    backend_name: &str,
    label: &str,
    reason: Option<&str>,
    has_identity: bool,
    request_id: &str,
    duration_nanos: u128,
    alias: &str,
    occurred_at: String,
) -> (event: Option<AuditEvent>)
    ensures
        match event {
            Some(e) => audit_action(label@) is Some && event_says(
                e,
                audit_action(label@)->0,
                backend_name@,
                label@,
                optional_text(reason),
                has_identity,
                request_id@,
                duration_nanos,
                alias@,
                occurred_at@,
            ),
            None => audit_action(label@) is None,
        },
{
    let action = match audit_action_for_outcome(label) {
        Some(action) => action,
        None => {
            return None;
        },
    };
    let millis: u128 = (duration_nanos / 1_000_000) % 0x1_0000_0000_0000_0000;
    let mut details = JsonObject::new();
    details.insert("backend", Json::Str(backend_name.to_owned()));
    details.insert("duration_ms", Json::Number(millis as u64));
    details.insert("outcome", Json::Str(label.to_owned()));
    details.insert("alias", Json::Str(alias.to_owned()));
    if let Some(words) = reason {
        details.insert("reason", Json::Str(words.to_owned()));
    }
    let nanos = decimal_text(duration_nanos);
    Some(
        AuditEvent {
            event_id: joined("email-", request_id).concat("-").concat(nanos.as_str()),
            occurred_at,
            actor: if has_identity {
                Actor::Caller
            } else {
                Actor::System(synthetic_system_identity())
            },
            action,
            resource: joined("email-binding://", backend_name),
            outcome: AuditOutcome::Failure,
            request_id: request_id.to_owned(),
            details: Json::Object(details),
        },
    )
}

// ------------------------------------------------------------------------- observation

/// What the host is told of a call.
#[derive(Debug)]
pub struct Observation {
    /// The histogram that takes how long the call took, in seconds.
    pub latency_histogram: &'static str,
    /// The counter of calls.
    pub call_counter: &'static str,
    /// What is added to the counter.
    pub calls: u64,
    /// The label, name and value, that both are kept under.
    pub label: (&'static str, &'static str),
    /// The audit event, where the call is one to be audited.
    pub audit: Option<AuditEvent>,
}

/// What the host is told of a call: every call is measured under its outcome, and those that failed
/// are audited. The host goes by an alias; where there is none, there is no host, and nobody is told.
pub fn observe_call(
    backend_name: &str,
    label: &'static str,
    reason: Option<&str>,
    has_identity: bool,
    request_id: &str,
    duration_nanos: u128,
    host_alias: Option<&str>,
    occurred_at: String,
) -> (observation: Option<Observation>)
    ensures
        observation is Some <==> host_alias is Some,
        observation matches Some(o) ==> {
            &&& o.latency_histogram@ == "mcpg_email_backend_latency_seconds"@
            &&& o.call_counter@ == "mcpg_email_backend_calls_total"@
            &&& o.calls == 1
            &&& o.label.0@ == "outcome"@
            &&& o.label.1@ == label@
            &&& o.audit is Some <==> audit_action(label@) is Some
            &&& o.audit matches Some(e) ==> event_says(
                e,
                audit_action(label@)->0,
                backend_name@,
                label@,
                optional_text(reason),
                has_identity,
                request_id@,
                duration_nanos,
                host_alias->0@,
                occurred_at@,
            )
        },
{
    let alias = match host_alias {
        Some(alias) => alias,
        None => {
            return None;
        },
    };
    Some(Observation {
        latency_histogram: "mcpg_email_backend_latency_seconds",
        call_counter: "mcpg_email_backend_calls_total",
        calls: 1,
        label: ("outcome", label),
        audit: audit_event(
            backend_name,
            label,
            reason,
            has_identity,
            request_id,
            duration_nanos,
            alias,
            occurred_at,
        ),
    })
}

/// What the span of a call carries.
pub fn span_attributes(backend_name: &str, request_id: &str) -> (attributes: Json)
    ensures
        attributes@ == JsonView::Object(
            map![
                "backend"@ => JsonView::Str(backend_name@),
                "request_id"@ => JsonView::Str(request_id@),
            ],
        ),
{
    let mut members = JsonObject::new();
    members.insert("backend", Json::Str(backend_name.to_owned()));
    members.insert("request_id", Json::Str(request_id.to_owned()));
    Json::Object(members)
}

/// The label of a call of a binding that was not found.
pub open spec fn not_found_label() -> Seq<char> {
    "profile_not_found"@
}

/// The label under which a call of a binding that was not found is counted.
pub fn label_not_found() -> (label: &'static str)
    ensures
        label@ == not_found_label(),
{
    "profile_not_found"
}

// ---------------------------------------------------------------------------------- laws

/// Every call that failed is audited, and no other: neither one that succeeded nor one of a binding
/// that was not found.
pub proof fn failures_are_audited(outcome: OutcomeView)
    ensures
        audit_action(outcome_label(outcome)) is Some <==> outcome.failure() is Some,
        audit_action(not_found_label()) is None,
{
    reveal_strlit("ok");
    reveal_strlit("timeout");
    reveal_strlit("transport_error");
    reveal_strlit("invalid_spec");
    reveal_strlit("email_error");
    reveal_strlit("profile_not_found");
    assert("ok"@.len() == 2 && "timeout"@.len() == 7 && "transport_error"@.len() == 15);
    assert("invalid_spec"@.len() == 12 && "email_error"@.len() == 11);
    assert("profile_not_found"@.len() == 17);
}

/// The details of an audit event give back what they were made of; there is a reason exactly where
/// one was given.
pub proof fn details_say_what_happened(
    backend_name: Seq<char>,
    duration_ms: u64,
    label: Seq<char>,
    alias: Seq<char>,
    reason: Option<Seq<char>>,
)
    ensures
        ({
            let details = details_view(backend_name, duration_ms, label, alias, reason);
            &&& details.string_member("backend"@) == Some(backend_name)
            &&& details.member("duration_ms"@) == Some(JsonView::Number(duration_ms))
            &&& details.string_member("outcome"@) == Some(label)
            &&& details.string_member("alias"@) == Some(alias)
            &&& details.string_member("reason"@) == reason
        }),
{
    reveal_strlit("backend");
    reveal_strlit("duration_ms");
    reveal_strlit("outcome");
    reveal_strlit("alias");
    reveal_strlit("reason");
    assert("backend"@[0] != "outcome"@[0]);
    assert("backend"@.len() == 7 && "duration_ms"@.len() == 11 && "outcome"@.len() == 7);
    assert("alias"@.len() == 5 && "reason"@.len() == 6);
}

} // verus!
