use mcpg_backend_email::json::Json;
use mcpg_backend_email::observe::{
    audit_action_for_outcome, audit_event, label_not_found, observe_call, rfc3339_moment, span_attributes,
    synthetic_system_identity, Actor, AuditOutcome,
};

fn text(words: &str) -> Json {
    Json::Str(words.to_owned())
}

#[test]
fn actions_by_label() {
    assert_eq!(
        audit_action_for_outcome("timeout"),
        Some("dev.mcpg.backend.email.request_timeout")
    );
    assert_eq!(
        audit_action_for_outcome("transport_error"),
        Some("dev.mcpg.backend.email.request_failed")
    );
    assert_eq!(
        audit_action_for_outcome("email_error"),
        Some("dev.mcpg.backend.email.operation_rejected")
    );
    assert_eq!(
        audit_action_for_outcome("invalid_spec"),
        Some("dev.mcpg.backend.email.request_failed")
    );
    for label in ["ok", "profile_not_found", "", "Timeout"] {
        assert_eq!(audit_action_for_outcome(label), None, "{}", label);
    }
}

#[test]
fn identity_of_the_plugin() {
    let identity = synthetic_system_identity();
    assert_eq!(identity.kind, "system");
    assert_eq!(identity.trust_level, "verified");
    assert_eq!(identity.subject_id, Some("dev.mcpg.backend.email".to_owned()));
    assert_eq!(identity.auth_provider, None);
    assert_eq!(identity.issuer, None);
    assert!(identity.roles.is_empty() && identity.groups.is_empty());
    assert!(identity.scopes.is_empty() && identity.attributes.is_empty());
}

#[test]
fn moments_are_written_to_the_millisecond() {
    assert_eq!(
        rfc3339_moment(1_781_082_000, 7_999_999),
        Some("2026-06-10T09:00:00.007Z".to_owned())
    );
    assert_eq!(
        rfc3339_moment(0, 0),
        Some("1970-01-01T00:00:00.000Z".to_owned())
    );
    assert_eq!(rfc3339_moment(i64::MAX, 0), None);
}

#[test]
fn event_of_a_failure() {
    let event = audit_event(
        "mail",
        "email_error",
        Some("why"),
        false,
        "rq-1",
        12_345_678,
        "al",
        "now".to_owned(),
    )
    .expect("event");
    assert_eq!(event.event_id, "email-rq-1-12345678");
    assert_eq!(event.occurred_at, "now");
    assert_eq!(event.actor, Actor::System(synthetic_system_identity()));
    assert_eq!(event.action, "dev.mcpg.backend.email.operation_rejected");
    assert_eq!(event.resource, "email-binding://mail");
    assert_eq!(event.outcome, AuditOutcome::Failure);
    assert_eq!(event.request_id, "rq-1");
    assert_eq!(event.details.get("backend"), Some(&text("mail")));
    assert_eq!(event.details.get("duration_ms"), Some(&Json::Number(12)));
    assert_eq!(event.details.get("outcome"), Some(&text("email_error")));
    assert_eq!(event.details.get("alias"), Some(&text("al")));
    assert_eq!(event.details.get("reason"), Some(&text("why")));
}

#[test]
fn event_is_put_down_to_the_caller() {
    let event = audit_event("m", "timeout", None, true, "r", 0, "", String::new()).expect("event");
    assert_eq!(event.actor, Actor::Caller);
    assert_eq!(event.event_id, "email-r-0");
    assert_eq!(event.details.get("reason"), None);
}

#[test]
fn durations_beyond_bounds_are_cut_off() {
    let nanos: u128 = (u128::from(u64::MAX) + 6) * 1_000_000 + 999_999;
    let event = audit_event("m", "timeout", None, true, "r", nanos, "", String::new());
    assert_eq!(
        event.expect("event").details.get("duration_ms"),
        Some(&Json::Number(5))
    );
}

#[test]
fn every_call_is_measured() {
    let ok = observe_call("m", "ok", None, false, "r", 1, Some("a"), String::new()).expect("told");
    assert_eq!(ok.latency_histogram, "mcpg_email_backend_latency_seconds");
    assert_eq!(ok.call_counter, "mcpg_email_backend_calls_total");
    assert_eq!(ok.calls, 1);
    assert_eq!(ok.label, ("outcome", "ok"));
    assert!(ok.audit.is_none());
    let late =
        observe_call("m", "timeout", None, false, "r", 1, Some("a"), String::new()).expect("told");
    assert_eq!(late.label, ("outcome", "timeout"));
    let event = late.audit.expect("event");
    assert_eq!(event.action, "dev.mcpg.backend.email.request_timeout");
    assert_eq!(event.outcome, AuditOutcome::Failure);
    assert_eq!(event.details.get("alias"), Some(&text("a")));
}

#[test]
fn nobody_is_told_where_there_is_no_host() {
    assert!(observe_call("m", "timeout", None, false, "r", 1, None, String::new()).is_none());
}

#[test]
fn binding_that_was_not_found_is_counted_and_not_audited() {
    assert_eq!(label_not_found(), "profile_not_found");
    assert_eq!(audit_action_for_outcome(label_not_found()), None);
}

#[test]
fn span_names_the_call() {
    let attributes = span_attributes("mail", "rq-1");
    assert_eq!(attributes.get("backend"), Some(&text("mail")));
    assert_eq!(attributes.get("request_id"), Some(&text("rq-1")));
}
