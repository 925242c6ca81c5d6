use observability::attribute::{Attribute, AttributeValue, SpanStatus};
use observability::services::user_service::{ErrorLog, ServiceError, User, UserService};
use observability::span::{SpanCall, TracedSpan};
use observability::telemetry::Telemetry;

fn opening(user_id: &str) -> Vec<SpanCall> {
    vec![
        SpanCall::Start { tracer: "user-service".to_string(), name: "getUserById".to_string() },
        SpanCall::SetAttribute {
            attribute: Attribute {
                key: "user.id".to_string(),
                value: AttributeValue::Text(user_id.to_string()),
            },
        },
        SpanCall::SetAttribute {
            attribute: Attribute {
                key: "operation.type".to_string(),
                value: AttributeValue::Text("read".to_string()),
            },
        },
        SpanCall::AddEvent { name: "Fetching user from database".to_string() },
    ]
}

fn starts(calls: &[SpanCall]) -> usize {
    calls.iter().filter(|call| matches!(call, SpanCall::Start { .. })).count()
}

fn ends(calls: &[SpanCall]) -> usize {
    calls.iter().filter(|call| matches!(call, SpanCall::End)).count()
}

fn not_found() -> Result<User, ServiceError> {
    Err(ServiceError { message: "not found".to_string() })
}

#[test]
fn lookup_of_123_returns_user_123_with_status_ok() {
    let telemetry = Telemetry::new();
    let report = UserService.get_user_by_id(&telemetry, "123".to_string());
    let user = report.result.expect("the lookup succeeds");
    assert_eq!(user.id, "123");
    assert_eq!(report.span.status(), SpanStatus::Success);
    assert_eq!(report.log, None);
}

#[test]
fn lookup_returns_the_stored_user() {
    let telemetry = Telemetry::new();
    let report = UserService.get_user_by_id(&telemetry, "abc".to_string());
    assert_eq!(
        report.result,
        Ok(User {
            id: "abc".to_string(),
            name: "John Doe".to_string(),
            email: "john@example.com".to_string(),
        })
    );
}

#[test]
fn fetch_gives_the_stored_user() {
    let outcome = UserService.fetch_user_from_db("42");
    assert_eq!(
        outcome,
        Ok(User {
            id: "42".to_string(),
            name: "John Doe".to_string(),
            email: "john@example.com".to_string(),
        })
    );
}

#[test]
fn lookup_accepts_an_empty_identifier() {
    let telemetry = Telemetry::new();
    let report = UserService.get_user_by_id(&telemetry, String::new());
    assert_eq!(report.result.expect("the lookup succeeds").id, "");
    assert_eq!(report.span.attribute("user.id"), Some(AttributeValue::Text(String::new())));
}

#[test]
fn successful_lookup_journal() {
    let telemetry = Telemetry::new();
    let report = UserService.get_user_by_id(&telemetry, "123".to_string());
    let mut expected = opening("123");
    expected.push(SpanCall::SetAttribute {
        attribute: Attribute { key: "user.found".to_string(), value: AttributeValue::Flag(true) },
    });
    expected.push(SpanCall::SetStatus { status: SpanStatus::Success });
    expected.push(SpanCall::End);
    assert_eq!(report.span.calls(), &expected);
}

#[test]
fn failed_lookup_journal() {
    let telemetry = Telemetry::new();
    let span = UserService.begin_lookup(&telemetry, "7");
    let report = UserService.finish_lookup(span, not_found());
    let mut expected = opening("7");
    expected.push(SpanCall::SetStatus {
        status: SpanStatus::Error { description: "not found".to_string() },
    });
    expected.push(SpanCall::RecordError { message: "not found".to_string() });
    expected.push(SpanCall::End);
    assert_eq!(report.span.calls(), &expected);
}

#[test]
fn failing_fetch_is_reported_and_handed_back() {
    let telemetry = Telemetry::new();
    let span = UserService.begin_lookup(&telemetry, "123");
    let report = UserService.finish_lookup(span, not_found());
    assert_eq!(report.result, Err(ServiceError { message: "not found".to_string() }));
    assert_eq!(
        report.span.status(),
        SpanStatus::Error { description: "not found".to_string() }
    );
    assert_eq!(
        report.log,
        Some(ErrorLog {
            message: "Failed to fetch user".to_string(),
            error: "not found".to_string(),
        })
    );
    assert_eq!(report.span.attribute("user.found"), None);
}

#[test]
fn succeeding_fetch_is_handed_back_unchanged() {
    let telemetry = Telemetry::new();
    let span = UserService.begin_lookup(&telemetry, "123");
    let user = User {
        id: "other".to_string(),
        name: "Jane Roe".to_string(),
        email: "jane@example.com".to_string(),
    };
    let report = UserService.finish_lookup(span, Ok(user.clone()));
    assert_eq!(report.result, Ok(user));
    assert_eq!(report.log, None);
}

#[test]
fn one_span_is_opened_and_closed_on_success() {
    let telemetry = Telemetry::new();
    let report = UserService.get_user_by_id(&telemetry, "123".to_string());
    let calls = report.span.calls();
    assert_eq!(starts(calls), 1);
    assert_eq!(ends(calls), 1);
    assert!(matches!(calls.first(), Some(SpanCall::Start { .. })));
    assert!(matches!(calls.last(), Some(SpanCall::End)));
}

#[test]
fn one_span_is_opened_and_closed_on_failure() {
    let telemetry = Telemetry::new();
    let span = UserService.begin_lookup(&telemetry, "123");
    let report = UserService.finish_lookup(span, not_found());
    let calls = report.span.calls();
    assert_eq!(starts(calls), 1);
    assert_eq!(ends(calls), 1);
    assert!(matches!(calls.first(), Some(SpanCall::Start { .. })));
    assert!(matches!(calls.last(), Some(SpanCall::End)));
}

#[test]
fn success_carries_the_found_attribute() {
    let telemetry = Telemetry::new();
    let report = UserService.get_user_by_id(&telemetry, "123".to_string());
    assert_eq!(report.span.attribute("user.found"), Some(AttributeValue::Flag(true)));
    assert_eq!(report.span.attribute("user.id"), Some(AttributeValue::Text("123".to_string())));
    assert_eq!(
        report.span.attribute("operation.type"),
        Some(AttributeValue::Text("read".to_string()))
    );
    assert_eq!(report.span.attribute("user.name"), None);
}

#[test]
fn lookup_before_bootstrap_succeeds_and_exports_nothing() {
    let telemetry = Telemetry::Uninitialized;
    let report = UserService.get_user_by_id(&telemetry, "123".to_string());
    assert!(report.result.is_ok());
    assert_eq!(report.span.exported_through(), &None);
}

#[test]
fn status_is_the_one_set_last() {
    let telemetry = Telemetry::new();
    let span = TracedSpan::start(&telemetry, "tests", "work");
    let span = span.set_status(SpanStatus::Error { description: "first".to_string() });
    let span = span.add_event("retry");
    let span = span.set_status(SpanStatus::Success);
    let span = span.record_error("late");
    assert_eq!(span.end().status(), SpanStatus::Success);
}

#[test]
fn status_is_unset_where_none_was_set() {
    let telemetry = Telemetry::new();
    let span = TracedSpan::start(&telemetry, "tests", "work");
    let finished = span.add_event("nothing happened").end();
    assert_eq!(finished.status(), SpanStatus::Unset);
    assert_eq!(
        finished.calls(),
        &vec![
            SpanCall::Start { tracer: "tests".to_string(), name: "work".to_string() },
            SpanCall::AddEvent { name: "nothing happened".to_string() },
            SpanCall::End,
        ]
    );
}

#[test]
fn attribute_is_the_one_set_last() {
    let telemetry = Telemetry::new();
    let span = TracedSpan::start(&telemetry, "tests", "work");
    let span = span.set_attribute(Attribute::text("attempt", "one"));
    let span = span.set_attribute(Attribute::flag("cached", false));
    let span = span.set_attribute(Attribute::text("attempt", "two"));
    let finished = span.end();
    assert_eq!(finished.attribute("attempt"), Some(AttributeValue::Text("two".to_string())));
    assert_eq!(finished.attribute("cached"), Some(AttributeValue::Flag(false)));
    assert_eq!(finished.attribute("missing"), None);
}

#[test]
fn attribute_builders() {
    assert_eq!(
        Attribute::text("k", "v"),
        Attribute { key: "k".to_string(), value: AttributeValue::Text("v".to_string()) }
    );
    assert_eq!(
        Attribute::flag("k", true),
        Attribute { key: "k".to_string(), value: AttributeValue::Flag(true) }
    );
    let status = SpanStatus::Error { description: "d".to_string() };
    assert_eq!(status.duplicate(), status);
    let value = AttributeValue::Text("t".to_string());
    assert_eq!(value.duplicate(), value);
}
