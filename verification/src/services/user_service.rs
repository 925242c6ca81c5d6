//! A user lookup that reports itself as a span.
//!
//! The lookup is traced in two steps, so that a caller can wait for the
//! fetch in between: `begin_lookup` opens the span before the fetch, and
//! `finish_lookup` takes what the fetch gave, marks the span with it, ends
//! the span and hands the outcome back untouched.

use vstd::prelude::*;
use crate::attribute::{Attribute, AttributeValueView, AttributeView, SpanStatus, SpanStatusView};
use crate::span::{
    is_closed_journal,
    is_open_journal,
    journal_attribute,
    journal_status,
    lemma_closed_journal_starts_and_ends_once,
    FinishedSpan,
    SpanCallView,
    TracedSpan,
};
use crate::telemetry::{exported_through, Telemetry};

verus! {

/// The service that looks users up.
pub struct UserService;

/// A user, as the store holds it.
#[derive(Debug, Clone, PartialEq, Eq)]
pub struct User {
    pub id: String,
    pub name: String,
    pub email: String,
}

/// Mathematical model of a [`User`].
pub struct UserView {
    pub id: Seq<char>,
    pub name: Seq<char>,
    pub email: Seq<char>,
}

impl View for User {
    type V = UserView;

    open spec fn view(&self) -> UserView {
        UserView { id: self.id@, name: self.name@, email: self.email@ }
    }
}

/// The failure of a lookup.
#[derive(Debug, Clone, PartialEq, Eq)]
pub struct ServiceError {
    pub message: String,
}

/// A structured log line that reports a failure.
#[derive(Debug, Clone, PartialEq, Eq)]
pub struct ErrorLog {
    /// What went wrong, in words that do not depend on the failure.
    pub message: String,
    /// The text of the failure.
    pub error: String,
}

/// Mathematical model of an [`ErrorLog`].
pub struct ErrorLogView {
    pub message: Seq<char>,
    pub error: Seq<char>,
}

impl View for ErrorLog {
    type V = ErrorLogView;

    open spec fn view(&self) -> ErrorLogView {
        ErrorLogView { message: self.message@, error: self.error@ }
    }
}

/// What a traced lookup leaves behind.
#[derive(Debug)]
pub struct LookupReport {
    /// What the fetch gave, unchanged.
    pub result: Result<User, ServiceError>,
    /// The span of the lookup, ended.
    pub span: FinishedSpan,
    /// The log line to emit: one for a failure, none for a success.
    pub log: Option<ErrorLog>,
}

/// The name of the tracer that lookups are reported to.
pub open spec fn tracer_name() -> Seq<char> {
    "user-service"@
}

/// The name of the span of a lookup.
pub open spec fn span_name() -> Seq<char> {
    "getUserById"@
}

/// An attribute with a text for its value.
pub open spec fn text_attribute(key: Seq<char>, value: Seq<char>) -> SpanCallView {
    SpanCallView::SetAttribute {
        attribute: AttributeView { key, value: AttributeValueView::Text(value) },
    }
}

/// The attribute that marks a successful lookup.
pub open spec fn found_attribute() -> SpanCallView {
    SpanCallView::SetAttribute {
        attribute: AttributeView { key: "user.found"@, value: AttributeValueView::Flag(true) },
    }
}

/// The calls that open the span of the lookup of `user_id`.
pub open spec fn opening_calls(user_id: Seq<char>) -> Seq<SpanCallView> {
    seq![
        SpanCallView::Start { tracer: tracer_name(), name: span_name() },
        text_attribute("user.id"@, user_id),
        text_attribute("operation.type"@, "read"@),
        SpanCallView::AddEvent { name: "Fetching user from database"@ },
    ]
}

/// The calls that close the span of a lookup, by what the fetch gave: the
/// text of the failure, or `None` for a success.
pub open spec fn closing_calls(failure: Option<Seq<char>>) -> Seq<SpanCallView> {
    match failure {
        None => seq![
            found_attribute(),
            SpanCallView::SetStatus { status: SpanStatusView::Success },
            SpanCallView::End,
        ],
        Some(message) => seq![
            SpanCallView::SetStatus { status: SpanStatusView::Error { description: message } },
            SpanCallView::RecordError { message },
            SpanCallView::End,
        ],
    }
}

/// The whole journal of the lookup of `user_id`.
pub open spec fn lookup_calls(user_id: Seq<char>, failure: Option<Seq<char>>) -> Seq<
    SpanCallView,
> {
    opening_calls(user_id) + closing_calls(failure)
}

/// The text of the failure in what a fetch gave, or `None` for a success.
pub open spec fn failure_of(outcome: Result<User, ServiceError>) -> Option<Seq<char>> {
    match outcome {
        Ok(_) => None,
        Err(error) => Some(error.message@),
    }
}

/// The log line that reports the failure of a lookup.
pub open spec fn failure_log(failure: Option<Seq<char>>) -> Option<ErrorLogView> {
    match failure {
        None => None,
        Some(message) => Some(ErrorLogView { message: "Failed to fetch user"@, error: message }),
    }
}

/// The model of an optional log line.
pub open spec fn log_view(log: Option<ErrorLog>) -> Option<ErrorLogView> {
    match log {
        Some(line) => Some(line@),
        None => None,
    }
}

/// The user that the store holds under `user_id`.
pub open spec fn stored_user(user_id: Seq<char>) -> UserView {
    UserView { id: user_id, name: "John Doe"@, email: "john@example.com"@ }
}

impl UserService {
    /// Opens the span of the lookup of `user_id`: starts it, describes the
    /// lookup in its attributes, and records that the fetch begins. This
    /// works in every state of `telemetry`, also before a pipeline is
    /// installed and after it was shut down.
    pub fn begin_lookup(&self, telemetry: &Telemetry, user_id: &str) -> (span: TracedSpan)
        ensures
            span.journal() == opening_calls(user_id@),
            span.pipeline() == exported_through(telemetry@),
    {
        let span = TracedSpan::start(telemetry, "user-service", "getUserById");
        let span = span.set_attribute(Attribute::text("user.id", user_id));
        let span = span.set_attribute(Attribute::text("operation.type", "read"));
        let span = span.add_event("Fetching user from database");
        assert(span.journal() =~= opening_calls(user_id@));
        span
    }

    /// Closes a span with what the fetch gave.
    ///
    /// A success is marked with the `user.found` attribute and the status
    /// `Success`. A failure sets the status `Error` with the failure's text,
    /// is recorded as an exception, and comes with a log line. Either way the
    /// span is ended, and `outcome` is handed back as it came.
    pub fn finish_lookup(&self, span: TracedSpan, outcome: Result<User, ServiceError>) -> (report:
        LookupReport)
        ensures
            report.result == outcome,
            report.span.journal() == span.journal() + closing_calls(failure_of(outcome)),
            report.span.pipeline() == span.pipeline(),
            log_view(report.log) == failure_log(failure_of(outcome)),
    {
        match outcome {
            Ok(user) => {
                let marked = span.set_attribute(Attribute::flag("user.found", true));
                let marked = marked.set_status(SpanStatus::Success);
                let finished = marked.end();
                assert(finished.journal() =~= span.journal() + closing_calls(None));
                LookupReport { result: Ok(user), span: finished, log: None }
            },
            Err(error) => {
                let marked = span.set_status(
                    SpanStatus::Error { description: error.message.clone() },
                );
                let marked = marked.record_error(error.message.as_str());
                let log = ErrorLog {
                    message: "Failed to fetch user".to_string(),
                    error: error.message.clone(),
                };
                let finished = marked.end();
                assert(finished.journal() =~= span.journal() + closing_calls(
                    Some(error.message@),
                ));
                LookupReport { result: Err(error), span: finished, log: Some(log) }
            },
        }
    }

    /// Fetches the user that the store holds under `user_id`.
    pub fn fetch_user_from_db(&self, user_id: &str) -> (outcome: Result<User, ServiceError>)
        ensures
            outcome is Ok,
            outcome->Ok_0@ == stored_user(user_id@),
    {
        Ok(
            User {
                id: user_id.to_string(),
                name: "John Doe".to_string(),
                email: "john@example.com".to_string(),
            },
        )
    }

    /// Looks a user up, and reports the lookup as one span. The lookup does
    /// not depend on the state of `telemetry`: without an installed pipeline
    /// the span is dropped, and the user is returned all the same.
    pub fn get_user_by_id(&self, telemetry: &Telemetry, user_id: String) -> (report: LookupReport)
        ensures
            report.result is Ok,
            report.result->Ok_0@ == stored_user(user_id@),
            report.span.journal() == lookup_calls(user_id@, None),
            report.span.pipeline() == exported_through(telemetry@),
            report.log is None,
    {
        let span = self.begin_lookup(telemetry, user_id.as_str());
        let outcome = self.fetch_user_from_db(user_id.as_str());
        self.finish_lookup(span, outcome)
    }
}

/// Every lookup opens one span and closes that span once, whatever the fetch
/// gave: its journal has one start, which comes first, and one end, which
/// comes last.
pub proof fn lemma_lookup_opens_and_closes_one_span(
    user_id: Seq<char>,
    failure: Option<Seq<char>>,
)
    ensures
        is_closed_journal(lookup_calls(user_id, failure)),
        forall|i: int|
            0 <= i < lookup_calls(user_id, failure).len() ==> (#[trigger] lookup_calls(
                user_id,
                failure,
            )[i] is Start <==> i == 0),
        forall|i: int|
            0 <= i < lookup_calls(user_id, failure).len() ==> (#[trigger] lookup_calls(
                user_id,
                failure,
            )[i] is End <==> i == lookup_calls(user_id, failure).len() - 1),
{
    let journal = lookup_calls(user_id, failure);
    assert(journal.len() == 7);
    assert(is_open_journal(journal.drop_last()));
    lemma_closed_journal_starts_and_ends_once(journal);
}

/// The span of a lookup that succeeded has the status `Success` and carries
/// the `user.found` attribute.
pub proof fn lemma_success_is_marked(user_id: Seq<char>)
    ensures
        journal_status(lookup_calls(user_id, None)) == SpanStatusView::Success,
        journal_attribute(lookup_calls(user_id, None), "user.found"@) == Some(
            AttributeValueView::Flag(true),
        ),
{
    let journal = lookup_calls(user_id, None);
    assert(journal.len() == 7);
    assert(journal.drop_last().last() == journal[5]);
    assert(journal.drop_last().drop_last().last() == journal[4]);
    reveal_with_fuel(journal_status, 3);
    reveal_with_fuel(journal_attribute, 4);
}

/// The span of a lookup that failed has the status `Error` with the text of
/// the failure, and the failure is recorded in it as an exception.
pub proof fn lemma_failure_is_marked(user_id: Seq<char>, message: Seq<char>)
    ensures
        journal_status(lookup_calls(user_id, Some(message))) == (SpanStatusView::Error {
            description: message,
        }),
        lookup_calls(user_id, Some(message)).contains(SpanCallView::RecordError { message }),
{
    let journal = lookup_calls(user_id, Some(message));
    assert(journal.len() == 7);
    assert(journal[5] == SpanCallView::RecordError { message });
    assert(journal.drop_last().last() == journal[5]);
    assert(journal.drop_last().drop_last().last() == journal[4]);
    reveal_with_fuel(journal_status, 4);
}

} // verus!
