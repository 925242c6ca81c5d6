//! The calls into the `opentelemetry` crates. Nothing here is proved: each
//! item states what is taken on trust of the function that it calls.
//!
//! A span of the global tracer is opaque: it may belong to an installed
//! exporter or to the no-op tracer, and neither lets a caller read back what
//! it was told. The items on spans therefore promise nothing of the span; that
//! the calls return is all that the rest of the crate relies on.

use vstd::prelude::*;
use opentelemetry::global::{BoxedSpan, BoxedTracer};
use opentelemetry::trace::{Span, Status, Tracer};
use opentelemetry::{KeyValue, Value};
use crate::attribute::{Attribute, AttributeValue, SpanStatus};

verus! {

/// `opentelemetry::global::BoxedTracer`, carried through as an opaque value.
#[verifier::external_type_specification]
#[verifier::external_body]
pub struct ExBoxedTracer(opentelemetry::global::BoxedTracer);

/// `opentelemetry::global::BoxedSpan`, carried through as an opaque value.
#[verifier::external_type_specification]
#[verifier::external_body]
pub struct ExBoxedSpan(opentelemetry::global::BoxedSpan);

/// Calls `opentelemetry::global::tracer`, which hands out a tracer of the
/// provider that is installed at this moment: the no-op provider while none
/// is. Nothing is claimed of the tracer. The call reads the provider under a
/// lock, and panics where an installation panicked while it held that lock.
#[verifier::external_body]
pub(crate) fn global_tracer(name: &str) -> BoxedTracer {
    opentelemetry::global::tracer(name.to_string())
}

/// Calls `Tracer::start` on a tracer of the global provider. Nothing is
/// claimed of the span.
#[verifier::external_body]
pub(crate) fn tracer_start(tracer: &BoxedTracer, name: &str) -> BoxedSpan {
    tracer.start(name.to_string())
}

/// Calls `Span::set_attribute` with the attribute as a `KeyValue`. Nothing is
/// claimed of the span afterwards.
#[verifier::external_body]
pub(crate) fn span_set_attribute(span: &mut BoxedSpan, attribute: &Attribute) {
    let value = match &attribute.value {
        AttributeValue::Text(text) => Value::from(text.clone()),
        AttributeValue::Flag(flag) => Value::from(*flag),
    };
    span.set_attribute(KeyValue::new(attribute.key.clone(), value));
}

/// Calls `Span::add_event` with no attributes. Nothing is claimed of the span
/// afterwards.
#[verifier::external_body]
pub(crate) fn span_add_event(span: &mut BoxedSpan, name: &str) {
    span.add_event(name.to_string(), Vec::new());
}

/// Calls `Span::set_status` with the status as a `Status`. Nothing is claimed
/// of the span afterwards.
#[verifier::external_body]
pub(crate) fn span_set_status(span: &mut BoxedSpan, status: &SpanStatus) {
    let status = match status {
        SpanStatus::Unset => Status::Unset,
        SpanStatus::Success => Status::Ok,
        SpanStatus::Error { description } => Status::error(description.clone()),
    };
    span.set_status(status);
}

/// Calls `Span::record_error` with a boxed error whose text is `message`.
/// Nothing is claimed of the span afterwards.
#[verifier::external_body]
pub(crate) fn span_record_error(span: &mut BoxedSpan, message: &str) {
    let error: Box<dyn std::error::Error + Send + Sync> = message.into();
    span.record_error(error.as_ref());
}

/// Calls `Span::end` and lets go of the span. Nothing is claimed of what the
/// tracer does with it.
#[verifier::external_body]
pub(crate) fn span_end(span: BoxedSpan) {
    let mut span = span;
    span.end();
}

/// Reads `opentelemetry_semantic_conventions::resource::SERVICE_NAME`, the
/// key under which a service's name is reported. Taken on trust: the text of
/// that key, as the constant is declared.
#[verifier::external_body]
pub(crate) fn service_name_key() -> (key: String)
    ensures
        key@ == "service.name"@,
{
    opentelemetry_semantic_conventions::resource::SERVICE_NAME.as_str().to_string()
}

/// Reads `opentelemetry_semantic_conventions::resource::SERVICE_VERSION`, the
/// key under which a service's version is reported. Taken on trust: the text
/// of that key, as the constant is declared.
#[verifier::external_body]
pub(crate) fn service_version_key() -> (key: String)
    ensures
        key@ == "service.version"@,
{
    opentelemetry_semantic_conventions::resource::SERVICE_VERSION.as_str().to_string()
}

/// Reads `opentelemetry_semantic_conventions::resource::DEPLOYMENT_ENVIRONMENT`,
/// the key under which the deployment environment is reported. Taken on
/// trust: the text of that key, as the constant is declared.
#[verifier::external_body]
pub(crate) fn deployment_environment_key() -> (key: String)
    ensures
        key@ == "deployment.environment"@,
{
    opentelemetry_semantic_conventions::resource::DEPLOYMENT_ENVIRONMENT.as_str().to_string()
}

} // verus!
