//! Instrumentation for services that report spans to an OpenTelemetry tracer.
//!
//! The crate keeps, for every span it opens, a journal of the calls it made on
//! the tracer, and proves what that journal holds: one start, one end, and a
//! status that reflects the outcome of the traced operation.

pub mod attribute;
pub mod otel;
pub mod services;
pub mod span;
pub mod telemetry;

pub use telemetry::{init_tracer, shutdown};
