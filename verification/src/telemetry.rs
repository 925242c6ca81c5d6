//! Bootstrap of the export pipeline: its configuration and its lifecycle.
//!
//! Installing a pipeline needs a running executor and process-wide state, so
//! the installation itself is the caller's. What is decided here is what gets
//! installed, and which state the handle is in afterwards.

use vstd::prelude::*;
use crate::attribute::{Attribute, AttributeView, AttributeValueView};
use crate::otel::{deployment_environment_key, service_name_key, service_version_key};

verus! {

/// The collector endpoint that is used when none is configured.
pub open spec fn default_endpoint() -> Seq<char> {
    "http://localhost:4318/v1/traces"@
}

/// The log verbosity that is used when none is configured.
pub open spec fn default_log_filter() -> Seq<char> {
    "info"@
}

/// The deployment environment that is assumed when none is configured.
pub open spec fn default_environment() -> Seq<char> {
    "development"@
}

/// The configured text, or the fallback where nothing is configured.
pub open spec fn configured_or(configured: Option<String>, fallback: Seq<char>) -> Seq<char> {
    match configured {
        Some(text) => text@,
        None => fallback,
    }
}

/// The collector endpoint: the configured one, else the default.
pub fn resolve_endpoint(configured: Option<String>) -> (endpoint: String)
    ensures
        endpoint@ == configured_or(configured, default_endpoint()),
{
    match configured {
        Some(endpoint) => endpoint,
        None => "http://localhost:4318/v1/traces".to_string(),
    }
}

/// The log verbosity: the configured one, else the default.
pub fn resolve_log_filter(configured: Option<String>) -> (filter: String)
    ensures
        filter@ == configured_or(configured, default_log_filter()),
{
    match configured {
        Some(filter) => filter,
        None => "info".to_string(),
    }
}

/// The deployment environment: the configured one, else the default.
pub fn resolve_environment(configured: Option<String>) -> (environment: String)
    ensures
        environment@ == configured_or(configured, default_environment()),
{
    match configured {
        Some(environment) => environment,
        None => "development".to_string(),
    }
}

/// Identity of the running process, attached to everything it exports.
#[derive(Debug, Clone, PartialEq, Eq)]
pub struct ResourceDescriptor {
    pub service_name: String,
    pub service_version: String,
    pub environment: String,
}

/// Mathematical model of a [`ResourceDescriptor`].
pub struct ResourceDescriptorView {
    pub service_name: Seq<char>,
    pub service_version: Seq<char>,
    pub environment: Seq<char>,
}

impl View for ResourceDescriptor {
    type V = ResourceDescriptorView;

    open spec fn view(&self) -> ResourceDescriptorView {
        ResourceDescriptorView {
            service_name: self.service_name@,
            service_version: self.service_version@,
            environment: self.environment@,
        }
    }
}

/// The attributes that describe a resource, in the order in which they are
/// handed to the exporter.
pub open spec fn resource_attributes(resource: ResourceDescriptorView) -> Seq<AttributeView> {
    seq![
        AttributeView {
            key: "service.name"@,
            value: AttributeValueView::Text(resource.service_name),
        },
        AttributeView {
            key: "service.version"@,
            value: AttributeValueView::Text(resource.service_version),
        },
        AttributeView {
            key: "deployment.environment"@,
            value: AttributeValueView::Text(resource.environment),
        },
    ]
}

impl ResourceDescriptor {
    pub fn new(service_name: &str, service_version: &str, environment: &str) -> (resource:
        ResourceDescriptor)
        ensures
            resource@ == (ResourceDescriptorView {
                service_name: service_name@,
                service_version: service_version@,
                environment: environment@,
            }),
    {
        ResourceDescriptor {
            service_name: service_name.to_string(),
            service_version: service_version.to_string(),
            environment: environment.to_string(),
        }
    }

    /// The descriptor as attributes, under the keys of the semantic
    /// conventions.
    pub fn attributes(&self) -> (attributes: Vec<Attribute>)
        ensures
            attributes@.map_values(|a: Attribute| a@) == resource_attributes(self@),
    {
        let name = Attribute::text(service_name_key().as_str(), self.service_name.as_str());
        let version = Attribute::text(service_version_key().as_str(), self.service_version.as_str());
        let environment = Attribute::text(
            deployment_environment_key().as_str(),
            self.environment.as_str(),
        );
        let attributes = vec![name, version, environment];
        assert(attributes@.map_values(|a: Attribute| a@) =~= resource_attributes(self@));
        attributes
    }

    /// A copy of the descriptor.
    pub fn duplicate(&self) -> (copy: ResourceDescriptor)
        ensures
            copy == *self,
    {
        ResourceDescriptor {
            service_name: self.service_name.clone(),
            service_version: self.service_version.clone(),
            environment: self.environment.clone(),
        }
    }
}

/// What a pipeline is installed with.
#[derive(Debug, Clone, PartialEq, Eq)]
pub struct ExportPipeline {
    pub endpoint: String,
    pub log_filter: String,
    pub resource: ResourceDescriptor,
}

/// Mathematical model of an [`ExportPipeline`].
pub struct ExportPipelineView {
    pub endpoint: Seq<char>,
    pub log_filter: Seq<char>,
    pub resource: ResourceDescriptorView,
}

impl View for ExportPipeline {
    type V = ExportPipelineView;

    open spec fn view(&self) -> ExportPipelineView {
        ExportPipelineView {
            endpoint: self.endpoint@,
            log_filter: self.log_filter@,
            resource: self.resource@,
        }
    }
}

impl ExportPipeline {
    /// The pipeline for a service: its identity, and the endpoint and log
    /// verbosity as configured, each with its default.
    pub fn configure(
        service_name: &str,
        service_version: &str,
        environment: &str,
        endpoint: Option<String>,
        log_filter: Option<String>,
    ) -> (pipeline: ExportPipeline)
        ensures
            pipeline@ == (ExportPipelineView {
                endpoint: configured_or(endpoint, default_endpoint()),
                log_filter: configured_or(log_filter, default_log_filter()),
                resource: ResourceDescriptorView {
                    service_name: service_name@,
                    service_version: service_version@,
                    environment: environment@,
                },
            }),
    {
        ExportPipeline {
            endpoint: resolve_endpoint(endpoint),
            log_filter: resolve_log_filter(log_filter),
            resource: ResourceDescriptor::new(service_name, service_version, environment),
        }
    }

    /// A copy of the pipeline's configuration.
    pub fn duplicate(&self) -> (copy: ExportPipeline)
        ensures
            copy == *self,
    {
        ExportPipeline {
            endpoint: self.endpoint.clone(),
            log_filter: self.log_filter.clone(),
            resource: self.resource.duplicate(),
        }
    }
}

/// The model of an optional pipeline.
pub open spec fn pipeline_view(pipeline: Option<ExportPipeline>) -> Option<ExportPipelineView> {
    match pipeline {
        Some(p) => Some(p@),
        None => None,
    }
}

/// The exporter or the pipeline could not be constructed.
#[derive(Debug, Clone, PartialEq, Eq)]
pub struct InitError {
    pub message: String,
}

/// The handle through which spans are created. It records whether a pipeline
/// was installed through it, and which: spans themselves go to the tracer of
/// the process, which exports them or drops them accordingly.
#[derive(Debug, Clone, PartialEq, Eq)]
pub enum Telemetry {
    /// No pipeline was installed yet: spans go to a tracer that drops them.
    Uninitialized,
    /// Spans are exported through `pipeline`.
    Initialized { pipeline: ExportPipeline },
    /// The pipeline was shut down: spans are dropped.
    ShutDown,
}

/// Mathematical model of a [`Telemetry`] handle.
pub enum TelemetryView {
    Uninitialized,
    Initialized { pipeline: ExportPipelineView },
    ShutDown,
}

impl View for Telemetry {
    type V = TelemetryView;

    open spec fn view(&self) -> TelemetryView {
        match self {
            Telemetry::Uninitialized => TelemetryView::Uninitialized,
            Telemetry::Initialized { pipeline } => TelemetryView::Initialized {
                pipeline: pipeline@,
            },
            Telemetry::ShutDown => TelemetryView::ShutDown,
        }
    }
}

/// The pipeline through which a span that is started in `state` is exported,
/// if any.
pub open spec fn exported_through(state: TelemetryView) -> Option<ExportPipelineView> {
    match state {
        TelemetryView::Initialized { pipeline } => Some(pipeline),
        _ => None,
    }
}

/// The state after an attempt to install `pipeline`: a successful installation
/// replaces whatever was there, a failed one changes nothing.
pub open spec fn after_install(
    state: TelemetryView,
    pipeline: ExportPipelineView,
    installed: bool,
) -> TelemetryView {
    if installed {
        TelemetryView::Initialized { pipeline }
    } else {
        state
    }
}

/// The state after a shutdown.
pub open spec fn after_shutdown(state: TelemetryView) -> TelemetryView {
    TelemetryView::ShutDown
}

impl Telemetry {
    /// A handle with no pipeline installed.
    pub fn new() -> (telemetry: Telemetry)
        ensures
            telemetry@ == TelemetryView::Uninitialized,
    {
        Telemetry::Uninitialized
    }

    /// The pipeline through which spans are exported at present, if any.
    pub fn active_pipeline(&self) -> (pipeline: Option<ExportPipeline>)
        ensures
            pipeline_view(pipeline) == exported_through(self@),
    {
        match self {
            Telemetry::Initialized { pipeline } => Some(pipeline.duplicate()),
            _ => None,
        }
    }
}

/// Records the outcome of installing `pipeline`.
///
/// `installed` is what the installation returned: `Ok`, or the text of the
/// failure to construct the exporter or the pipeline. On `Ok` the handle
/// exports through `pipeline` from now on, whatever it did before. On a
/// failure the handle is left as it was and the failure is returned.
pub fn init_tracer(
    telemetry: &mut Telemetry,
    pipeline: ExportPipeline,
    installed: Result<(), String>,
) -> (result: Result<(), InitError>)
    ensures
        final(telemetry)@ == after_install(old(telemetry)@, pipeline@, installed is Ok),
        installed is Ok ==> result is Ok,
        installed is Err ==> result == Err::<(), InitError>(
            InitError { message: installed->Err_0 },
        ),
{
    match installed {
        Ok(()) => {
            *telemetry = Telemetry::Initialized { pipeline };
            Ok(())
        },
        Err(message) => Err(InitError { message }),
    }
}

/// Records that the pipeline was shut down: no span is exported through this
/// handle until a pipeline is installed again.
pub fn shutdown(telemetry: &mut Telemetry)
    ensures
        final(telemetry)@ == after_shutdown(old(telemetry)@),
{
    *telemetry = Telemetry::ShutDown;
}

/// Of two installations in a row the second one wins: the handle exports
/// through the pipeline that was installed last, and through that one only.
pub proof fn lemma_last_install_wins(
    state: TelemetryView,
    first: ExportPipelineView,
    second: ExportPipelineView,
)
    ensures
        after_install(after_install(state, first, true), second, true) == after_install(
            state,
            second,
            true,
        ),
        exported_through(after_install(after_install(state, first, true), second, true)) == Some(
            second,
        ),
{
}

/// A failed installation leaves the pipeline that was installed before in
/// place.
pub proof fn lemma_failed_install_keeps_pipeline(state: TelemetryView, pipeline: ExportPipelineView)
    ensures
        exported_through(after_install(state, pipeline, false)) == exported_through(state),
{
}

/// After a shutdown nothing is exported, whatever the state was.
pub proof fn lemma_shutdown_stops_export(state: TelemetryView)
    ensures
        exported_through(after_shutdown(state)) == None::<ExportPipelineView>,
{
}

} // verus!
