//! Export of metrics and samples to OpenTelemetry.
use vstd::prelude::*;
use crate::aggregates::Sample;
use crate::entities::Metric;

verus! {

#[verifier::external_type_specification]
#[verifier::external_body]
pub struct ExAnyhowError(anyhow::Error);

/// Telemetry exporter.
pub struct TelemetryExporter;

impl TelemetryExporter {
    pub fn new() -> (r: Self) {
        TelemetryExporter
    }

    /// Exports a metric; there is no pipeline to export to yet, so nothing is sent.
    pub fn export_metric(&self, _metric: &Metric) {
    }

    /// Exports a sample; there is no pipeline to export to yet, so nothing is sent.
    pub fn export_sample(&self, _sample: &Sample) {
    }

    /// Initializes the pipeline, which always succeeds.
    pub fn init(&self) -> (r: Result<(), anyhow::Error>)
        ensures
            r is Ok,
    {
        Ok(())
    }
}

impl Default for TelemetryExporter {
    fn default() -> (r: Self) {
        TelemetryExporter
    }
}

} // verus!
