//! Sections of the command-line tool's configuration file.
use vstd::prelude::*;

verus! {

/// Sampling configuration.
#[derive(Debug, Clone)]
pub struct SamplingConfig {
    /// Default sampling interval in milliseconds
    pub interval_ms: u64,
    /// Retention policy
    pub retention: RetentionPolicy,
}

/// How long samples are kept.
#[derive(Debug, Clone)]
pub enum RetentionPolicy {
    /// Keep last N samples
    LastN(usize),
    /// Keep samples for a duration
    Duration(String),
    /// Unlimited
    Unlimited,
}

/// Export configuration.
#[derive(Debug, Clone)]
pub struct ExportConfig {
    /// Prometheus exporter configuration
    pub prometheus: Option<PrometheusConfig>,
    /// OpenTelemetry configuration
    pub opentelemetry: Option<OpenTelemetryConfig>,
    /// CSV logging configuration
    pub csv: Option<CsvConfig>,
}

/// Prometheus exporter configuration.
#[derive(Debug, Clone)]
pub struct PrometheusConfig {
    /// Port to listen on
    pub port: u16,
    /// Host to bind to
    pub host: String,
    /// Path of the metrics endpoint
    pub path: String,
}

/// OpenTelemetry configuration.
#[derive(Debug, Clone)]
pub struct OpenTelemetryConfig {
    /// OTLP endpoint
    pub endpoint: String,
    /// Export interval in seconds
    pub interval_secs: u64,
}

/// CSV logging configuration.
#[derive(Debug, Clone)]
pub struct CsvConfig {
    /// Output file path
    pub path: String,
    /// Whether to include headers
    pub headers: bool,
    /// Flush interval
    pub flush_interval_secs: u64,
}

/// Terminal UI configuration.
#[derive(Debug, Clone)]
pub struct TuiConfig {
    /// Color scheme
    pub color_scheme: String,
    /// Show history chart
    pub show_history: bool,
    /// History buffer size
    pub history_size: usize,
}

/// Logging configuration.
#[derive(Debug, Clone)]
pub struct LoggingConfig {
    /// Log level
    pub level: String,
    /// Log to file
    pub file: Option<String>,
}

/// A backend named in the configuration and whether it is enabled; its own settings are
/// kept by the caller.
#[derive(Debug, Clone)]
pub struct BackendEntry {
    pub name: String,
    pub enabled: bool,
}

/// The backends a default configuration names: `nvml`, enabled.
pub fn default_backends() -> (r: Vec<BackendEntry>)
    ensures
        r@.len() == 1,
        r@[0].name@ == "nvml"@,
        r@[0].enabled,
{
    let mut r: Vec<BackendEntry> = Vec::new();
    r.push(BackendEntry { name: String::from_str("nvml"), enabled: true });
    r
}

impl Default for SamplingConfig {
    /// A sample every second, keeping the last thousand.
    fn default() -> (r: Self)
        ensures
            r.interval_ms == 1000,
            r.retention matches RetentionPolicy::LastN(n) && n == 1000,
    {
        SamplingConfig { interval_ms: 1000, retention: RetentionPolicy::LastN(1000) }
    }
}

impl Default for ExportConfig {
    /// Prometheus on port 9101 of every interface, at `/metrics`; no OpenTelemetry, no CSV.
    fn default() -> (r: Self)
        ensures
            r.prometheus matches Some(p) && p.port == 9101 && p.host@ == "0.0.0.0"@ && p.path@
                == "/metrics"@,
            r.opentelemetry is None,
            r.csv is None,
    {
        ExportConfig {
            prometheus: Some(
                PrometheusConfig {
                    port: 9101,
                    host: String::from_str("0.0.0.0"),
                    path: String::from_str("/metrics"),
                },
            ),
            opentelemetry: None,
            csv: None,
        }
    }
}

impl Default for TuiConfig {
    /// The default colours, with a history chart of twenty points.
    fn default() -> (r: Self)
        ensures
            r.color_scheme@ == "default"@,
            r.show_history,
            r.history_size == 20,
    {
        TuiConfig { color_scheme: String::from_str("default"), show_history: true, history_size: 20 }
    }
}

impl Default for LoggingConfig {
    /// Logging at level `info`, to no file.
    fn default() -> (r: Self)
        ensures
            r.level@ == "info"@,
            r.file is None,
    {
        LoggingConfig { level: String::from_str("info"), file: None }
    }
}

} // verus!
