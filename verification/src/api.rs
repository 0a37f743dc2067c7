//! The API's error model, the parsing of names that clients send, the health report, and
//! the shapes of the REST responses.
use vstd::prelude::*;
use crate::errors::DomainError;
use crate::ports::BackendHealth;
use crate::string_map::StringMap;
use crate::text::str_eq;
use crate::value_objects::{AcceleratorType, MetricType, Unit};

verus! {

/// Error codes of the API.
#[derive(Debug, Clone, Copy, PartialEq, Eq, Structural)]
pub enum ErrorCode {
    NotFound,
    InvalidRequest,
    BackendUnavailable,
    CollectionFailed,
    InternalError,
}

/// An API error.
#[derive(Debug, Clone)]
pub struct ApiError {
    pub code: ErrorCode,
    pub message: String,
    pub details: Option<String>,
}

impl ApiError {
    /// A not-found error with `message`.
    pub fn not_found(message: &str) -> (r: Self)
        ensures
            r.code == ErrorCode::NotFound && r.message@ == message@ && r.details is None,
    {
        ApiError { code: ErrorCode::NotFound, message: String::from_str(message), details: None }
    }

    /// An invalid-request error with `message`.
    pub fn invalid_request(message: &str) -> (r: Self)
        ensures
            r.code == ErrorCode::InvalidRequest && r.message@ == message@ && r.details is None,
    {
        ApiError { code: ErrorCode::InvalidRequest, message: String::from_str(message), details: None }
    }

    /// A backend-unavailable error with `message`.
    pub fn backend_unavailable(message: &str) -> (r: Self)
        ensures
            r.code == ErrorCode::BackendUnavailable && r.message@ == message@ && r.details is None,
    {
        ApiError {
            code: ErrorCode::BackendUnavailable,
            message: String::from_str(message),
            details: None,
        }
    }

    /// An internal error with `message`.
    pub fn internal(message: &str) -> (r: Self)
        ensures
            r.code == ErrorCode::InternalError && r.message@ == message@ && r.details is None,
    {
        ApiError { code: ErrorCode::InternalError, message: String::from_str(message), details: None }
    }
}

/// The code a domain error is reported with.
pub open spec fn api_code_of(e: DomainError) -> ErrorCode {
    match e {
        DomainError::AcceleratorNotFound(_) => ErrorCode::NotFound,
        DomainError::SensorNotFound(_) => ErrorCode::NotFound,
        DomainError::InvalidMetricValue(_) => ErrorCode::InvalidRequest,
        DomainError::BackendError(_) => ErrorCode::BackendUnavailable,
        DomainError::CollectionFailed(_) => ErrorCode::InternalError,
        DomainError::ConfigurationError(_) => ErrorCode::InvalidRequest,
    }
}

/// The API error for a domain error: its code by kind, and the domain error's message.
pub fn api_error_from_domain(err: DomainError) -> (r: ApiError)
    ensures
        r.code == api_code_of(err),
        r.message@ == crate::errors::domain_error_text(err),
        r.details is None,
{
    let message = err.to_string();
    match err {
        DomainError::AcceleratorNotFound(_) => ApiError::not_found(message.as_str()),
        DomainError::SensorNotFound(_) => ApiError::not_found(message.as_str()),
        DomainError::InvalidMetricValue(_) => ApiError::invalid_request(message.as_str()),
        DomainError::BackendError(_) => ApiError::backend_unavailable(message.as_str()),
        DomainError::CollectionFailed(_) => ApiError::internal(message.as_str()),
        DomainError::ConfigurationError(_) => ApiError::invalid_request(message.as_str()),
    }
}

/// The accelerator type named by a variant name such as `NvidiaGpu`.
pub open spec fn accelerator_type_named(s: Seq<char>) -> Option<AcceleratorType> {
    if s == "NvidiaGpu"@ {
        Some(AcceleratorType::NvidiaGpu)
    } else if s == "AppleNeuralEngine"@ {
        Some(AcceleratorType::AppleNeuralEngine)
    } else if s == "GoogleTpu"@ {
        Some(AcceleratorType::GoogleTpu)
    } else if s == "AmdGpu"@ {
        Some(AcceleratorType::AmdGpu)
    } else if s == "IntelNpu"@ {
        Some(AcceleratorType::IntelNpu)
    } else if s == "Cpu"@ {
        Some(AcceleratorType::Cpu)
    } else {
        None
    }
}

/// Parses an accelerator type from its variant name.
pub fn parse_accelerator_type(type_str: &str) -> (r: Option<AcceleratorType>)
    ensures
        r == accelerator_type_named(type_str@),
{
    if str_eq(type_str, "NvidiaGpu") {
        Some(AcceleratorType::NvidiaGpu)
    } else if str_eq(type_str, "AppleNeuralEngine") {
        Some(AcceleratorType::AppleNeuralEngine)
    } else if str_eq(type_str, "GoogleTpu") {
        Some(AcceleratorType::GoogleTpu)
    } else if str_eq(type_str, "AmdGpu") {
        Some(AcceleratorType::AmdGpu)
    } else if str_eq(type_str, "IntelNpu") {
        Some(AcceleratorType::IntelNpu)
    } else if str_eq(type_str, "Cpu") {
        Some(AcceleratorType::Cpu)
    } else {
        None
    }
}

/// The metric type named by a variant name such as `Utilization`.
pub open spec fn metric_type_named(s: Seq<char>) -> Option<MetricType> {
    if s == "Utilization"@ {
        Some(MetricType::Utilization)
    } else if s == "MemoryUsed"@ {
        Some(MetricType::MemoryUsed)
    } else if s == "MemoryTotal"@ {
        Some(MetricType::MemoryTotal)
    } else if s == "Temperature"@ {
        Some(MetricType::Temperature)
    } else if s == "Power"@ {
        Some(MetricType::Power)
    } else if s == "Frequency"@ {
        Some(MetricType::Frequency)
    } else {
        None
    }
}

/// Parses a metric type from its variant name.
pub fn parse_metric_type(type_str: &str) -> (r: Option<MetricType>)
    ensures
        r == metric_type_named(type_str@),
{
    if str_eq(type_str, "Utilization") {
        Some(MetricType::Utilization)
    } else if str_eq(type_str, "MemoryUsed") {
        Some(MetricType::MemoryUsed)
    } else if str_eq(type_str, "MemoryTotal") {
        Some(MetricType::MemoryTotal)
    } else if str_eq(type_str, "Temperature") {
        Some(MetricType::Temperature)
    } else if str_eq(type_str, "Power") {
        Some(MetricType::Power)
    } else if str_eq(type_str, "Frequency") {
        Some(MetricType::Frequency)
    } else {
        None
    }
}

/// The unit named by a variant name such as `Percent`.
pub open spec fn unit_named(s: Seq<char>) -> Option<Unit> {
    if s == "Percent"@ {
        Some(Unit::Percent)
    } else if s == "Bytes"@ {
        Some(Unit::Bytes)
    } else if s == "Celsius"@ {
        Some(Unit::Celsius)
    } else if s == "Watts"@ {
        Some(Unit::Watts)
    } else if s == "Megahertz"@ {
        Some(Unit::Megahertz)
    } else if s == "Gigahertz"@ {
        Some(Unit::Gigahertz)
    } else if s == "Microseconds"@ {
        Some(Unit::Microseconds)
    } else if s == "Kilobytes"@ {
        Some(Unit::Kilobytes)
    } else if s == "Megabytes"@ {
        Some(Unit::Megabytes)
    } else if s == "Gigabytes"@ {
        Some(Unit::Gigabytes)
    } else {
        None
    }
}

/// Parses a unit from its variant name.
pub fn parse_unit(unit_str: &str) -> (r: Option<Unit>)
    ensures
        r == unit_named(unit_str@),
{
    if str_eq(unit_str, "Percent") {
        Some(Unit::Percent)
    } else if str_eq(unit_str, "Bytes") {
        Some(Unit::Bytes)
    } else if str_eq(unit_str, "Celsius") {
        Some(Unit::Celsius)
    } else if str_eq(unit_str, "Watts") {
        Some(Unit::Watts)
    } else if str_eq(unit_str, "Megahertz") {
        Some(Unit::Megahertz)
    } else if str_eq(unit_str, "Gigahertz") {
        Some(Unit::Gigahertz)
    } else if str_eq(unit_str, "Microseconds") {
        Some(Unit::Microseconds)
    } else if str_eq(unit_str, "Kilobytes") {
        Some(Unit::Kilobytes)
    } else if str_eq(unit_str, "Megabytes") {
        Some(Unit::Megabytes)
    } else if str_eq(unit_str, "Gigabytes") {
        Some(Unit::Gigabytes)
    } else {
        None
    }
}

/// Whether a backend counts as up, and the status message reported for it.
pub open spec fn health_report(h: BackendHealth) -> (bool, Seq<char>) {
    match h {
        BackendHealth::Healthy => (true, "OK"@),
        BackendHealth::Degraded { reason } => (true, "Degraded: "@ + reason@),
        BackendHealth::Unhealthy { reason } => (false, "Unhealthy: "@ + reason@),
    }
}

/// Whether a backend counts as up (a degraded one does), and its status message.
pub fn backend_health_status(health: BackendHealth) -> (r: (bool, String))
    ensures
        r.0 == health_report(health).0,
        r.1@ == health_report(health).1,
{
    match health {
        BackendHealth::Healthy => (true, String::from_str("OK")),
        BackendHealth::Degraded { reason } => (true, crate::text::concat2("Degraded: ", reason)),
        BackendHealth::Unhealthy { reason } => (false, crate::text::concat2("Unhealthy: ", reason)),
    }
}

/// The service is healthy when it has backends and every one of them is fully healthy.
pub open spec fn all_backends_healthy(hs: Seq<BackendHealth>) -> bool {
    hs.len() > 0 && forall|i: int| 0 <= i < hs.len() ==> (#[trigger] hs[i]) is Healthy
}

/// Whether the service is healthy, given the health of each backend.
pub fn overall_health(healths: &Vec<BackendHealth>) -> (r: bool)
    ensures
        r == all_backends_healthy(healths@),
{
    let n = healths.len();
    if n == 0 {
        return false;
    }
    let mut i: usize = 0;
    while i < n
        invariant
            n == healths@.len(),
            i <= n,
            forall|j: int| 0 <= j < i ==> (#[trigger] healths@[j]) is Healthy,
        decreases n - i,
    {
        if !healths[i].is_healthy() {
            return false;
        }
        i = i + 1;
    }
    true
}

/// Query parameters for listing accelerators.
#[derive(Debug, Clone)]
pub struct ListParams {
    /// Filter by backend type
    pub backend: Option<String>,
    /// Filter by accelerator type
    pub accelerator_type: Option<String>,
}

/// An accelerator as the REST API returns it.
#[derive(Debug, Clone)]
pub struct AcceleratorResponse {
    pub id: String,
    pub name: String,
    pub accelerator_type: String,
    pub vendor: String,
    pub model: String,
    pub backend_type: String,
    pub sensors: Vec<SensorResponse>,
    pub pci_bus_id: String,
    pub labels: StringMap,
}

/// A sensor as the REST API returns it.
#[derive(Debug, Clone)]
pub struct SensorResponse {
    pub id: String,
    pub name: String,
    pub metric_type: String,
    pub unit: String,
}

/// Query parameters for metrics.
#[derive(Debug, Clone)]
pub struct MetricsParams {
    /// Sensor filter (comma-separated)
    pub sensors: Option<String>,
}

/// The REST health report.
#[derive(Debug, Clone)]
pub struct HealthResponse {
    pub healthy: bool,
    pub backends: Vec<BackendStatusRest>,
    pub version: String,
}

/// The status of one backend in the REST health report.
#[derive(Debug, Clone)]
pub struct BackendStatusRest {
    pub backend_type: String,
    pub healthy: bool,
    pub version: String,
    pub status_message: String,
    pub accelerator_count: i32,
}

/// The REST version report.
#[derive(Debug, Clone)]
pub struct VersionResponse {
    pub version: String,
    pub name: String,
}

} // verus!
