//! Domain-level errors.
use vstd::prelude::*;

verus! {

/// Domain-level errors.
#[derive(Debug, Clone, PartialEq)]
pub enum DomainError {
    AcceleratorNotFound(String),
    SensorNotFound(String),
    InvalidMetricValue(String),
    BackendError(String),
    CollectionFailed(String),
    ConfigurationError(String),
}

/// The message of a domain error.
pub open spec fn domain_error_text(e: DomainError) -> Seq<char> {
    match e {
        DomainError::AcceleratorNotFound(s) => "Accelerator not found: "@ + s@,
        DomainError::SensorNotFound(s) => "Sensor not found: "@ + s@,
        DomainError::InvalidMetricValue(s) => "Invalid metric value: "@ + s@,
        DomainError::BackendError(s) => "Backend error: "@ + s@,
        DomainError::CollectionFailed(s) => "Collection failed: "@ + s@,
        DomainError::ConfigurationError(s) => "Configuration error: "@ + s@,
    }
}

impl DomainError {
    /// The message of the error: what went wrong, a colon, and the detail.
    pub fn to_string(&self) -> (r: String)
        ensures
            r@ == domain_error_text(*self),
    {
        match self {
            DomainError::AcceleratorNotFound(s) => crate::text::concat2(
                "Accelerator not found: ",
                s.as_str(),
            ),
            DomainError::SensorNotFound(s) => crate::text::concat2("Sensor not found: ", s.as_str()),
            DomainError::InvalidMetricValue(s) => crate::text::concat2(
                "Invalid metric value: ",
                s.as_str(),
            ),
            DomainError::BackendError(s) => crate::text::concat2("Backend error: ", s.as_str()),
            DomainError::CollectionFailed(s) => crate::text::concat2(
                "Collection failed: ",
                s.as_str(),
            ),
            DomainError::ConfigurationError(s) => crate::text::concat2(
                "Configuration error: ",
                s.as_str(),
            ),
        }
    }
}

} // verus!
