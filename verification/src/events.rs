//! Domain events: significant occurrences in the domain.
use vstd::prelude::*;
use crate::ids::{AcceleratorId, MetricId, ProbeId, SensorId};
use crate::value_objects::{AcceleratorType, MetricType, Timestamp};

verus! {

/// A domain event.
#[derive(Debug, Clone)]
pub enum DomainEvent {
    /// An accelerator was discovered
    AcceleratorDiscovered(AcceleratorDiscovered),
    /// A metric was collected
    MetricCollected(MetricCollected),
    /// A probe was attached
    ProbeAttached(ProbeAttached),
    /// A probe was detached
    ProbeDetached(ProbeDetached),
    /// A sensor was enabled
    SensorEnabled(SensorEnabled),
    /// A sensor was disabled
    SensorDisabled(SensorDisabled),
    /// An error occurred
    ErrorOccurred(ErrorOccurred),
}

/// When an event happened.
pub open spec fn event_timestamp(e: DomainEvent) -> Timestamp {
    match e {
        DomainEvent::AcceleratorDiscovered(x) => x.timestamp,
        DomainEvent::MetricCollected(x) => x.timestamp,
        DomainEvent::ProbeAttached(x) => x.timestamp,
        DomainEvent::ProbeDetached(x) => x.timestamp,
        DomainEvent::SensorEnabled(x) => x.timestamp,
        DomainEvent::SensorDisabled(x) => x.timestamp,
        DomainEvent::ErrorOccurred(x) => x.timestamp,
    }
}

/// The name of an event's kind.
pub open spec fn event_type_name(e: DomainEvent) -> Seq<char> {
    match e {
        DomainEvent::AcceleratorDiscovered(_) => "accelerator_discovered"@,
        DomainEvent::MetricCollected(_) => "metric_collected"@,
        DomainEvent::ProbeAttached(_) => "probe_attached"@,
        DomainEvent::ProbeDetached(_) => "probe_detached"@,
        DomainEvent::SensorEnabled(_) => "sensor_enabled"@,
        DomainEvent::SensorDisabled(_) => "sensor_disabled"@,
        DomainEvent::ErrorOccurred(_) => "error_occurred"@,
    }
}

impl DomainEvent {
    /// When the event happened.
    pub fn timestamp(&self) -> (r: Timestamp)
        ensures
            r == event_timestamp(*self),
    {
        match self {
            DomainEvent::AcceleratorDiscovered(e) => e.timestamp,
            DomainEvent::MetricCollected(e) => e.timestamp,
            DomainEvent::ProbeAttached(e) => e.timestamp,
            DomainEvent::ProbeDetached(e) => e.timestamp,
            DomainEvent::SensorEnabled(e) => e.timestamp,
            DomainEvent::SensorDisabled(e) => e.timestamp,
            DomainEvent::ErrorOccurred(e) => e.timestamp,
        }
    }

    /// The name of the event's kind, in snake case.
    pub fn event_type(&self) -> (r: &'static str)
        ensures
            r@ == event_type_name(*self),
    {
        match self {
            DomainEvent::AcceleratorDiscovered(_) => "accelerator_discovered",
            DomainEvent::MetricCollected(_) => "metric_collected",
            DomainEvent::ProbeAttached(_) => "probe_attached",
            DomainEvent::ProbeDetached(_) => "probe_detached",
            DomainEvent::SensorEnabled(_) => "sensor_enabled",
            DomainEvent::SensorDisabled(_) => "sensor_disabled",
            DomainEvent::ErrorOccurred(_) => "error_occurred",
        }
    }
}

#[derive(Debug, Clone)]
pub struct AcceleratorDiscovered {
    pub accelerator_id: AcceleratorId,
    pub accelerator_type: AcceleratorType,
    pub name: String,
    pub vendor: String,
    pub model: String,
    pub timestamp: Timestamp,
}

#[derive(Debug, Clone)]
pub struct MetricCollected {
    pub metric_id: MetricId,
    pub sensor_id: SensorId,
    pub accelerator_id: AcceleratorId,
    pub metric_type: MetricType,
    pub timestamp: Timestamp,
}

#[derive(Debug, Clone)]
pub struct ProbeAttached {
    pub probe_id: ProbeId,
    pub target: String,
    pub timestamp: Timestamp,
}

#[derive(Debug, Clone, Copy)]
pub struct ProbeDetached {
    pub probe_id: ProbeId,
    pub timestamp: Timestamp,
}

#[derive(Debug, Clone, Copy)]
pub struct SensorEnabled {
    pub sensor_id: SensorId,
    pub accelerator_id: AcceleratorId,
    pub timestamp: Timestamp,
}

#[derive(Debug, Clone, Copy)]
pub struct SensorDisabled {
    pub sensor_id: SensorId,
    pub accelerator_id: AcceleratorId,
    pub timestamp: Timestamp,
}

#[derive(Debug, Clone)]
pub struct ErrorOccurred {
    pub source: String,
    pub error_type: ErrorType,
    pub message: String,
    pub timestamp: Timestamp,
}

#[derive(Debug, Clone, Copy, PartialEq, Eq, Structural)]
pub enum ErrorType {
    BackendFailure,
    CollectionFailure,
    ProbeAttachFailure,
    CommunicationFailure,
    ConfigurationError,
}

} // verus!
