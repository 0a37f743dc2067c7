//! Entities: sensors, metrics and eBPF probes.
use vstd::prelude::*;
use crate::ids::{AcceleratorId, MetricId, ProbeId, SensorId, is_uuid_v4};
use crate::value_objects::{
    F64Bits, Frequency, Labels, MemoryStats, MetricType, Power, Temperature, Timestamp, Unit,
    Utilization, same_metric_type,
};

verus! {

/// A data source that produces metrics: a hardware sensor, a kernel probe or a counter.
#[derive(Debug, Clone)]
pub struct Sensor {
    pub id: SensorId,
    pub accelerator_id: AcceleratorId,
    pub name: String,
    pub metric_type: MetricType,
    pub unit: Unit,
    pub labels: Labels,
    pub enabled: bool,
    pub created_at: Timestamp,
}

impl Sensor {
    /// A new enabled sensor with a fresh identifier and no labels.
    pub fn new(accelerator_id: AcceleratorId, name: &str, metric_type: MetricType, unit: Unit) -> (r:
        Self)
        ensures
            is_uuid_v4(r.id.0),
            r.accelerator_id == accelerator_id,
            r.name@ == name@,
            r.metric_type == metric_type,
            r.unit == unit,
            r.labels@ == Map::<Seq<char>, Seq<char>>::empty(),
            r.enabled,
    {
        Sensor {
            id: SensorId::new(),
            accelerator_id,
            name: String::from_str(name),
            metric_type,
            unit,
            labels: Labels::new(),
            enabled: true,
            created_at: Timestamp::now(),
        }
    }

    /// This sensor with its labels replaced.
    pub fn with_labels(self, labels: Labels) -> (r: Self)
        ensures
            r == (Sensor { labels, ..self }),
    {
        Sensor { labels, ..self }
    }

    /// This sensor, disabled.
    pub fn disable(self) -> (r: Self)
        ensures
            r == (Sensor { enabled: false, ..self }),
    {
        Sensor { enabled: false, ..self }
    }
}

/// The value of a metric: scalar or compound.
#[derive(Debug, Clone, PartialEq)]
pub enum MetricValue {
    Scalar(F64Bits),
    Integer(u64),
    Memory(MemoryStats),
    Utilization(Utilization),
    Temperature(Temperature),
    Power(Power),
    Frequency(Frequency),
    /// Raw bytes (for custom/kernel data)
    Raw(Vec<u8>),
}

/// A single data point collected from a sensor.
#[derive(Debug, Clone)]
pub struct Metric {
    pub id: MetricId,
    pub sensor_id: SensorId,
    pub accelerator_id: AcceleratorId,
    pub metric_type: MetricType,
    pub value: MetricValue,
    pub unit: Unit,
    pub timestamp: Timestamp,
    pub labels: Labels,
}

impl Metric {
    /// A new metric with a fresh identifier, stamped now, with no labels.
    pub fn new(
        sensor_id: SensorId,
        accelerator_id: AcceleratorId,
        metric_type: MetricType,
        value: MetricValue,
        unit: Unit,
    ) -> (r: Self)
        ensures
            is_uuid_v4(r.id.0),
            r.sensor_id == sensor_id,
            r.accelerator_id == accelerator_id,
            r.metric_type == metric_type,
            r.value == value,
            r.unit == unit,
            r.labels@ == Map::<Seq<char>, Seq<char>>::empty(),
    {
        Metric {
            id: MetricId::new(),
            sensor_id,
            accelerator_id,
            metric_type,
            value,
            unit,
            timestamp: Timestamp::now(),
            labels: Labels::new(),
        }
    }

    /// This metric with its labels replaced.
    pub fn with_labels(self, labels: Labels) -> (r: Self)
        ensures
            r == (Metric { labels, ..self }),
    {
        Metric { labels, ..self }
    }

    /// This metric with its timestamp replaced.
    pub fn with_timestamp(self, timestamp: Timestamp) -> (r: Self)
        ensures
            r == (Metric { timestamp, ..self }),
    {
        Metric { timestamp, ..self }
    }
}

/// An eBPF instrumentation point in the kernel.
#[derive(Debug, Clone)]
pub struct Probe {
    pub id: ProbeId,
    pub name: String,
    pub probe_type: ProbeType,
    /// Kernel function or tracepoint
    pub target: String,
    pub program_type: ProbeProgramType,
    pub enabled: bool,
    pub labels: Labels,
    pub attached_at: Option<Timestamp>,
}

/// Types of eBPF probes.
#[derive(Debug, Clone, Copy, PartialEq, Eq, Hash, Structural)]
pub enum ProbeType {
    /// kprobe - function entry
    Kprobe,
    /// kretprobe - function return
    Kretprobe,
    /// tracepoint - kernel tracepoint
    Tracepoint,
    /// uprobe - userspace function entry
    Uprobe,
    /// uretprobe - userspace function return
    Uretprobe,
    /// fentry - BPF trampolines (fentry/fexit)
    Fentry,
    /// fexit - BPF trampolines (fentry/fexit)
    Fexit,
    /// tp_btf - BTF-enabled tracepoint
    TpBtf,
    /// raw_tp - raw tracepoint
    RawTracepoint,
}

/// What a probe program produces.
#[derive(Debug, Clone, PartialEq, Eq)]
pub enum ProbeProgramType {
    /// GPU memory allocation events
    GpuMemory,
    /// GPU compute launch events
    GpuCompute,
    /// Memory pressure events
    MemoryPressure,
    /// I/O events (DMA, PCIe)
    IoTrace,
    /// Scheduler events
    Scheduler,
    /// Custom probe type
    Custom { category: String },
}

impl Probe {
    /// A new, not yet attached probe with a fresh identifier and no labels.
    pub fn new(name: &str, probe_type: ProbeType, target: &str, program_type: ProbeProgramType) -> (r:
        Self)
        ensures
            is_uuid_v4(r.id.0),
            r.name@ == name@,
            r.probe_type == probe_type,
            r.target@ == target@,
            r.program_type == program_type,
            !r.enabled,
            r.labels@ == Map::<Seq<char>, Seq<char>>::empty(),
            r.attached_at is None,
    {
        Probe {
            id: ProbeId::new(),
            name: String::from_str(name),
            probe_type,
            target: String::from_str(target),
            program_type,
            enabled: false,
            labels: Labels::new(),
            attached_at: None,
        }
    }

    /// Marks the probe attached now.
    pub fn mark_attached(&mut self)
        ensures
            *final(self) == (Probe { enabled: true, attached_at: final(self).attached_at, ..*old(self) }),
            final(self).attached_at is Some,
    {
        self.mark_attached_at(Timestamp::now());
    }

    /// Marks the probe attached at time `now`.
    pub fn mark_attached_at(&mut self, now: Timestamp)
        ensures
            *final(self) == (Probe { enabled: true, attached_at: Some(now), ..*old(self) }),
    {
        self.enabled = true;
        self.attached_at = Some(now);
    }

    /// Marks the probe detached.
    pub fn mark_detached(&mut self)
        ensures
            *final(self) == (Probe { enabled: false, attached_at: None, ..*old(self) }),
    {
        self.enabled = false;
        self.attached_at = None;
    }
}

} // verus!
