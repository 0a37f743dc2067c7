//! Aggregates: the accelerator, samples of its metrics, and metric streams.
use vstd::prelude::*;
use std::collections::HashMap;
use vstd::std_specs::iter::IteratorSpec;
use crate::entities::{Metric, MetricValue, Probe, Sensor};
use crate::errors::DomainError;
use crate::events::{AcceleratorDiscovered, DomainEvent, MetricCollected};
use crate::ids::{AcceleratorId, ProbeId, SampleId, SensorId, is_uuid_v4, uuid_text};
use crate::value_objects::{
    AcceleratorType, Labels, MemoryStats, MetricType, Timestamp, same_metric_type,
};

verus! {

broadcast use vstd::std_specs::hash::group_hash_axioms;

/// PCI device information.
#[derive(Debug, Clone)]
pub struct PciInfo {
    pub bus_id: String,
    pub domain: u32,
    pub bus: u32,
    pub device: u32,
    pub function: u32,
}

/// The main aggregate root: an AI compute device with its sensors, probes and state.
///
/// Sensors and probes are kept under the values of their identifiers.
#[derive(Debug)]
pub struct Accelerator {
    pub id: AcceleratorId,
    pub name: String,
    pub accelerator_type: AcceleratorType,
    /// e.g. "nvml", "metal", "tpu"
    pub backend_type: String,
    pub vendor: String,
    pub model: String,
    pub driver_version: Option<String>,
    pub firmware_version: Option<String>,
    pub serial_number: Option<String>,
    pub pci_info: Option<PciInfo>,
    pub sensors: HashMap<u128, Sensor>,
    pub probes: HashMap<u128, Probe>,
    pub discovered_at: Timestamp,
    pub last_seen: Timestamp,
    pub enabled: bool,
    pub labels: Labels,
    /// Uncommitted domain events
    pub events: Vec<DomainEvent>,
}

/// The event an accelerator emits when it is discovered.
pub open spec fn discovery_event(a: Accelerator) -> DomainEvent {
    DomainEvent::AcceleratorDiscovered(
        AcceleratorDiscovered {
            accelerator_id: a.id,
            accelerator_type: a.accelerator_type,
            name: a.name,
            vendor: a.vendor,
            model: a.model,
            timestamp: a.discovered_at,
        },
    )
}

/// The event an accelerator emits when `m` is recorded.
pub open spec fn collection_event(a: AcceleratorId, m: Metric) -> DomainEvent {
    DomainEvent::MetricCollected(
        MetricCollected {
            metric_id: m.id,
            sensor_id: m.sensor_id,
            accelerator_id: a,
            metric_type: m.metric_type,
            timestamp: m.timestamp,
        },
    )
}

/// A freshly discovered accelerator has no probes and no labels, and was last seen when it
/// was discovered.
pub open spec fn freshly_discovered(a: Accelerator) -> bool {
    &&& a.probes@ == Map::<u128, Probe>::empty()
    &&& a.labels@ == Map::<Seq<char>, Seq<char>>::empty()
    &&& a.discovered_at == a.last_seen
}

/// Neither a driver version, nor a firmware version, nor a serial number is known.
pub open spec fn no_versions_or_serial(a: Accelerator) -> bool {
    &&& a.driver_version is None
    &&& a.firmware_version is None
    &&& a.serial_number is None
}

/// Everything of an accelerator but its sensors.
pub open spec fn same_but_sensors(a: Accelerator, b: Accelerator) -> bool {
    &&& a.id == b.id
    &&& a.name == b.name
    &&& a.accelerator_type == b.accelerator_type
    &&& a.backend_type == b.backend_type
    &&& a.vendor == b.vendor
    &&& a.model == b.model
    &&& a.driver_version == b.driver_version
    &&& a.firmware_version == b.firmware_version
    &&& a.serial_number == b.serial_number
    &&& a.pci_info == b.pci_info
    &&& a.probes@ == b.probes@
    &&& a.discovered_at == b.discovered_at
    &&& a.last_seen == b.last_seen
    &&& a.enabled == b.enabled
    &&& a.labels == b.labels
    &&& a.events@ == b.events@
}

impl Accelerator {
    /// A newly discovered, enabled accelerator with no sensors or probes. It holds one
    /// pending event, its discovery.
    pub fn new(
        name: &str,
        accelerator_type: AcceleratorType,
        backend_type: &str,
        vendor: &str,
        model: &str,
    ) -> (r: Self)
        ensures
            is_uuid_v4(r.id.0),
            r.name@ == name@,
            r.accelerator_type == accelerator_type,
            r.backend_type@ == backend_type@,
            r.vendor@ == vendor@,
            r.model@ == model@,
            r.driver_version is None,
            r.firmware_version is None,
            r.serial_number is None,
            r.pci_info is None,
            r.sensors@ == Map::<u128, Sensor>::empty(),
            r.probes@ == Map::<u128, Probe>::empty(),
            r.discovered_at == r.last_seen,
            r.enabled,
            r.labels@ == Map::<Seq<char>, Seq<char>>::empty(),
            r.events@ == seq![discovery_event(r)],
    {
        let id = AcceleratorId::new();
        let now = Timestamp::now();
        let accel_type_for_event = accelerator_type.clone();
        let mut accelerator = Accelerator {
            id,
            name: String::from_str(name),
            accelerator_type,
            backend_type: String::from_str(backend_type),
            vendor: String::from_str(vendor),
            model: String::from_str(model),
            driver_version: None,
            firmware_version: None,
            serial_number: None,
            pci_info: None,
            sensors: HashMap::new(),
            probes: HashMap::new(),
            discovered_at: now,
            last_seen: now,
            enabled: true,
            labels: Labels::new(),
            events: Vec::new(),
        };
        let event = DomainEvent::AcceleratorDiscovered(
            AcceleratorDiscovered {
                accelerator_id: id,
                accelerator_type: accel_type_for_event,
                name: accelerator.name.clone(),
                vendor: accelerator.vendor.clone(),
                model: accelerator.model.clone(),
                timestamp: now,
            },
        );
        accelerator.events.push(event);
        assert(accelerator.events@ =~= seq![discovery_event(accelerator)]);
        accelerator
    }

    /// This accelerator with its PCI information set.
    pub fn with_pci_info(self, pci_info: PciInfo) -> (r: Self)
        ensures
            r == (Accelerator { pci_info: Some(pci_info), ..self }),
    {
        Accelerator { pci_info: Some(pci_info), ..self }
    }

    /// This accelerator with its driver version set.
    pub fn with_driver_version(self, version: &str) -> (r: Self)
        ensures
            r.driver_version matches Some(v) && v@ == version@,
            r == (Accelerator { driver_version: r.driver_version, ..self }),
    {
        Accelerator { driver_version: Some(String::from_str(version)), ..self }
    }

    /// This accelerator with its firmware version set.
    pub fn with_firmware_version(self, version: &str) -> (r: Self)
        ensures
            r.firmware_version matches Some(v) && v@ == version@,
            r == (Accelerator { firmware_version: r.firmware_version, ..self }),
    {
        Accelerator { firmware_version: Some(String::from_str(version)), ..self }
    }

    /// This accelerator with its serial number set.
    pub fn with_serial_number(self, serial: &str) -> (r: Self)
        ensures
            r.serial_number matches Some(v) && v@ == serial@,
            r == (Accelerator { serial_number: r.serial_number, ..self }),
    {
        Accelerator { serial_number: Some(String::from_str(serial)), ..self }
    }

    /// This accelerator with its labels replaced.
    pub fn with_labels(self, labels: Labels) -> (r: Self)
        ensures
            r == (Accelerator { labels, ..self }),
    {
        Accelerator { labels, ..self }
    }

    /// Adds a sensor under its identifier, replacing a sensor with the same identifier.
    /// A disabled accelerator takes no sensors.
    pub fn add_sensor(&mut self, sensor: Sensor) -> (r: Result<SensorId, DomainError>)
        ensures
            old(self).enabled ==> r == Ok::<SensorId, DomainError>(sensor.id) && final(self).sensors@
                == old(self).sensors@.insert(sensor.id.0, sensor),
            !old(self).enabled ==> (r matches Err(DomainError::BackendError(m)) && m@
                == "Cannot add sensor to disabled accelerator"@),
            !old(self).enabled ==> final(self).sensors@ == old(self).sensors@,
            same_but_sensors(*final(self), *old(self)),
    {
        if !self.enabled {
            return Err(DomainError::BackendError(String::from_str("Cannot add sensor to disabled accelerator")));
        }
        let id = sensor.id;
        self.sensors.insert(id.0, sensor);
        Ok(id)
    }

    /// Removes the sensor with the given identifier; fails when there is none.
    pub fn remove_sensor(&mut self, sensor_id: SensorId) -> (r: Result<(), DomainError>)
        ensures
            old(self).sensors@.contains_key(sensor_id.0) ==> r is Ok,
            !old(self).sensors@.contains_key(sensor_id.0) ==> (r matches Err(
                DomainError::SensorNotFound(m),
            ) && m@ == uuid_text(sensor_id.0)),
            final(self).sensors@ == old(self).sensors@.remove(sensor_id.0),
            same_but_sensors(*final(self), *old(self)),
    {
        match self.sensors.remove(&sensor_id.0) {
            Some(_) => Ok(()),
            None => Err(DomainError::SensorNotFound(sensor_id.to_string())),
        }
    }

    /// Adds a probe under its identifier, replacing a probe with the same identifier.
    pub fn add_probe(&mut self, probe: Probe) -> (r: Result<ProbeId, DomainError>)
        ensures
            r == Ok::<ProbeId, DomainError>(probe.id),
            final(self).probes@ == old(self).probes@.insert(probe.id.0, probe),
            *final(self) == (Accelerator { probes: final(self).probes, ..*old(self) }),
    {
        let id = probe.id;
        self.probes.insert(id.0, probe);
        Ok(id)
    }

    /// The sensor with the given identifier.
    pub fn get_sensor(&self, sensor_id: SensorId) -> (r: Option<&Sensor>)
        ensures
            match r {
                Some(s) => self.sensors@.contains_key(sensor_id.0) && *s == self.sensors@[sensor_id.0],
                None => !self.sensors@.contains_key(sensor_id.0),
            },
    {
        self.sensors.get(&sensor_id.0)
    }

    /// The enabled sensors, each once, in the map's order.
    pub fn get_enabled_sensors(&self) -> (r: Vec<&Sensor>)
        ensures
            forall|i: int| 0 <= i < r@.len() ==> (#[trigger] r@[i]).enabled && self.sensors@.values().contains(
                *r@[i],
            ),
            forall|s: Sensor| #[trigger] self.sensors@.values().contains(s) && s.enabled ==> exists|i: int|
                0 <= i < r@.len() && *r@[i] == s,
    {
        let mut out: Vec<&Sensor> = Vec::new();
        let values = self.sensors.values();
        proof {
            vstd::std_specs::hash::axiom_spec_values_iter(&self.sensors);
        }
        let ghost all = values.remaining().unref();
        for s in it: values
            invariant
                all == it.seq().map_values(|p: &Sensor| *p),
                all.to_set() == self.sensors@.values(),
                forall|i: int| 0 <= i < out@.len() ==> (#[trigger] out@[i]).enabled && all.contains(*out@[i]),
                forall|j: int| 0 <= j < it.index() && (#[trigger] all[j]).enabled ==> exists|i: int|
                    0 <= i < out@.len() && *out@[i] == all[j],
        {
            let ghost j = it.index();
            assert(all[j] == *s);
            let ghost before = out@;
            if s.enabled {
                out.push(s);
                assert(out@[before.len() as int] == s);
            }
            assert(forall|i: int| 0 <= i < before.len() ==> out@[i] == before[i]);
        }
        proof {
            assert forall|s: Sensor| #[trigger] self.sensors@.values().contains(s) && s.enabled implies exists|i: int|
                0 <= i < out@.len() && *out@[i] == s by {
                assert(all.to_set().contains(s));
                let j = choose|j: int| 0 <= j < all.len() && all[j] == s;
            }
        }
        out
    }

    /// Some sensor with the given name, if there is one.
    pub fn sensor_named(&self, name: &str) -> (r: Option<&Sensor>)
        ensures
            match r {
                Some(s) => self.sensors@.values().contains(*s) && s.name@ == name@,
                None => forall|s: Sensor| #[trigger] self.sensors@.values().contains(s) ==> s.name@ != name@,
            },
    {
        let values = self.sensors.values();
        proof {
            vstd::std_specs::hash::axiom_spec_values_iter(&self.sensors);
        }
        let ghost all = values.remaining().unref();
        for s in it: values
            invariant
                all == it.seq().map_values(|p: &Sensor| *p),
                all.to_set() == self.sensors@.values(),
                forall|j: int| 0 <= j < it.index() ==> (#[trigger] all[j]).name@ != name@,
        {
            let ghost j = it.index();
            assert(all[j] == *s);
            if crate::text::str_eq(s.name.as_str(), name) {
                assert(all.contains(*s));
                return Some(s);
            }
        }
        proof {
            assert forall|s: Sensor| #[trigger] self.sensors@.values().contains(s) implies s.name@ != name@ by {
                assert(all.to_set().contains(s));
                let j = choose|j: int| 0 <= j < all.len() && all[j] == s;
            }
        }
        None
    }

    /// Some sensor of the given metric type, if there is one.
    pub fn sensor_of_type(&self, metric_type: &MetricType) -> (r: Option<&Sensor>)
        ensures
            match r {
                Some(s) => self.sensors@.values().contains(*s) && same_metric_type(s.metric_type, *metric_type),
                None => forall|s: Sensor| #[trigger] self.sensors@.values().contains(s) ==> !same_metric_type(s.metric_type, *metric_type),
            },
    {
        let values = self.sensors.values();
        proof {
            vstd::std_specs::hash::axiom_spec_values_iter(&self.sensors);
        }
        let ghost all = values.remaining().unref();
        for s in it: values
            invariant
                all == it.seq().map_values(|p: &Sensor| *p),
                all.to_set() == self.sensors@.values(),
                forall|j: int| 0 <= j < it.index() ==> !same_metric_type((#[trigger] all[j]).metric_type, *metric_type),
        {
            let ghost j = it.index();
            assert(all[j] == *s);
            if s.metric_type == *metric_type {
                assert(all.contains(*s));
                return Some(s);
            }
        }
        proof {
            assert forall|s: Sensor| #[trigger] self.sensors@.values().contains(s) implies !same_metric_type(s.metric_type, *metric_type) by {
                assert(all.to_set().contains(s));
                let j = choose|j: int| 0 <= j < all.len() && all[j] == s;
            }
        }
        None
    }

    /// The identifier of some sensor with the given name, or a fresh identifier when there
    /// is none.
    pub fn sensor_id_for(&self, name: &str) -> (r: SensorId)
        ensures
            (exists|s: Sensor| #[trigger] self.sensors@.values().contains(s) && s.name@ == name@) ==> exists|s: Sensor|
                #[trigger] self.sensors@.values().contains(s) && s.name@ == name@ && s.id == r,
            !(exists|s: Sensor| #[trigger] self.sensors@.values().contains(s) && s.name@ == name@) ==> is_uuid_v4(r.0),
    {
        match self.sensor_named(name) {
            Some(s) => s.id,
            None => SensorId::new(),
        }
    }

    /// Records a collected metric: the accelerator was seen now, and a collection event
    /// is queued.
    pub fn record_metric(&mut self, metric: Metric)
        ensures
            final(self).events@ == old(self).events@.push(collection_event(old(self).id, metric)),
            *final(self) == (Accelerator {
                events: final(self).events,
                last_seen: final(self).last_seen,
                ..*old(self)
            }),
    {
        self.record_metric_at(metric, Timestamp::now());
    }

    /// Records a metric collected at time `now`: the accelerator was last seen then, and a
    /// collection event is queued.
    pub fn record_metric_at(&mut self, metric: Metric, now: Timestamp)
        ensures
            final(self).events@ == old(self).events@.push(collection_event(old(self).id, metric)),
            *final(self) == (Accelerator { events: final(self).events, last_seen: now, ..*old(self) }),
    {
        self.last_seen = now;
        let event = DomainEvent::MetricCollected(
            MetricCollected {
                metric_id: metric.id,
                sensor_id: metric.sensor_id,
                accelerator_id: self.id,
                metric_type: metric.metric_type,
                timestamp: metric.timestamp,
            },
        );
        self.events.push(event);
    }

    /// Notes that the accelerator was seen now.
    pub fn update_last_seen(&mut self)
        ensures
            *final(self) == (Accelerator { last_seen: final(self).last_seen, ..*old(self) }),
    {
        self.set_last_seen(Timestamp::now());
    }

    /// Notes that the accelerator was last seen at time `now`.
    pub fn set_last_seen(&mut self, now: Timestamp)
        ensures
            *final(self) == (Accelerator { last_seen: now, ..*old(self) }),
    {
        self.last_seen = now;
    }

    /// Disables the accelerator.
    pub fn mark_unhealthy(&mut self)
        ensures
            *final(self) == (Accelerator { enabled: false, ..*old(self) }),
    {
        self.enabled = false;
    }

    /// Enables the accelerator and notes that it was seen now.
    pub fn mark_healthy(&mut self)
        ensures
            *final(self) == (Accelerator { enabled: true, last_seen: final(self).last_seen, ..*old(self) }),
    {
        self.mark_healthy_at(Timestamp::now());
    }

    /// Enables the accelerator and notes that it was last seen at time `now`.
    pub fn mark_healthy_at(&mut self, now: Timestamp)
        ensures
            *final(self) == (Accelerator { enabled: true, last_seen: now, ..*old(self) }),
    {
        self.enabled = true;
        self.set_last_seen(now);
    }

    /// Hands out the pending events and leaves none pending.
    pub fn take_events(&mut self) -> (r: Vec<DomainEvent>)
        ensures
            r@ == old(self).events@,
            final(self).events@ == Seq::<DomainEvent>::empty(),
            *final(self) == (Accelerator { events: final(self).events, ..*old(self) }),
    {
        let mut events: Vec<DomainEvent> = Vec::new();
        std::mem::swap(&mut events, &mut self.events);
        events
    }
}

/// A point-in-time snapshot of the metrics of an accelerator.
#[derive(Debug, Clone)]
pub struct Sample {
    pub id: SampleId,
    pub accelerator_id: AcceleratorId,
    pub timestamp: Timestamp,
    pub metrics: Vec<Metric>,
    /// Time taken to collect
    pub duration_nanos: u64,
    pub labels: Labels,
}

/// `i` is the position of the first metric of type `t` in `ms`.
pub open spec fn is_first_of_type(ms: Seq<Metric>, t: MetricType, i: int) -> bool {
    &&& 0 <= i < ms.len()
    &&& same_metric_type(ms[i].metric_type, t)
    &&& forall|j: int| 0 <= j < i ==> !same_metric_type((#[trigger] ms[j]).metric_type, t)
}

/// No metric in `ms` has type `t`.
pub open spec fn none_of_type(ms: Seq<Metric>, t: MetricType) -> bool {
    forall|j: int| 0 <= j < ms.len() ==> !same_metric_type((#[trigger] ms[j]).metric_type, t)
}

/// The memory statistics a sample reports: those of its first memory-used metric, when
/// that metric holds memory statistics.
pub open spec fn sample_memory_stats(ms: Seq<Metric>) -> Option<MemoryStats> {
    if exists|i: int| is_first_of_type(ms, MetricType::MemoryUsed, i) {
        let i = choose|i: int| is_first_of_type(ms, MetricType::MemoryUsed, i);
        match ms[i].value {
            MetricValue::Memory(stats) => Some(stats),
            _ => None,
        }
    } else {
        None
    }
}

proof fn lemma_first_of_type_unique(ms: Seq<Metric>, t: MetricType, i: int, k: int)
    requires
        is_first_of_type(ms, t, i),
        is_first_of_type(ms, t, k),
    ensures
        i == k,
{
    if i < k {
        assert(!same_metric_type(ms[i].metric_type, t));
    } else if k < i {
        assert(!same_metric_type(ms[k].metric_type, t));
    }
}

impl Sample {
    /// A sample of `metrics` taken now, with a fresh identifier, no duration and no labels.
    pub fn new(accelerator_id: AcceleratorId, metrics: Vec<Metric>) -> (r: Self)
        ensures
            is_uuid_v4(r.id.0),
            r.accelerator_id == accelerator_id,
            r.metrics@ == metrics@,
            r.duration_nanos == 0,
            r.labels@ == Map::<Seq<char>, Seq<char>>::empty(),
    {
        Sample {
            id: SampleId::new(),
            accelerator_id,
            timestamp: Timestamp::now(),
            metrics,
            duration_nanos: 0,
            labels: Labels::new(),
        }
    }

    /// This sample with its collection time set.
    pub fn with_duration(self, nanos: u64) -> (r: Self)
        ensures
            r == (Sample { duration_nanos: nanos, ..self }),
    {
        Sample { duration_nanos: nanos, ..self }
    }

    /// The first metric of the given type.
    pub fn get_metric(&self, metric_type: MetricType) -> (r: Option<&Metric>)
        ensures
            match r {
                Some(m) => exists|i: int|
                    is_first_of_type(self.metrics@, metric_type, i) && *m == self.metrics@[i],
                None => none_of_type(self.metrics@, metric_type),
            },
    {
        let n = self.metrics.len();
        let mut i: usize = 0;
        while i < n
            invariant
                n == self.metrics@.len(),
                i <= n,
                forall|j: int| 0 <= j < i ==> !same_metric_type((#[trigger] self.metrics@[j]).metric_type, metric_type),
            decreases n - i,
        {
            if self.metrics[i].metric_type == metric_type {
                assert(is_first_of_type(self.metrics@, metric_type, i as int));
                return Some(&self.metrics[i]);
            }
            i = i + 1;
        }
        None
    }

    /// The memory statistics of the first memory-used metric, if it holds them.
    pub fn memory_stats(&self) -> (r: Option<MemoryStats>)
        ensures
            r == sample_memory_stats(self.metrics@),
    {
        match self.get_metric(MetricType::MemoryUsed) {
            Some(m) => {
                proof {
                    let i = choose|i: int| is_first_of_type(self.metrics@, MetricType::MemoryUsed, i) && *m == self.metrics@[i];
                    let k = choose|k: int| is_first_of_type(self.metrics@, MetricType::MemoryUsed, k);
                    lemma_first_of_type_unique(self.metrics@, MetricType::MemoryUsed, i, k);
                }
                match &m.value {
                    MetricValue::Memory(stats) => Some(*stats),
                    _ => None,
                }
            },
            None => None,
        }
    }
}

/// A continuous collection of metrics from one sensor, holding at most `capacity` of the
/// latest.
#[derive(Debug, Clone)]
pub struct MetricStream {
    pub accelerator_id: AcceleratorId,
    pub sensor_id: SensorId,
    pub buffer: Vec<Metric>,
    pub capacity: usize,
    pub sampling_interval_ms: u64,
}

/// The buffer after pushing `m`: the oldest metric leaves when the buffer is full.
pub open spec fn pushed(buffer: Seq<Metric>, capacity: usize, m: Metric) -> Seq<Metric> {
    if buffer.len() >= capacity {
        buffer.drop_first().push(m)
    } else {
        buffer.push(m)
    }
}

/// The last `count` metrics of `buffer`, or all of them when there are fewer.
pub open spec fn last_n(buffer: Seq<Metric>, count: nat) -> Seq<Metric> {
    if count >= buffer.len() {
        buffer
    } else {
        buffer.subrange(buffer.len() - count, buffer.len() as int)
    }
}

impl MetricStream {
    /// An empty stream holding at most `capacity` metrics, sampled every second.
    pub fn new(accelerator_id: AcceleratorId, sensor_id: SensorId, capacity: usize) -> (r: Self)
        ensures
            r.accelerator_id == accelerator_id,
            r.sensor_id == sensor_id,
            r.buffer@ == Seq::<Metric>::empty(),
            r.capacity == capacity,
            r.sampling_interval_ms == 1000,
    {
        MetricStream {
            accelerator_id,
            sensor_id,
            buffer: Vec::with_capacity(capacity),
            capacity,
            sampling_interval_ms: 1000,
        }
    }

    /// Appends a metric, first dropping the oldest one when the buffer is full.
    ///
    /// A full buffer must hold something to drop: a stream of capacity zero takes no pushes.
    pub fn push(&mut self, metric: Metric)
        requires
            old(self).buffer@.len() < old(self).capacity || old(self).buffer@.len() > 0,
        ensures
            final(self).buffer@ == pushed(old(self).buffer@, old(self).capacity, metric),
            final(self).capacity == old(self).capacity,
            final(self).accelerator_id == old(self).accelerator_id,
            final(self).sensor_id == old(self).sensor_id,
            final(self).sampling_interval_ms == old(self).sampling_interval_ms,
    {
        if self.buffer.len() >= self.capacity {
            self.buffer.remove(0);
            assert(self.buffer@ =~= old(self).buffer@.drop_first());
        }
        self.buffer.push(metric);
    }

    /// The most recent metric.
    pub fn latest(&self) -> (r: Option<&Metric>)
        ensures
            match r {
                Some(m) => self.buffer@.len() > 0 && *m == self.buffer@.last(),
                None => self.buffer@.len() == 0,
            },
    {
        if self.buffer.len() == 0 {
            None
        } else {
            Some(&self.buffer[self.buffer.len() - 1])
        }
    }

    /// The latest `count` metrics, oldest first (all of them when there are fewer).
    pub fn window(&self, count: usize) -> (r: &[Metric])
        ensures
            r@ == last_n(self.buffer@, count as nat),
    {
        let start = self.buffer.len().saturating_sub(count);
        let r = vstd::slice::slice_subrange(self.buffer.as_slice(), start, self.buffer.len());
        assert(r@ =~= last_n(self.buffer@, count as nat));
        r
    }
}

impl Default for MetricStream {
    /// An empty stream of capacity zero with fresh identifiers and no sampling interval.
    fn default() -> (r: Self)
        ensures
            r.buffer@ == Seq::<Metric>::empty(),
            r.capacity == 0,
            r.sampling_interval_ms == 0,
    {
        MetricStream {
            accelerator_id: AcceleratorId::new(),
            sensor_id: SensorId::new(),
            buffer: Vec::new(),
            capacity: 0,
            sampling_interval_ms: 0,
        }
    }
}

/// A sensor added to an enabled accelerator is found again under its identifier.
pub proof fn law_added_sensor_is_found(sensors: Map<u128, Sensor>, sensor: Sensor)
    ensures
        sensors.insert(sensor.id.0, sensor).contains_key(sensor.id.0),
        sensors.insert(sensor.id.0, sensor)[sensor.id.0] == sensor,
{
}

/// Removing a sensor that was just added under a new identifier gives back the sensors
/// there were before.
pub proof fn law_remove_undoes_add(sensors: Map<u128, Sensor>, sensor: Sensor)
    requires
        !sensors.contains_key(sensor.id.0),
    ensures
        sensors.insert(sensor.id.0, sensor).remove(sensor.id.0) == sensors,
{
    assert(sensors.insert(sensor.id.0, sensor).remove(sensor.id.0) =~= sensors);
}

/// A stream that holds no more than its capacity still does after a push.
pub proof fn law_stream_within_capacity(buffer: Seq<Metric>, capacity: usize, m: Metric)
    requires
        buffer.len() <= capacity,
        buffer.len() < capacity || buffer.len() > 0,
    ensures
        pushed(buffer, capacity, m).len() <= capacity,
        pushed(buffer, capacity, m).len() == if buffer.len() < capacity { (buffer.len() + 1) as int } else { capacity as int },
{
}

/// After a push the pushed metric is the latest, and the metrics that stay keep their order
/// after all older ones that left.
pub proof fn law_stream_push_keeps_order(buffer: Seq<Metric>, capacity: usize, m: Metric)
    requires
        buffer.len() < capacity || buffer.len() > 0,
    ensures
        pushed(buffer, capacity, m).last() == m,
        pushed(buffer, capacity, m).drop_last() == if buffer.len() >= capacity {
            buffer.drop_first()
        } else {
            buffer
        },
{
    let p = pushed(buffer, capacity, m);
    if buffer.len() >= capacity {
        assert(p.drop_last() =~= buffer.drop_first());
    } else {
        assert(p.drop_last() =~= buffer);
    }
}

/// A window of at least one metric ends with the latest metric, and no window is longer
/// than asked for or than the stream.
pub proof fn law_window_ends_with_latest(buffer: Seq<Metric>, count: nat)
    requires
        buffer.len() > 0,
        count > 0,
    ensures
        last_n(buffer, count).last() == buffer.last(),
        last_n(buffer, count).len() == if count < buffer.len() { count as int } else { buffer.len() as int },
{
}

} // verus!
