//! Google TPUs: backend selection, pod description, sensors and discovery.
//!
//! Loading libtpu, reading the environment and talking to the Cloud TPU runtime are the
//! caller's work; the facts they yield are handed in.
use vstd::prelude::*;
use crate::aggregates::{freshly_discovered, no_versions_or_serial, Accelerator, PciInfo, discovery_event};
use crate::collection::{chooses, has_chosen, is_planned, follows_plan, metrics_under_sensors, push_reading, reported_under_sensors, PlannedReading, Reading};
use crate::entities::{Metric, MetricValue, Sensor};
use crate::errors::DomainError;
use crate::ids::AcceleratorId;
use crate::metal::{lemma_with_sensors_contains, sensor_is, source_labels, with_sensors};
use crate::ports::BackendHealth;
use crate::text::{
    decimal, is_whitespace, last_word, lemma_split_on_nonempty, parse_i32_spec, parse_u32_spec, signed_decimal, split_on, last_word_of,
    parse_i32, parse_u32, split_char,
};
use crate::metal::{whole_power, whole_temperature, whole_utilization};
use crate::procfs::is_backend_error;
use crate::value_objects::{
    memory_stats_of, whole_f64_bits, AcceleratorType, F64Bits, Labels, MemoryStats, MetricType, Power, Temperature,
    Unit, Utilization,
};

verus! {

/// TPU backend implementation type.
#[derive(Debug, Clone, Copy, PartialEq, Eq, Structural)]
pub enum TpuBackendType {
    /// Local libtpu
    Local,
    /// Cloud TPU Runtime
    Cloud,
}

/// The name under which a TPU backend reports itself.
pub open spec fn tpu_backend_name_of(t: TpuBackendType) -> Seq<char> {
    match t {
        TpuBackendType::Local => "tpu-local"@,
        TpuBackendType::Cloud => "tpu-cloud"@,
    }
}

/// The name under which a TPU backend of type `t` reports itself.
pub fn tpu_backend_name(t: TpuBackendType) -> (r: &'static str)
    ensures
        r@ == tpu_backend_name_of(t),
{
    match t {
        TpuBackendType::Local => "tpu-local",
        TpuBackendType::Cloud => "tpu-cloud",
    }
}

/// State of a TPU.
#[derive(Debug, Clone, Copy, PartialEq, Eq, Structural)]
pub enum TpuState {
    Creating,
    Ready,
    Restarting,
    Reimaging,
    Deleting,
    Repairing,
    Stopped,
    Unknown,
}

/// TPU pod information.
#[derive(Debug, Clone)]
pub struct TpuPodInfo {
    pub num_chips: u32,
    pub num_hosts: u32,
    pub accelerator_type: String,
    pub state: TpuState,
}

/// TPU health status.
#[derive(Debug, Clone)]
pub enum TpuHealth {
    Healthy,
    Degraded(String),
    Unhealthy(String),
}

/// The chip count of an accelerator type such as `v4-8`: the number after the one dash is
/// the core count, and each chip has two cores.
pub open spec fn chips_from_type(accelerator_type: Seq<char>) -> Option<u32> {
    let parts = split_on(accelerator_type, '-');
    if parts.len() != 2 {
        None
    } else {
        match parse_u32_spec(parts[1]) {
            Some(cores) => Some(cores / 2),
            None => None,
        }
    }
}

/// Parses the chip count from an accelerator type string: `v4-8` has 4 chips, `v4-32` 16.
pub fn parse_chips_from_type(accelerator_type: &str) -> (r: Option<u32>)
    ensures
        r == chips_from_type(accelerator_type@),
{
    let parts = split_char(accelerator_type, '-');
    if parts.len() != 2 {
        assert(parts@.map_values(|p: String| p@).len() == parts@.len());
        return None;
    }
    assert(parts@.map_values(|p: String| p@)[1] == parts@[1]@);
    match parse_u32(parts[1].as_str()) {
        Some(cores) => Some(cores / 2),
        None => None,
    }
}

/// Where a Cloud TPU worker is: `TPU_WORKER` as it stands; else `TPU_NAME` on port 8470;
/// else the local worker on a TPU VM.
pub open spec fn cloud_tpu_address(
    tpu_worker: Option<Seq<char>>,
    tpu_name: Option<Seq<char>>,
    on_tpu_vm: bool,
) -> Option<Seq<char>> {
    match tpu_worker {
        Some(w) => Some(w),
        None => match tpu_name {
            Some(n) => Some(n + ":8470"@),
            None => if on_tpu_vm {
                Some("localhost:8470"@)
            } else {
                None
            },
        },
    }
}

/// Detects a Cloud TPU worker from the `TPU_WORKER` and `TPU_NAME` environment variables
/// and from whether `/opt/google/tpu-release` exists.
pub fn detect_cloud_tpu(tpu_worker: Option<String>, tpu_name: Option<String>, on_tpu_vm: bool) -> (r:
    Option<String>)
    ensures
        match r {
            Some(a) => cloud_tpu_address(
                match tpu_worker {
                    Some(w) => Some(w@),
                    None => None,
                },
                match tpu_name {
                    Some(n) => Some(n@),
                    None => None,
                },
                on_tpu_vm,
            ) == Some(a@),
            None => tpu_worker is None && tpu_name is None && !on_tpu_vm,
        },
{
    if let Some(worker) = tpu_worker {
        return Some(worker);
    }
    if let Some(name) = tpu_name {
        return Some(crate::text::concat2(name.as_str(), ":8470"));
    }
    if on_tpu_vm {
        return Some(String::from_str("localhost:8470"));
    }
    None
}

/// The pod a connected Cloud TPU client describes: the accelerator type from
/// `TPU_ACCELERATOR_TYPE` (`v4-8` when unset), its chip count (4 when it does not parse),
/// one host, ready. A client that is not connected describes nothing.
pub fn pod_info_for(connected: bool, accelerator_type: Option<String>) -> (r: Option<TpuPodInfo>)
    ensures
        !connected ==> r is None,
        connected ==> (r matches Some(p) && p.accelerator_type@ == (match accelerator_type {
            Some(t) => t@,
            None => "v4-8"@,
        }) && p.num_chips == (match chips_from_type(p.accelerator_type@) {
            Some(c) => c,
            None => 4,
        }) && p.num_hosts == 1 && p.state == TpuState::Ready),
{
    if !connected {
        return None;
    }
    let accelerator_type = match accelerator_type {
        Some(t) => t,
        None => String::from_str("v4-8"),
    };
    let num_chips = match parse_chips_from_type(accelerator_type.as_str()) {
        Some(c) => c,
        None => 4,
    };
    Some(TpuPodInfo { num_chips, num_hosts: 1, accelerator_type, state: TpuState::Ready })
}

/// Whether some TPU is reachable: libtpu loads, or a Cloud TPU worker is detected.
pub fn tpu_is_available(libtpu_available: bool, cloud_tpu_detected: bool) -> (r: bool)
    ensures
        r == (libtpu_available || cloud_tpu_detected),
{
    libtpu_available || cloud_tpu_detected
}

/// The health of a local TPU backend from the chip count of its loaded libtpu (`None`
/// when libtpu is not loaded).
pub open spec fn local_tpu_health_of(chip_count: Option<i32>) -> BackendHealth {
    match chip_count {
        Some(c) => if c > 0 {
            BackendHealth::Healthy
        } else {
            BackendHealth::Unhealthy { reason: "No TPU chips detected" }
        },
        None => BackendHealth::Unhealthy { reason: "libtpu not loaded" },
    }
}

/// The health of a local TPU backend.
pub fn local_tpu_health(chip_count: Option<i32>) -> (r: BackendHealth)
    ensures
        r == local_tpu_health_of(chip_count),
{
    match chip_count {
        Some(c) => if c > 0 {
            BackendHealth::Healthy
        } else {
            BackendHealth::Unhealthy { reason: "No TPU chips detected" }
        },
        None => BackendHealth::Unhealthy { reason: "libtpu not loaded" },
    }
}

/// The backend type a TPU backend with automatic detection takes: local when libtpu loads
/// with chips, else cloud when a worker is detected and connects; else an error.
pub fn choose_tpu_backend(libtpu_chip_count: Option<i32>, cloud_connected: bool) -> (r: Result<
    TpuBackendType,
    DomainError,
>)
    ensures
        (libtpu_chip_count matches Some(c) && c > 0) ==> r == Ok::<TpuBackendType, DomainError>(
            TpuBackendType::Local,
        ),
        !(libtpu_chip_count matches Some(c) && c > 0) && cloud_connected ==> r == Ok::<
            TpuBackendType,
            DomainError,
        >(TpuBackendType::Cloud),
        !(libtpu_chip_count matches Some(c) && c > 0) && !cloud_connected ==> (r matches Err(
            DomainError::BackendError(m),
        ) && m@ == "No TPU backend available (libtpu or Cloud TPU)"@),
{
    if let Some(c) = libtpu_chip_count {
        if c > 0 {
            return Ok(TpuBackendType::Local);
        }
    }
    if cloud_connected {
        return Ok(TpuBackendType::Cloud);
    }
    Err(DomainError::BackendError(String::from_str("No TPU backend available (libtpu or Cloud TPU)")))
}

/// The sensors of TPU chip `chip`, each labelled with its source and chip number.
pub open spec fn tpu_sensors_ok(ss: Seq<Sensor>, accel: AcceleratorId, chip: int) -> bool {
    let n = signed_decimal(chip);
    let labels = source_labels("tpu"@).insert("chip"@, n);
    &&& ss.len() == 4
    &&& sensor_is(ss[0], accel, "hbm_memory_"@ + n, MetricType::MemoryUsed, Unit::Bytes, labels)
    &&& sensor_is(ss[1], accel, "mxu_utilization_"@ + n, MetricType::Utilization, Unit::Percent,
        labels.insert("type"@, "mxu"@))
    &&& sensor_is(ss[2], accel, "temperature_"@ + n, MetricType::Temperature, Unit::Celsius, labels)
    &&& sensor_is(ss[3], accel, "power_"@ + n, MetricType::Power, Unit::Watts, labels)
}

/// The sensors of TPU chip `chip_index`.
pub fn create_tpu_sensors(accel_id: AcceleratorId, chip_index: i32) -> (r: Vec<Sensor>)
    ensures
        tpu_sensors_ok(r@, accel_id, chip_index as int),
{
    let mut chip = String::new();
    crate::text::push_signed_decimal(&mut chip, chip_index as i64);
    assert(chip@ =~= signed_decimal(chip_index as int));
    let mut sensors: Vec<Sensor> = Vec::new();
    let name = crate::text::concat2("hbm_memory_", chip.as_str());
    let labels = Labels::new().with("source", "tpu").with("chip", chip.as_str());
    sensors.push(
        Sensor::new(accel_id, name.as_str(), MetricType::MemoryUsed, Unit::Bytes).with_labels(labels),
    );
    let name = crate::text::concat2("mxu_utilization_", chip.as_str());
    let labels = Labels::new().with("source", "tpu").with("chip", chip.as_str()).with("type", "mxu");
    sensors.push(
        Sensor::new(accel_id, name.as_str(), MetricType::Utilization, Unit::Percent).with_labels(
            labels,
        ),
    );
    let name = crate::text::concat2("temperature_", chip.as_str());
    let labels = Labels::new().with("source", "tpu").with("chip", chip.as_str());
    sensors.push(
        Sensor::new(accel_id, name.as_str(), MetricType::Temperature, Unit::Celsius).with_labels(
            labels,
        ),
    );
    let name = crate::text::concat2("power_", chip.as_str());
    let labels = Labels::new().with("source", "tpu").with("chip", chip.as_str());
    sensors.push(
        Sensor::new(accel_id, name.as_str(), MetricType::Power, Unit::Watts).with_labels(labels),
    );
    sensors
}

/// The name of local TPU chip `i`.
pub open spec fn local_chip_name(i: nat) -> Seq<char> {
    "TPU Chip "@ + decimal(i)
}

/// The accelerator that discovery makes of local TPU chip `i`.
pub open spec fn local_chip_ok(a: Accelerator, i: nat) -> bool {
    &&& a.name@ == local_chip_name(i)
    &&& a.accelerator_type == AcceleratorType::GoogleTpu
    &&& a.backend_type@ == "tpu-local"@
    &&& a.vendor@ == "Google"@
    &&& a.model@ == "TPU-v4-"@ + decimal(i)
    &&& a.pci_info matches Some(p) && p.bus_id@ == "tpu-"@ + decimal(i) && p.domain == 0 && p.bus
        == 0 && p.device == i && p.function == 0
    &&& freshly_discovered(a)
    &&& no_versions_or_serial(a)
    &&& a.enabled
    &&& a.events@ == seq![discovery_event(a)]
    &&& exists|ss: Seq<Sensor>| tpu_sensors_ok(ss, a.id, i as int) && a.sensors@ == with_sensors(Map::empty(), ss)
}

/// The name of chip `i` of a Cloud TPU pod of type `t`.
pub open spec fn cloud_chip_name(t: Seq<char>, i: nat) -> Seq<char> {
    "TPU "@ + t + "-"@ + decimal(i)
}

/// The accelerator that discovery makes of chip `i` of a Cloud TPU pod of type `t`.
pub open spec fn cloud_chip_ok(a: Accelerator, t: Seq<char>, i: nat) -> bool {
    &&& a.name@ == cloud_chip_name(t, i)
    &&& a.accelerator_type == AcceleratorType::GoogleTpu
    &&& a.backend_type@ == "tpu-cloud"@
    &&& a.vendor@ == "Google"@
    &&& a.model@ == t
    &&& a.pci_info matches Some(p) && p.bus_id@ == "cloud-tpu-"@ + decimal(i) && p.domain == 0
        && p.bus == 0 && p.device == i && p.function == 0
    &&& freshly_discovered(a)
    &&& no_versions_or_serial(a)
    &&& a.enabled
    &&& a.events@ == seq![discovery_event(a)]
    &&& exists|ss: Seq<Sensor>|
        tpu_sensors_ok(ss, a.id, (i as u32) as i32 as int) && a.sensors@ == with_sensors(Map::empty(), ss)
}

/// Adds `sensors` to an enabled accelerator, in order.
fn add_sensors_in_order(accel: &mut Accelerator, sensors: Vec<Sensor>)
    requires
        old(accel).enabled,
    ensures
        final(accel).sensors@ == with_sensors(old(accel).sensors@, sensors@),
        crate::aggregates::same_but_sensors(*final(accel), *old(accel)),
{
    let mut rest = sensors;
    let ghost all = sensors@;
    let ghost start = accel.sensors@;
    assert(all.subrange(0, 0) =~= Seq::<Sensor>::empty());
    while rest.len() > 0
        invariant
            accel.enabled,
            rest@.len() <= all.len(),
            rest@ == all.subrange(all.len() - rest@.len(), all.len() as int),
            accel.sensors@ == with_sensors(start, all.subrange(0, all.len() - rest@.len())),
            crate::aggregates::same_but_sensors(*accel, *old(accel)),
        decreases rest@.len(),
    {
        let ghost done = all.len() - rest@.len();
        let sensor = rest.remove(0);
        assert(sensor == all[done]);
        let _ = accel.add_sensor(sensor);
        assert(all.subrange(0, done + 1).drop_last() =~= all.subrange(0, done));
        assert(rest@ =~= all.subrange(all.len() - rest@.len(), all.len() as int));
    }
    assert(all.subrange(0, all.len() as int) =~= all);
}

/// The accelerators of a local libtpu with `chip_count` chips, one per chip.
pub fn discover_local_tpus(chip_count: i32) -> (r: Vec<Accelerator>)
    ensures
        r@.len() == (if chip_count > 0 { chip_count as int } else { 0 }),
        forall|i: int| 0 <= i < r@.len() ==> local_chip_ok(#[trigger] r@[i], i as nat),
{
    let mut accelerators: Vec<Accelerator> = Vec::new();
    let mut i: i32 = 0;
    while i < chip_count
        invariant
            0 <= i,
            chip_count > 0 ==> i <= chip_count,
            chip_count <= 0 ==> i == 0,
            accelerators@.len() == i,
            forall|k: int| 0 <= k < i ==> local_chip_ok(#[trigger] accelerators@[k], k as nat),
        decreases chip_count - i,
    {
        let name = crate::text::with_decimal_suffix("TPU Chip ", i as u64);
        let model = crate::text::with_decimal_suffix("TPU-v4-", i as u64);
        let accel = Accelerator::new(
            name.as_str(),
            AcceleratorType::GoogleTpu,
            "tpu-local",
            "Google",
            model.as_str(),
        );
        let pci = PciInfo {
            bus_id: crate::text::with_decimal_suffix("tpu-", i as u64),
            domain: 0,
            bus: 0,
            device: i as u32,
            function: 0,
        };
        let mut accel = accel.with_pci_info(pci);
        let sensors = create_tpu_sensors(accel.id, i);
        let ghost ss = sensors@;
        add_sensors_in_order(&mut accel, sensors);
        assert(tpu_sensors_ok(ss, accel.id, i as int));
        accelerators.push(accel);
        i = i + 1;
    }
    accelerators
}

/// The accelerators of a Cloud TPU pod, one per chip; none when the pod is unknown.
pub fn discover_cloud_tpus(pod: &Option<TpuPodInfo>) -> (r: Vec<Accelerator>)
    ensures
        match pod {
            Some(p) => r@.len() == p.num_chips && forall|i: int|
                0 <= i < r@.len() ==> cloud_chip_ok(#[trigger] r@[i], p.accelerator_type@, i as nat),
            None => r@.len() == 0,
        },
{
    let mut accelerators: Vec<Accelerator> = Vec::new();
    if let Some(p) = pod {
        let mut i: u32 = 0;
        while i < p.num_chips
            invariant
                i <= p.num_chips,
                accelerators@.len() == i,
                forall|k: int|
                    0 <= k < i ==> cloud_chip_ok(#[trigger] accelerators@[k], p.accelerator_type@, k as nat),
            decreases p.num_chips - i,
        {
            let mut name = crate::text::concat3("TPU ", p.accelerator_type.as_str(), "-");
            crate::text::push_decimal(&mut name, i as u64);
            let accel = Accelerator::new(
                name.as_str(),
                AcceleratorType::GoogleTpu,
                "tpu-cloud",
                "Google",
                p.accelerator_type.as_str(),
            );
            let pci = PciInfo {
                bus_id: crate::text::with_decimal_suffix("cloud-tpu-", i as u64),
                domain: 0,
                bus: 0,
                device: i,
                function: 0,
            };
            let mut accel = accel.with_pci_info(pci);
            let chip: i32 = i as i32;
            let sensors = create_tpu_sensors(accel.id, chip);
            let ghost ss = sensors@;
            add_sensors_in_order(&mut accel, sensors);
            assert(tpu_sensors_ok(ss, accel.id, chip as int));
            accelerators.push(accel);
            i = i + 1;
        }
    }
    accelerators
}

/// The chip index that collection reads from an accelerator's name: its last word as an
/// `i32` (a local chip is named `TPU Chip <chip>`); else the number after the last `-` in
/// that word (a chip of a Cloud TPU pod is named `TPU <type>-<chip>`); else chip 0.
pub open spec fn chip_index_of(name: Seq<char>) -> i32 {
    match last_word(name) {
        Some(w) => match parse_i32_spec(w) {
            Some(i) => i,
            None => match parse_i32_spec(split_on(w, '-').last()) {
                Some(i) => i,
                None => 0,
            },
        },
        None => 0,
    }
}

/// The chip index of a TPU accelerator, read from the end of its name.
pub fn chip_index_from_name(name: &str) -> (r: i32)
    ensures
        r == chip_index_of(name@),
{
    match last_word_of(name) {
        Some(w) => match parse_i32(w) {
            Some(i) => i,
            None => {
                let parts = split_char(w, '-');
                proof {
                    lemma_split_on_nonempty(w@, '-');
                }
                assert(parts@.map_values(|p: String| p@).len() == parts@.len());
                let k = parts.len() - 1;
                assert(parts@.map_values(|p: String| p@)[k as int] == parts@[k as int]@);
                match parse_i32(parts[k].as_str()) {
                    Some(i) => i,
                    None => 0,
                }
            },
        },
        None => 0,
    }
}

/// What was read of one TPU chip at a collection: from libtpu, or from the Cloud TPU
/// runtime (which reports no power, and memory in gigabytes that the caller turns into
/// bytes).
#[derive(Debug, Clone, Copy)]
pub struct TpuChipReadings {
    pub memory_used: u64,
    pub memory_total: u64,
    /// MXU utilization (libtpu) or duty cycle (Cloud TPU)
    pub utilization: Utilization,
    pub temperature: Temperature,
    /// Power draw, where it is reported
    pub power: Option<Power>,
}

/// The readings of a TPU chip collection, under the sensors named for chip `chip`: memory,
/// utilization, temperature and, where reported, power.
pub open spec fn tpu_plan(chip: int, f: TpuChipReadings) -> Seq<PlannedReading> {
    let n = signed_decimal(chip);
    let p = seq![
        (Some("hbm_memory_"@ + n), MetricType::MemoryUsed, MetricValue::Memory(memory_stats_of(f.memory_used, f.memory_total)), Unit::Bytes),
        (Some("mxu_utilization_"@ + n), MetricType::Utilization, MetricValue::Utilization(f.utilization), Unit::Percent),
        (Some("temperature_"@ + n), MetricType::Temperature, MetricValue::Temperature(f.temperature), Unit::Celsius),
    ];
    match f.power {
        Some(w) => p.push((Some("power_"@ + n), MetricType::Power, MetricValue::Power(w), Unit::Watts)),
        None => p,
    }
}

/// The readings of a collection on TPU chip `chip_index`.
pub fn tpu_readings(chip_index: i32, f: TpuChipReadings) -> (rs: Vec<Reading>)
    ensures
        follows_plan(rs@, tpu_plan(chip_index as int, f)),
{
    let mut chip = String::new();
    crate::text::push_signed_decimal(&mut chip, chip_index as i64);
    assert(chip@ =~= signed_decimal(chip_index as int));
    let ghost n = chip@;
    let mut rs: Vec<Reading> = Vec::new();
    let ghost mut plan: Seq<PlannedReading> = Seq::empty();
    let name = crate::text::concat2("hbm_memory_", chip.as_str());
    push_reading(&mut rs, Ghost(plan), Some(name.as_str()), MetricType::MemoryUsed,
        MetricValue::Memory(MemoryStats::new(f.memory_used, f.memory_total)), Unit::Bytes);
    proof {
        plan = plan.push((Some("hbm_memory_"@ + n), MetricType::MemoryUsed,
            MetricValue::Memory(memory_stats_of(f.memory_used, f.memory_total)), Unit::Bytes));
    }
    let name = crate::text::concat2("mxu_utilization_", chip.as_str());
    push_reading(&mut rs, Ghost(plan), Some(name.as_str()), MetricType::Utilization,
        MetricValue::Utilization(f.utilization), Unit::Percent);
    proof {
        plan = plan.push((Some("mxu_utilization_"@ + n), MetricType::Utilization,
            MetricValue::Utilization(f.utilization), Unit::Percent));
    }
    let name = crate::text::concat2("temperature_", chip.as_str());
    push_reading(&mut rs, Ghost(plan), Some(name.as_str()), MetricType::Temperature,
        MetricValue::Temperature(f.temperature), Unit::Celsius);
    proof {
        plan = plan.push((Some("temperature_"@ + n), MetricType::Temperature,
            MetricValue::Temperature(f.temperature), Unit::Celsius));
    }
    if let Some(w) = f.power {
        let name = crate::text::concat2("power_", chip.as_str());
        push_reading(&mut rs, Ghost(plan), Some(name.as_str()), MetricType::Power, MetricValue::Power(w),
            Unit::Watts);
        proof {
            plan = plan.push((Some("power_"@ + n), MetricType::Power, MetricValue::Power(w), Unit::Watts));
        }
    }
    assert(plan =~= tpu_plan(chip_index as int, f));
    rs
}

/// The metrics of a TPU accelerator: none when nothing was read, else the readings of the
/// chip whose index ends its name, each under the accelerator's sensor for it; a reading
/// without a sensor is left out.
pub fn tpu_metrics(accel: &Accelerator, readings: Option<TpuChipReadings>) -> (r: Vec<Metric>)
    ensures
        readings is None ==> r@.len() == 0,
        readings matches Some(f) ==> exists|rs: Seq<Reading>|
            #[trigger] follows_plan(rs, tpu_plan(chip_index_of(accel.name@) as int, f))
                && reported_under_sensors(r@, *accel, rs),
{
    match readings {
        None => Vec::new(),
        Some(f) => {
            let chip = chip_index_from_name(accel.name.as_str());
            let rs = tpu_readings(chip, f);
            let ghost rv = rs@;
            let r = metrics_under_sensors(accel, rs);
            assert(follows_plan(rv, tpu_plan(chip_index_of(accel.name@) as int, f)));
            r
        },
    }
}

/// The readings of chip `chip_index` among those the Cloud TPU runtime reported, one per
/// chip in order; none for a negative index or one past the end.
pub fn cloud_chip_readings(all: &Vec<TpuChipReadings>, chip_index: i32) -> (r: Option<TpuChipReadings>)
    ensures
        0 <= chip_index < all@.len() ==> r == Some(all@[chip_index as int]),
        !(0 <= chip_index < all@.len()) ==> r is None,
{
    if chip_index >= 0 && (chip_index as usize) < all.len() {
        Some(all[chip_index as usize])
    } else {
        None
    }
}

/// What libtpu says of one chip.
#[derive(Debug, Clone, Copy)]
pub struct TpuChipInfo {
    pub index: i32,
    pub memory_capacity_gb: u64,
    /// HBM bandwidth in gigabytes per second (float bits)
    pub hbm_bandwidth_gbps: F64Bits,
}

/// The message for a chip index outside `0..chip_count`.
pub open spec fn invalid_chip_text(index: i32, chip_count: i32) -> Seq<char> {
    "Invalid chip index: "@ + signed_decimal(index as int) + " (count: "@ + signed_decimal(chip_count as int) + ")"@
}

/// The information of chip `index` among `chip_count` chips: a TPU v4 chip, with 32 GB of
/// HBM and 1200 GB/s of bandwidth; an error for an index outside `0..chip_count`.
pub fn get_chip_info(chip_count: i32, index: i32) -> (r: Result<TpuChipInfo, String>)
    ensures
        0 <= index < chip_count ==> (r matches Ok(c) && c.index == index && c.memory_capacity_gb == 32
            && c.hbm_bandwidth_gbps.0 == whole_f64_bits(1200)),
        !(0 <= index < chip_count) ==> (r matches Err(m) && m@ == invalid_chip_text(index, chip_count)),
{
    if index < 0 || index >= chip_count {
        let mut m = String::from_str("Invalid chip index: ");
        crate::text::push_signed_decimal(&mut m, index as i64);
        m.append(" (count: ");
        crate::text::push_signed_decimal(&mut m, chip_count as i64);
        m.append(")");
        proof {
            reveal_strlit("Invalid chip index: ");
            reveal_strlit(" (count: ");
            reveal_strlit(")");
        }
        assert(m@ =~= invalid_chip_text(index, chip_count));
        return Err(m);
    }
    Ok(TpuChipInfo { index, memory_capacity_gb: 32, hbm_bandwidth_gbps: F64Bits::from_whole(1200) })
}

/// The figures libtpu gives for chip `index` among `chip_count` chips: 16 of 32 GiB of HBM in
/// use, 65% MXU utilization, 72 degrees and 175 watts.
pub open spec fn libtpu_figures() -> TpuChipReadings {
    TpuChipReadings {
        memory_used: 0x4_0000_0000,
        memory_total: 0x8_0000_0000,
        utilization: whole_utilization(65),
        temperature: whole_temperature(72),
        power: Some(whole_power(175)),
    }
}

/// The figures libtpu gives for chip `index`; the chip-index error otherwise.
pub fn libtpu_chip_readings(chip_count: i32, index: i32) -> (r: Result<TpuChipReadings, String>)
    ensures
        0 <= index < chip_count ==> r == Ok::<TpuChipReadings, String>(libtpu_figures()),
        !(0 <= index < chip_count) ==> (r matches Err(m) && m@ == invalid_chip_text(index, chip_count)),
{
    match get_chip_info(chip_count, index) {
        Err(e) => Err(e),
        Ok(_) => {
            let util = match Utilization::from_whole_percent(65) {
                Some(u) => u,
                None => Utilization::default(),
            };
            Ok(TpuChipReadings {
                memory_used: 16 * 1024 * 1024 * 1024,
                memory_total: 32 * 1024 * 1024 * 1024,
                utilization: util,
                temperature: Temperature::from_whole_celsius(72),
                power: Some(Power::from_whole_watts(175)),
            })
        },
    }
}

/// The metrics of a collection through libtpu with `chip_count` chips (none when libtpu is
/// not loaded): the figures of the chip whose index ends the accelerator's name, under its
/// sensors; a backend error when that index is not a chip.
pub fn local_tpu_metrics(accel: &Accelerator, chip_count: Option<i32>) -> (r: Result<Vec<Metric>, DomainError>)
    ensures
        chip_count is None ==> (r matches Ok(ms) && ms@.len() == 0),
        forall|n: i32|
            chip_count == Some(n) && 0 <= chip_index_of(accel.name@) < n ==> (r matches Ok(ms) && exists|
                rs: Seq<Reading>,
            |
                #[trigger] follows_plan(rs, tpu_plan(chip_index_of(accel.name@) as int, libtpu_figures()))
                    && reported_under_sensors(ms@, *accel, rs)),
        forall|n: i32|
            chip_count == Some(n) && !(0 <= chip_index_of(accel.name@) < n) ==> #[trigger] is_backend_error(
                r,
                "Failed to collect metrics: "@ + invalid_chip_text(chip_index_of(accel.name@), n),
            ),
{
    match chip_count {
        None => Ok(Vec::new()),
        Some(n) => {
            let chip = chip_index_from_name(accel.name.as_str());
            match libtpu_chip_readings(n, chip) {
                Ok(f) => Ok(tpu_metrics(accel, Some(f))),
                Err(e) => Err(DomainError::BackendError(crate::text::concat2("Failed to collect metrics: ", e.as_str()))),
            }
        },
    }
}

/// The chip index that discovery writes into the name of a local TPU chip is the index
/// that collection reads back from that name.
pub proof fn law_local_chip_index_roundtrip(i: nat)
    requires
        i <= 0x7fff_ffff,
    ensures
        chip_index_of(local_chip_name(i)) == i as i32,
{
    reveal_strlit("TPU Chip ");
    crate::text::lemma_last_word_decimal("TPU Chip "@, i);
    crate::text::lemma_parse_i32_decimal(i);
}

/// The chip index that discovery writes into the name of a Cloud TPU chip, after the pod's
/// type, is the index that collection reads back from that name (for a type that does not
/// end in white space).
pub proof fn law_cloud_chip_index_roundtrip(t: Seq<char>, i: nat)
    requires
        i <= 0x7fff_ffff,
        t.len() > 0,
        !is_whitespace(t.last()),
    ensures
        chip_index_of(cloud_chip_name(t, i)) == i as i32,
{
    reveal_strlit("TPU ");
    reveal_strlit("-");
    let s = "TPU "@ + t;
    assert(s.last() == t.last());
    assert(cloud_chip_name(t, i) =~= s + seq!['-'] + decimal(i));
    crate::text::lemma_dash_decimal_word(s, i);
    crate::text::lemma_parse_i32_decimal(i);
}

/// Collecting from a local TPU chip that discovery made reports every reading under one of
/// the chip's own sensors (when its sensors got distinct identifiers): the chip index read
/// back from the name is the one the sensors were named after.
pub proof fn law_local_tpu_collection_uses_discovered_sensors(
    a: Accelerator,
    i: nat,
    f: TpuChipReadings,
    rs: Seq<Reading>,
)
    requires
        i <= 0x7fff_ffff,
        local_chip_ok(a, i),
        a.sensors@.dom().len() == 4,
        follows_plan(rs, tpu_plan(chip_index_of(a.name@) as int, f)),
    ensures
        forall|k: int| 0 <= k < rs.len() ==> has_chosen(a, #[trigger] rs[k].sensor),
{
    law_local_chip_index_roundtrip(i);
    let ss = choose|ss: Seq<Sensor>| tpu_sensors_ok(ss, a.id, i as int) && a.sensors@ == with_sensors(Map::empty(), ss);
    let plan = tpu_plan(i as int, f);
    lemma_with_sensors_contains(ss, 0);
    lemma_with_sensors_contains(ss, 1);
    lemma_with_sensors_contains(ss, 2);
    lemma_with_sensors_contains(ss, 3);
    assert(is_planned(rs[0], plan[0]));
    assert(is_planned(rs[1], plan[1]));
    assert(is_planned(rs[2], plan[2]));
    assert(chooses(rs[0].sensor, ss[0]));
    assert(chooses(rs[1].sensor, ss[1]));
    assert(chooses(rs[2].sensor, ss[2]));
    if rs.len() > 3 {
        assert(is_planned(rs[3], plan[3]));
        assert(chooses(rs[3].sensor, ss[3]));
    }
}

/// Collecting from a Cloud TPU chip that discovery made reports every reading under one of
/// the chip's own sensors (when its sensors got distinct identifiers and the pod's type
/// does not end in white space): the chip index read back from the name is the one the
/// sensors were named after.
pub proof fn law_cloud_tpu_collection_uses_discovered_sensors(
    a: Accelerator,
    t: Seq<char>,
    i: nat,
    f: TpuChipReadings,
    rs: Seq<Reading>,
)
    requires
        i <= 0x7fff_ffff,
        t.len() > 0,
        !is_whitespace(t.last()),
        cloud_chip_ok(a, t, i),
        a.sensors@.dom().len() == 4,
        follows_plan(rs, tpu_plan(chip_index_of(a.name@) as int, f)),
    ensures
        forall|k: int| 0 <= k < rs.len() ==> has_chosen(a, #[trigger] rs[k].sensor),
{
    law_cloud_chip_index_roundtrip(t, i);
    assert((i as u32) as i32 as int == i as int);
    let ss = choose|ss: Seq<Sensor>|
        tpu_sensors_ok(ss, a.id, (i as u32) as i32 as int) && a.sensors@ == with_sensors(Map::empty(), ss);
    let plan = tpu_plan(i as int, f);
    lemma_with_sensors_contains(ss, 0);
    lemma_with_sensors_contains(ss, 1);
    lemma_with_sensors_contains(ss, 2);
    lemma_with_sensors_contains(ss, 3);
    assert(is_planned(rs[0], plan[0]));
    assert(is_planned(rs[1], plan[1]));
    assert(is_planned(rs[2], plan[2]));
    assert(chooses(rs[0].sensor, ss[0]));
    assert(chooses(rs[1].sensor, ss[1]));
    assert(chooses(rs[2].sensor, ss[2]));
    if rs.len() > 3 {
        assert(is_planned(rs[3], plan[3]));
        assert(chooses(rs[3].sensor, ss[3]));
    }
}

/// `TPU_WORKER`, when it is set, is the worker's address as it stands, whatever `TPU_NAME`
/// says and whether or not this is a TPU VM; `TPU_NAME` counts only when `TPU_WORKER` is
/// unset, and then names the host of port 8470; the local worker is the last resort.
pub proof fn law_tpu_worker_comes_first(
    worker: Seq<char>,
    name: Option<Seq<char>>,
    host: Seq<char>,
    on_tpu_vm: bool,
)
    ensures
        cloud_tpu_address(Some(worker), name, on_tpu_vm) == Some(worker),
        cloud_tpu_address(None, Some(host), on_tpu_vm) == Some(host + ":8470"@),
        cloud_tpu_address(None, None, true) == Some("localhost:8470"@),
        cloud_tpu_address(None, None, false) is None,
{
}

/// An accelerator type written `<generation>-<cores>`, with no dash in the generation,
/// has half as many chips as cores: `v4-8` has 4, `v5-16` has 8.
pub proof fn law_chips_are_half_the_cores(generation: Seq<char>, cores: nat)
    requires
        forall|i: int| 0 <= i < generation.len() ==> generation[i] != '-',
        cores <= u32::MAX,
    ensures
        chips_from_type(generation + "-"@ + decimal(cores)) == Some((cores / 2) as u32),
{
    reveal_strlit("-");
    crate::text::lemma_decimal_no_dash(cores);
    crate::text::lemma_parse_u32_decimal(cores);
    crate::text::lemma_split_on_single(generation, '-');
    let d = decimal(cores);
    let gd = generation + seq!['-'];
    assert(split_on(gd, '-') == split_on(generation, '-').push(Seq::<char>::empty())) by {
        assert(gd.drop_last() =~= generation);
        assert(gd.last() == '-');
    }
    crate::text::lemma_split_on_extend(gd, d, '-');
    assert(generation + "-"@ + d =~= gd + d);
    assert(Seq::<char>::empty() + d =~= d);
    assert(split_on(gd + d, '-') =~= seq![generation, d]);
}

} // verus!
