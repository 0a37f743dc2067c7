//! NVIDIA GPUs through NVML: sensors, accelerators and the integer-valued metrics.
//!
//! The calls into NVML are the caller's; what they report is handed in.
use vstd::prelude::*;
use crate::aggregates::{freshly_discovered, Accelerator, PciInfo, discovery_event};
use crate::collection::{chooses, has_chosen, is_planned, SensorChoice, follows_plan, metrics_for_all, push_reading, reported_all, PlannedReading, Reading};
use crate::entities::{Metric, MetricValue, Sensor};
use crate::errors::DomainError;
use crate::ids::AcceleratorId;
use crate::metal::{add_all_sensors, lemma_with_sensors_contains, sensor_is, source_labels, whole_temperature, whole_utilization, with_sensors};
use crate::ports::BackendVersion;
use crate::value_objects::{
    AcceleratorType, F64Bits, Frequency, Labels, MemoryStats, MetricType, Power, Temperature, Unit, Utilization,
    memory_stats_of, same_metric_type,
};

verus! {

/// Factory for the NVML backend.
pub struct NvmlBackendFactory;

/// The version every backend of this release reports: 0.1.0, without git hash or build date.
pub fn backend_version() -> (r: BackendVersion)
    ensures
        r.major == 0 && r.minor == 1 && r.patch == 0 && r.git_hash is None && r.build_date is None,
{
    BackendVersion { major: 0, minor: 1, patch: 0, git_hash: None, build_date: None }
}

/// The sensors of an NVIDIA GPU: six always, then fan speed, encoder and decoder
/// utilization when the device reports them.
pub open spec fn nvml_sensors_ok(
    ss: Seq<Sensor>,
    accel: AcceleratorId,
    has_fan: bool,
    has_encoder: bool,
    has_decoder: bool,
) -> bool {
    let nvml = source_labels("nvml"@);
    let extra = (if has_fan { 1int } else { 0int }) + (if has_encoder { 1int } else { 0int }) + (
    if has_decoder {
        1int
    } else {
        0int
    });
    let enc_at = 6 + (if has_fan { 1int } else { 0int });
    let dec_at = enc_at + (if has_encoder { 1int } else { 0int });
    &&& ss.len() == 6 + extra
    &&& sensor_is(ss[0], accel, "gpu_utilization"@, MetricType::Utilization, Unit::Percent,
        nvml.insert("type"@, "compute"@))
    &&& sensor_is(ss[1], accel, "memory_utilization"@, MetricType::Utilization, Unit::Percent,
        nvml.insert("type"@, "memory"@))
    &&& sensor_is(ss[2], accel, "gpu_temperature"@, MetricType::Temperature, Unit::Celsius, nvml)
    &&& sensor_is(ss[3], accel, "power_draw"@, MetricType::Power, Unit::Watts, nvml)
    &&& sensor_is(ss[4], accel, "graphics_clock"@, MetricType::Frequency, Unit::Megahertz,
        nvml.insert("clock_type"@, "graphics"@))
    &&& sensor_is(ss[5], accel, "memory_clock"@, MetricType::Frequency, Unit::Megahertz,
        nvml.insert("clock_type"@, "memory"@))
    &&& has_fan ==> sensor_is(ss[6], accel, "fan_speed"@, MetricType::FanSpeed, Unit::Percent, nvml)
    &&& has_encoder ==> sensor_is(ss[enc_at], accel, "encoder_utilization"@, MetricType::Utilization,
        Unit::Percent, nvml.insert("type"@, "encoder"@))
    &&& has_decoder ==> sensor_is(ss[dec_at], accel, "decoder_utilization"@, MetricType::Utilization,
        Unit::Percent, nvml.insert("type"@, "decoder"@))
}

fn labelled_sensor(
    accel: AcceleratorId,
    name: &str,
    metric_type: MetricType,
    unit: Unit,
    labels: Labels,
) -> (r: Sensor)
    ensures
        sensor_is(r, accel, name@, metric_type, unit, labels@),
{
    Sensor::new(accel, name, metric_type, unit).with_labels(labels)
}

/// The sensors of an NVIDIA GPU, given whether it reports fan speed, encoder and decoder
/// utilization.
pub fn create_sensors_for_device(
    accel_id: AcceleratorId,
    has_fan: bool,
    has_encoder: bool,
    has_decoder: bool,
) -> (r: Vec<Sensor>)
    ensures
        nvml_sensors_ok(r@, accel_id, has_fan, has_encoder, has_decoder),
{
    let mut sensors: Vec<Sensor> = Vec::new();
    sensors.push(
        labelled_sensor(
            accel_id,
            "gpu_utilization",
            MetricType::Utilization,
            Unit::Percent,
            Labels::new().with("source", "nvml").with("type", "compute"),
        ),
    );
    sensors.push(
        labelled_sensor(
            accel_id,
            "memory_utilization",
            MetricType::Utilization,
            Unit::Percent,
            Labels::new().with("source", "nvml").with("type", "memory"),
        ),
    );
    sensors.push(
        labelled_sensor(
            accel_id,
            "gpu_temperature",
            MetricType::Temperature,
            Unit::Celsius,
            Labels::new().with("source", "nvml"),
        ),
    );
    sensors.push(
        labelled_sensor(
            accel_id,
            "power_draw",
            MetricType::Power,
            Unit::Watts,
            Labels::new().with("source", "nvml"),
        ),
    );
    sensors.push(
        labelled_sensor(
            accel_id,
            "graphics_clock",
            MetricType::Frequency,
            Unit::Megahertz,
            Labels::new().with("source", "nvml").with("clock_type", "graphics"),
        ),
    );
    sensors.push(
        labelled_sensor(
            accel_id,
            "memory_clock",
            MetricType::Frequency,
            Unit::Megahertz,
            Labels::new().with("source", "nvml").with("clock_type", "memory"),
        ),
    );
    let ghost base = sensors@;
    if has_fan {
        sensors.push(
            labelled_sensor(
                accel_id,
                "fan_speed",
                MetricType::FanSpeed,
                Unit::Percent,
                Labels::new().with("source", "nvml"),
            ),
        );
    }
    let ghost with_fan = sensors@;
    if has_encoder {
        sensors.push(
            labelled_sensor(
                accel_id,
                "encoder_utilization",
                MetricType::Utilization,
                Unit::Percent,
                Labels::new().with("source", "nvml").with("type", "encoder"),
            ),
        );
    }
    let ghost with_enc = sensors@;
    if has_decoder {
        sensors.push(
            labelled_sensor(
                accel_id,
                "decoder_utilization",
                MetricType::Utilization,
                Unit::Percent,
                Labels::new().with("source", "nvml").with("type", "decoder"),
            ),
        );
    }
    assert(forall|i: int| 0 <= i < base.len() ==> sensors@[i] == base[i]);
    assert(forall|i: int| 0 <= i < with_fan.len() ==> sensors@[i] == with_fan[i]);
    assert(forall|i: int| 0 <= i < with_enc.len() ==> sensors@[i] == with_enc[i]);
    sensors
}

/// What NVML reports of one device.
pub struct NvmlDeviceReport {
    pub name: String,
    pub pci_info: PciInfo,
    /// `sys_driver_version`, when it could be read
    pub driver_version: Option<String>,
    /// `sys_nvml_version`, when it could be read
    pub nvml_version: Option<String>,
    /// The serial number, when it could be read
    pub serial: Option<String>,
    pub has_fan: bool,
    pub has_encoder: bool,
    pub has_decoder: bool,
}

/// The optional text `o` as a sequence of characters.
pub open spec fn opt_text(o: Option<String>) -> Option<Seq<char>> {
    match o {
        Some(s) => Some(s@),
        None => None,
    }
}

/// The accelerator that discovery makes of an NVIDIA device.
pub open spec fn nvml_accelerator_ok(a: Accelerator, d: NvmlDeviceReport) -> bool {
    &&& a.name@ == d.name@
    &&& a.accelerator_type == AcceleratorType::NvidiaGpu
    &&& a.backend_type@ == "nvml"@
    &&& a.vendor@ == "NVIDIA"@
    &&& a.model@ == d.name@
    &&& a.pci_info == Some(d.pci_info)
    &&& opt_text(a.driver_version) == opt_text(d.driver_version)
    &&& opt_text(a.firmware_version) == opt_text(d.nvml_version)
    &&& opt_text(a.serial_number) == opt_text(d.serial)
    &&& freshly_discovered(a)
    &&& a.enabled
    &&& a.events@ == seq![discovery_event(a)]
    &&& exists|ss: Seq<Sensor>|
        nvml_sensors_ok(ss, a.id, d.has_fan, d.has_encoder, d.has_decoder) && a.sensors@
            == with_sensors(Map::empty(), ss)
}

/// The accelerator of an NVIDIA device: named after it, with its PCI information, the
/// driver and NVML versions and serial number it reports, and its sensors.
pub fn nvml_accelerator(device: NvmlDeviceReport) -> (r: Accelerator)
    ensures
        nvml_accelerator_ok(r, device),
{
    let accel = Accelerator::new(
        device.name.as_str(),
        AcceleratorType::NvidiaGpu,
        "nvml",
        "NVIDIA",
        device.name.as_str(),
    );
    let mut accel = accel.with_pci_info(device.pci_info);
    if let Some(v) = &device.driver_version {
        accel = accel.with_driver_version(v.as_str());
    }
    if let Some(v) = &device.nvml_version {
        accel = accel.with_firmware_version(v.as_str());
    }
    if let Some(v) = &device.serial {
        accel = accel.with_serial_number(v.as_str());
    }
    let sensors = create_sensors_for_device(
        accel.id,
        device.has_fan,
        device.has_encoder,
        device.has_decoder,
    );
    let ghost ss = sensors@;
    add_all_sensors(&mut accel, sensors);
    assert(nvml_sensors_ok(ss, accel.id, device.has_fan, device.has_encoder, device.has_decoder));
    accel
}

/// What NVML reported of one device at a collection; a figure is absent where its call
/// failed (and the memory figures on unified-memory systems, where NVML does not support
/// the call).
pub struct NvmlReadings {
    /// GPU and memory utilization in percent
    pub utilization: Option<(u32, u32)>,
    /// Used and total device memory in bytes
    pub memory: Option<(u64, u64)>,
    /// GPU temperature in degrees Celsius
    pub temperature_celsius: Option<u32>,
    /// Power draw, converted from the milliwatts NVML reports
    pub power: Option<Power>,
    /// Graphics clock in megahertz
    pub graphics_clock_mhz: Option<u32>,
    /// Memory clock in megahertz
    pub memory_clock_mhz: Option<u32>,
}

/// The utilization of `percent` whole percent, or zero when that is above a hundred.
pub open spec fn utilization_or_zero(percent: u32) -> Utilization {
    if percent <= 100 {
        whole_utilization(percent)
    } else {
        Utilization { percent: F64Bits(0) }
    }
}

/// The frequency of `mhz` megahertz.
pub open spec fn megahertz(mhz: u32) -> Frequency {
    Frequency { hertz: (mhz * 1_000_000) as u64 }
}

/// The readings of an NVML collection, in the order they are reported: GPU and memory
/// utilization, memory in use, temperature, power, graphics clock and memory clock, each
/// where NVML reported it.
pub open spec fn nvml_plan(f: NvmlReadings) -> Seq<PlannedReading> {
    let p1 = match f.utilization {
        Some((g, m)) => seq![
            (Some("gpu_utilization"@), MetricType::Utilization, MetricValue::Utilization(utilization_or_zero(g)), Unit::Percent),
            (Some("memory_utilization"@), MetricType::Utilization, MetricValue::Utilization(utilization_or_zero(m)), Unit::Percent),
        ],
        None => Seq::empty(),
    };
    let p2 = match f.memory {
        Some((used, total)) => p1.push(
            (None, MetricType::MemoryUsed, MetricValue::Memory(memory_stats_of(used, total)), Unit::Bytes),
        ),
        None => p1,
    };
    let p3 = match f.temperature_celsius {
        Some(c) => p2.push(
            (Some("gpu_temperature"@), MetricType::Temperature, MetricValue::Temperature(whole_temperature(c)), Unit::Celsius),
        ),
        None => p2,
    };
    let p4 = match f.power {
        Some(w) => p3.push((Some("power_draw"@), MetricType::Power, MetricValue::Power(w), Unit::Watts)),
        None => p3,
    };
    let p5 = match f.graphics_clock_mhz {
        Some(mhz) => p4.push(
            (Some("graphics_clock"@), MetricType::Frequency, MetricValue::Frequency(megahertz(mhz)), Unit::Megahertz),
        ),
        None => p4,
    };
    match f.memory_clock_mhz {
        Some(mhz) => p5.push(
            (Some("memory_clock"@), MetricType::Frequency, MetricValue::Frequency(megahertz(mhz)), Unit::Megahertz),
        ),
        None => p5,
    }
}

fn utilization_from(percent: u32) -> (r: Utilization)
    ensures
        r == utilization_or_zero(percent),
{
    match Utilization::from_whole_percent(percent) {
        Some(u) => u,
        None => Utilization::default(),
    }
}

/// The readings of an NVML collection.
pub fn nvml_readings(f: &NvmlReadings) -> (rs: Vec<Reading>)
    ensures
        follows_plan(rs@, nvml_plan(*f)),
{
    let mut rs: Vec<Reading> = Vec::new();
    let ghost mut plan: Seq<PlannedReading> = Seq::empty();
    if let Some((g, m)) = f.utilization {
        push_reading(&mut rs, Ghost(plan), Some("gpu_utilization"), MetricType::Utilization,
            MetricValue::Utilization(utilization_from(g)), Unit::Percent);
        proof {
            plan = plan.push((Some("gpu_utilization"@), MetricType::Utilization,
                MetricValue::Utilization(utilization_or_zero(g)), Unit::Percent));
        }
        push_reading(&mut rs, Ghost(plan), Some("memory_utilization"), MetricType::Utilization,
            MetricValue::Utilization(utilization_from(m)), Unit::Percent);
        proof {
            plan = plan.push((Some("memory_utilization"@), MetricType::Utilization,
                MetricValue::Utilization(utilization_or_zero(m)), Unit::Percent));
        }
    }
    if let Some((used, total)) = f.memory {
        push_reading(&mut rs, Ghost(plan), None, MetricType::MemoryUsed,
            MetricValue::Memory(MemoryStats::new(used, total)), Unit::Bytes);
        proof {
            plan = plan.push((None, MetricType::MemoryUsed, MetricValue::Memory(memory_stats_of(used, total)),
                Unit::Bytes));
        }
    }
    if let Some(c) = f.temperature_celsius {
        push_reading(&mut rs, Ghost(plan), Some("gpu_temperature"), MetricType::Temperature,
            MetricValue::Temperature(Temperature::from_whole_celsius(c)), Unit::Celsius);
        proof {
            plan = plan.push((Some("gpu_temperature"@), MetricType::Temperature,
                MetricValue::Temperature(whole_temperature(c)), Unit::Celsius));
        }
    }
    if let Some(w) = f.power {
        push_reading(&mut rs, Ghost(plan), Some("power_draw"), MetricType::Power, MetricValue::Power(w),
            Unit::Watts);
        proof {
            plan = plan.push((Some("power_draw"@), MetricType::Power, MetricValue::Power(w), Unit::Watts));
        }
    }
    if let Some(mhz) = f.graphics_clock_mhz {
        push_reading(&mut rs, Ghost(plan), Some("graphics_clock"), MetricType::Frequency,
            MetricValue::Frequency(Frequency::from_mhz(mhz as u64)), Unit::Megahertz);
        proof {
            plan = plan.push((Some("graphics_clock"@), MetricType::Frequency,
                MetricValue::Frequency(megahertz(mhz)), Unit::Megahertz));
        }
    }
    if let Some(mhz) = f.memory_clock_mhz {
        push_reading(&mut rs, Ghost(plan), Some("memory_clock"), MetricType::Frequency,
            MetricValue::Frequency(Frequency::from_mhz(mhz as u64)), Unit::Megahertz);
        proof {
            plan = plan.push((Some("memory_clock"@), MetricType::Frequency,
                MetricValue::Frequency(megahertz(mhz)), Unit::Megahertz));
        }
    }
    assert(plan =~= nvml_plan(*f));
    rs
}

/// The metrics of an NVML collection: every reading NVML reported, in order, under the
/// accelerator's sensor for it, or under a fresh sensor identifier where it has none.
pub fn nvml_metrics(accel: &Accelerator, f: &NvmlReadings) -> (r: Vec<Metric>)
    ensures
        exists|rs: Seq<Reading>| #[trigger] follows_plan(rs, nvml_plan(*f)) && reported_all(r@, *accel, rs),
{
    let rs = nvml_readings(f);
    let ghost rv = rs@;
    let r = metrics_for_all(accel, rs);
    assert(follows_plan(rv, nvml_plan(*f)));
    r
}

/// The NVML failures the backend tells apart.
#[derive(Debug, Clone, PartialEq, Eq)]
pub enum NvmlErrorKind {
    NoPermission,
    NotSupported,
    GpuLost,
    /// Any other failure, with NVML's message
    Other(String),
}

/// The domain error for an NVML failure.
pub open spec fn nvml_error_text(k: NvmlErrorKind) -> Seq<char> {
    match k {
        NvmlErrorKind::NoPermission => "NVML: No permission"@,
        NvmlErrorKind::NotSupported => "NVML: Feature not supported"@,
        NvmlErrorKind::GpuLost => "NVML: GPU lost"@,
        NvmlErrorKind::Other(m) => "NVML: "@ + m@,
    }
}

/// The backend error for an NVML failure.
pub fn convert_nvml_error(k: NvmlErrorKind) -> (r: DomainError)
    ensures
        r matches DomainError::BackendError(m) && m@ == nvml_error_text(k),
{
    match k {
        NvmlErrorKind::NoPermission => DomainError::BackendError(String::from_str("NVML: No permission")),
        NvmlErrorKind::NotSupported => DomainError::BackendError(String::from_str("NVML: Feature not supported")),
        NvmlErrorKind::GpuLost => DomainError::BackendError(String::from_str("NVML: GPU lost")),
        NvmlErrorKind::Other(m) => DomainError::BackendError(crate::text::concat2("NVML: ", m.as_str())),
    }
}

/// The backend error for an NVML that would not start, with NVML's message.
pub fn nvml_init_error(message: &str) -> (r: DomainError)
    ensures
        r matches DomainError::BackendError(m) && m@ == "NVML init failed: "@ + message@,
{
    DomainError::BackendError(crate::text::concat2("NVML init failed: ", message))
}

/// The PCI bus identifier by which collection finds an accelerator's device; an error when
/// the accelerator has no PCI information.
pub fn nvml_pci_bus_id(accel: &Accelerator) -> (r: Result<String, DomainError>)
    ensures
        accel.pci_info matches Some(p) ==> (r matches Ok(b) && b@ == p.bus_id@),
        accel.pci_info is None ==> (r matches Err(DomainError::BackendError(m)) && m@ == "Missing PCI info"@),
{
    match &accel.pci_info {
        Some(p) => Ok(String::from_str(p.bus_id.as_str())),
        None => Err(DomainError::BackendError(String::from_str("Missing PCI info"))),
    }
}

/// Every sensor among the values of the map built from `ss` is one of `ss`.
proof fn lemma_with_sensors_values_from(ss: Seq<Sensor>, s: Sensor)
    requires
        with_sensors(Map::empty(), ss).values().contains(s),
    ensures
        exists|i: int| 0 <= i < ss.len() && ss[i] == s,
    decreases ss.len(),
{
    let m = with_sensors(Map::empty(), ss);
    let k = choose|k: u128| m.dom().contains(k) && m[k] == s;
    if ss.len() == 0 {
        assert(m == Map::<u128, Sensor>::empty());
        assert(false);
    } else {
        let prev = with_sensors(Map::empty(), ss.drop_last());
        if k == ss.last().id.0 {
            assert(ss[ss.len() - 1] == s);
        } else {
            assert(prev.dom().contains(k) && prev[k] == s);
            lemma_with_sensors_values_from(ss.drop_last(), s);
            let i = choose|i: int| 0 <= i < ss.drop_last().len() && ss.drop_last()[i] == s;
            assert(ss[i] == s);
        }
    }
}

/// Reading `r` is reported under the sensor named `name`.
pub open spec fn reading_named(r: Reading, name: Seq<char>) -> bool {
    r.sensor matches SensorChoice::Named(n) && n@ == name
}

/// Each figure NVML reported is reported under its own sensor and is that figure: the memory
/// clock of `m` megahertz under `memory_clock` as `m * 1_000_000` hertz, whatever the
/// graphics clock is, and the graphics clock under `graphics_clock` likewise; the
/// temperature under `gpu_temperature` and the power draw under `power_draw`. A figure NVML
/// did not report has no reading.
pub proof fn law_nvml_readings_keep_their_figures(f: NvmlReadings, rs: Seq<Reading>)
    requires
        follows_plan(rs, nvml_plan(f)),
    ensures
        forall|k: int|
            0 <= k < rs.len() && #[trigger] reading_named(rs[k], "memory_clock"@) ==> (f.memory_clock_mhz matches Some(
                m,
            ) && rs[k].value == MetricValue::Frequency(Frequency { hertz: (m * 1_000_000) as u64 })
                && rs[k].metric_type == MetricType::Frequency && rs[k].unit == Unit::Megahertz),
        forall|k: int|
            0 <= k < rs.len() && #[trigger] reading_named(rs[k], "graphics_clock"@) ==> (f.graphics_clock_mhz matches Some(
                g,
            ) && rs[k].value == MetricValue::Frequency(Frequency { hertz: (g * 1_000_000) as u64 })
                && rs[k].metric_type == MetricType::Frequency && rs[k].unit == Unit::Megahertz),
        forall|k: int|
            0 <= k < rs.len() && #[trigger] reading_named(rs[k], "power_draw"@) ==> (f.power matches Some(w)
                && rs[k].value == MetricValue::Power(w) && rs[k].unit == Unit::Watts),
        forall|k: int|
            0 <= k < rs.len() && #[trigger] reading_named(rs[k], "gpu_temperature"@) ==> (f.temperature_celsius matches Some(
                c,
            ) && rs[k].value == MetricValue::Temperature(whole_temperature(c)) && rs[k].unit == Unit::Celsius),
        f.memory_clock_mhz is Some ==> exists|k: int| 0 <= k < rs.len() && #[trigger] reading_named(rs[k], "memory_clock"@),
        f.graphics_clock_mhz is Some ==> exists|k: int|
            0 <= k < rs.len() && #[trigger] reading_named(rs[k], "graphics_clock"@),
        f.power is Some ==> exists|k: int| 0 <= k < rs.len() && #[trigger] reading_named(rs[k], "power_draw"@),
        f.temperature_celsius is Some ==> exists|k: int|
            0 <= k < rs.len() && #[trigger] reading_named(rs[k], "gpu_temperature"@),
{
    let (u, mem, t, pw, gc, mc) = (
        nvml_utilization_piece(f),
        nvml_memory_piece(f),
        nvml_temperature_piece(f),
        nvml_power_piece(f),
        nvml_graphics_clock_piece(f),
        nvml_memory_clock_piece(f),
    );
    lemma_nvml_plan_pieces(f);
    lemma_nvml_piece_names(f);
    let e = Seq::<PlannedReading>::empty();
    assert(name_free(e, "memory_clock"@));
    lemma_name_free_concat(u, mem, "memory_clock"@);
    lemma_name_free_concat(u + mem, t, "memory_clock"@);
    lemma_name_free_concat(u + mem + t, pw, "memory_clock"@);
    lemma_name_free_concat(u + mem + t + pw, gc, "memory_clock"@);
    assert(u + mem + t + pw + gc + mc =~= (u + mem + t + pw + gc) + mc + e);
    lemma_only_entry_named(u + mem + t + pw + gc, mc, e, "memory_clock"@, rs);
    lemma_name_free_concat(u, mem, "graphics_clock"@);
    lemma_name_free_concat(u + mem, t, "graphics_clock"@);
    lemma_name_free_concat(u + mem + t, pw, "graphics_clock"@);
    assert(u + mem + t + pw + gc + mc =~= (u + mem + t + pw) + gc + mc);
    lemma_only_entry_named(u + mem + t + pw, gc, mc, "graphics_clock"@, rs);
    lemma_name_free_concat(u, mem, "power_draw"@);
    lemma_name_free_concat(u + mem, t, "power_draw"@);
    lemma_name_free_concat(gc, mc, "power_draw"@);
    assert(u + mem + t + pw + gc + mc =~= (u + mem + t) + pw + (gc + mc));
    lemma_only_entry_named(u + mem + t, pw, gc + mc, "power_draw"@, rs);
    lemma_name_free_concat(u, mem, "gpu_temperature"@);
    lemma_name_free_concat(pw, gc, "gpu_temperature"@);
    lemma_name_free_concat(pw + gc, mc, "gpu_temperature"@);
    assert(u + mem + t + pw + gc + mc =~= (u + mem) + t + (pw + gc + mc));
    lemma_only_entry_named(u + mem, t, pw + gc + mc, "gpu_temperature"@, rs);
    if f.memory_clock_mhz is Some {
        let k = (u + mem + t + pw + gc).len() + 0int;
        assert(is_planned(rs[k], mc[0]));
        assert(reading_named(rs[k], "memory_clock"@));
    }
    if f.graphics_clock_mhz is Some {
        let k = (u + mem + t + pw).len() + 0int;
        assert(is_planned(rs[k], gc[0]));
        assert(reading_named(rs[k], "graphics_clock"@));
    }
    if f.power is Some {
        let k = (u + mem + t).len() + 0int;
        assert(is_planned(rs[k], pw[0]));
        assert(reading_named(rs[k], "power_draw"@));
    }
    if f.temperature_celsius is Some {
        let k = (u + mem).len() + 0int;
        assert(is_planned(rs[k], t[0]));
        assert(reading_named(rs[k], "gpu_temperature"@));
    }
}

/// The utilization readings of an NVML collection.
pub open spec fn nvml_utilization_piece(f: NvmlReadings) -> Seq<PlannedReading> {
    match f.utilization {
        Some((g, m)) => seq![
            (Some("gpu_utilization"@), MetricType::Utilization, MetricValue::Utilization(utilization_or_zero(g)), Unit::Percent),
            (Some("memory_utilization"@), MetricType::Utilization, MetricValue::Utilization(utilization_or_zero(m)), Unit::Percent),
        ],
        None => Seq::empty(),
    }
}

/// The memory reading of an NVML collection.
pub open spec fn nvml_memory_piece(f: NvmlReadings) -> Seq<PlannedReading> {
    match f.memory {
        Some((used, total)) => seq![
            (None, MetricType::MemoryUsed, MetricValue::Memory(memory_stats_of(used, total)), Unit::Bytes),
        ],
        None => Seq::empty(),
    }
}

/// The temperature reading of an NVML collection.
pub open spec fn nvml_temperature_piece(f: NvmlReadings) -> Seq<PlannedReading> {
    match f.temperature_celsius {
        Some(c) => seq![
            (Some("gpu_temperature"@), MetricType::Temperature, MetricValue::Temperature(whole_temperature(c)), Unit::Celsius),
        ],
        None => Seq::empty(),
    }
}

/// The power reading of an NVML collection.
pub open spec fn nvml_power_piece(f: NvmlReadings) -> Seq<PlannedReading> {
    match f.power {
        Some(w) => seq![(Some("power_draw"@), MetricType::Power, MetricValue::Power(w), Unit::Watts)],
        None => Seq::empty(),
    }
}

/// The graphics clock reading of an NVML collection.
pub open spec fn nvml_graphics_clock_piece(f: NvmlReadings) -> Seq<PlannedReading> {
    match f.graphics_clock_mhz {
        Some(mhz) => seq![
            (Some("graphics_clock"@), MetricType::Frequency, MetricValue::Frequency(megahertz(mhz)), Unit::Megahertz),
        ],
        None => Seq::empty(),
    }
}

/// The memory clock reading of an NVML collection.
pub open spec fn nvml_memory_clock_piece(f: NvmlReadings) -> Seq<PlannedReading> {
    match f.memory_clock_mhz {
        Some(mhz) => seq![
            (Some("memory_clock"@), MetricType::Frequency, MetricValue::Frequency(megahertz(mhz)), Unit::Megahertz),
        ],
        None => Seq::empty(),
    }
}

proof fn lemma_nvml_plan_pieces(f: NvmlReadings)
    ensures
        nvml_plan(f) == nvml_utilization_piece(f) + nvml_memory_piece(f) + nvml_temperature_piece(f)
            + nvml_power_piece(f) + nvml_graphics_clock_piece(f) + nvml_memory_clock_piece(f),
{
    let u = nvml_utilization_piece(f);
    let mem = nvml_memory_piece(f);
    let t = nvml_temperature_piece(f);
    let pw = nvml_power_piece(f);
    let gc = nvml_graphics_clock_piece(f);
    let mc = nvml_memory_clock_piece(f);
    assert(nvml_plan(f) =~= u + mem + t + pw + gc + mc);
}

proof fn lemma_single_name_free(e: PlannedReading, name: Seq<char>)
    requires
        e.0 != Some(name),
    ensures
        name_free(seq![e], name),
        name_free(Seq::<PlannedReading>::empty(), name),
{
}

proof fn lemma_nvml_piece_names(f: NvmlReadings)
    ensures
        name_free(nvml_utilization_piece(f), "memory_clock"@),
        name_free(nvml_utilization_piece(f), "graphics_clock"@),
        name_free(nvml_utilization_piece(f), "power_draw"@),
        name_free(nvml_utilization_piece(f), "gpu_temperature"@),
        name_free(nvml_memory_piece(f), "memory_clock"@),
        name_free(nvml_memory_piece(f), "graphics_clock"@),
        name_free(nvml_memory_piece(f), "power_draw"@),
        name_free(nvml_memory_piece(f), "gpu_temperature"@),
        name_free(nvml_temperature_piece(f), "memory_clock"@),
        name_free(nvml_temperature_piece(f), "graphics_clock"@),
        name_free(nvml_temperature_piece(f), "power_draw"@),
        name_free(nvml_power_piece(f), "memory_clock"@),
        name_free(nvml_power_piece(f), "graphics_clock"@),
        name_free(nvml_power_piece(f), "gpu_temperature"@),
        name_free(nvml_graphics_clock_piece(f), "memory_clock"@),
        name_free(nvml_graphics_clock_piece(f), "power_draw"@),
        name_free(nvml_graphics_clock_piece(f), "gpu_temperature"@),
        name_free(nvml_memory_clock_piece(f), "graphics_clock"@),
        name_free(nvml_memory_clock_piece(f), "power_draw"@),
        name_free(nvml_memory_clock_piece(f), "gpu_temperature"@),
{
    reveal_strlit("gpu_utilization");
    reveal_strlit("memory_utilization");
    reveal_strlit("gpu_temperature");
    reveal_strlit("power_draw");
    reveal_strlit("graphics_clock");
    reveal_strlit("memory_clock");
    assert("gpu_utilization"@[4] != "gpu_temperature"@[4]);
    let u = nvml_utilization_piece(f);
    assert forall|k: int| 0 <= k < u.len() implies (#[trigger] u[k]).0 != Some("memory_clock"@) && u[k].0 != Some(
        "graphics_clock"@,
    ) && u[k].0 != Some("power_draw"@) && u[k].0 != Some("gpu_temperature"@) by {
        assert(u[k].0 == Some("gpu_utilization"@) || u[k].0 == Some("memory_utilization"@));
    }
    assert("power_draw"@.len() == 10 && "memory_clock"@.len() == 12 && "graphics_clock"@.len() == 14
        && "gpu_temperature"@.len() == 15);
    assert("power_draw"@ != "memory_clock"@ && "power_draw"@ != "graphics_clock"@ && "power_draw"@
        != "gpu_temperature"@);
    assert("graphics_clock"@ != "memory_clock"@ && "graphics_clock"@ != "gpu_temperature"@);
    assert("memory_clock"@ != "gpu_temperature"@);
    let t = nvml_temperature_piece(f);
    let pw = nvml_power_piece(f);
    let gc = nvml_graphics_clock_piece(f);
    let mc = nvml_memory_clock_piece(f);
    assert forall|k: int| 0 <= k < t.len() implies (#[trigger] t[k]).0 == Some("gpu_temperature"@) by {}
    assert forall|k: int| 0 <= k < pw.len() implies (#[trigger] pw[k]).0 == Some("power_draw"@) by {}
    assert forall|k: int| 0 <= k < gc.len() implies (#[trigger] gc[k]).0 == Some("graphics_clock"@) by {}
    assert forall|k: int| 0 <= k < mc.len() implies (#[trigger] mc[k]).0 == Some("memory_clock"@) by {}
}

/// NVML's GPU and memory utilization are reported under `gpu_utilization` and
/// `memory_utilization`, each as its own whole percent (zero when above a hundred), never
/// swapped.
pub proof fn law_nvml_utilization_readings(f: NvmlReadings, rs: Seq<Reading>)
    requires
        follows_plan(rs, nvml_plan(f)),
    ensures
        forall|k: int|
            0 <= k < rs.len() && #[trigger] reading_named(rs[k], "gpu_utilization"@) ==> (f.utilization matches Some(
                (g, m),
            ) && rs[k].value == MetricValue::Utilization(
                if g <= 100 {
                    whole_utilization(g)
                } else {
                    Utilization { percent: F64Bits(0) }
                },
            )),
        forall|k: int|
            0 <= k < rs.len() && #[trigger] reading_named(rs[k], "memory_utilization"@) ==> (
            f.utilization matches Some((g, m)) && rs[k].value == MetricValue::Utilization(
                if m <= 100 {
                    whole_utilization(m)
                } else {
                    Utilization { percent: F64Bits(0) }
                },
            )),
{
    let (u, mem, t, pw, gc, mc) = (
        nvml_utilization_piece(f),
        nvml_memory_piece(f),
        nvml_temperature_piece(f),
        nvml_power_piece(f),
        nvml_graphics_clock_piece(f),
        nvml_memory_clock_piece(f),
    );
    lemma_nvml_plan_pieces(f);
    lemma_nvml_other_names(f);
    let rest = mem + t + pw + gc + mc;
    lemma_name_free_concat(mem, t, "gpu_utilization"@);
    lemma_name_free_concat(mem + t, pw, "gpu_utilization"@);
    lemma_name_free_concat(mem + t + pw, gc, "gpu_utilization"@);
    lemma_name_free_concat(mem + t + pw + gc, mc, "gpu_utilization"@);
    lemma_name_free_concat(mem, t, "memory_utilization"@);
    lemma_name_free_concat(mem + t, pw, "memory_utilization"@);
    lemma_name_free_concat(mem + t + pw, gc, "memory_utilization"@);
    lemma_name_free_concat(mem + t + pw + gc, mc, "memory_utilization"@);
    let e = Seq::<PlannedReading>::empty();
    assert(u + mem + t + pw + gc + mc =~= e + u + rest);
    lemma_only_entry_named(e, u, rest, "gpu_utilization"@, rs);
    lemma_only_entry_named(e, u, rest, "memory_utilization"@, rs);
    reveal_strlit("gpu_utilization");
    reveal_strlit("memory_utilization");
    assert("gpu_utilization"@.len() == 15 && "memory_utilization"@.len() == 18);
}

/// Every figure NVML reported gives one reading, and nothing else does.
pub proof fn law_nvml_one_reading_per_figure(f: NvmlReadings, rs: Seq<Reading>)
    requires
        follows_plan(rs, nvml_plan(f)),
    ensures
        rs.len() == (if f.utilization is Some { 2int } else { 0 }) + (if f.memory is Some { 1int } else { 0 })
            + (if f.temperature_celsius is Some { 1int } else { 0 }) + (if f.power is Some { 1int } else { 0 })
            + (if f.graphics_clock_mhz is Some { 1int } else { 0 }) + (if f.memory_clock_mhz is Some {
            1int
        } else {
            0
        }),
{
    lemma_nvml_plan_pieces(f);
}

/// Reading `r` is the memory reading, reported under a sensor of type memory-used.
pub open spec fn is_memory_reading(r: Reading) -> bool {
    r.sensor == SensorChoice::OfType(MetricType::MemoryUsed)
}

/// The memory in use is reported under a sensor of its type, with the free bytes what is
/// left of the total; only the memory NVML reported is.
pub proof fn law_nvml_memory_reading(f: NvmlReadings, rs: Seq<Reading>)
    requires
        follows_plan(rs, nvml_plan(f)),
    ensures
        forall|k: int|
            0 <= k < rs.len() && #[trigger] is_memory_reading(rs[k]) ==> (f.memory matches Some((used, total))
                && rs[k].value == MetricValue::Memory(
                MemoryStats {
                    used_bytes: used,
                    total_bytes: total,
                    free_bytes: if used <= total { (total - used) as u64 } else { 0 },
                },
            )),
{
    let u = nvml_utilization_piece(f);
    let mem = nvml_memory_piece(f);
    let later = nvml_temperature_piece(f) + nvml_power_piece(f) + nvml_graphics_clock_piece(f)
        + nvml_memory_clock_piece(f);
    lemma_nvml_later_named(f);
    lemma_nvml_plan_pieces(f);
    let plan = nvml_plan(f);
    assert(plan =~= u + mem + later);
    assert forall|k: int| 0 <= k < rs.len() && #[trigger] is_memory_reading(rs[k]) implies (f.memory matches Some(
        (used, total),
    ) && rs[k].value == MetricValue::Memory(
        MemoryStats {
            used_bytes: used,
            total_bytes: total,
            free_bytes: if used <= total { (total - used) as u64 } else { 0 },
        },
    )) by {
        assert(is_planned(rs[k], plan[k]));
        let ul = u.len() as int;
        let ml = mem.len() as int;
        if k < ul {
            assert(plan[k] == u[k]);
        } else if k < ul + ml {
            assert(plan[k] == mem[k - ul]);
        } else {
            assert(plan[k] == later[k - ul - ml]);
        }
    }
}

proof fn lemma_nvml_later_named(f: NvmlReadings)
    ensures
        forall|k: int| 0 <= k < nvml_utilization_piece(f).len() ==> (#[trigger] nvml_utilization_piece(f)[k]).0 is Some,
        forall|j: int|
            0 <= j < (nvml_temperature_piece(f) + nvml_power_piece(f) + nvml_graphics_clock_piece(f)
                + nvml_memory_clock_piece(f)).len() ==> (#[trigger] (nvml_temperature_piece(f) + nvml_power_piece(f)
                + nvml_graphics_clock_piece(f) + nvml_memory_clock_piece(f))[j]).0 is Some,
{
    let t = nvml_temperature_piece(f);
    let pw = nvml_power_piece(f);
    let gc = nvml_graphics_clock_piece(f);
    let mc = nvml_memory_clock_piece(f);
    let later = t + pw + gc + mc;
    assert forall|j: int| 0 <= j < later.len() implies (#[trigger] later[j]).0 is Some by {
        let tl = t.len() as int;
        let pl = pw.len() as int;
        let gl = gc.len() as int;
        if j < tl {
            assert(later[j] == t[j]);
        } else if j < tl + pl {
            assert(later[j] == pw[j - tl]);
        } else if j < tl + pl + gl {
            assert(later[j] == gc[j - tl - pl]);
        } else {
            assert(later[j] == mc[j - tl - pl - gl]);
        }
    }
}

proof fn lemma_nvml_other_names(f: NvmlReadings)
    ensures
        name_free(nvml_memory_piece(f), "gpu_utilization"@),
        name_free(nvml_memory_piece(f), "memory_utilization"@),
        name_free(nvml_temperature_piece(f), "gpu_utilization"@),
        name_free(nvml_temperature_piece(f), "memory_utilization"@),
        name_free(nvml_power_piece(f), "gpu_utilization"@),
        name_free(nvml_power_piece(f), "memory_utilization"@),
        name_free(nvml_graphics_clock_piece(f), "gpu_utilization"@),
        name_free(nvml_graphics_clock_piece(f), "memory_utilization"@),
        name_free(nvml_memory_clock_piece(f), "gpu_utilization"@),
        name_free(nvml_memory_clock_piece(f), "memory_utilization"@),
        forall|k: int| 0 <= k < nvml_utilization_piece(f).len() ==> (#[trigger] nvml_utilization_piece(f)[k]).0 is Some,
        forall|k: int| 0 <= k < nvml_temperature_piece(f).len() ==> (#[trigger] nvml_temperature_piece(f)[k]).0 is Some,
        forall|k: int| 0 <= k < nvml_power_piece(f).len() ==> (#[trigger] nvml_power_piece(f)[k]).0 is Some,
        forall|k: int| 0 <= k < nvml_graphics_clock_piece(f).len() ==> (#[trigger] nvml_graphics_clock_piece(f)[k]).0 is Some,
        forall|k: int| 0 <= k < nvml_memory_clock_piece(f).len() ==> (#[trigger] nvml_memory_clock_piece(f)[k]).0 is Some,
{
    reveal_strlit("gpu_utilization");
    reveal_strlit("memory_utilization");
    reveal_strlit("gpu_temperature");
    reveal_strlit("power_draw");
    reveal_strlit("graphics_clock");
    reveal_strlit("memory_clock");
    assert("gpu_utilization"@[4] != "gpu_temperature"@[4]);
    assert("gpu_utilization"@.len() == 15 && "memory_utilization"@.len() == 18 && "power_draw"@.len() == 10
        && "memory_clock"@.len() == 12 && "graphics_clock"@.len() == 14 && "gpu_temperature"@.len() == 15);
    let t = nvml_temperature_piece(f);
    let pw = nvml_power_piece(f);
    let gc = nvml_graphics_clock_piece(f);
    let mc = nvml_memory_clock_piece(f);
    assert forall|k: int| 0 <= k < t.len() implies (#[trigger] t[k]).0 == Some("gpu_temperature"@) by {}
    assert forall|k: int| 0 <= k < pw.len() implies (#[trigger] pw[k]).0 == Some("power_draw"@) by {}
    assert forall|k: int| 0 <= k < gc.len() implies (#[trigger] gc[k]).0 == Some("graphics_clock"@) by {}
    assert forall|k: int| 0 <= k < mc.len() implies (#[trigger] mc[k]).0 == Some("memory_clock"@) by {}
}

/// No planned reading in `p` goes under the sensor named `name`.
pub open spec fn name_free(p: Seq<PlannedReading>, name: Seq<char>) -> bool {
    forall|k: int| 0 <= k < p.len() ==> (#[trigger] p[k]).0 != Some(name)
}

proof fn lemma_name_free_concat(a: Seq<PlannedReading>, b: Seq<PlannedReading>, name: Seq<char>)
    requires
        name_free(a, name),
        name_free(b, name),
    ensures
        name_free(a + b, name),
{
    assert forall|k: int| 0 <= k < (a + b).len() implies (#[trigger] (a + b)[k]).0 != Some(name) by {
        if k < a.len() {
            assert((a + b)[k] == a[k]);
        } else {
            assert((a + b)[k] == b[k - a.len()]);
        }
    }
}

/// Readings that follow `pre + mid + post`, where only `mid` names the sensor `name`: a
/// reading under that sensor is one of `mid`, and every entry of `mid` is read.
proof fn lemma_only_entry_named(
    pre: Seq<PlannedReading>,
    mid: Seq<PlannedReading>,
    post: Seq<PlannedReading>,
    name: Seq<char>,
    rs: Seq<Reading>,
)
    requires
        name_free(pre, name),
        name_free(post, name),
        follows_plan(rs, pre + mid + post),
    ensures
        forall|k: int|
            0 <= k < rs.len() && #[trigger] reading_named(rs[k], name) ==> pre.len() <= k < pre.len() + mid.len()
                && is_planned(rs[k], mid[k - pre.len()]),
        forall|j: int| 0 <= j < mid.len() ==> is_planned(#[trigger] rs[pre.len() + j], mid[j]),
{
    let plan = pre + mid + post;
    assert forall|k: int| 0 <= k < rs.len() && #[trigger] reading_named(rs[k], name) implies pre.len() <= k
        < pre.len() + mid.len() && is_planned(rs[k], mid[k - pre.len()]) by {
        assert(is_planned(rs[k], plan[k]));
        if k < pre.len() {
            assert(plan[k] == pre[k]);
        } else if k >= pre.len() + mid.len() {
            assert(plan[k] == post[k - pre.len() - mid.len()]);
        } else {
            assert(plan[k] == mid[k - pre.len()]);
        }
    }
    assert forall|j: int| 0 <= j < mid.len() implies is_planned(#[trigger] rs[pre.len() + j], mid[j]) by {
        assert(is_planned(rs[pre.len() + j], plan[pre.len() + j]));
        assert(plan[pre.len() + j] == mid[j]);
    }
}

/// Collecting from an NVIDIA GPU that discovery made: the memory reading never finds a
/// sensor (the device's sensors hold none of type memory-used), so it goes under a fresh
/// sensor identifier; every other reading finds the GPU's sensor of its name (when its
/// sensors got distinct identifiers).
#[verifier::rlimit(40)]
pub proof fn law_nvml_collection_sensors(a: Accelerator, d: NvmlDeviceReport, f: NvmlReadings, rs: Seq<Reading>)
    requires
        nvml_accelerator_ok(a, d),
        a.sensors@.dom().len() == 6 + (if d.has_fan { 1int } else { 0int }) + (if d.has_encoder { 1int } else {
            0int
        }) + (if d.has_decoder { 1int } else { 0int }),
        follows_plan(rs, nvml_plan(f)),
    ensures
        forall|i: int|
            0 <= i < rs.len() ==> (has_chosen(a, #[trigger] rs[i].sensor) <==> !(rs[i].sensor is OfType)),
{
    let ss = choose|ss: Seq<Sensor>|
        nvml_sensors_ok(ss, a.id, d.has_fan, d.has_encoder, d.has_decoder) && a.sensors@ == with_sensors(
            Map::empty(),
            ss,
        );
    let plan = nvml_plan(f);
    lemma_with_sensors_contains(ss, 0);
    lemma_with_sensors_contains(ss, 1);
    lemma_with_sensors_contains(ss, 2);
    lemma_with_sensors_contains(ss, 3);
    lemma_with_sensors_contains(ss, 4);
    lemma_with_sensors_contains(ss, 5);
    assert forall|i: int| 0 <= i < rs.len() implies (has_chosen(a, #[trigger] rs[i].sensor) <==> !(
    rs[i].sensor is OfType)) by {
        assert(is_planned(rs[i], plan[i]));
        if rs[i].sensor is OfType {
            assert(plan[i].1 == MetricType::MemoryUsed);
            if has_chosen(a, rs[i].sensor) {
                let s = choose|s: Sensor| a.sensors@.values().contains(s) && chooses(rs[i].sensor, s);
                lemma_with_sensors_values_from(ss, s);
                let j = choose|j: int| 0 <= j < ss.len() && ss[j] == s;
                assert(same_metric_type(s.metric_type, MetricType::MemoryUsed));
                assert(false);
            }
        } else {
            let name = plan[i].0->0;
            assert(name == "gpu_utilization"@ || name == "memory_utilization"@ || name == "gpu_temperature"@
                || name == "power_draw"@ || name == "graphics_clock"@ || name == "memory_clock"@);
            if name == "gpu_utilization"@ {
                assert(chooses(rs[i].sensor, ss[0]));
            } else if name == "memory_utilization"@ {
                assert(chooses(rs[i].sensor, ss[1]));
            } else if name == "gpu_temperature"@ {
                assert(chooses(rs[i].sensor, ss[2]));
            } else if name == "power_draw"@ {
                assert(chooses(rs[i].sensor, ss[3]));
            } else if name == "graphics_clock"@ {
                assert(chooses(rs[i].sensor, ss[4]));
            } else {
                assert(chooses(rs[i].sensor, ss[5]));
            }
        }
    }
}

} // verus!
