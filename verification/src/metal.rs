//! Apple Silicon: GPU and Neural Engine detection, sensors, discovery and health.
//!
//! What the host reports (sysctl values, the CPU brand, the thermal state) is read by the
//! caller and handed in; these functions decide what it means.
use vstd::prelude::*;
use crate::aggregates::{freshly_discovered, no_versions_or_serial, Accelerator, PciInfo, discovery_event};
use crate::collection::{chooses, has_chosen, metrics_under_sensors, named_reading, reported_under_sensors, Reading, SensorChoice};
use crate::entities::{MetricValue, Metric, Sensor};
use crate::errors::DomainError;
use crate::ids::AcceleratorId;
use crate::ports::BackendHealth;
use crate::text::{contains_seq, decimal, has_prefix, str_contains, str_eq, str_starts_with};
use crate::value_objects::{
    memory_stats_of, whole_f64_bits, AcceleratorType, F64Bits, Labels, MemoryStats, MetricType, Power,
    Temperature, Unit, Utilization,
};

verus! {

/// Neural Engine generation.
#[derive(Debug, Clone, Copy, PartialEq, Eq, Structural)]
pub enum AneGeneration {
    /// A14/M1 (11 TOPS)
    Gen1,
    /// M1 Pro/Max/Ultra (11-22 TOPS)
    Gen2,
    /// M2 series (15.8 TOPS)
    Gen3,
    /// M3 series (18 TOPS)
    Gen4,
    /// M4 series (38 TOPS)
    Gen5,
    Unknown,
}

/// The Neural Engine generation of a machine model identifier.
pub open spec fn ane_generation_of(m: Seq<char>) -> AneGeneration {
    if m == "MacBookAir10,1"@ || m == "MacBookAir10,2"@ || m == "MacBookPro17,1"@ || m
        == "Macmini9,1"@ || m == "iMac21,1"@ || m == "iMac21,2"@ {
        AneGeneration::Gen1
    } else if m == "MacBookPro18,1"@ || m == "MacBookPro18,2"@ || m == "MacBookPro18,3"@ || m
        == "MacBookPro18,4"@ || m == "Mac13,1"@ || m == "Mac13,2"@ {
        AneGeneration::Gen2
    } else if m == "Mac14,2"@ || m == "Mac14,7"@ || m == "Mac14,5"@ || m == "Mac14,6"@ || m
        == "Mac14,8"@ || m == "Mac14,9"@ || m == "Mac14,15"@ || m == "Mac14,10"@ {
        AneGeneration::Gen3
    } else if m == "Mac15,3"@ || m == "Mac15,4"@ || m == "Mac15,5"@ || m == "Mac15,6"@ || m
        == "Mac15,7"@ || m == "Mac15,8"@ || m == "Mac15,9"@ || m == "Mac15,10"@ || m
        == "Mac15,11"@ || m == "Mac15,12"@ || m == "Mac15,13"@ {
        AneGeneration::Gen4
    } else if has_prefix(m, "Mac16,"@) {
        AneGeneration::Gen5
    } else {
        AneGeneration::Unknown
    }
}

/// The approximate Neural Engine core count of a generation.
pub open spec fn ane_core_count(g: AneGeneration) -> u32 {
    match g {
        AneGeneration::Gen5 => 32,
        _ => 16,
    }
}

/// The name `Debug` gives a generation.
pub open spec fn ane_generation_name(g: AneGeneration) -> Seq<char> {
    match g {
        AneGeneration::Gen1 => "Gen1"@,
        AneGeneration::Gen2 => "Gen2"@,
        AneGeneration::Gen3 => "Gen3"@,
        AneGeneration::Gen4 => "Gen4"@,
        AneGeneration::Gen5 => "Gen5"@,
        AneGeneration::Unknown => "Unknown"@,
    }
}

impl AneGeneration {
    /// The generation of the machine with model identifier `machine` (`hw.machine`).
    pub fn from_machine(machine: &str) -> (r: Self)
        ensures
            r == ane_generation_of(machine@),
    {
        if str_eq(machine, "MacBookAir10,1") || str_eq(machine, "MacBookAir10,2") || str_eq(
            machine,
            "MacBookPro17,1",
        ) || str_eq(machine, "Macmini9,1") || str_eq(machine, "iMac21,1") || str_eq(
            machine,
            "iMac21,2",
        ) {
            AneGeneration::Gen1
        } else if str_eq(machine, "MacBookPro18,1") || str_eq(machine, "MacBookPro18,2") || str_eq(
            machine,
            "MacBookPro18,3",
        ) || str_eq(machine, "MacBookPro18,4") || str_eq(machine, "Mac13,1") || str_eq(
            machine,
            "Mac13,2",
        ) {
            AneGeneration::Gen2
        } else if str_eq(machine, "Mac14,2") || str_eq(machine, "Mac14,7") || str_eq(
            machine,
            "Mac14,5",
        ) || str_eq(machine, "Mac14,6") || str_eq(machine, "Mac14,8") || str_eq(machine, "Mac14,9")
            || str_eq(machine, "Mac14,15") || str_eq(machine, "Mac14,10") {
            AneGeneration::Gen3
        } else if str_eq(machine, "Mac15,3") || str_eq(machine, "Mac15,4") || str_eq(
            machine,
            "Mac15,5",
        ) || str_eq(machine, "Mac15,6") || str_eq(machine, "Mac15,7") || str_eq(machine, "Mac15,8")
            || str_eq(machine, "Mac15,9") || str_eq(machine, "Mac15,10") || str_eq(
            machine,
            "Mac15,11",
        ) || str_eq(machine, "Mac15,12") || str_eq(machine, "Mac15,13") {
            AneGeneration::Gen4
        } else if str_starts_with(machine, "Mac16,") {
            AneGeneration::Gen5
        } else {
            AneGeneration::Unknown
        }
    }

    /// The approximate core count.
    pub fn core_count(&self) -> (r: u32)
        ensures
            r == ane_core_count(*self),
    {
        match self {
            AneGeneration::Gen5 => 32,
            _ => 16,
        }
    }

    /// The generation's name, as `Debug` writes it.
    pub fn debug_name(&self) -> (r: &'static str)
        ensures
            r@ == ane_generation_name(*self),
    {
        match self {
            AneGeneration::Gen1 => "Gen1",
            AneGeneration::Gen2 => "Gen2",
            AneGeneration::Gen3 => "Gen3",
            AneGeneration::Gen4 => "Gen4",
            AneGeneration::Gen5 => "Gen5",
            AneGeneration::Unknown => "Unknown",
        }
    }
}

impl Default for AneGeneration {
    fn default() -> (r: Self)
        ensures
            r == AneGeneration::Unknown,
    {
        AneGeneration::Unknown
    }
}

/// The Neural Engine generation of this machine, given its model identifier as read from
/// `hw.machine` (`None` when it could not be read, or off macOS).
pub fn detect_ane_generation(machine: Option<&str>) -> (r: AneGeneration)
    ensures
        r == match machine {
            Some(m) => ane_generation_of(m@),
            None => AneGeneration::Unknown,
        },
{
    match machine {
        Some(m) => AneGeneration::from_machine(m),
        None => AneGeneration::Unknown,
    }
}

/// The approximate GPU core count of a machine model identifier.
pub open spec fn gpu_cores_of(m: Seq<char>) -> u32 {
    if m == "MacBookAir10,1"@ || m == "MacBookAir10,2"@ {
        7
    } else if m == "MacBookPro17,1"@ {
        8
    } else if m == "MacBookPro18,1"@ || m == "MacBookPro18,2"@ || m == "MacBookPro18,3"@ || m
        == "MacBookPro18,4"@ {
        16
    } else if m == "Macmini9,1"@ || m == "iMac21,1"@ || m == "iMac21,2"@ {
        8
    } else if m == "Mac13,1"@ || m == "Mac13,2"@ {
        32
    } else if m == "Mac14,2"@ || m == "Mac14,7"@ {
        10
    } else if m == "Mac14,5"@ || m == "Mac14,6"@ {
        19
    } else if m == "Mac14,8"@ || m == "Mac14,9"@ {
        38
    } else if m == "Mac15,3"@ || m == "Mac15,4"@ {
        10
    } else if m == "Mac15,5"@ || m == "Mac15,6"@ {
        18
    } else if m == "Mac15,7"@ || m == "Mac15,8"@ || m == "Mac15,9"@ || m == "Mac15,10"@ || m
        == "Mac15,11"@ {
        40
    } else {
        8
    }
}

/// Estimates the GPU core count from the machine model identifier.
pub fn estimate_gpu_cores(machine: &str) -> (r: u32)
    ensures
        r == gpu_cores_of(machine@),
{
    if str_eq(machine, "MacBookAir10,1") || str_eq(machine, "MacBookAir10,2") {
        7
    } else if str_eq(machine, "MacBookPro17,1") {
        8
    } else if str_eq(machine, "MacBookPro18,1") || str_eq(machine, "MacBookPro18,2") || str_eq(
        machine,
        "MacBookPro18,3",
    ) || str_eq(machine, "MacBookPro18,4") {
        16
    } else if str_eq(machine, "Macmini9,1") || str_eq(machine, "iMac21,1") || str_eq(
        machine,
        "iMac21,2",
    ) {
        8
    } else if str_eq(machine, "Mac13,1") || str_eq(machine, "Mac13,2") {
        32
    } else if str_eq(machine, "Mac14,2") || str_eq(machine, "Mac14,7") {
        10
    } else if str_eq(machine, "Mac14,5") || str_eq(machine, "Mac14,6") {
        19
    } else if str_eq(machine, "Mac14,8") || str_eq(machine, "Mac14,9") {
        38
    } else if str_eq(machine, "Mac15,3") || str_eq(machine, "Mac15,4") {
        10
    } else if str_eq(machine, "Mac15,5") || str_eq(machine, "Mac15,6") {
        18
    } else if str_eq(machine, "Mac15,7") || str_eq(machine, "Mac15,8") || str_eq(
        machine,
        "Mac15,9",
    ) || str_eq(machine, "Mac15,10") || str_eq(machine, "Mac15,11") {
        40
    } else {
        8
    }
}

/// Whether the CPU brand string (`machdep.cpu.brand_string`) names Apple Silicon; `None`
/// when it could not be read, or off macOS.
pub fn is_apple_silicon(cpu_brand: Option<&str>) -> (r: bool)
    ensures
        r == (cpu_brand matches Some(b) && contains_seq(b@, "Apple"@)),
{
    match cpu_brand {
        Some(b) => str_contains(b, "Apple"),
        None => false,
    }
}

/// Whether Metal and the Neural Engine can be used: on macOS, with Apple Silicon.
pub open spec fn metal_available(on_macos: bool, apple_silicon: bool) -> bool {
    on_macos && apple_silicon
}

/// Neural Engine backend.
#[derive(Debug)]
pub struct AneBackend;

impl AneBackend {
    pub fn new() -> (r: Self) {
        AneBackend
    }

    /// The Neural Engine is present on a Mac with Apple Silicon (A14/M1 and later).
    pub fn is_available(on_macos: bool, apple_silicon: bool) -> (r: bool)
        ensures
            r == metal_available(on_macos, apple_silicon),
    {
        on_macos && apple_silicon
    }
}

impl Default for AneBackend {
    fn default() -> (r: Self) {
        AneBackend
    }
}

/// The Neural Engine's power draw in milliwatts for a thermal state: 1 W scaled down as the
/// machine throttles (`None` when the state could not be read).
pub open spec fn ane_power_milliwatts_of(thermal_state: Option<u32>) -> u32 {
    match thermal_state {
        Some(0) => 1000,
        Some(1) => 800,
        Some(2) => 500,
        Some(3) => 200,
        Some(_) => 1000,
        None => 0,
    }
}

/// The Neural Engine's temperature in degrees Celsius for a thermal state.
pub open spec fn ane_temperature_of(thermal_state: Option<u32>) -> u32 {
    match thermal_state {
        Some(0) => 45,
        Some(1) => 60,
        Some(2) => 75,
        Some(3) => 85,
        Some(_) => 50,
        None => 0,
    }
}

impl AneBackend {
    /// The estimated power draw (milliwatts) for the system's thermal state.
    pub fn ane_power_milliwatts(&self, thermal_state: Option<u32>) -> (r: u32)
        ensures
            r == ane_power_milliwatts_of(thermal_state),
    {
        match thermal_state {
            Some(0) => 1000,
            Some(1) => 800,
            Some(2) => 500,
            Some(3) => 200,
            Some(_) => 1000,
            None => 0,
        }
    }

    /// The estimated temperature (degrees Celsius) for the system's thermal state.
    pub fn ane_temperature_celsius(&self, thermal_state: Option<u32>) -> (r: u32)
        ensures
            r == ane_temperature_of(thermal_state),
    {
        match thermal_state {
            Some(0) => 45,
            Some(1) => 60,
            Some(2) => 75,
            Some(3) => 85,
            Some(_) => 50,
            None => 0,
        }
    }
}

/// GPU hardware information.
#[derive(Debug, Clone)]
pub struct GpuInfo {
    pub name: String,
    pub is_apple_silicon: bool,
    pub pci_slot: u32,
}

/// Metal GPU backend.
#[derive(Debug)]
pub struct MetalGpu;

/// The GPUs reported by the host: `hw.gpu.count` when it was read and is not zero, else
/// one Apple GPU on Apple Silicon and none elsewhere.
pub open spec fn detected_gpus_ok(gpu_count: Option<i32>, apple_silicon: bool, r: Seq<GpuInfo>) -> bool {
    match gpu_count {
        Some(c) if c != 0 => {
            &&& r.len() == (if c > 0 { c as int } else { 0 })
            &&& forall|i: int|
                0 <= i < r.len() ==> (#[trigger] r[i]).name@ == "GPU "@ + decimal(i as nat)
                    && r[i].is_apple_silicon == apple_silicon && r[i].pci_slot == i
        },
        _ => if apple_silicon {
            &&& r.len() == 1
            &&& r[0].name@ == "Apple GPU"@
            &&& r[0].is_apple_silicon
            &&& r[0].pci_slot == 0
        } else {
            r.len() == 0
        },
    }
}

impl MetalGpu {
    pub fn new() -> (r: Self) {
        MetalGpu
    }

    /// The GPUs of the host, from `hw.gpu.count` (`None` when it could not be read, or off
    /// macOS) and whether the host is Apple Silicon.
    pub fn detect_gpus(gpu_count: Option<i32>, apple_silicon: bool) -> (r: Vec<GpuInfo>)
        ensures
            detected_gpus_ok(gpu_count, apple_silicon, r@),
    {
        let mut gpus: Vec<GpuInfo> = Vec::new();
        match gpu_count {
            Some(c) if c != 0 => {
                let mut i: i32 = 0;
                while i < c
                    invariant
                        0 <= i,
                        c > 0 ==> i <= c,
                        c <= 0 ==> i == 0,
                        gpus@.len() == i,
                        forall|k: int|
                            0 <= k < i ==> (#[trigger] gpus@[k]).name@ == "GPU "@ + decimal(k as nat)
                                && gpus@[k].is_apple_silicon == apple_silicon && gpus@[k].pci_slot == k,
                    decreases c - i,
                {
                    let name = crate::text::with_decimal_suffix("GPU ", i as u64);
                    gpus.push(GpuInfo { name, is_apple_silicon: apple_silicon, pci_slot: i as u32 });
                    i = i + 1;
                }
            },
            _ => {
                if apple_silicon {
                    gpus.push(
                        GpuInfo {
                            name: String::from_str("Apple GPU"),
                            is_apple_silicon: true,
                            pci_slot: 0,
                        },
                    );
                }
            },
        }
        gpus
    }

    /// The GPU core count: `hw.gpu.core_count` when it was read and is positive, else an
    /// estimate from the model identifier `hw.machine`, else zero. GPUs that are not
    /// Apple Silicon report zero.
    pub fn get_gpu_core_count(&self, gpu: &GpuInfo, core_count: Option<i32>, machine: Option<&str>) -> (r:
        u32)
        ensures
            r == if !gpu.is_apple_silicon {
                0
            } else if core_count matches Some(c) && c > 0 {
                core_count->0 as u32
            } else if machine matches Some(m) {
                gpu_cores_of(machine->0@)
            } else {
                0
            },
    {
        if gpu.is_apple_silicon {
            if let Some(c) = core_count {
                if c > 0 {
                    return c as u32;
                }
            }
            if let Some(m) = machine {
                return estimate_gpu_cores(m);
            }
        }
        0
    }
}

impl Default for MetalGpu {
    fn default() -> (r: Self) {
        MetalGpu
    }
}

/// A sensor as the backend creates it: enabled, of the accelerator, with the given name,
/// metric type, unit and labels.
pub open spec fn sensor_is(
    s: Sensor,
    accel: AcceleratorId,
    name: Seq<char>,
    metric_type: MetricType,
    unit: Unit,
    labels: Map<Seq<char>, Seq<char>>,
) -> bool {
    &&& s.accelerator_id == accel
    &&& s.name@ == name
    &&& s.metric_type == metric_type
    &&& s.unit == unit
    &&& s.labels@ == labels
    &&& s.enabled
}

/// The label map `{source: src}`.
pub open spec fn source_labels(src: Seq<char>) -> Map<Seq<char>, Seq<char>> {
    Map::<Seq<char>, Seq<char>>::empty().insert("source"@, src)
}

/// The sensors of an Apple GPU.
pub open spec fn gpu_sensors_ok(ss: Seq<Sensor>, accel: AcceleratorId) -> bool {
    &&& ss.len() == 4
    &&& sensor_is(ss[0], accel, "gpu_utilization"@, MetricType::Utilization, Unit::Percent,
        source_labels("metal"@).insert("type"@, "gpu"@))
    &&& sensor_is(ss[1], accel, "memory_used"@, MetricType::MemoryUsed, Unit::Bytes,
        source_labels("metal"@).insert("type"@, "unified"@))
    &&& sensor_is(ss[2], accel, "gpu_temperature"@, MetricType::Temperature, Unit::Celsius,
        source_labels("metal"@))
    &&& sensor_is(ss[3], accel, "power_draw"@, MetricType::Power, Unit::Watts, source_labels("metal"@))
}

/// The sensors of the Neural Engine.
pub open spec fn ane_sensors_ok(ss: Seq<Sensor>, accel: AcceleratorId) -> bool {
    &&& ss.len() == 3
    &&& sensor_is(ss[0], accel, "ane_power"@, MetricType::Power, Unit::Watts, source_labels("ane"@))
    &&& sensor_is(ss[1], accel, "ane_utilization"@, MetricType::Utilization, Unit::Percent,
        source_labels("ane"@))
    &&& sensor_is(ss[2], accel, "ane_temperature"@, MetricType::Temperature, Unit::Celsius,
        source_labels("ane"@))
}

/// The map of sensors by identifier after adding `ss` in order to `m`.
pub open spec fn with_sensors(m: Map<u128, Sensor>, ss: Seq<Sensor>) -> Map<u128, Sensor>
    decreases ss.len(),
{
    if ss.len() == 0 {
        m
    } else {
        with_sensors(m, ss.drop_last()).insert(ss.last().id.0, ss.last())
    }
}

proof fn lemma_with_sensors_len(ss: Seq<Sensor>)
    ensures
        with_sensors(Map::empty(), ss).dom().finite(),
        with_sensors(Map::empty(), ss).dom().len() <= ss.len(),
    decreases ss.len(),
{
    if ss.len() > 0 {
        lemma_with_sensors_len(ss.drop_last());
        let prev = with_sensors(Map::empty(), ss.drop_last());
        assert(with_sensors(Map::empty(), ss).dom() =~= prev.dom().insert(ss.last().id.0));
    } else {
        assert(with_sensors(Map::empty(), ss).dom() =~= Set::<u128>::empty());
    }
}

/// When no two of `ss` share an identifier (the map holds as many sensors as `ss`), every
/// sensor of `ss` is among the values of the map.
pub proof fn lemma_with_sensors_contains(ss: Seq<Sensor>, i: int)
    requires
        0 <= i < ss.len(),
        with_sensors(Map::empty(), ss).dom().len() == ss.len(),
    ensures
        with_sensors(Map::empty(), ss).values().contains(ss[i]),
    decreases ss.len(),
{
    let prev = with_sensors(Map::empty(), ss.drop_last());
    let m = with_sensors(Map::empty(), ss);
    let k = ss.last().id.0;
    lemma_with_sensors_len(ss.drop_last());
    assert(m.dom() =~= prev.dom().insert(k));
    assert(!prev.dom().contains(k) && prev.dom().len() == ss.len() - 1) by {
        if prev.dom().contains(k) {
            assert(prev.dom().insert(k) =~= prev.dom());
        }
    }
    if i == ss.len() - 1 {
        assert(m.dom().contains(k) && m[k] == ss[i]);
    } else {
        lemma_with_sensors_contains(ss.drop_last(), i);
        assert(ss.drop_last()[i] == ss[i]);
        let k2 = choose|k2: u128| prev.dom().contains(k2) && prev[k2] == ss[i];
        assert(m.dom().contains(k2) && m[k2] == ss[i]);
    }
}

/// Collecting from an Apple GPU that discovery made reports every reading under one of the
/// GPU's own sensors (when its sensors got distinct identifiers).
pub proof fn law_gpu_collection_uses_discovered_sensors(
    a: Accelerator,
    gpu: GpuInfo,
    thermal_state: u32,
    used: u64,
    total: u64,
    rs: Seq<Reading>,
)
    requires
        gpu_accelerator_ok(a, gpu),
        a.sensors@.dom().len() == 4,
        gpu_readings_ok(rs, thermal_state, used, total),
    ensures
        forall|i: int| 0 <= i < rs.len() ==> has_chosen(a, #[trigger] rs[i].sensor),
{
    let ss = choose|ss: Seq<Sensor>| gpu_sensors_ok(ss, a.id) && a.sensors@ == with_sensors(Map::empty(), ss);
    lemma_with_sensors_contains(ss, 0);
    lemma_with_sensors_contains(ss, 1);
    lemma_with_sensors_contains(ss, 2);
    lemma_with_sensors_contains(ss, 3);
    assert(chooses(rs[0].sensor, ss[0]));
    assert(chooses(rs[1].sensor, ss[1]));
    assert(chooses(rs[2].sensor, ss[2]));
    assert(chooses(rs[3].sensor, ss[3]));
}

/// Collecting from a Neural Engine that discovery made reports every reading under one of
/// its own sensors (when its sensors got distinct identifiers).
pub proof fn law_ane_collection_uses_discovered_sensors(
    a: Accelerator,
    g: AneGeneration,
    thermal_state: Option<u32>,
    rs: Seq<Reading>,
)
    requires
        ane_accelerator_ok(a, g),
        a.sensors@.dom().len() == 3,
        ane_readings_ok(rs, thermal_state),
    ensures
        forall|i: int| 0 <= i < rs.len() ==> has_chosen(a, #[trigger] rs[i].sensor),
{
    let ss = choose|ss: Seq<Sensor>| ane_sensors_ok(ss, a.id) && a.sensors@ == with_sensors(Map::empty(), ss);
    lemma_with_sensors_contains(ss, 0);
    lemma_with_sensors_contains(ss, 1);
    lemma_with_sensors_contains(ss, 2);
    assert(chooses(rs[0].sensor, ss[0]));
    assert(chooses(rs[1].sensor, ss[2]));
    assert(chooses(rs[2].sensor, ss[1]));
}

fn sensor_with_labels(
    accel: AcceleratorId,
    name: &str,
    metric_type: MetricType,
    unit: Unit,
    labels: Labels,
) -> (r: Sensor)
    ensures
        sensor_is(r, accel, name@, metric_type, unit, labels@),
{
    Sensor::new(accel, name, metric_type, unit).with_labels(labels)
}

/// Adds `sensors` to an enabled accelerator, in order.
pub(crate) fn add_all_sensors(accel: &mut Accelerator, sensors: Vec<Sensor>)
    requires
        old(accel).enabled,
    ensures
        final(accel).sensors@ == with_sensors(old(accel).sensors@, sensors@),
        crate::aggregates::same_but_sensors(*final(accel), *old(accel)),
{
    let mut rest = sensors;
    let ghost all = sensors@;
    let ghost start = accel.sensors@;
    assert(all.subrange(0, 0) =~= Seq::<Sensor>::empty());
    while rest.len() > 0
        invariant
            accel.enabled,
            all.len() == rest@.len() + (all.len() - rest@.len()),
            rest@.len() <= all.len(),
            rest@ == all.subrange(all.len() - rest@.len(), all.len() as int),
            accel.sensors@ == with_sensors(start, all.subrange(0, all.len() - rest@.len())),
            crate::aggregates::same_but_sensors(*accel, *old(accel)),
        decreases rest@.len(),
    {
        let ghost done = all.len() - rest@.len();
        let sensor = rest.remove(0);
        assert(sensor == all[done]);
        let _ = accel.add_sensor(sensor);
        assert(all.subrange(0, done + 1).drop_last() =~= all.subrange(0, done));
        assert(rest@ =~= all.subrange(all.len() - rest@.len(), all.len() as int));
    }
    assert(all.subrange(0, all.len() as int) =~= all);
}

/// Metal backend for Apple GPUs and the Neural Engine.
#[derive(Debug)]
pub struct MetalBackend {
    gpu: MetalGpu,
    ane: AneBackend,
}

/// The GPU accelerator that discovery makes of `gpu`.
pub open spec fn gpu_accelerator_ok(a: Accelerator, gpu: GpuInfo) -> bool {
    &&& a.name@ == gpu.name@
    &&& a.accelerator_type == AcceleratorType::AppleGpu
    &&& a.backend_type@ == "metal"@
    &&& a.vendor@ == "Apple"@
    &&& a.model@ == gpu.name@
    &&& a.pci_info matches Some(p) && p.bus_id@ == "internal-"@ + decimal(gpu.pci_slot as nat)
        && p.domain == 0 && p.bus == 0 && p.device == gpu.pci_slot && p.function == 0
    &&& freshly_discovered(a)
    &&& no_versions_or_serial(a)
    &&& a.enabled
    &&& a.events@ == seq![discovery_event(a)]
    &&& exists|ss: Seq<Sensor>| gpu_sensors_ok(ss, a.id) && a.sensors@ == with_sensors(Map::empty(), ss)
}

/// The Neural Engine accelerator that discovery makes for generation `g`.
pub open spec fn ane_accelerator_ok(a: Accelerator, g: AneGeneration) -> bool {
    &&& a.name@ == "Apple Neural Engine ("@ + ane_generation_name(g) + ")"@
    &&& a.accelerator_type == AcceleratorType::AppleNeuralEngine
    &&& a.backend_type@ == "metal"@
    &&& a.vendor@ == "Apple"@
    &&& a.model@ == a.name@
    &&& a.pci_info is None
    &&& freshly_discovered(a)
    &&& no_versions_or_serial(a)
    &&& a.enabled
    &&& a.events@ == seq![discovery_event(a)]
    &&& exists|ss: Seq<Sensor>| ane_sensors_ok(ss, a.id) && a.sensors@ == with_sensors(Map::empty(), ss)
}

/// The health of the Metal backend: off macOS or off Apple Silicon it is unhealthy; else it
/// follows the thermal state (`None` when it could not be read).
pub open spec fn metal_health_of(on_macos: bool, apple_silicon: bool, thermal_state: Option<u32>) -> BackendHealth {
    if !on_macos {
        BackendHealth::Unhealthy { reason: "Metal not available on this platform" }
    } else if !apple_silicon {
        BackendHealth::Unhealthy { reason: "Apple Silicon not detected" }
    } else {
        match thermal_state {
            Some(2) => BackendHealth::Degraded { reason: "Thermal throttling active" },
            Some(3) => BackendHealth::Unhealthy { reason: "Critical thermal state" },
            Some(_) => BackendHealth::Healthy,
            None => BackendHealth::Degraded { reason: "Failed to query system metrics" },
        }
    }
}

/// Estimates for an Apple GPU from the thermal state, in whole units.
#[derive(Debug, Clone, Copy, PartialEq, Eq, Structural)]
pub struct ThermalEstimate {
    /// Utilization in percent
    pub utilization_percent: u32,
    /// Temperature in degrees Celsius
    pub temperature_celsius: u32,
    /// Power draw in watts
    pub power_watts: u32,
}

/// The GPU estimates for a thermal state.
pub open spec fn thermal_estimate_of(thermal_state: u32) -> ThermalEstimate {
    match thermal_state {
        0 => ThermalEstimate { utilization_percent: 30, temperature_celsius: 45, power_watts: 8 },
        1 => ThermalEstimate { utilization_percent: 60, temperature_celsius: 60, power_watts: 15 },
        2 => ThermalEstimate { utilization_percent: 80, temperature_celsius: 75, power_watts: 25 },
        3 => ThermalEstimate { utilization_percent: 95, temperature_celsius: 85, power_watts: 30 },
        _ => ThermalEstimate { utilization_percent: 30, temperature_celsius: 50, power_watts: 10 },
    }
}

impl MetalBackend {
    /// A backend on macOS with Apple Silicon; an error elsewhere.
    pub fn new(on_macos: bool, apple_silicon: bool) -> (r: Result<Self, DomainError>)
        ensures
            r is Ok <==> on_macos && apple_silicon,
            !on_macos ==> (r matches Err(DomainError::BackendError(m)) && m@
                == "Metal backend only available on macOS"@),
            on_macos && !apple_silicon ==> (r matches Err(DomainError::BackendError(m)) && m@
                == "Metal backend requires Apple Silicon"@),
    {
        if !on_macos {
            return Err(DomainError::BackendError(String::from_str("Metal backend only available on macOS")));
        }
        if !apple_silicon {
            return Err(DomainError::BackendError(String::from_str("Metal backend requires Apple Silicon")));
        }
        Ok(MetalBackend { gpu: MetalGpu::new(), ane: AneBackend::new() })
    }

    /// The backend is available on a Mac with Apple Silicon.
    pub fn is_available(on_macos: bool, apple_silicon: bool) -> (r: bool)
        ensures
            r == metal_available(on_macos, apple_silicon),
    {
        on_macos && apple_silicon
    }

    /// The sensors of an Apple GPU accelerator.
    pub fn create_gpu_sensors(&self, accel_id: AcceleratorId) -> (r: Vec<Sensor>)
        ensures
            gpu_sensors_ok(r@, accel_id),
    {
        let mut sensors: Vec<Sensor> = Vec::new();
        sensors.push(
            sensor_with_labels(
                accel_id,
                "gpu_utilization",
                MetricType::Utilization,
                Unit::Percent,
                Labels::new().with("source", "metal").with("type", "gpu"),
            ),
        );
        sensors.push(
            sensor_with_labels(
                accel_id,
                "memory_used",
                MetricType::MemoryUsed,
                Unit::Bytes,
                Labels::new().with("source", "metal").with("type", "unified"),
            ),
        );
        sensors.push(
            sensor_with_labels(
                accel_id,
                "gpu_temperature",
                MetricType::Temperature,
                Unit::Celsius,
                Labels::new().with("source", "metal"),
            ),
        );
        sensors.push(
            sensor_with_labels(
                accel_id,
                "power_draw",
                MetricType::Power,
                Unit::Watts,
                Labels::new().with("source", "metal"),
            ),
        );
        sensors
    }

    /// The sensors of a Neural Engine accelerator.
    pub fn create_ane_sensors(&self, accel_id: AcceleratorId) -> (r: Vec<Sensor>)
        ensures
            ane_sensors_ok(r@, accel_id),
    {
        let mut sensors: Vec<Sensor> = Vec::new();
        sensors.push(
            sensor_with_labels(
                accel_id,
                "ane_power",
                MetricType::Power,
                Unit::Watts,
                Labels::new().with("source", "ane"),
            ),
        );
        sensors.push(
            sensor_with_labels(
                accel_id,
                "ane_utilization",
                MetricType::Utilization,
                Unit::Percent,
                Labels::new().with("source", "ane"),
            ),
        );
        sensors.push(
            sensor_with_labels(
                accel_id,
                "ane_temperature",
                MetricType::Temperature,
                Unit::Celsius,
                Labels::new().with("source", "ane"),
            ),
        );
        sensors
    }

    /// The accelerators on this host: one per GPU in `gpus`, with the GPU sensors, then the
    /// Neural Engine of generation `ane` with its sensors when it is present.
    pub fn discover_accelerators(&self, gpus: &Vec<GpuInfo>, ane: Option<AneGeneration>) -> (r: Vec<
        Accelerator,
    >)
        ensures
            r@.len() == gpus@.len() + (if ane is Some { 1int } else { 0int }),
            forall|i: int| 0 <= i < gpus@.len() ==> gpu_accelerator_ok(#[trigger] r@[i], gpus@[i]),
            ane matches Some(g) ==> ane_accelerator_ok(r@[gpus@.len() as int], g),
    {
        let mut accelerators: Vec<Accelerator> = Vec::new();
        let n = gpus.len();
        let mut i: usize = 0;
        while i < n
            invariant
                n == gpus@.len(),
                i <= n,
                accelerators@.len() == i,
                forall|k: int| 0 <= k < i ==> gpu_accelerator_ok(#[trigger] accelerators@[k], gpus@[k]),
            decreases n - i,
        {
            let gpu = &gpus[i];
            let accel = Accelerator::new(
                gpu.name.as_str(),
                AcceleratorType::AppleGpu,
                "metal",
                "Apple",
                gpu.name.as_str(),
            );
            let pci = PciInfo {
                bus_id: crate::text::with_decimal_suffix("internal-", gpu.pci_slot as u64),
                domain: 0,
                bus: 0,
                device: gpu.pci_slot,
                function: 0,
            };
            let mut accel = accel.with_pci_info(pci);
            let sensors = self.create_gpu_sensors(accel.id);
            let ghost ss = sensors@;
            add_all_sensors(&mut accel, sensors);
            assert(gpu_sensors_ok(ss, accel.id));
            accelerators.push(accel);
            i = i + 1;
        }
        if let Some(g) = ane {
            let name = crate::text::concat3("Apple Neural Engine (", g.debug_name(), ")");
            let mut ane_accel = Accelerator::new(
                name.as_str(),
                AcceleratorType::AppleNeuralEngine,
                "metal",
                "Apple",
                name.as_str(),
            );
            let sensors = self.create_ane_sensors(ane_accel.id);
            let ghost ss = sensors@;
            add_all_sensors(&mut ane_accel, sensors);
            assert(ane_sensors_ok(ss, ane_accel.id));
            accelerators.push(ane_accel);
        }
        accelerators
    }

    /// The health of the backend, given the platform and the thermal state that
    /// `SystemMetrics::collect` reported (`None` when it failed).
    pub fn health_status(on_macos: bool, apple_silicon: bool, thermal_state: Option<u32>) -> (r:
        BackendHealth)
        ensures
            r == metal_health_of(on_macos, apple_silicon, thermal_state),
    {
        if !on_macos {
            return BackendHealth::Unhealthy { reason: "Metal not available on this platform" };
        }
        if !apple_silicon {
            return BackendHealth::Unhealthy { reason: "Apple Silicon not detected" };
        }
        match thermal_state {
            Some(2) => BackendHealth::Degraded { reason: "Thermal throttling active" },
            Some(3) => BackendHealth::Unhealthy { reason: "Critical thermal state" },
            Some(_) => BackendHealth::Healthy,
            None => BackendHealth::Degraded { reason: "Failed to query system metrics" },
        }
    }

    /// The utilization, temperature and power that a thermal state suggests for the GPU.
    pub fn thermal_estimate(thermal_state: u32) -> (r: ThermalEstimate)
        ensures
            r == thermal_estimate_of(thermal_state),
    {
        match thermal_state {
            0 => ThermalEstimate { utilization_percent: 30, temperature_celsius: 45, power_watts: 8 },
            1 => ThermalEstimate { utilization_percent: 60, temperature_celsius: 60, power_watts: 15 },
            2 => ThermalEstimate { utilization_percent: 80, temperature_celsius: 75, power_watts: 25 },
            3 => ThermalEstimate { utilization_percent: 95, temperature_celsius: 85, power_watts: 30 },
            _ => ThermalEstimate { utilization_percent: 30, temperature_celsius: 50, power_watts: 10 },
        }
    }
}

/// The utilization of `percent` whole percent.
pub open spec fn whole_utilization(percent: u32) -> Utilization {
    Utilization { percent: F64Bits(whole_f64_bits(percent as nat) as u64) }
}

/// The temperature of `celsius` whole degrees.
pub open spec fn whole_temperature(celsius: u32) -> Temperature {
    Temperature { celsius: F64Bits(whole_f64_bits(celsius as nat) as u64) }
}

/// The power of `watts` whole watts.
pub open spec fn whole_power(watts: u32) -> Power {
    Power { watts: F64Bits(whole_f64_bits(watts as nat) as u64) }
}

/// The readings of an Apple GPU collection: estimated utilization, the unified memory in
/// use, estimated temperature and estimated power, from the thermal state.
pub open spec fn gpu_readings_ok(rs: Seq<Reading>, thermal_state: u32, used: u64, total: u64) -> bool {
    let e = thermal_estimate_of(thermal_state);
    &&& rs.len() == 4
    &&& named_reading(rs[0], "gpu_utilization"@, MetricType::Utilization,
        MetricValue::Utilization(whole_utilization(e.utilization_percent)), Unit::Percent)
    &&& rs[1].sensor == SensorChoice::OfType(MetricType::MemoryUsed)
    &&& rs[1].metric_type == MetricType::MemoryUsed
    &&& rs[1].value == MetricValue::Memory(memory_stats_of(used, total))
    &&& rs[1].unit == Unit::Bytes
    &&& named_reading(rs[2], "gpu_temperature"@, MetricType::Temperature,
        MetricValue::Temperature(whole_temperature(e.temperature_celsius)), Unit::Celsius)
    &&& named_reading(rs[3], "power_draw"@, MetricType::Power,
        MetricValue::Power(whole_power(e.power_watts)), Unit::Watts)
}

/// The Neural Engine's estimated power for a thermal state: one watt scaled by 1.0, 0.8,
/// 0.5 or 0.2 as the machine throttles, or 0.0 when the state could not be read (the
/// doubles' bit patterns).
pub open spec fn ane_power_of(thermal_state: Option<u32>) -> Power {
    match thermal_state {
        Some(1) => Power { watts: F64Bits(0x3FE9_9999_9999_999A) },
        Some(2) => Power { watts: F64Bits(0x3FE0_0000_0000_0000) },
        Some(3) => Power { watts: F64Bits(0x3FC9_9999_9999_999A) },
        Some(_) => Power { watts: F64Bits(0x3FF0_0000_0000_0000) },
        None => Power { watts: F64Bits(0) },
    }
}

/// The Neural Engine's estimated utilization from its power draw in milliwatts.
pub open spec fn ane_utilization_of(power_milliwatts: u32) -> u32 {
    if power_milliwatts > 2000 {
        80
    } else if power_milliwatts > 1000 {
        50
    } else {
        20
    }
}

/// The readings of a Neural Engine collection: power, temperature and utilization.
pub open spec fn ane_readings_ok(rs: Seq<Reading>, thermal_state: Option<u32>) -> bool {
    &&& rs.len() == 3
    &&& named_reading(rs[0], "ane_power"@, MetricType::Power, MetricValue::Power(ane_power_of(thermal_state)),
        Unit::Watts)
    &&& named_reading(rs[1], "ane_temperature"@, MetricType::Temperature,
        MetricValue::Temperature(whole_temperature(ane_temperature_of(thermal_state))), Unit::Celsius)
    &&& named_reading(rs[2], "ane_utilization"@, MetricType::Utilization,
        MetricValue::Utilization(whole_utilization(ane_utilization_of(ane_power_milliwatts_of(thermal_state)))),
        Unit::Percent)
}

/// What a collection on a Metal accelerator reads.
#[derive(Debug, Clone, Copy, PartialEq, Eq, Structural)]
pub enum MetalSource {
    /// The system's thermal state and memory figures, for an Apple GPU
    SystemFigures,
    /// The Neural Engine's availability and the thermal state, for the Neural Engine
    NeuralEngine,
    /// Nothing: the Metal backend collects no metrics of other accelerators
    Nothing,
}

impl MetalBackend {
    /// What a collection on an accelerator of the given type reads.
    pub fn collection_source(accelerator_type: &AcceleratorType) -> (r: MetalSource)
        ensures
            r == (match accelerator_type {
                AcceleratorType::AppleGpu => MetalSource::SystemFigures,
                AcceleratorType::AppleNeuralEngine => MetalSource::NeuralEngine,
                _ => MetalSource::Nothing,
            }),
    {
        match accelerator_type {
            AcceleratorType::AppleGpu => MetalSource::SystemFigures,
            AcceleratorType::AppleNeuralEngine => MetalSource::NeuralEngine,
            _ => MetalSource::Nothing,
        }
    }

    /// The readings of an Apple GPU collection.
    pub fn gpu_readings(thermal_state: u32, used_memory: u64, total_memory: u64) -> (rs: Vec<Reading>)
        ensures
            gpu_readings_ok(rs@, thermal_state, used_memory, total_memory),
    {
        let e = MetalBackend::thermal_estimate(thermal_state);
        let util = match Utilization::from_whole_percent(e.utilization_percent) {
            Some(u) => u,
            None => Utilization::default(),
        };
        let mut rs: Vec<Reading> = Vec::new();
        rs.push(Reading {
            sensor: SensorChoice::Named(String::from_str("gpu_utilization")),
            metric_type: MetricType::Utilization,
            value: MetricValue::Utilization(util),
            unit: Unit::Percent,
        });
        rs.push(Reading {
            sensor: SensorChoice::OfType(MetricType::MemoryUsed),
            metric_type: MetricType::MemoryUsed,
            value: MetricValue::Memory(MemoryStats::new(used_memory, total_memory)),
            unit: Unit::Bytes,
        });
        rs.push(Reading {
            sensor: SensorChoice::Named(String::from_str("gpu_temperature")),
            metric_type: MetricType::Temperature,
            value: MetricValue::Temperature(Temperature::from_whole_celsius(e.temperature_celsius)),
            unit: Unit::Celsius,
        });
        rs.push(Reading {
            sensor: SensorChoice::Named(String::from_str("power_draw")),
            metric_type: MetricType::Power,
            value: MetricValue::Power(Power::from_whole_watts(e.power_watts)),
            unit: Unit::Watts,
        });
        proof {
            reveal_strlit("gpu_utilization");
            reveal_strlit("gpu_temperature");
            reveal_strlit("power_draw");
        }
        rs
    }

    /// The metrics of an Apple GPU for the system's thermal state and unified memory, each
    /// under the accelerator's sensor for it; a reading without a sensor is left out.
    pub fn gpu_metrics(accel: &Accelerator, thermal_state: u32, used_memory: u64, total_memory: u64) -> (r: Vec<
        Metric,
    >)
        ensures
            exists|rs: Seq<Reading>|
                #[trigger] gpu_readings_ok(rs, thermal_state, used_memory, total_memory) && reported_under_sensors(
                    r@,
                    *accel,
                    rs,
                ),
    {
        let rs = MetalBackend::gpu_readings(thermal_state, used_memory, total_memory);
        let ghost rv = rs@;
        let r = metrics_under_sensors(accel, rs);
        assert(gpu_readings_ok(rv, thermal_state, used_memory, total_memory));
        r
    }

    /// The readings of a Neural Engine collection for the system's thermal state.
    pub fn ane_readings(thermal_state: Option<u32>) -> (rs: Vec<Reading>)
        ensures
            ane_readings_ok(rs@, thermal_state),
    {
        let ane = AneBackend::new();
        let power = match thermal_state {
            Some(1) => Power { watts: F64Bits(0x3FE9_9999_9999_999A) },
            Some(2) => Power { watts: F64Bits(0x3FE0_0000_0000_0000) },
            Some(3) => Power { watts: F64Bits(0x3FC9_9999_9999_999A) },
            Some(_) => Power { watts: F64Bits(0x3FF0_0000_0000_0000) },
            None => Power { watts: F64Bits(0) },
        };
        let milliwatts = ane.ane_power_milliwatts(thermal_state);
        let percent: u32 = if milliwatts > 2000 {
            80
        } else if milliwatts > 1000 {
            50
        } else {
            20
        };
        let util = match Utilization::from_whole_percent(percent) {
            Some(u) => u,
            None => Utilization::default(),
        };
        let mut rs: Vec<Reading> = Vec::new();
        rs.push(Reading {
            sensor: SensorChoice::Named(String::from_str("ane_power")),
            metric_type: MetricType::Power,
            value: MetricValue::Power(power),
            unit: Unit::Watts,
        });
        rs.push(Reading {
            sensor: SensorChoice::Named(String::from_str("ane_temperature")),
            metric_type: MetricType::Temperature,
            value: MetricValue::Temperature(
                Temperature::from_whole_celsius(ane.ane_temperature_celsius(thermal_state)),
            ),
            unit: Unit::Celsius,
        });
        rs.push(Reading {
            sensor: SensorChoice::Named(String::from_str("ane_utilization")),
            metric_type: MetricType::Utilization,
            value: MetricValue::Utilization(util),
            unit: Unit::Percent,
        });
        proof {
            reveal_strlit("ane_power");
            reveal_strlit("ane_temperature");
            reveal_strlit("ane_utilization");
        }
        rs
    }

    /// The metrics of the Neural Engine: none when it is not available, else its power,
    /// temperature and utilization for the thermal state, each under the accelerator's sensor
    /// for it; a reading without a sensor is left out.
    pub fn ane_metrics(accel: &Accelerator, available: bool, thermal_state: Option<u32>) -> (r: Vec<Metric>)
        ensures
            !available ==> r@.len() == 0,
            available ==> exists|rs: Seq<Reading>|
                #[trigger] ane_readings_ok(rs, thermal_state) && reported_under_sensors(r@, *accel, rs),
    {
        if !available {
            return Vec::new();
        }
        let rs = MetalBackend::ane_readings(thermal_state);
        let ghost rv = rs@;
        let r = metrics_under_sensors(accel, rs);
        assert(ane_readings_ok(rv, thermal_state));
        r
    }
}

/// Factory for the Metal backend.
pub struct MetalBackendFactory;

impl MetalBackendFactory {
    /// The Metal backend when the host can run it.
    pub fn try_create(on_macos: bool, apple_silicon: bool) -> (r: Option<MetalBackend>)
        ensures
            r is Some <==> metal_available(on_macos, apple_silicon),
    {
        if MetalBackend::is_available(on_macos, apple_silicon) {
            match MetalBackend::new(on_macos, apple_silicon) {
                Ok(backend) => Some(backend),
                Err(_) => None,
            }
        } else {
            None
        }
    }
}

/// Memory figures from the virtual-memory page counts of the host, in bytes.
#[derive(Debug, Clone, Copy, PartialEq, Eq, Structural)]
pub struct VmStats {
    pub total_memory: u64,
    pub free_memory: u64,
    pub used_memory: u64,
}

/// The memory of the host from its page counts: wired, active and inactive pages are in
/// use, free pages are free, and all four make up the total.
pub fn vm_stats_from_pages(wire: u64, active: u64, inactive: u64, free: u64, page_size: u64) -> (r: VmStats)
    requires
        wire + active + inactive + free <= u64::MAX,
        (wire + active + inactive + free) * page_size <= u64::MAX,
    ensures
        r.total_memory == (wire + active + inactive + free) * page_size,
        r.free_memory == free * page_size,
        r.used_memory == (wire + active + inactive) * page_size,
{
    assert((wire + active + inactive) * page_size <= (wire + active + inactive + free) * page_size) by (nonlinear_arith);
    assert(free * page_size <= (wire + active + inactive + free) * page_size) by (nonlinear_arith);
    VmStats {
        total_memory: (wire + active + inactive + free) * page_size,
        free_memory: free * page_size,
        used_memory: (wire + active + inactive) * page_size,
    }
}

/// The factory makes a Metal backend exactly when the backend says it is available, on
/// every host: none off macOS, whatever the Apple Silicon detection reports.
pub proof fn law_factory_creates_exactly_when_available(on_macos: bool, apple_silicon: bool)
    ensures
        metal_available(on_macos, apple_silicon) <==> (on_macos && apple_silicon),
        !on_macos ==> !metal_available(on_macos, apple_silicon),
{
}

/// Every machine whose model identifier starts with `Mac16,` (the M4 Macs) has a
/// fifth-generation Neural Engine, with 32 cores; no other generation has 32.
pub proof fn law_m4_macs_have_gen5(m: Seq<char>)
    requires
        has_prefix(m, "Mac16,"@),
    ensures
        ane_generation_of(m) == AneGeneration::Gen5,
        ane_core_count(ane_generation_of(m)) == 32,
        forall|g: AneGeneration| ane_core_count(g) == 32 <==> g == AneGeneration::Gen5,
{
    reveal_strlit("Mac16,");
    reveal_strlit("MacBookAir10,1");
    reveal_strlit("MacBookAir10,2");
    reveal_strlit("MacBookPro17,1");
    reveal_strlit("Macmini9,1");
    reveal_strlit("iMac21,1");
    reveal_strlit("iMac21,2");
    reveal_strlit("MacBookPro18,1");
    reveal_strlit("MacBookPro18,2");
    reveal_strlit("MacBookPro18,3");
    reveal_strlit("MacBookPro18,4");
    reveal_strlit("Mac13,1");
    reveal_strlit("Mac13,2");
    reveal_strlit("Mac14,2");
    reveal_strlit("Mac14,7");
    reveal_strlit("Mac14,5");
    reveal_strlit("Mac14,6");
    reveal_strlit("Mac14,8");
    reveal_strlit("Mac14,9");
    reveal_strlit("Mac14,15");
    reveal_strlit("Mac14,10");
    reveal_strlit("Mac15,3");
    reveal_strlit("Mac15,4");
    reveal_strlit("Mac15,5");
    reveal_strlit("Mac15,6");
    reveal_strlit("Mac15,7");
    reveal_strlit("Mac15,8");
    reveal_strlit("Mac15,9");
    reveal_strlit("Mac15,10");
    reveal_strlit("Mac15,11");
    reveal_strlit("Mac15,12");
    reveal_strlit("Mac15,13");
    assert(m[0] == 'M' && m[3] == '1' && m[4] == '6') by {
        assert(m.subrange(0, 6)[0] == m[0]);
        assert(m.subrange(0, 6)[3] == m[3]);
        assert(m.subrange(0, 6)[4] == m[4]);
    }
}

/// The M1 Macs (MacBook Air 10,x, MacBook Pro 17,1, Mac mini 9,1, iMac 21,x) have a
/// first-generation Neural Engine.
pub proof fn law_m1_macs_have_gen1()
    ensures
        ane_generation_of("MacBookAir10,1"@) == AneGeneration::Gen1,
        ane_generation_of("MacBookAir10,2"@) == AneGeneration::Gen1,
        ane_generation_of("MacBookPro17,1"@) == AneGeneration::Gen1,
        ane_generation_of("Macmini9,1"@) == AneGeneration::Gen1,
        ane_generation_of("iMac21,1"@) == AneGeneration::Gen1,
        ane_generation_of("iMac21,2"@) == AneGeneration::Gen1,
{
    reveal_strlit("MacBookAir10,1");
    reveal_strlit("MacBookAir10,2");
    reveal_strlit("MacBookPro17,1");
    reveal_strlit("Macmini9,1");
    reveal_strlit("iMac21,1");
    reveal_strlit("iMac21,2");
}

/// The M1 Pro, Max and Ultra Macs (MacBook Pro 18,x, Mac 13,x) have a second-generation
/// Neural Engine.
pub proof fn law_m1_pro_macs_have_gen2()
    ensures
        ane_generation_of("MacBookPro18,1"@) == AneGeneration::Gen2,
        ane_generation_of("MacBookPro18,2"@) == AneGeneration::Gen2,
        ane_generation_of("MacBookPro18,3"@) == AneGeneration::Gen2,
        ane_generation_of("MacBookPro18,4"@) == AneGeneration::Gen2,
        ane_generation_of("Mac13,1"@) == AneGeneration::Gen2,
        ane_generation_of("Mac13,2"@) == AneGeneration::Gen2,
{
    reveal_strlit("MacBookAir10,1");
    reveal_strlit("MacBookAir10,2");
    reveal_strlit("MacBookPro17,1");
    reveal_strlit("Macmini9,1");
    reveal_strlit("iMac21,1");
    reveal_strlit("iMac21,2");
    reveal_strlit("MacBookPro18,1");
    reveal_strlit("MacBookPro18,2");
    reveal_strlit("MacBookPro18,3");
    reveal_strlit("MacBookPro18,4");
    reveal_strlit("Mac13,1");
    reveal_strlit("Mac13,2");
    // Each identifier differs from those of the earlier generations in length, or at the
    // position compared below.
    assert("MacBookAir10,1"@.len() == 14);
    assert("MacBookAir10,2"@.len() == 14);
    assert("MacBookPro17,1"@.len() == 14);
    assert("Macmini9,1"@.len() == 10);
    assert("iMac21,1"@.len() == 8);
    assert("iMac21,2"@.len() == 8);
    assert("MacBookPro18,1"@.len() == 14);
    assert("MacBookPro18,2"@.len() == 14);
    assert("MacBookPro18,3"@.len() == 14);
    assert("MacBookPro18,4"@.len() == 14);
    assert("Mac13,1"@.len() == 7);
    assert("Mac13,2"@.len() == 7);
    assert("MacBookPro18,1"@[7] != "MacBookAir10,1"@[7]);
    assert("MacBookPro18,1"@[7] != "MacBookAir10,2"@[7]);
    assert("MacBookPro18,1"@[11] != "MacBookPro17,1"@[11]);
    assert("MacBookPro18,2"@[7] != "MacBookAir10,1"@[7]);
    assert("MacBookPro18,2"@[7] != "MacBookAir10,2"@[7]);
    assert("MacBookPro18,2"@[11] != "MacBookPro17,1"@[11]);
    assert("MacBookPro18,3"@[7] != "MacBookAir10,1"@[7]);
    assert("MacBookPro18,3"@[7] != "MacBookAir10,2"@[7]);
    assert("MacBookPro18,3"@[11] != "MacBookPro17,1"@[11]);
    assert("MacBookPro18,4"@[7] != "MacBookAir10,1"@[7]);
    assert("MacBookPro18,4"@[7] != "MacBookAir10,2"@[7]);
    assert("MacBookPro18,4"@[11] != "MacBookPro17,1"@[11]);
}

/// The M2 Macs (Mac 14,x) have a third-generation Neural Engine.
pub proof fn law_m2_macs_have_gen3()
    ensures
        ane_generation_of("Mac14,2"@) == AneGeneration::Gen3,
        ane_generation_of("Mac14,7"@) == AneGeneration::Gen3,
        ane_generation_of("Mac14,5"@) == AneGeneration::Gen3,
        ane_generation_of("Mac14,6"@) == AneGeneration::Gen3,
        ane_generation_of("Mac14,8"@) == AneGeneration::Gen3,
        ane_generation_of("Mac14,9"@) == AneGeneration::Gen3,
        ane_generation_of("Mac14,15"@) == AneGeneration::Gen3,
        ane_generation_of("Mac14,10"@) == AneGeneration::Gen3,
{
    reveal_strlit("MacBookAir10,1");
    reveal_strlit("MacBookAir10,2");
    reveal_strlit("MacBookPro17,1");
    reveal_strlit("Macmini9,1");
    reveal_strlit("iMac21,1");
    reveal_strlit("iMac21,2");
    reveal_strlit("MacBookPro18,1");
    reveal_strlit("MacBookPro18,2");
    reveal_strlit("MacBookPro18,3");
    reveal_strlit("MacBookPro18,4");
    reveal_strlit("Mac13,1");
    reveal_strlit("Mac13,2");
    reveal_strlit("Mac14,2");
    reveal_strlit("Mac14,7");
    reveal_strlit("Mac14,5");
    reveal_strlit("Mac14,6");
    reveal_strlit("Mac14,8");
    reveal_strlit("Mac14,9");
    reveal_strlit("Mac14,15");
    reveal_strlit("Mac14,10");
    // Each identifier differs from those of the earlier generations in length, or at the
    // position compared below.
    assert("MacBookAir10,1"@.len() == 14);
    assert("MacBookAir10,2"@.len() == 14);
    assert("MacBookPro17,1"@.len() == 14);
    assert("Macmini9,1"@.len() == 10);
    assert("iMac21,1"@.len() == 8);
    assert("iMac21,2"@.len() == 8);
    assert("MacBookPro18,1"@.len() == 14);
    assert("MacBookPro18,2"@.len() == 14);
    assert("MacBookPro18,3"@.len() == 14);
    assert("MacBookPro18,4"@.len() == 14);
    assert("Mac13,1"@.len() == 7);
    assert("Mac13,2"@.len() == 7);
    assert("Mac14,2"@.len() == 7);
    assert("Mac14,7"@.len() == 7);
    assert("Mac14,5"@.len() == 7);
    assert("Mac14,6"@.len() == 7);
    assert("Mac14,8"@.len() == 7);
    assert("Mac14,9"@.len() == 7);
    assert("Mac14,15"@.len() == 8);
    assert("Mac14,10"@.len() == 8);
    assert("Mac14,2"@[4] != "Mac13,1"@[4]);
    assert("Mac14,2"@[4] != "Mac13,2"@[4]);
    assert("Mac14,7"@[4] != "Mac13,1"@[4]);
    assert("Mac14,7"@[4] != "Mac13,2"@[4]);
    assert("Mac14,5"@[4] != "Mac13,1"@[4]);
    assert("Mac14,5"@[4] != "Mac13,2"@[4]);
    assert("Mac14,6"@[4] != "Mac13,1"@[4]);
    assert("Mac14,6"@[4] != "Mac13,2"@[4]);
    assert("Mac14,8"@[4] != "Mac13,1"@[4]);
    assert("Mac14,8"@[4] != "Mac13,2"@[4]);
    assert("Mac14,9"@[4] != "Mac13,1"@[4]);
    assert("Mac14,9"@[4] != "Mac13,2"@[4]);
    assert("Mac14,15"@[0] != "iMac21,1"@[0]);
    assert("Mac14,15"@[0] != "iMac21,2"@[0]);
    assert("Mac14,10"@[0] != "iMac21,1"@[0]);
    assert("Mac14,10"@[0] != "iMac21,2"@[0]);
}

/// The M3 Macs (Mac 15,x) have a fourth-generation Neural Engine.
pub proof fn law_m3_macs_have_gen4()
    ensures
        ane_generation_of("Mac15,3"@) == AneGeneration::Gen4,
        ane_generation_of("Mac15,4"@) == AneGeneration::Gen4,
        ane_generation_of("Mac15,5"@) == AneGeneration::Gen4,
        ane_generation_of("Mac15,6"@) == AneGeneration::Gen4,
        ane_generation_of("Mac15,7"@) == AneGeneration::Gen4,
        ane_generation_of("Mac15,8"@) == AneGeneration::Gen4,
        ane_generation_of("Mac15,9"@) == AneGeneration::Gen4,
        ane_generation_of("Mac15,10"@) == AneGeneration::Gen4,
        ane_generation_of("Mac15,11"@) == AneGeneration::Gen4,
        ane_generation_of("Mac15,12"@) == AneGeneration::Gen4,
        ane_generation_of("Mac15,13"@) == AneGeneration::Gen4,
{
    reveal_strlit("MacBookAir10,1");
    reveal_strlit("MacBookAir10,2");
    reveal_strlit("MacBookPro17,1");
    reveal_strlit("Macmini9,1");
    reveal_strlit("iMac21,1");
    reveal_strlit("iMac21,2");
    reveal_strlit("MacBookPro18,1");
    reveal_strlit("MacBookPro18,2");
    reveal_strlit("MacBookPro18,3");
    reveal_strlit("MacBookPro18,4");
    reveal_strlit("Mac13,1");
    reveal_strlit("Mac13,2");
    reveal_strlit("Mac14,2");
    reveal_strlit("Mac14,7");
    reveal_strlit("Mac14,5");
    reveal_strlit("Mac14,6");
    reveal_strlit("Mac14,8");
    reveal_strlit("Mac14,9");
    reveal_strlit("Mac14,15");
    reveal_strlit("Mac14,10");
    reveal_strlit("Mac15,3");
    reveal_strlit("Mac15,4");
    reveal_strlit("Mac15,5");
    reveal_strlit("Mac15,6");
    reveal_strlit("Mac15,7");
    reveal_strlit("Mac15,8");
    reveal_strlit("Mac15,9");
    reveal_strlit("Mac15,10");
    reveal_strlit("Mac15,11");
    reveal_strlit("Mac15,12");
    reveal_strlit("Mac15,13");
    // Each identifier differs from those of the earlier generations in length, or at the
    // position compared below.
    assert("MacBookAir10,1"@.len() == 14);
    assert("MacBookAir10,2"@.len() == 14);
    assert("MacBookPro17,1"@.len() == 14);
    assert("Macmini9,1"@.len() == 10);
    assert("iMac21,1"@.len() == 8);
    assert("iMac21,2"@.len() == 8);
    assert("MacBookPro18,1"@.len() == 14);
    assert("MacBookPro18,2"@.len() == 14);
    assert("MacBookPro18,3"@.len() == 14);
    assert("MacBookPro18,4"@.len() == 14);
    assert("Mac13,1"@.len() == 7);
    assert("Mac13,2"@.len() == 7);
    assert("Mac14,2"@.len() == 7);
    assert("Mac14,7"@.len() == 7);
    assert("Mac14,5"@.len() == 7);
    assert("Mac14,6"@.len() == 7);
    assert("Mac14,8"@.len() == 7);
    assert("Mac14,9"@.len() == 7);
    assert("Mac14,15"@.len() == 8);
    assert("Mac14,10"@.len() == 8);
    assert("Mac15,3"@.len() == 7);
    assert("Mac15,4"@.len() == 7);
    assert("Mac15,5"@.len() == 7);
    assert("Mac15,6"@.len() == 7);
    assert("Mac15,7"@.len() == 7);
    assert("Mac15,8"@.len() == 7);
    assert("Mac15,9"@.len() == 7);
    assert("Mac15,10"@.len() == 8);
    assert("Mac15,11"@.len() == 8);
    assert("Mac15,12"@.len() == 8);
    assert("Mac15,13"@.len() == 8);
    assert("Mac15,3"@[4] != "Mac13,1"@[4]);
    assert("Mac15,3"@[4] != "Mac13,2"@[4]);
    assert("Mac15,3"@[4] != "Mac14,2"@[4]);
    assert("Mac15,3"@[4] != "Mac14,7"@[4]);
    assert("Mac15,3"@[4] != "Mac14,5"@[4]);
    assert("Mac15,3"@[4] != "Mac14,6"@[4]);
    assert("Mac15,3"@[4] != "Mac14,8"@[4]);
    assert("Mac15,3"@[4] != "Mac14,9"@[4]);
    assert("Mac15,4"@[4] != "Mac13,1"@[4]);
    assert("Mac15,4"@[4] != "Mac13,2"@[4]);
    assert("Mac15,4"@[4] != "Mac14,2"@[4]);
    assert("Mac15,4"@[4] != "Mac14,7"@[4]);
    assert("Mac15,4"@[4] != "Mac14,5"@[4]);
    assert("Mac15,4"@[4] != "Mac14,6"@[4]);
    assert("Mac15,4"@[4] != "Mac14,8"@[4]);
    assert("Mac15,4"@[4] != "Mac14,9"@[4]);
    assert("Mac15,5"@[4] != "Mac13,1"@[4]);
    assert("Mac15,5"@[4] != "Mac13,2"@[4]);
    assert("Mac15,5"@[4] != "Mac14,2"@[4]);
    assert("Mac15,5"@[4] != "Mac14,7"@[4]);
    assert("Mac15,5"@[4] != "Mac14,5"@[4]);
    assert("Mac15,5"@[4] != "Mac14,6"@[4]);
    assert("Mac15,5"@[4] != "Mac14,8"@[4]);
    assert("Mac15,5"@[4] != "Mac14,9"@[4]);
    assert("Mac15,6"@[4] != "Mac13,1"@[4]);
    assert("Mac15,6"@[4] != "Mac13,2"@[4]);
    assert("Mac15,6"@[4] != "Mac14,2"@[4]);
    assert("Mac15,6"@[4] != "Mac14,7"@[4]);
    assert("Mac15,6"@[4] != "Mac14,5"@[4]);
    assert("Mac15,6"@[4] != "Mac14,6"@[4]);
    assert("Mac15,6"@[4] != "Mac14,8"@[4]);
    assert("Mac15,6"@[4] != "Mac14,9"@[4]);
    assert("Mac15,7"@[4] != "Mac13,1"@[4]);
    assert("Mac15,7"@[4] != "Mac13,2"@[4]);
    assert("Mac15,7"@[4] != "Mac14,2"@[4]);
    assert("Mac15,7"@[4] != "Mac14,7"@[4]);
    assert("Mac15,7"@[4] != "Mac14,5"@[4]);
    assert("Mac15,7"@[4] != "Mac14,6"@[4]);
    assert("Mac15,7"@[4] != "Mac14,8"@[4]);
    assert("Mac15,7"@[4] != "Mac14,9"@[4]);
    assert("Mac15,8"@[4] != "Mac13,1"@[4]);
    assert("Mac15,8"@[4] != "Mac13,2"@[4]);
    assert("Mac15,8"@[4] != "Mac14,2"@[4]);
    assert("Mac15,8"@[4] != "Mac14,7"@[4]);
    assert("Mac15,8"@[4] != "Mac14,5"@[4]);
    assert("Mac15,8"@[4] != "Mac14,6"@[4]);
    assert("Mac15,8"@[4] != "Mac14,8"@[4]);
    assert("Mac15,8"@[4] != "Mac14,9"@[4]);
    assert("Mac15,9"@[4] != "Mac13,1"@[4]);
    assert("Mac15,9"@[4] != "Mac13,2"@[4]);
    assert("Mac15,9"@[4] != "Mac14,2"@[4]);
    assert("Mac15,9"@[4] != "Mac14,7"@[4]);
    assert("Mac15,9"@[4] != "Mac14,5"@[4]);
    assert("Mac15,9"@[4] != "Mac14,6"@[4]);
    assert("Mac15,9"@[4] != "Mac14,8"@[4]);
    assert("Mac15,9"@[4] != "Mac14,9"@[4]);
    assert("Mac15,10"@[0] != "iMac21,1"@[0]);
    assert("Mac15,10"@[0] != "iMac21,2"@[0]);
    assert("Mac15,10"@[4] != "Mac14,15"@[4]);
    assert("Mac15,10"@[4] != "Mac14,10"@[4]);
    assert("Mac15,11"@[0] != "iMac21,1"@[0]);
    assert("Mac15,11"@[0] != "iMac21,2"@[0]);
    assert("Mac15,11"@[4] != "Mac14,15"@[4]);
    assert("Mac15,11"@[4] != "Mac14,10"@[4]);
    assert("Mac15,12"@[0] != "iMac21,1"@[0]);
    assert("Mac15,12"@[0] != "iMac21,2"@[0]);
    assert("Mac15,12"@[4] != "Mac14,15"@[4]);
    assert("Mac15,12"@[4] != "Mac14,10"@[4]);
    assert("Mac15,13"@[0] != "iMac21,1"@[0]);
    assert("Mac15,13"@[0] != "iMac21,2"@[0]);
    assert("Mac15,13"@[4] != "Mac14,15"@[4]);
    assert("Mac15,13"@[4] != "Mac14,10"@[4]);
}

/// A model identifier that starts with neither `Mac` nor `iMac` names no Apple Silicon
/// machine the table knows: its Neural Engine generation is unknown.
pub proof fn law_other_models_are_unknown(m: Seq<char>)
    requires
        !has_prefix(m, "Mac"@),
        !has_prefix(m, "iMac"@),
    ensures
        ane_generation_of(m) == AneGeneration::Unknown,
{
    reveal_strlit("Mac");
    reveal_strlit("iMac");
    reveal_strlit("Mac16,");
    reveal_strlit("MacBookAir10,1");
    reveal_strlit("MacBookAir10,2");
    reveal_strlit("MacBookPro17,1");
    reveal_strlit("Macmini9,1");
    reveal_strlit("iMac21,1");
    reveal_strlit("iMac21,2");
    reveal_strlit("MacBookPro18,1");
    reveal_strlit("MacBookPro18,2");
    reveal_strlit("MacBookPro18,3");
    reveal_strlit("MacBookPro18,4");
    reveal_strlit("Mac13,1");
    reveal_strlit("Mac13,2");
    reveal_strlit("Mac14,2");
    reveal_strlit("Mac14,7");
    reveal_strlit("Mac14,5");
    reveal_strlit("Mac14,6");
    reveal_strlit("Mac14,8");
    reveal_strlit("Mac14,9");
    reveal_strlit("Mac14,15");
    reveal_strlit("Mac14,10");
    reveal_strlit("Mac15,3");
    reveal_strlit("Mac15,4");
    reveal_strlit("Mac15,5");
    reveal_strlit("Mac15,6");
    reveal_strlit("Mac15,7");
    reveal_strlit("Mac15,8");
    reveal_strlit("Mac15,9");
    reveal_strlit("Mac15,10");
    reveal_strlit("Mac15,11");
    reveal_strlit("Mac15,12");
    reveal_strlit("Mac15,13");
    assert("MacBookAir10,1"@.subrange(0, 3) =~= "Mac"@);
    assert("MacBookAir10,2"@.subrange(0, 3) =~= "Mac"@);
    assert("MacBookPro17,1"@.subrange(0, 3) =~= "Mac"@);
    assert("Macmini9,1"@.subrange(0, 3) =~= "Mac"@);
    assert("iMac21,1"@.subrange(0, 4) =~= "iMac"@);
    assert("iMac21,2"@.subrange(0, 4) =~= "iMac"@);
    assert("MacBookPro18,1"@.subrange(0, 3) =~= "Mac"@);
    assert("MacBookPro18,2"@.subrange(0, 3) =~= "Mac"@);
    assert("MacBookPro18,3"@.subrange(0, 3) =~= "Mac"@);
    assert("MacBookPro18,4"@.subrange(0, 3) =~= "Mac"@);
    assert("Mac13,1"@.subrange(0, 3) =~= "Mac"@);
    assert("Mac13,2"@.subrange(0, 3) =~= "Mac"@);
    assert("Mac14,2"@.subrange(0, 3) =~= "Mac"@);
    assert("Mac14,7"@.subrange(0, 3) =~= "Mac"@);
    assert("Mac14,5"@.subrange(0, 3) =~= "Mac"@);
    assert("Mac14,6"@.subrange(0, 3) =~= "Mac"@);
    assert("Mac14,8"@.subrange(0, 3) =~= "Mac"@);
    assert("Mac14,9"@.subrange(0, 3) =~= "Mac"@);
    assert("Mac14,15"@.subrange(0, 3) =~= "Mac"@);
    assert("Mac14,10"@.subrange(0, 3) =~= "Mac"@);
    assert("Mac15,3"@.subrange(0, 3) =~= "Mac"@);
    assert("Mac15,4"@.subrange(0, 3) =~= "Mac"@);
    assert("Mac15,5"@.subrange(0, 3) =~= "Mac"@);
    assert("Mac15,6"@.subrange(0, 3) =~= "Mac"@);
    assert("Mac15,7"@.subrange(0, 3) =~= "Mac"@);
    assert("Mac15,8"@.subrange(0, 3) =~= "Mac"@);
    assert("Mac15,9"@.subrange(0, 3) =~= "Mac"@);
    assert("Mac15,10"@.subrange(0, 3) =~= "Mac"@);
    assert("Mac15,11"@.subrange(0, 3) =~= "Mac"@);
    assert("Mac15,12"@.subrange(0, 3) =~= "Mac"@);
    assert("Mac15,13"@.subrange(0, 3) =~= "Mac"@);
    if m.len() >= 6 && m.subrange(0, 6) == "Mac16,"@ {
        assert(m.subrange(0, 3) =~= "Mac16,"@.subrange(0, 3));
        assert("Mac16,"@.subrange(0, 3) =~= "Mac"@);
    }
}

} // verus!
