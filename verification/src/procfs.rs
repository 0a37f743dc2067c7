//! Linux CPU and memory figures from procfs: what `/proc/meminfo` and `/proc/stat` say, the
//! CPU accelerator, and the metrics of a collection.
//!
//! Reading the files is the caller's work; their text is handed in.
use vstd::prelude::*;
use crate::aggregates::{freshly_discovered, no_versions_or_serial, discovery_event, Accelerator};
use crate::collection::{chooses, has_chosen, is_planned, follows_plan, metrics_for_all, push_reading, reported_all, PlannedReading, Reading};
use crate::entities::{Metric, MetricValue, Sensor};
use crate::errors::DomainError;
use crate::metal::{add_all_sensors, lemma_with_sensors_contains, sensor_is, whole_utilization, with_sensors};
use crate::ports::{BackendHealth, BackendVersion};
use crate::text::{
    has_prefix, int_error_text, lines, lines_of, parse_u64, parse_u64_spec, split_whitespace, str_starts_with,
    words,
};
use crate::value_objects::{AcceleratorType, MemoryStats, MetricType, Unit, Utilization, memory_stats_of};

verus! {

/// Procfs backend for CPU and memory monitoring.
#[derive(Debug)]
pub struct ProcfsBackend;

/// The kilobytes that a `/proc/meminfo` line gives: its second word as a `u64`, or the
/// message of the failure.
pub open spec fn kb_of(line: Seq<char>) -> Result<u64, Seq<char>> {
    let w = words(line);
    if w.len() >= 2 {
        match parse_u64_spec(w[1]) {
            Ok(v) => Ok(v),
            Err(k) => Err("Parse error: "@ + int_error_text(k)),
        }
    } else {
        Err("Invalid format"@)
    }
}

/// `r` is the backend error with message `m`.
pub open spec fn is_backend_error<T>(r: Result<T, DomainError>, m: Seq<char>) -> bool {
    r matches Err(DomainError::BackendError(e)) && e@ == m
}

/// The kilobytes of a `/proc/meminfo` line such as `MemTotal:  16384 kB`.
pub fn parse_kb(line: &str) -> (r: Result<u64, DomainError>)
    ensures
        match kb_of(line@) {
            Ok(v) => r == Ok::<u64, DomainError>(v),
            Err(m) => is_backend_error(r, m),
        },
{
    let parts = split_whitespace(line);
    proof {
        assert(parts@.len() == words(line@).len());
    }
    if parts.len() >= 2 {
        assert(parts@[1]@ == words(line@)[1]);
        match parse_u64(parts[1].as_str()) {
            Ok(v) => Ok(v),
            Err(k) => {
                let m = crate::text::concat2("Parse error: ", k.message());
                Err(DomainError::BackendError(m))
            },
        }
    } else {
        Err(DomainError::BackendError(String::from_str("Invalid format")))
    }
}

/// The memory figures of `/proc/meminfo`, in kilobytes.
#[derive(Debug, Clone, Copy, PartialEq, Eq, Structural)]
pub struct MemInfo {
    pub total_kb: u64,
    pub free_kb: u64,
    pub buffers_kb: u64,
    pub cached_kb: u64,
}

/// Reading the lines `ls` of `/proc/meminfo` in order: the last `MemTotal:`, `MemFree:`,
/// `Buffers:` and `Cached:` lines give the figures (zero where there is none), and the first
/// such line that does not parse gives the error.
pub open spec fn meminfo_scan(ls: Seq<Seq<char>>) -> Result<MemInfo, Seq<char>>
    decreases ls.len(),
{
    if ls.len() == 0 {
        Ok(MemInfo { total_kb: 0, free_kb: 0, buffers_kb: 0, cached_kb: 0 })
    } else {
        match meminfo_scan(ls.drop_last()) {
            Err(e) => Err(e),
            Ok(m) => {
                let l = ls.last();
                if has_prefix(l, "MemTotal:"@) {
                    match kb_of(l) {
                        Ok(v) => Ok(MemInfo { total_kb: v, ..m }),
                        Err(e) => Err(e),
                    }
                } else if has_prefix(l, "MemFree:"@) {
                    match kb_of(l) {
                        Ok(v) => Ok(MemInfo { free_kb: v, ..m }),
                        Err(e) => Err(e),
                    }
                } else if has_prefix(l, "Buffers:"@) {
                    match kb_of(l) {
                        Ok(v) => Ok(MemInfo { buffers_kb: v, ..m }),
                        Err(e) => Err(e),
                    }
                } else if has_prefix(l, "Cached:"@) {
                    match kb_of(l) {
                        Ok(v) => Ok(MemInfo { cached_kb: v, ..m }),
                        Err(e) => Err(e),
                    }
                } else {
                    Ok(m)
                }
            },
        }
    }
}

proof fn lemma_meminfo_err_extends(ls: Seq<Seq<char>>, k: int)
    requires
        0 <= k <= ls.len(),
        meminfo_scan(ls.subrange(0, k)) is Err,
    ensures
        meminfo_scan(ls) == meminfo_scan(ls.subrange(0, k)),
    decreases ls.len(),
{
    if k == ls.len() {
        assert(ls.subrange(0, k) =~= ls);
    } else {
        assert(ls.drop_last().subrange(0, k) =~= ls.subrange(0, k));
        lemma_meminfo_err_extends(ls.drop_last(), k);
    }
}

/// The memory figures of the text of `/proc/meminfo`.
pub fn parse_meminfo(content: &str) -> (r: Result<MemInfo, DomainError>)
    ensures
        match meminfo_scan(lines_of(content@)) {
            Ok(m) => r == Ok::<MemInfo, DomainError>(m),
            Err(e) => is_backend_error(r, e),
        },
{
    let ls = lines(content);
    let ghost lv = ls@.map_values(|p: String| p@);
    let mut m = MemInfo { total_kb: 0, free_kb: 0, buffers_kb: 0, cached_kb: 0 };
    let mut i: usize = 0;
    assert(lv.subrange(0, 0) =~= Seq::<Seq<char>>::empty());
    while i < ls.len()
        invariant
            lv == ls@.map_values(|p: String| p@),
            lv == lines_of(content@),
            i <= ls@.len(),
            meminfo_scan(lv.subrange(0, i as int)) == Ok::<MemInfo, Seq<char>>(m),
        decreases ls@.len() - i,
    {
        let line = ls[i].as_str();
        let ghost pre = lv.subrange(0, i as int);
        let ghost post = lv.subrange(0, i + 1);
        assert(post.drop_last() =~= pre);
        assert(post.last() == line@);
        if str_starts_with(line, "MemTotal:") {
            match parse_kb(line) {
                Ok(v) => {
                    m = MemInfo { total_kb: v, ..m };
                },
                Err(e) => {
                    proof {
                        lemma_meminfo_err_extends(lv, i + 1);
                    }
                    return Err(e);
                },
            }
        } else if str_starts_with(line, "MemFree:") {
            match parse_kb(line) {
                Ok(v) => {
                    m = MemInfo { free_kb: v, ..m };
                },
                Err(e) => {
                    proof {
                        lemma_meminfo_err_extends(lv, i + 1);
                    }
                    return Err(e);
                },
            }
        } else if str_starts_with(line, "Buffers:") {
            match parse_kb(line) {
                Ok(v) => {
                    m = MemInfo { buffers_kb: v, ..m };
                },
                Err(e) => {
                    proof {
                        lemma_meminfo_err_extends(lv, i + 1);
                    }
                    return Err(e);
                },
            }
        } else if str_starts_with(line, "Cached:") {
            match parse_kb(line) {
                Ok(v) => {
                    m = MemInfo { cached_kb: v, ..m };
                },
                Err(e) => {
                    proof {
                        lemma_meminfo_err_extends(lv, i + 1);
                    }
                    return Err(e);
                },
            }
        }
        i = i + 1;
    }
    assert(lv.subrange(0, ls@.len() as int) =~= lv);
    Ok(m)
}

impl MemInfo {
    /// Used memory can be worked out: free, buffers and cache fit in the total, and the total
    /// in bytes fits in a `u64`.
    pub open spec fn fits(self) -> bool {
        &&& self.free_kb + self.buffers_kb + self.cached_kb <= self.total_kb
        &&& self.total_kb * 1024 <= u64::MAX
    }

    /// The memory statistics in bytes: used is the total less free memory, buffers and cache.
    pub fn memory_stats(&self) -> (r: MemoryStats)
        requires
            self.fits(),
        ensures
            r == memory_stats_of(
                ((self.total_kb - self.free_kb - self.buffers_kb - self.cached_kb) * 1024) as u64,
                (self.total_kb * 1024) as u64,
            ),
    {
        let used = self.total_kb - self.free_kb - self.buffers_kb - self.cached_kb;
        MemoryStats::new(used * 1024, self.total_kb * 1024)
    }
}

/// The times of one CPU line of `/proc/stat`.
#[derive(Debug)]
pub struct CpuTimes {
    /// `cpu` for the whole machine, `cpuN` for one core
    pub name: String,
    pub user: u64,
    pub system: u64,
    pub idle: u64,
}

/// The value of `s` as a `u64`, or zero when it does not parse.
pub open spec fn u64_or_zero(s: Seq<char>) -> u64 {
    match parse_u64_spec(s) {
        Ok(v) => v,
        Err(_) => 0,
    }
}

/// The words of the lines of `/proc/stat` that describe a CPU: those that start with `cpu`
/// and have at least five words.
pub open spec fn cpu_word_lists(ls: Seq<Seq<char>>) -> Seq<Seq<Seq<char>>>
    decreases ls.len(),
{
    if ls.len() == 0 {
        Seq::empty()
    } else {
        let rest = cpu_word_lists(ls.drop_last());
        let l = ls.last();
        if has_prefix(l, "cpu"@) && words(l).len() >= 5 {
            rest.push(words(l))
        } else {
            rest
        }
    }
}

/// `t` holds the name, user, system and idle times of the words `w` of a CPU line.
pub open spec fn cpu_times_of(t: CpuTimes, w: Seq<Seq<char>>) -> bool {
    &&& t.name@ == w[0]
    &&& t.user == u64_or_zero(w[1])
    &&& t.system == u64_or_zero(w[3])
    &&& t.idle == u64_or_zero(w[4])
}

/// `ts` are the times of the CPU lines of the text `content` of `/proc/stat`, in order.
pub open spec fn cpu_times_ok(ts: Seq<CpuTimes>, content: Seq<char>) -> bool {
    let cs = cpu_word_lists(lines_of(content));
    &&& ts.len() == cs.len()
    &&& forall|i: int| 0 <= i < ts.len() ==> cpu_times_of(#[trigger] ts[i], cs[i])
}

fn u64_or_zero_exec(s: &str) -> (r: u64)
    ensures
        r == u64_or_zero(s@),
{
    match parse_u64(s) {
        Ok(v) => v,
        Err(_) => 0,
    }
}

/// The CPU times of the text of `/proc/stat`; a figure that does not parse counts as zero.
pub fn parse_cpu_stat(content: &str) -> (r: Vec<CpuTimes>)
    ensures
        cpu_times_ok(r@, content@),
{
    let ls = lines(content);
    let ghost lv = ls@.map_values(|p: String| p@);
    let mut out: Vec<CpuTimes> = Vec::new();
    let mut i: usize = 0;
    assert(lv.subrange(0, 0) =~= Seq::<Seq<char>>::empty());
    while i < ls.len()
        invariant
            lv == ls@.map_values(|p: String| p@),
            lv == lines_of(content@),
            i <= ls@.len(),
            out@.len() == cpu_word_lists(lv.subrange(0, i as int)).len(),
            forall|j: int|
                0 <= j < out@.len() ==> cpu_times_of(#[trigger] out@[j], cpu_word_lists(lv.subrange(0, i as int))[j]),
        decreases ls@.len() - i,
    {
        let line = ls[i].as_str();
        let ghost pre = lv.subrange(0, i as int);
        let ghost post = lv.subrange(0, i + 1);
        assert(post.drop_last() =~= pre);
        assert(post.last() == line@);
        if str_starts_with(line, "cpu") {
            let parts = split_whitespace(line);
            let ghost w = parts@.map_values(|p: String| p@);
            if parts.len() >= 5 {
                let t = CpuTimes {
                    name: String::from_str(parts[0].as_str()),
                    user: u64_or_zero_exec(parts[1].as_str()),
                    system: u64_or_zero_exec(parts[3].as_str()),
                    idle: u64_or_zero_exec(parts[4].as_str()),
                };
                assert(cpu_times_of(t, w));
                let ghost before = out@;
                out.push(t);
                assert(forall|j: int| 0 <= j < before.len() ==> out@[j] == before[j]);
            }
        }
        i = i + 1;
    }
    assert(lv.subrange(0, ls@.len() as int) =~= lv);
    out
}

impl CpuTimes {
    /// The time the CPU was busy: user plus system time.
    pub fn active(&self) -> (r: u64)
        requires
            self.user + self.system <= u64::MAX,
        ensures
            r == self.user + self.system,
    {
        self.user + self.system
    }
}

/// The readings of a procfs collection: memory in use, then, when `/proc/stat` describes a
/// CPU, its utilization taken as the busy time modulo a hundred (a rough figure, not a rate).
pub open spec fn procfs_plan(mem: MemoryStats, cpu_active: Option<u64>) -> Seq<PlannedReading> {
    let p = seq![(Some("memory_usage"@), MetricType::MemoryUsed, MetricValue::Memory(mem), Unit::Bytes)];
    match cpu_active {
        Some(a) => p.push(
            (Some("cpu_utilization"@), MetricType::Utilization,
                MetricValue::Utilization(whole_utilization((a % 100) as u32)), Unit::Percent),
        ),
        None => p,
    }
}

/// The sensors of the CPU accelerator.
pub open spec fn procfs_sensors_ok(ss: Seq<Sensor>, a: Accelerator) -> bool {
    &&& ss.len() == 2
    &&& sensor_is(ss[0], a.id, "cpu_utilization"@, MetricType::Utilization, Unit::Percent,
        Map::<Seq<char>, Seq<char>>::empty())
    &&& sensor_is(ss[1], a.id, "memory_usage"@, MetricType::MemoryUsed, Unit::Bytes,
        Map::<Seq<char>, Seq<char>>::empty())
}

/// The accelerator that procfs discovery makes of the machine's CPU.
pub open spec fn procfs_accelerator_ok(a: Accelerator) -> bool {
    &&& a.name@ == "cpu"@
    &&& a.accelerator_type == AcceleratorType::Cpu
    &&& a.backend_type@ == "procfs"@
    &&& a.vendor@ == "Linux"@
    &&& a.model@ == "Generic CPU"@
    &&& a.pci_info is None
    &&& freshly_discovered(a)
    &&& no_versions_or_serial(a)
    &&& a.enabled
    &&& a.events@ == seq![discovery_event(a)]
    &&& exists|ss: Seq<Sensor>| #[trigger] procfs_sensors_ok(ss, a) && a.sensors@ == with_sensors(Map::empty(), ss)
}

impl ProcfsBackend {
    /// The backend; it can always be made.
    pub fn new() -> (r: Result<Self, DomainError>)
        ensures
            r is Ok,
    {
        Ok(ProcfsBackend)
    }

    /// The name of this backend.
    pub fn backend_type(&self) -> (r: &'static str)
        ensures
            r@ == "procfs"@,
    {
        "procfs"
    }

    /// The accelerator types this backend handles: the CPU.
    pub fn supported_types(&self) -> (r: Vec<AcceleratorType>)
        ensures
            r@ == seq![AcceleratorType::Cpu],
    {
        let mut v: Vec<AcceleratorType> = Vec::new();
        v.push(AcceleratorType::Cpu);
        v
    }

    /// The CPU accelerator with its utilization and memory sensors.
    pub fn discover(&self) -> (r: Vec<Accelerator>)
        ensures
            r@.len() == 1,
            procfs_accelerator_ok(r@[0]),
    {
        let mut accel = Accelerator::new("cpu", AcceleratorType::Cpu, "procfs", "Linux", "Generic CPU");
        let mut sensors: Vec<Sensor> = Vec::new();
        sensors.push(Sensor::new(accel.id, "cpu_utilization", MetricType::Utilization, Unit::Percent));
        sensors.push(Sensor::new(accel.id, "memory_usage", MetricType::MemoryUsed, Unit::Bytes));
        let ghost ss = sensors@;
        add_all_sensors(&mut accel, sensors);
        assert(procfs_sensors_ok(ss, accel));
        let mut r: Vec<Accelerator> = Vec::new();
        r.push(accel);
        r
    }

    /// The readings of a collection: the memory statistics and, when `/proc/stat` described
    /// a CPU, the busy time of the first one.
    pub fn readings(mem: MemoryStats, cpu_active: Option<u64>) -> (rs: Vec<Reading>)
        ensures
            follows_plan(rs@, procfs_plan(mem, cpu_active)),
    {
        let mut rs: Vec<Reading> = Vec::new();
        push_reading(&mut rs, Ghost(Seq::empty()), Some("memory_usage"), MetricType::MemoryUsed,
            MetricValue::Memory(mem), Unit::Bytes);
        let ghost plan = seq![(Some("memory_usage"@), MetricType::MemoryUsed, MetricValue::Memory(mem), Unit::Bytes)];
        assert(plan =~= Seq::<PlannedReading>::empty().push(
            (Some("memory_usage"@), MetricType::MemoryUsed, MetricValue::Memory(mem), Unit::Bytes),
        ));
        if let Some(a) = cpu_active {
            let percent = (a % 100) as u32;
            let util = match Utilization::from_whole_percent(percent) {
                Some(u) => u,
                None => Utilization::default(),
            };
            push_reading(&mut rs, Ghost(plan), Some("cpu_utilization"), MetricType::Utilization,
                MetricValue::Utilization(util), Unit::Percent);
        }
        rs
    }

    /// The metrics of a collection: memory in use and, when there is a CPU figure, CPU
    /// utilization, each under the accelerator's sensor for it or a fresh sensor identifier.
    pub fn collect_metrics(accel: &Accelerator, mem: MemoryStats, cpu_active: Option<u64>) -> (r: Vec<Metric>)
        ensures
            exists|rs: Seq<Reading>|
                #[trigger] follows_plan(rs, procfs_plan(mem, cpu_active)) && reported_all(r@, *accel, rs),
    {
        let rs = ProcfsBackend::readings(mem, cpu_active);
        let ghost rv = rs@;
        let r = metrics_for_all(accel, rs);
        assert(follows_plan(rv, procfs_plan(mem, cpu_active)));
        r
    }

    /// Healthy when `/proc` can be read.
    pub fn health(proc_readable: bool) -> (r: BackendHealth)
        ensures
            proc_readable ==> r == BackendHealth::Healthy,
            !proc_readable ==> r == (BackendHealth::Unhealthy { reason: "Cannot read /proc" }),
    {
        if proc_readable {
            BackendHealth::Healthy
        } else {
            BackendHealth::Unhealthy { reason: "Cannot read /proc" }
        }
    }

    /// The backend's version: 0.1.0.
    pub fn version(&self) -> (r: BackendVersion)
        ensures
            r.major == 0 && r.minor == 1 && r.patch == 0 && r.git_hash is None && r.build_date is None,
    {
        crate::nvml::backend_version()
    }
}

/// Collecting from the CPU accelerator that discovery made reports every reading under one
/// of its own sensors (when its sensors got distinct identifiers), so no metric gets a fresh
/// sensor identifier.
pub proof fn law_procfs_collection_uses_discovered_sensors(
    a: Accelerator,
    mem: MemoryStats,
    cpu_active: Option<u64>,
    rs: Seq<Reading>,
)
    requires
        procfs_accelerator_ok(a),
        a.sensors@.dom().len() == 2,
        follows_plan(rs, procfs_plan(mem, cpu_active)),
    ensures
        forall|i: int| 0 <= i < rs.len() ==> has_chosen(a, #[trigger] rs[i].sensor),
{
    let ss = choose|ss: Seq<Sensor>| #[trigger] procfs_sensors_ok(ss, a) && a.sensors@ == with_sensors(Map::empty(), ss);
    lemma_with_sensors_contains(ss, 0);
    lemma_with_sensors_contains(ss, 1);
    assert(is_planned(rs[0], procfs_plan(mem, cpu_active)[0]));
    assert(chooses(rs[0].sensor, ss[1]));
    if rs.len() > 1 {
        assert(is_planned(rs[1], procfs_plan(mem, cpu_active)[1]));
        assert(chooses(rs[1].sensor, ss[0]));
    }
}

} // verus!
