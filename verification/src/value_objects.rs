//! Value objects of the accelerator domain.
use vstd::prelude::*;
use crate::string_map::StringMap;
use vstd::arithmetic::power2::*;
use vstd::arithmetic::div_mod::*;

verus! {

/// Types of AI accelerators.
#[derive(Debug, PartialEq, Eq, Hash)]
pub enum AcceleratorType {
    /// NVIDIA GPU (CUDA)
    NvidiaGpu,
    /// Apple GPU (Metal)
    AppleGpu,
    /// Apple Metal/Neural Engine
    AppleNeuralEngine,
    /// Google Cloud TPU
    GoogleTpu,
    /// AMD GPU (ROCm)
    AmdGpu,
    /// Intel GPU/NPU
    IntelNpu,
    /// Custom/user-defined accelerator
    Custom { name: String, vendor: String },
    /// Generic CPU fallback
    Cpu,
}

/// The display name of an accelerator type.
pub open spec fn accelerator_type_text(t: AcceleratorType) -> Seq<char> {
    match t {
        AcceleratorType::NvidiaGpu => "nvidia_gpu"@,
        AcceleratorType::AppleGpu => "apple_gpu"@,
        AcceleratorType::AppleNeuralEngine => "apple_neural_engine"@,
        AcceleratorType::GoogleTpu => "google_tpu"@,
        AcceleratorType::AmdGpu => "amd_gpu"@,
        AcceleratorType::IntelNpu => "intel_npu"@,
        AcceleratorType::Custom { name, vendor } => vendor@ + "_"@ + name@,
        AcceleratorType::Cpu => "cpu"@,
    }
}

impl AcceleratorType {
    /// The display name: a fixed snake-case word, or `vendor_name` for a custom accelerator.
    pub fn to_string(&self) -> (r: String)
        ensures
            r@ == accelerator_type_text(*self),
    {
        match self {
            AcceleratorType::NvidiaGpu => String::from_str("nvidia_gpu"),
            AcceleratorType::AppleGpu => String::from_str("apple_gpu"),
            AcceleratorType::AppleNeuralEngine => String::from_str("apple_neural_engine"),
            AcceleratorType::GoogleTpu => String::from_str("google_tpu"),
            AcceleratorType::AmdGpu => String::from_str("amd_gpu"),
            AcceleratorType::IntelNpu => String::from_str("intel_npu"),
            AcceleratorType::Custom { name, vendor } => crate::text::concat3(
                vendor.as_str(),
                "_",
                name.as_str(),
            ),
            AcceleratorType::Cpu => String::from_str("cpu"),
        }
    }
}

/// Types of metrics that can be collected.
#[derive(Debug, Eq, Hash)]
pub enum MetricType {
    /// Compute utilization percentage (0-100%)
    Utilization,
    /// Memory usage (bytes)
    MemoryUsed,
    /// Total memory (bytes)
    MemoryTotal,
    /// Temperature (Celsius)
    Temperature,
    /// Power consumption (Watts)
    Power,
    /// Clock frequency (MHz)
    Frequency,
    /// Fan speed percentage (0-100%)
    FanSpeed,
    /// Throughput (ops/sec or bytes/sec)
    Throughput,
    /// Latency (microseconds)
    Latency,
    /// Error rate (errors/sec)
    ErrorRate,
    /// Custom metric type
    Custom { name: String },
}

/// The position of a metric type's variant in the declaration.
pub open spec fn metric_type_tag(t: MetricType) -> u8 {
    match t {
        MetricType::Utilization => 0,
        MetricType::MemoryUsed => 1,
        MetricType::MemoryTotal => 2,
        MetricType::Temperature => 3,
        MetricType::Power => 4,
        MetricType::Frequency => 5,
        MetricType::FanSpeed => 6,
        MetricType::Throughput => 7,
        MetricType::Latency => 8,
        MetricType::ErrorRate => 9,
        MetricType::Custom { .. } => 10,
    }
}

/// Two metric types are the same: the same variant, and for custom types the same name.
pub open spec fn same_metric_type(a: MetricType, b: MetricType) -> bool {
    &&& metric_type_tag(a) == metric_type_tag(b)
    &&& (a matches MetricType::Custom { name: x } ==> (b matches MetricType::Custom { name: y }
        && x@ == y@))
}

impl MetricType {
    fn tag(&self) -> (r: u8)
        ensures
            r == metric_type_tag(*self),
    {
        match self {
            MetricType::Utilization => 0,
            MetricType::MemoryUsed => 1,
            MetricType::MemoryTotal => 2,
            MetricType::Temperature => 3,
            MetricType::Power => 4,
            MetricType::Frequency => 5,
            MetricType::FanSpeed => 6,
            MetricType::Throughput => 7,
            MetricType::Latency => 8,
            MetricType::ErrorRate => 9,
            MetricType::Custom { .. } => 10,
        }
    }
}

impl PartialEq for MetricType {
    fn eq(&self, other: &Self) -> (r: bool) {
        match self {
            MetricType::Custom { name: x } => match other {
                MetricType::Custom { name: y } => crate::text::str_eq(x.as_str(), y.as_str()),
                _ => false,
            },
            _ => self.tag() == other.tag(),
        }
    }
}

impl vstd::std_specs::cmp::PartialEqSpecImpl for MetricType {
    open spec fn obeys_eq_spec() -> bool {
        true
    }

    open spec fn eq_spec(&self, other: &MetricType) -> bool {
        same_metric_type(*self, *other)
    }
}

/// The display name of a metric type.
pub open spec fn metric_type_text(t: MetricType) -> Seq<char> {
    match t {
        MetricType::Utilization => "utilization"@,
        MetricType::MemoryUsed => "memory_used"@,
        MetricType::MemoryTotal => "memory_total"@,
        MetricType::Temperature => "temperature"@,
        MetricType::Power => "power"@,
        MetricType::Frequency => "frequency"@,
        MetricType::FanSpeed => "fan_speed"@,
        MetricType::Throughput => "throughput"@,
        MetricType::Latency => "latency"@,
        MetricType::ErrorRate => "error_rate"@,
        MetricType::Custom { name } => name@,
    }
}

impl MetricType {
    /// The display name: a fixed snake-case word, or the name of a custom metric.
    pub fn to_string(&self) -> (r: String)
        ensures
            r@ == metric_type_text(*self),
    {
        match self {
            MetricType::Utilization => String::from_str("utilization"),
            MetricType::MemoryUsed => String::from_str("memory_used"),
            MetricType::MemoryTotal => String::from_str("memory_total"),
            MetricType::Temperature => String::from_str("temperature"),
            MetricType::Power => String::from_str("power"),
            MetricType::Frequency => String::from_str("frequency"),
            MetricType::FanSpeed => String::from_str("fan_speed"),
            MetricType::Throughput => String::from_str("throughput"),
            MetricType::Latency => String::from_str("latency"),
            MetricType::ErrorRate => String::from_str("error_rate"),
            MetricType::Custom { name } => name.clone(),
        }
    }
}

impl Clone for AcceleratorType {
    fn clone(&self) -> (r: Self)
        ensures
            r == *self,
    {
        match self {
            AcceleratorType::NvidiaGpu => AcceleratorType::NvidiaGpu,
            AcceleratorType::AppleGpu => AcceleratorType::AppleGpu,
            AcceleratorType::AppleNeuralEngine => AcceleratorType::AppleNeuralEngine,
            AcceleratorType::GoogleTpu => AcceleratorType::GoogleTpu,
            AcceleratorType::AmdGpu => AcceleratorType::AmdGpu,
            AcceleratorType::IntelNpu => AcceleratorType::IntelNpu,
            AcceleratorType::Custom { name, vendor } => AcceleratorType::Custom {
                name: name.clone(),
                vendor: vendor.clone(),
            },
            AcceleratorType::Cpu => AcceleratorType::Cpu,
        }
    }
}

impl Clone for MetricType {
    fn clone(&self) -> (r: Self)
        ensures
            r == *self,
    {
        match self {
            MetricType::Utilization => MetricType::Utilization,
            MetricType::MemoryUsed => MetricType::MemoryUsed,
            MetricType::MemoryTotal => MetricType::MemoryTotal,
            MetricType::Temperature => MetricType::Temperature,
            MetricType::Power => MetricType::Power,
            MetricType::Frequency => MetricType::Frequency,
            MetricType::FanSpeed => MetricType::FanSpeed,
            MetricType::Throughput => MetricType::Throughput,
            MetricType::Latency => MetricType::Latency,
            MetricType::ErrorRate => MetricType::ErrorRate,
            MetricType::Custom { name } => MetricType::Custom { name: name.clone() },
        }
    }
}

/// Units for metric values.
#[derive(Debug, Clone, Copy, PartialEq, Eq, Hash, Structural)]
pub enum Unit {
    /// Percentage (0-100)
    Percent,
    /// Bytes
    Bytes,
    /// Kilobytes
    Kilobytes,
    /// Megabytes
    Megabytes,
    /// Gigabytes
    Gigabytes,
    /// Celsius
    Celsius,
    /// Watts
    Watts,
    /// Megahertz
    Megahertz,
    /// Gigahertz
    Gigahertz,
    /// Microseconds
    Microseconds,
    /// Milliseconds
    Milliseconds,
    /// Seconds
    Seconds,
    /// Operations per second
    OpsPerSecond,
    /// Bytes per second
    BytesPerSecond,
    /// Count
    Count,
    /// No unit (dimensionless)
    Dimensionless,
}

/// The symbol of a unit.
pub open spec fn unit_text(u: Unit) -> Seq<char> {
    match u {
        Unit::Percent => "%"@,
        Unit::Bytes => "B"@,
        Unit::Kilobytes => "KB"@,
        Unit::Megabytes => "MB"@,
        Unit::Gigabytes => "GB"@,
        Unit::Celsius => "°C"@,
        Unit::Watts => "W"@,
        Unit::Megahertz => "MHz"@,
        Unit::Gigahertz => "GHz"@,
        Unit::Microseconds => "µs"@,
        Unit::Milliseconds => "ms"@,
        Unit::Seconds => "s"@,
        Unit::OpsPerSecond => "ops/s"@,
        Unit::BytesPerSecond => "B/s"@,
        Unit::Count => "count"@,
        Unit::Dimensionless => ""@,
    }
}

impl Unit {
    /// The symbol of the unit (empty for a dimensionless value).
    pub fn to_string(&self) -> (r: String)
        ensures
            r@ == unit_text(*self),
    {
        match self {
            Unit::Percent => String::from_str("%"),
            Unit::Bytes => String::from_str("B"),
            Unit::Kilobytes => String::from_str("KB"),
            Unit::Megabytes => String::from_str("MB"),
            Unit::Gigabytes => String::from_str("GB"),
            Unit::Celsius => String::from_str("°C"),
            Unit::Watts => String::from_str("W"),
            Unit::Megahertz => String::from_str("MHz"),
            Unit::Gigahertz => String::from_str("GHz"),
            Unit::Microseconds => String::from_str("µs"),
            Unit::Milliseconds => String::from_str("ms"),
            Unit::Seconds => String::from_str("s"),
            Unit::OpsPerSecond => String::from_str("ops/s"),
            Unit::BytesPerSecond => String::from_str("B/s"),
            Unit::Count => String::from_str("count"),
            Unit::Dimensionless => String::from_str(""),
        }
    }
}

/// Calls `std::time::SystemTime::now` and measures it from the Unix epoch in nanoseconds.
///
/// Nothing is claimed of the value, which is the clock's. Like the standard library's
/// `expect`, it panics when the clock stands before the epoch.
#[verifier::external_body]
fn unix_time_nanos() -> (r: u128) {
    std::time::SystemTime::now().duration_since(std::time::UNIX_EPOCH).expect(
        "Time went backwards",
    ).as_nanos()
}

/// Timestamp with nanosecond precision, counted from the Unix epoch.
#[derive(Debug, Clone, Copy, PartialEq, Eq, PartialOrd, Ord, Hash, Structural)]
pub struct Timestamp {
    pub nanos: i64,
}

impl Timestamp {
    /// The current time: the clock's reading, made a timestamp by `from_unix_nanos`.
    pub fn now() -> (r: Self) {
        Timestamp::from_unix_nanos(unix_time_nanos())
    }

    /// The timestamp of a clock reading of `n` nanoseconds since the epoch; the count wraps
    /// as an `as i64` cast does.
    pub fn from_unix_nanos(n: u128) -> (r: Self)
        ensures
            r.nanos == n as i64,
    {
        Timestamp { nanos: n as i64 }
    }

    /// The timestamp `nanos` nanoseconds after the epoch.
    pub fn from_nanos(nanos: i64) -> (r: Self)
        ensures
            r.nanos == nanos,
    {
        Timestamp { nanos }
    }
}

impl Default for Timestamp {
    fn default() -> (r: Self) {
        Self::now()
    }
}

/// Labels for metric attribution: a map from label name to value.
#[derive(Debug, Clone)]
pub struct Labels {
    inner: StringMap,
}

impl View for Labels {
    type V = Map<Seq<char>, Seq<char>>;

    closed spec fn view(&self) -> Map<Seq<char>, Seq<char>> {
        self.inner@
    }
}

impl Labels {
    /// No labels.
    pub fn new() -> (r: Self)
        ensures
            r@ == Map::<Seq<char>, Seq<char>>::empty(),
    {
        Labels { inner: StringMap::new() }
    }

    /// These labels with `key` set to `value`: one label more when `key` was not set.
    pub fn with(self, key: &str, value: &str) -> (r: Self)
        ensures
            r@ == self@.insert(key@, value@),
            r@.dom().finite(),
            r@.len() == self@.len() + (if self@.contains_key(key@) { 0int } else { 1int }),
    {
        let mut s = self;
        s.insert(key, value);
        s
    }

    /// The value of `key`.
    pub fn get(&self, key: &str) -> (r: Option<&String>)
        ensures
            match r {
                Some(v) => self@.contains_key(key@) && v@ == self@[key@],
                None => !self@.contains_key(key@),
            },
    {
        self.inner.get(key)
    }

    /// Sets `key` to `value`, replacing an earlier value.
    pub fn insert(&mut self, key: &str, value: &str)
        ensures
            final(self)@ == old(self)@.insert(key@, value@),
            final(self)@.dom().finite(),
            final(self)@.len() == old(self)@.len() + (if old(self)@.contains_key(key@) { 0int } else { 1int }),
    {
        self.inner.insert(String::from_str(key), String::from_str(value));
    }

    /// The underlying map.
    pub fn inner(&self) -> (r: &StringMap)
        ensures
            r@ == self@,
    {
        &self.inner
    }
}

impl Default for Labels {
    fn default() -> (r: Self)
        ensures
            r@ == Map::<Seq<char>, Seq<char>>::empty(),
    {
        Self::new()
    }
}

/// The IEEE-754 bit pattern of a 64-bit float. The library carries such values from one
/// place to another without computing with them.
#[derive(Debug, Clone, Copy, PartialEq, Eq, Hash, Structural)]
pub struct F64Bits(pub u64);

/// The position of the highest set bit of `n`; zero for zero and one.
pub open spec fn top_bit(n: nat) -> nat
    decreases n,
{
    if n <= 1 {
        0
    } else {
        1 + top_bit(n / 2)
    }
}

/// The IEEE-754 double encoding of the whole number `n`, which is exact below 2^53: sign
/// bit clear, biased exponent `1023 + top_bit(n)`, and the bits of `n` below its highest
/// set bit as the leading bits of the fraction.
pub open spec fn whole_f64_bits(n: nat) -> nat {
    if n == 0 {
        0
    } else {
        let e = top_bit(n);
        ((1023 + e) * pow2(52) + (n - pow2(e)) * pow2((52 - e) as nat)) as nat
    }
}

proof fn lemma_top_bit_step(n: nat, p: nat, e: nat)
    requires
        p == pow2(e),
        2 * p <= n,
        top_bit(n) == e + top_bit(n / p),
    ensures
        top_bit(n) == (e + 1) + top_bit(n / (2 * p)),
{
    lemma_pow2_pos(e);
    let q = n / p;
    let r = n % p;
    lemma_fundamental_div_mod(n as int, p as int);
    assert(q >= 2) by (nonlinear_arith)
        requires
            n == p * q + r,
            0 <= r < p,
            2 * p <= n,
    ;
    lemma_div_denominator(n as int, p as int, 2);
    assert(p * 2 == 2 * p);
}

proof fn lemma_quotient_one(n: nat, p: nat)
    requires
        0 < p <= n,
        n < 2 * p,
    ensures
        n / p == 1,
{
    let q = n / p;
    let r = n % p;
    lemma_fundamental_div_mod(n as int, p as int);
    assert(q == 1) by (nonlinear_arith)
        requires
            n == p * q + r,
            0 <= r < p,
            p <= n < 2 * p,
    ;
}

proof fn lemma_pow2_monotone(a: nat, b: nat)
    requires
        a <= b,
    ensures
        pow2(a) <= pow2(b),
{
    if a < b {
        lemma_pow2_strictly_increases(a, b);
    }
}

impl F64Bits {
    /// The exact double-precision value of the whole number `n`.
    pub fn from_whole(n: u32) -> (r: F64Bits)
        ensures
            r.0 == whole_f64_bits(n as nat),
    {
        if n == 0 {
            return F64Bits(0);
        }
        let m: u64 = n as u64;
        let mut e: u64 = 0;
        let mut p: u64 = 1;
        proof {
            lemma2_to64();
            assert(m as nat / 1 == m as nat);
        }
        while p <= m / 2
            invariant
                m == n as u64,
                1 <= p <= m,
                m < 0x1_0000_0000,
                p == pow2(e as nat),
                e < 32,
                top_bit(m as nat) == e + top_bit((m / p) as nat),
            decreases m - p,
        {
            proof {
                lemma_top_bit_step(m as nat, p as nat, e as nat);
                lemma_pow2_unfold((e + 1) as nat);
                lemma2_to64();
                if e + 1 >= 32 {
                    lemma_pow2_monotone(32, (e + 1) as nat);
                }
            }
            p = p * 2;
            e = e + 1;
        }
        proof {
            lemma_quotient_one(m as nat, p as nat);
        }
        assert(top_bit(m as nat) == e);
        let mut q: u64 = 1;
        let mut k: u64 = e;
        proof {
            lemma2_to64();
        }
        while k < 52
            invariant
                e < 32,
                e <= k <= 52,
                q == pow2((k - e) as nat),
            decreases 52 - k,
        {
            proof {
                lemma_pow2_unfold((k - e + 1) as nat);
                lemma_pow2_monotone((k - e + 1) as nat, 52);
                lemma_pow2_facts();
            }
            q = q * 2;
            k = k + 1;
        }
        proof {
            lemma_pow2_adds(e as nat, (52 - e) as nat);
            lemma_pow2_facts();
            assert((m - p) * q < p * q) by (nonlinear_arith)
                requires
                    m - p < p,
                    q > 0,
            ;
        }
        F64Bits((1023 + e) * 0x10_0000_0000_0000 + (m - p) * q)
    }
}

proof fn lemma_pow2_facts()
    ensures
        pow2(52) == 0x10_0000_0000_0000,
        forall|e: nat| #[trigger] pow2(e) > 0,
{
    lemma2_to64();
    lemma2_to64_rest();
    assert forall|e: nat| #[trigger] pow2(e) > 0 by {
        lemma_pow2_pos(e);
    }
}

/// Utilization percentage value object (a float in `0..=100`, kept as its bits).
#[derive(Debug, Clone, Copy, PartialEq, Eq, Structural)]
pub struct Utilization {
    pub percent: F64Bits,
}

impl Default for Utilization {
    /// Zero percent.
    fn default() -> (r: Self)
        ensures
            r.percent == F64Bits(0),
    {
        Utilization { percent: F64Bits(0) }
    }
}

impl Utilization {
    /// The utilization of `percent` whole percent, if that is within `0..=100`.
    pub fn from_whole_percent(percent: u32) -> (r: Option<Self>)
        ensures
            percent <= 100 ==> r == Some(Utilization { percent: F64Bits(whole_f64_bits(percent as nat) as u64) }),
            percent > 100 ==> r is None,
    {
        if percent <= 100 {
            Some(Utilization { percent: F64Bits::from_whole(percent) })
        } else {
            None
        }
    }
}

/// Temperature value object (degrees Celsius as float bits).
#[derive(Debug, Clone, Copy, PartialEq, Eq, Structural)]
pub struct Temperature {
    pub celsius: F64Bits,
}

/// Power consumption value object (watts as float bits).
#[derive(Debug, Clone, Copy, PartialEq, Eq, Structural)]
pub struct Power {
    pub watts: F64Bits,
}

impl Temperature {
    /// A temperature of `celsius` whole degrees Celsius.
    pub fn from_whole_celsius(celsius: u32) -> (r: Self)
        ensures
            r.celsius.0 == whole_f64_bits(celsius as nat),
    {
        Temperature { celsius: F64Bits::from_whole(celsius) }
    }
}

impl Power {
    /// A power draw of `watts` whole watts.
    pub fn from_whole_watts(watts: u32) -> (r: Self)
        ensures
            r.watts.0 == whole_f64_bits(watts as nat),
    {
        Power { watts: F64Bits::from_whole(watts) }
    }
}

/// Memory statistics value object.
#[derive(Debug, Clone, Copy, PartialEq, Eq, Structural)]
pub struct MemoryStats {
    pub used_bytes: u64,
    pub total_bytes: u64,
    pub free_bytes: u64,
}

/// The statistics of `used` out of `total` bytes; free memory is what is left, or zero.
pub open spec fn memory_stats_of(used: u64, total: u64) -> MemoryStats {
    MemoryStats {
        used_bytes: used,
        total_bytes: total,
        free_bytes: if used <= total { (total - used) as u64 } else { 0u64 },
    }
}

impl MemoryStats {
    /// Statistics from used and total bytes; free memory is what is left, or zero.
    pub fn new(used: u64, total: u64) -> (r: Self)
        ensures
            r == memory_stats_of(used, total),
    {
        MemoryStats { used_bytes: used, total_bytes: total, free_bytes: total.saturating_sub(used) }
    }
}

/// Frequency value object.
#[derive(Debug, Clone, Copy, PartialEq, Eq, Structural)]
pub struct Frequency {
    pub hertz: u64,
}

impl Frequency {
    /// The frequency of `mhz` megahertz.
    pub fn from_mhz(mhz: u64) -> (r: Self)
        requires
            mhz * 1_000_000 <= u64::MAX,
        ensures
            r.hertz == mhz * 1_000_000,
    {
        Frequency { hertz: mhz * 1_000_000 }
    }

    /// The frequency in hertz.
    pub fn as_hertz(&self) -> (r: u64)
        ensures
            r == self.hertz,
    {
        self.hertz
    }

    /// The frequency in whole megahertz, rounded down.
    pub fn as_mhz(&self) -> (r: u64)
        ensures
            r == self.hertz / 1_000_000,
    {
        self.hertz / 1_000_000
    }
}

/// Converting megahertz to a frequency and back gives the same number: the frequency that
/// `from_mhz` makes, read by `as_mhz`.
pub proof fn law_frequency_mhz_roundtrip(mhz: u64)
    requires
        mhz * 1_000_000 <= u64::MAX,
    ensures
        (Frequency { hertz: (mhz * 1_000_000) as u64 }).hertz / 1_000_000 == mhz,
{
}

} // verus!
