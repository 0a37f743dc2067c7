//! Identifiers of accelerators, sensors, metrics, samples and probes.
//!
//! Each identifier is a UUID held by its 128-bit value; fresh identifiers are random
//! version-4 UUIDs made by the `uuid` crate, which also writes and parses their text.
use vstd::prelude::*;
use crate::text::digit_char;

verus! {

/// The bits of a UUID that hold its version (the 13th hex digit) and its variant
/// (the top two bits of the 17th hex digit).
pub open spec fn uuid_version_variant_mask() -> u128 {
    0x0000_0000_0000_F000_C000_0000_0000_0000u128
}

/// The value of those bits in a random (version 4, RFC 4122 variant) UUID.
pub open spec fn uuid_v4_bits() -> u128 {
    0x0000_0000_0000_4000_8000_0000_0000_0000u128
}

/// `v` is a version-4 UUID of the RFC 4122 variant.
pub open spec fn is_uuid_v4(v: u128) -> bool {
    v & uuid_version_variant_mask() == uuid_v4_bits()
}

/// A lower-case hexadecimal digit.
pub open spec fn hex_digit(d: nat) -> char
    recommends
        d < 16,
{
    if d < 10 {
        digit_char(d)
    } else if d == 10 {
        'a'
    } else if d == 11 {
        'b'
    } else if d == 12 {
        'c'
    } else if d == 13 {
        'd'
    } else if d == 14 {
        'e'
    } else {
        'f'
    }
}

/// The `i`-th of the 32 hexadecimal digits of `v`, most significant first.
pub open spec fn uuid_nibble(v: u128, i: int) -> nat {
    ((v as int / vstd::arithmetic::power::pow(16, (31 - i) as nat)) % 16) as nat
}

/// How many hyphens stand before position `k` of the hyphenated text.
pub open spec fn hyphens_before(k: int) -> int {
    (if k > 8 { 1int } else { 0int }) + (if k > 13 { 1int } else { 0int }) + (if k > 18 {
        1int
    } else {
        0int
    }) + (if k > 23 { 1int } else { 0int })
}

/// The hyphenated lower-case text of a UUID (`8-4-4-4-12` hexadecimal digits).
pub open spec fn uuid_text(v: u128) -> Seq<char> {
    Seq::new(
        36,
        |k: int|
            if k == 8 || k == 13 || k == 18 || k == 23 {
                '-'
            } else {
                hex_digit(uuid_nibble(v, k - hyphens_before(k)))
            },
    )
}

/// The UUID that `uuid::Uuid::parse_str` reads from a text, if it reads one.
pub uninterp spec fn uuid_parse(s: Seq<char>) -> Option<u128>;

/// Calls `uuid::Uuid::new_v4` and returns the UUID's value.
///
/// The `uuid` source masks random bits so that the version digit is 4 and the variant is
/// RFC 4122, which is all this contract claims; which random value comes back is not
/// stated. It panics if the operating system's random source fails.
#[verifier::external_body]
fn random_uuid_v4() -> (r: u128)
    ensures
        is_uuid_v4(r),
{
    uuid::Uuid::new_v4().as_u128()
}

/// Calls `Display` of `uuid::Uuid` (through `to_string`) on the UUID with value `v`.
///
/// The claim is that the text is the hyphenated lower-case form, which is what the
/// `uuid` source writes for `Display`.
#[verifier::external_body]
fn uuid_to_text(v: u128) -> (r: String)
    ensures
        r@ == uuid_text(v),
{
    uuid::Uuid::from_u128(v).to_string()
}

/// Calls `uuid::Uuid::parse_str`; on failure the text of the `uuid` error comes back.
///
/// The result is named by `uuid_parse`; the claim beside it is that the hyphenated
/// lower-case text of a UUID parses back to that UUID, as the `uuid` documentation shows.
/// The error text is not stated.
#[verifier::external_body]
fn uuid_from_text(s: &str) -> (r: Result<u128, String>)
    ensures
        r is Ok <==> uuid_parse(s@) is Some,
        r matches Ok(v) ==> uuid_parse(s@) == Some(v),
        r is Ok || (forall|v: u128| s@ != uuid_text(v)),
        r matches Ok(w) ==> (forall|v: u128| s@ == uuid_text(v) ==> w == v),
{
    match uuid::Uuid::parse_str(s) {
        Ok(u) => Ok(u.as_u128()),
        Err(e) => Err(e.to_string()),
    }
}

/// Unique identifier for accelerators.
#[derive(Debug, Clone, Copy, PartialEq, Eq, Hash, Structural)]
pub struct AcceleratorId(pub u128);

/// Unique identifier for sensors.
#[derive(Debug, Clone, Copy, PartialEq, Eq, Hash, Structural)]
pub struct SensorId(pub u128);

/// Unique identifier for metrics.
#[derive(Debug, Clone, Copy, PartialEq, Eq, Hash, Structural)]
pub struct MetricId(pub u128);

/// Unique identifier for samples.
#[derive(Debug, Clone, Copy, PartialEq, Eq, Hash, Structural)]
pub struct SampleId(pub u128);

/// Unique identifier for probes (eBPF instrumentation points).
#[derive(Debug, Clone, Copy, PartialEq, Eq, Hash, Structural)]
pub struct ProbeId(pub u128);

impl AcceleratorId {
    /// A fresh random identifier.
    pub fn new() -> (r: Self)
        ensures
            is_uuid_v4(r.0),
    {
        AcceleratorId(random_uuid_v4())
    }

    /// The hyphenated text of the identifier.
    pub fn to_string(&self) -> (r: String)
        ensures
            r@ == uuid_text(self.0),
    {
        uuid_to_text(self.0)
    }
}

impl Default for AcceleratorId {
    fn default() -> (r: Self)
        ensures
            is_uuid_v4(r.0),
    {
        Self::new()
    }
}

impl SensorId {
    /// A fresh random identifier.
    pub fn new() -> (r: Self)
        ensures
            is_uuid_v4(r.0),
    {
        SensorId(random_uuid_v4())
    }

    /// The hyphenated text of the identifier.
    pub fn to_string(&self) -> (r: String)
        ensures
            r@ == uuid_text(self.0),
    {
        uuid_to_text(self.0)
    }
}

impl Default for SensorId {
    fn default() -> (r: Self)
        ensures
            is_uuid_v4(r.0),
    {
        Self::new()
    }
}

impl MetricId {
    /// A fresh random identifier.
    pub fn new() -> (r: Self)
        ensures
            is_uuid_v4(r.0),
    {
        MetricId(random_uuid_v4())
    }
}

impl Default for MetricId {
    fn default() -> (r: Self)
        ensures
            is_uuid_v4(r.0),
    {
        Self::new()
    }
}

impl SampleId {
    /// A fresh random identifier.
    pub fn new() -> (r: Self)
        ensures
            is_uuid_v4(r.0),
    {
        SampleId(random_uuid_v4())
    }
}

impl Default for SampleId {
    fn default() -> (r: Self)
        ensures
            is_uuid_v4(r.0),
    {
        Self::new()
    }
}

impl ProbeId {
    /// A fresh random identifier.
    pub fn new() -> (r: Self)
        ensures
            is_uuid_v4(r.0),
    {
        ProbeId(random_uuid_v4())
    }

    /// The hyphenated text of the identifier.
    pub fn to_string(&self) -> (r: String)
        ensures
            r@ == uuid_text(self.0),
    {
        uuid_to_text(self.0)
    }
}

impl Default for ProbeId {
    fn default() -> (r: Self)
        ensures
            is_uuid_v4(r.0),
    {
        Self::new()
    }
}

/// The error text of an identifier that does not parse: `prefix` and then the parser's words.
pub open spec fn invalid_id_message(prefix: Seq<char>, detail: Seq<char>) -> Seq<char> {
    prefix + detail
}

/// Parses an accelerator identifier from its text.
///
/// Succeeds exactly when `uuid::Uuid::parse_str` accepts the text; the error reads
/// `Invalid accelerator ID: ` followed by the parser's message.
pub fn parse_accelerator_id(id: &str) -> (r: Result<AcceleratorId, String>)
    ensures
        r is Ok <==> uuid_parse(id@) is Some,
        r matches Ok(a) ==> uuid_parse(id@) == Some(a.0),
        r matches Err(m) ==> exists|d: Seq<char>| m@ == invalid_id_message("Invalid accelerator ID: "@, d),
        forall|v: u128| id@ == uuid_text(v) ==> r == Ok::<AcceleratorId, String>(AcceleratorId(v)),
{
    match uuid_from_text(id) {
        Ok(v) => Ok(AcceleratorId(v)),
        Err(e) => {
            let m = crate::text::concat2("Invalid accelerator ID: ", e.as_str());
            assert(m@ == invalid_id_message("Invalid accelerator ID: "@, e@));
            Err(m)
        },
    }
}

/// Parses a sensor identifier from its text.
///
/// Succeeds exactly when `uuid::Uuid::parse_str` accepts the text; the error reads
/// `Invalid sensor ID: ` followed by the parser's message.
pub fn parse_sensor_id(id: &str) -> (r: Result<SensorId, String>)
    ensures
        r is Ok <==> uuid_parse(id@) is Some,
        r matches Ok(a) ==> uuid_parse(id@) == Some(a.0),
        r matches Err(m) ==> exists|d: Seq<char>| m@ == invalid_id_message("Invalid sensor ID: "@, d),
        forall|v: u128| id@ == uuid_text(v) ==> r == Ok::<SensorId, String>(SensorId(v)),
{
    match uuid_from_text(id) {
        Ok(v) => Ok(SensorId(v)),
        Err(e) => {
            let m = crate::text::concat2("Invalid sensor ID: ", e.as_str());
            assert(m@ == invalid_id_message("Invalid sensor ID: "@, e@));
            Err(m)
        },
    }
}

} // verus!
