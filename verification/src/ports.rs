//! What crosses the ports of the domain: backend health and version, and probe events.
use vstd::prelude::*;
use crate::ids::ProbeId;
use crate::text::decimal;
use crate::value_objects::Timestamp;

verus! {

/// An event produced by an eBPF probe.
#[derive(Debug, Clone)]
pub struct ProbeEvent {
    pub probe_id: ProbeId,
    pub timestamp: Timestamp,
    pub data: Vec<u8>,
    pub event_type: String,
}

/// Health status of a backend.
#[derive(Debug, Clone, Copy, PartialEq, Eq)]
pub enum BackendHealth {
    Healthy,
    Degraded { reason: &'static str },
    Unhealthy { reason: &'static str },
}

impl BackendHealth {
    /// Only a healthy backend is healthy; a degraded one is not.
    pub fn is_healthy(&self) -> (r: bool)
        ensures
            r == (*self is Healthy),
    {
        match self {
            BackendHealth::Healthy => true,
            _ => false,
        }
    }
}

/// Version information of a backend.
#[derive(Debug, Clone)]
pub struct BackendVersion {
    pub major: u32,
    pub minor: u32,
    pub patch: u32,
    pub git_hash: Option<String>,
    pub build_date: Option<String>,
}

/// The text of a version: `major.minor.patch`, then `-` and the first eight characters of
/// the git hash when there is one.
pub open spec fn version_text(v: BackendVersion) -> Seq<char> {
    let base = decimal(v.major as nat) + "."@ + decimal(v.minor as nat) + "."@ + decimal(
        v.patch as nat,
    );
    match v.git_hash {
        Some(h) => base + "-"@ + h@.take(if h@.len() < 8 { h@.len() as int } else { 8 }),
        None => base,
    }
}

impl BackendVersion {
    /// The version as text, as `Display` writes it.
    ///
    /// The hash contributes its first eight characters (git hashes are ASCII, so these are
    /// its first eight bytes).
    pub fn to_string(&self) -> (r: String)
        ensures
            r@ == version_text(*self),
    {
        let mut s = String::new();
        crate::text::push_decimal(&mut s, self.major as u64);
        s.append(".");
        crate::text::push_decimal(&mut s, self.minor as u64);
        s.append(".");
        crate::text::push_decimal(&mut s, self.patch as u64);
        proof {
            reveal_strlit(".");
        }
        let ghost base = s@;
        assert(base =~= decimal(self.major as nat) + "."@ + decimal(self.minor as nat) + "."@
            + decimal(self.patch as nat));
        match &self.git_hash {
            Some(h) => {
                let n = h.as_str().unicode_len();
                let take = if n < 8 { n } else { 8 };
                let prefix = h.as_str().substring_char(0, take);
                s.append("-");
                s.append(prefix);
                assert(h@.subrange(0, take as int) =~= h@.take(take as int));
            },
            None => {},
        }
        s
    }
}

} // verus!
