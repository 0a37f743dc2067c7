//! The predefined eBPF probes for GPU monitoring.
use vstd::prelude::*;
use crate::entities::{Probe, ProbeProgramType, ProbeType};
use crate::errors::DomainError;
use crate::text::{split_char, split_on};

verus! {

/// A probe as defined: not attached, named, of the given type, target and program.
pub open spec fn probe_is(
    p: Probe,
    name: Seq<char>,
    probe_type: ProbeType,
    target: Seq<char>,
    program_type: ProbeProgramType,
) -> bool {
    &&& p.name@ == name
    &&& p.probe_type == probe_type
    &&& p.target@ == target
    &&& p.program_type == program_type
    &&& !p.enabled
    &&& p.attached_at is None
}

/// The predefined probes for GPU monitoring.
pub struct GpuProbeSet;

impl GpuProbeSet {
    /// The GPU memory allocation probe: the `drm:drm_vblank_event` tracepoint.
    pub fn gpu_memory_alloc() -> (r: Probe)
        ensures
            probe_is(r, "gpu_memory_alloc"@, ProbeType::Tracepoint, "drm:drm_vblank_event"@,
                ProbeProgramType::GpuMemory),
    {
        Probe::new(
            "gpu_memory_alloc",
            ProbeType::Tracepoint,
            "drm:drm_vblank_event",
            ProbeProgramType::GpuMemory,
        )
    }

    /// The DMA mapping probe: a kprobe on `dma_map_page`.
    pub fn dma_map() -> (r: Probe)
        ensures
            probe_is(r, "dma_map_page"@, ProbeType::Kprobe, "dma_map_page"@, ProbeProgramType::IoTrace),
    {
        Probe::new("dma_map_page", ProbeType::Kprobe, "dma_map_page", ProbeProgramType::IoTrace)
    }

    /// The memory pressure probe: the `vmscan:mm_vmscan_direct_reclaim_begin` tracepoint.
    pub fn memory_pressure() -> (r: Probe)
        ensures
            probe_is(r, "memory_pressure"@, ProbeType::Tracepoint,
                "vmscan:mm_vmscan_direct_reclaim_begin"@, ProbeProgramType::MemoryPressure),
    {
        Probe::new(
            "memory_pressure",
            ProbeType::Tracepoint,
            "vmscan:mm_vmscan_direct_reclaim_begin",
            ProbeProgramType::MemoryPressure,
        )
    }

    /// All the GPU probes: memory allocation, DMA mapping, memory pressure.
    pub fn all() -> (r: Vec<Probe>)
        ensures
            r@.len() == 3,
            probe_is(r@[0], "gpu_memory_alloc"@, ProbeType::Tracepoint, "drm:drm_vblank_event"@,
                ProbeProgramType::GpuMemory),
            probe_is(r@[1], "dma_map_page"@, ProbeType::Kprobe, "dma_map_page"@, ProbeProgramType::IoTrace),
            probe_is(r@[2], "memory_pressure"@, ProbeType::Tracepoint,
                "vmscan:mm_vmscan_direct_reclaim_begin"@, ProbeProgramType::MemoryPressure),
    {
        let mut v: Vec<Probe> = Vec::new();
        v.push(Self::gpu_memory_alloc());
        v.push(Self::dma_map());
        v.push(Self::memory_pressure());
        v
    }
}

/// The category and name of a tracepoint target `category:name`: the target split at
/// every `:` must give exactly two parts.
pub fn tracepoint_target(target: &str) -> (r: Result<(String, String), DomainError>)
    ensures
        split_on(target@, ':').len() == 2 ==> (r matches Ok((c, n)) && c@ == split_on(target@, ':')[0] && n@
            == split_on(target@, ':')[1]),
        split_on(target@, ':').len() != 2 ==> (r matches Err(DomainError::ConfigurationError(m)) && m@
            == "Invalid tracepoint format: "@ + target@),
{
    let mut parts = split_char(target, ':');
    if parts.len() != 2 {
        return Err(DomainError::ConfigurationError(crate::text::concat2("Invalid tracepoint format: ", target)));
    }
    let ghost pv = parts@.map_values(|p: String| p@);
    let name = parts.pop().unwrap();
    let category = parts.pop().unwrap();
    assert(category@ == pv[0] && name@ == pv[1]);
    Ok((category, name))
}

} // verus!
