//! Which accelerator backends a build supports on its platform.
use vstd::prelude::*;

verus! {

/// The backends compiled in for the platform: Metal (macOS with the `metal` feature), NVML
/// (Linux with the `nvml` feature) and TPU (the `tpu` feature).
#[derive(Debug, Clone, Copy, PartialEq, Eq, Structural, Default)]
pub struct BackendSupport {
    pub metal: bool,
    pub nvml: bool,
    pub tpu: bool,
}

/// Backend factory that knows the platform's capabilities.
pub struct PlatformBackendFactory;

/// The names of the supported backends, in the order Metal, NVML, TPU.
pub open spec fn available_backend_names(s: BackendSupport) -> Seq<Seq<char>> {
    (if s.metal { seq!["metal"@] } else { Seq::empty() }) + (if s.nvml {
        seq!["nvml"@]
    } else {
        Seq::empty()
    }) + (if s.tpu { seq!["tpu"@] } else { Seq::empty() })
}

impl PlatformBackendFactory {
    /// The backends that are available without creating them.
    pub fn available_backends(support: BackendSupport) -> (r: Vec<&'static str>)
        ensures
            r@.map_values(|n: &'static str| n@) == available_backend_names(support),
    {
        let mut available: Vec<&'static str> = Vec::new();
        if support.metal {
            available.push("metal");
        }
        if support.nvml {
            available.push("nvml");
        }
        if support.tpu {
            available.push("tpu");
        }
        assert(available@.map_values(|n: &'static str| n@) =~= available_backend_names(support));
        available
    }
}

} // verus!
