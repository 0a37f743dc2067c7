//! Policy definitions of the application layer.
use vstd::prelude::*;

verus! {

/// Policy engine for validation.
pub struct PolicyEngine;

impl PolicyEngine {
    pub fn new() -> (r: Self) {
        PolicyEngine
    }
}

impl Default for PolicyEngine {
    fn default() -> (r: Self) {
        PolicyEngine
    }
}

/// Sampling policy.
pub struct SamplingPolicy {
    pub interval_ms: u64,
}

impl Default for SamplingPolicy {
    /// Once a second.
    fn default() -> (r: Self)
        ensures
            r.interval_ms == 1000,
    {
        SamplingPolicy { interval_ms: 1000 }
    }
}

/// Retention policy.
pub enum RetentionPolicy {
    TimeBased(u64),
    CountBased(usize),
    Unlimited,
}

} // verus!
