//! Application services.
use vstd::prelude::*;

verus! {

/// Collection service for metrics.
pub struct CollectionService;

impl CollectionService {
    pub fn new() -> (r: Self) {
        CollectionService
    }
}

impl Default for CollectionService {
    fn default() -> (r: Self) {
        CollectionService
    }
}

/// Sampling configuration.
pub struct SamplingConfiguration {
    pub interval_ms: u64,
}

impl Default for SamplingConfiguration {
    /// Once a second.
    fn default() -> (r: Self)
        ensures
            r.interval_ms == 1000,
    {
        SamplingConfiguration { interval_ms: 1000 }
    }
}

/// Collection strategy.
pub enum CollectionStrategy {
    Polling,
    EventDriven,
}

} // verus!
