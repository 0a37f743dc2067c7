//! Domain services.
use vstd::prelude::*;

verus! {

/// Service for collecting metrics from accelerators.
pub struct MetricCollectionService;

impl MetricCollectionService {
    pub fn new() -> (r: Self) {
        MetricCollectionService
    }
}

impl Default for MetricCollectionService {
    fn default() -> (r: Self) {
        MetricCollectionService
    }
}

/// Service for managing the accelerator lifecycle.
pub struct AcceleratorManagementService;

impl AcceleratorManagementService {
    pub fn new() -> (r: Self) {
        AcceleratorManagementService
    }
}

impl Default for AcceleratorManagementService {
    fn default() -> (r: Self) {
        AcceleratorManagementService
    }
}

} // verus!
