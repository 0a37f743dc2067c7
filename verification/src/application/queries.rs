//! Queries of the application layer.
use vstd::prelude::*;
use crate::application::AppResult;
use crate::ids::AcceleratorId;

verus! {

/// Query for the metrics of an accelerator.
#[derive(Debug, Clone, Copy)]
pub struct GetAcceleratorMetrics {
    pub accelerator_id: AcceleratorId,
}

/// Query to list all accelerators.
pub struct ListAccelerators;

/// Query for the health status.
pub struct GetHealthStatus;

/// Handler for `GetHealthStatus`.
pub struct GetHealthStatusHandler;

impl GetHealthStatusHandler {
    pub fn new() -> (r: Self) {
        GetHealthStatusHandler
    }

    /// Reports the service healthy.
    pub fn handle(&self, _query: GetHealthStatus) -> (r: AppResult<String>)
        ensures
            r matches Ok(s) && s@ == "healthy"@,
    {
        Ok(String::from_str("healthy"))
    }
}

impl Default for GetHealthStatusHandler {
    fn default() -> (r: Self) {
        GetHealthStatusHandler
    }
}

} // verus!
