//! Business policies and validation rules.
use vstd::prelude::*;
use crate::aggregates::Accelerator;
use crate::value_objects::Timestamp;

verus! {

/// Policy engine for metrics and accelerators.
pub struct PolicyEngine;

/// Health of an accelerator as the policies judge it.
#[derive(Debug, Clone, Copy, PartialEq, Eq, Structural)]
pub enum HealthStatus {
    Healthy,
    Degraded,
    Stale,
    Disabled,
}

/// The health of an accelerator at time `now`: stale when it was last seen more than 60
/// whole seconds earlier, else disabled when it is not enabled, else healthy.
pub open spec fn health_at(now: Timestamp, last_seen: Timestamp, enabled: bool) -> HealthStatus {
    if now.nanos - last_seen.nanos >= 61_000_000_000 {
        HealthStatus::Stale
    } else if !enabled {
        HealthStatus::Disabled
    } else {
        HealthStatus::Healthy
    }
}

impl PolicyEngine {
    pub fn new() -> (r: Self) {
        PolicyEngine
    }

    /// The health of `accel` at time `now`.
    ///
    /// The time since the accelerator was last seen is counted in whole seconds, rounded
    /// toward zero; the difference of the two timestamps is taken without overflow.
    pub fn accelerator_health_at(&self, now: Timestamp, accel: &Accelerator) -> (r: HealthStatus)
        ensures
            r == health_at(now, accel.last_seen, accel.enabled),
    {
        let last_seen_duration: i128 = now.nanos as i128 - accel.last_seen.nanos as i128;
        let seconds_since_seen: i128 = if last_seen_duration >= 0 {
            last_seen_duration / 1_000_000_000
        } else {
            0
        };
        if seconds_since_seen > 60 {
            HealthStatus::Stale
        } else if !accel.enabled {
            HealthStatus::Disabled
        } else {
            HealthStatus::Healthy
        }
    }

    /// The health of `accel` now.
    pub fn check_accelerator_health(&self, accel: &Accelerator) -> (r: HealthStatus)
        ensures
            exists|now: Timestamp| r == health_at(now, accel.last_seen, accel.enabled),
    {
        let now = Timestamp::now();
        self.accelerator_health_at(now, accel)
    }
}

impl Default for PolicyEngine {
    fn default() -> (r: Self) {
        PolicyEngine
    }
}

/// Sampling policy configuration.
pub struct SamplingPolicy {
    pub interval_ms: u64,
    pub max_retries: u32,
    pub timeout_ms: u64,
}

impl Default for SamplingPolicy {
    /// Once a second, three retries, five-second timeout.
    fn default() -> (r: Self)
        ensures
            r.interval_ms == 1000,
            r.max_retries == 3,
            r.timeout_ms == 5000,
    {
        SamplingPolicy { interval_ms: 1000, max_retries: 3, timeout_ms: 5000 }
    }
}

/// Retention policy for metric data.
pub enum RetentionPolicy {
    /// Keep last N samples
    LastN(usize),
    /// Keep samples for duration (in seconds)
    Duration(u64),
    /// Unlimited retention
    Unlimited,
}

/// An accelerator seen within the last minute is never stale, and a disabled one that is
/// not stale is reported disabled.
pub proof fn law_recent_is_not_stale(now: Timestamp, last_seen: Timestamp, enabled: bool)
    requires
        now.nanos - last_seen.nanos < 61_000_000_000,
    ensures
        health_at(now, last_seen, enabled) != HealthStatus::Stale,
        !enabled ==> health_at(now, last_seen, enabled) == HealthStatus::Disabled,
        enabled ==> health_at(now, last_seen, enabled) == HealthStatus::Healthy,
{
}

/// An accelerator not seen for 61 seconds or more is stale, whether or not it is enabled:
/// staleness is judged before being disabled.
pub proof fn law_staleness_comes_first(now: Timestamp, last_seen: Timestamp)
    requires
        now.nanos - last_seen.nanos >= 61_000_000_000,
    ensures
        health_at(now, last_seen, true) == HealthStatus::Stale,
        health_at(now, last_seen, false) == HealthStatus::Stale,
{
}

/// The health never depends on whether the accelerator is enabled once it is stale, and a
/// disabled accelerator is reported disabled exactly when it is not stale.
pub proof fn law_disabled_only_when_recent(now: Timestamp, last_seen: Timestamp)
    ensures
        (health_at(now, last_seen, false) == HealthStatus::Disabled) <==> (now.nanos - last_seen.nanos
            < 61_000_000_000),
        (health_at(now, last_seen, true) == HealthStatus::Healthy) <==> (now.nanos - last_seen.nanos
            < 61_000_000_000),
{
}

} // verus!
