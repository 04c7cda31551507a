//! Tunable parameters of the monitor.

use vstd::prelude::*;

verus! {

/// Timing and escalation parameters of a monitor. Every duration is a whole
/// number of milliseconds.
#[derive(Debug, Clone, Copy, PartialEq, Eq)]
pub struct MonitorConfig {
    /// The polling period a monitor starts with.
    pub sample_interval_ms: u64,
    /// The shortest period that tuning settles on.
    pub sample_interval_min_ms: u64,
    /// The longest period that tuning settles on.
    pub sample_interval_max_ms: u64,
    /// Age beyond which the last good reading counts as stale.
    pub stale_after_ms: u64,
    /// Age reported while no reading has ever succeeded.
    pub disconnected_after_ms: u64,
    /// How long one read may take.
    pub poll_timeout_ms: u64,
    /// Number of failures in a row that tears the session down.
    pub error_threshold: u32,
    /// Whether the polling period adapts to what the reads do.
    pub auto_tune: bool,
}

impl MonitorConfig {
    /// Whether the starting period lies within the bounds of tuning.
    pub open spec fn well_formed(self) -> bool {
        self.sample_interval_min_ms <= self.sample_interval_ms <= self.sample_interval_max_ms
    }

    /// Tests `well_formed`.
    pub fn is_well_formed(&self) -> (ok: bool)
        ensures
            ok == self.well_formed(),
    {
        self.sample_interval_min_ms <= self.sample_interval_ms && self.sample_interval_ms
            <= self.sample_interval_max_ms
    }
}

impl Default for MonitorConfig {
    fn default() -> (config: MonitorConfig)
        ensures
            config == (MonitorConfig {
                sample_interval_ms: 1000,
                sample_interval_min_ms: 1000,
                sample_interval_max_ms: 3000,
                stale_after_ms: 2500,
                disconnected_after_ms: 5000,
                poll_timeout_ms: 700,
                error_threshold: 3,
                auto_tune: true,
            }),
    {
        MonitorConfig {
            sample_interval_ms: 1000,
            sample_interval_min_ms: 1000,
            sample_interval_max_ms: 3000,
            stale_after_ms: 2500,
            disconnected_after_ms: 5000,
            poll_timeout_ms: 700,
            error_threshold: 3,
            auto_tune: true,
        }
    }
}

} // verus!
