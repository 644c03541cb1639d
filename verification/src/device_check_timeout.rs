//! Bookkeeping of timed-out device checks.
//!
//! Audio services can become unresponsive, so device checks are run with a
//! time limit by the caller; [`TimeoutTracker`] counts how many checks in a
//! row ran out of time, to tell a frozen service from a transient hiccup.

use vstd::prelude::*;

use std::time::Duration;

use crate::dsd::duration_value;

verus! {

/// Default timeout for device checks, in seconds.
pub const DEFAULT_DEVICE_CHECK_TIMEOUT_SECS: u64 = 5;

/// Default number of consecutive timeouts after which a service is deemed
/// unresponsive.
pub const DEFAULT_MAX_CONSECUTIVE_TIMEOUTS: u32 = 3;

/// `Duration::from_secs`: a duration of `secs` whole seconds, the same
/// duration as `Duration::new(secs, 0)`.
#[verifier::external_body]
fn duration_from_secs(secs: u64) -> (r: Duration)
    ensures
        r == duration_value(secs, 0),
{
    Duration::from_secs(secs)
}

/// Timeout configuration for device checks.
#[derive(Debug, Clone, Copy)]
pub struct TimeoutConfig {
    /// Timeout duration for device checks
    pub timeout: Duration,
    /// Maximum consecutive timeouts before giving up
    pub max_consecutive_timeouts: u32,
}

impl Default for TimeoutConfig {
    /// Five-second checks, three consecutive timeouts allowed.
    fn default() -> (r: Self)
        ensures
            r.timeout == duration_value(DEFAULT_DEVICE_CHECK_TIMEOUT_SECS, 0),
            r.max_consecutive_timeouts == DEFAULT_MAX_CONSECUTIVE_TIMEOUTS,
    {
        TimeoutConfig {
            timeout: duration_from_secs(DEFAULT_DEVICE_CHECK_TIMEOUT_SECS),
            max_consecutive_timeouts: DEFAULT_MAX_CONSECUTIVE_TIMEOUTS,
        }
    }
}

/// Tracks consecutive timeout occurrences.
pub struct TimeoutTracker {
    consecutive_timeouts: u32,
    config: TimeoutConfig,
}

/// The count after one more timeout (saturating at `u32::MAX`).
pub open spec fn count_after_timeout(count: u32) -> u32 {
    if count == u32::MAX {
        count
    } else {
        (count + 1) as u32
    }
}

/// The count after `n` consecutive timeouts from zero.
pub open spec fn count_after_timeouts(n: nat) -> u32 {
    if n >= u32::MAX {
        u32::MAX
    } else {
        n as u32
    }
}

impl TimeoutTracker {
    /// The current consecutive timeout count.
    pub closed spec fn count(&self) -> u32 {
        self.consecutive_timeouts
    }

    /// The number of consecutive timeouts at which the tracker gives up.
    pub closed spec fn max_timeouts(&self) -> u32 {
        self.config.max_consecutive_timeouts
    }

    /// Create a new timeout tracker with the default configuration.
    pub fn new() -> (r: Self)
        ensures
            r.count() == 0,
            r.max_timeouts() == DEFAULT_MAX_CONSECUTIVE_TIMEOUTS,
    {
        TimeoutTracker { consecutive_timeouts: 0, config: TimeoutConfig::default() }
    }

    /// Create a new timeout tracker with a custom configuration.
    pub fn with_config(config: TimeoutConfig) -> (r: Self)
        ensures
            r.count() == 0,
            r.max_timeouts() == config.max_consecutive_timeouts,
    {
        TimeoutTracker { consecutive_timeouts: 0, config }
    }

    /// Record a timeout occurrence.
    pub fn record_timeout(&mut self)
        ensures
            final(self).count() == count_after_timeout(old(self).count()),
            final(self).max_timeouts() == old(self).max_timeouts(),
    {
        self.consecutive_timeouts = self.consecutive_timeouts.saturating_add(1);
    }

    /// Record a successful check (resets the timeout counter).
    pub fn record_success(&mut self)
        ensures
            final(self).count() == 0,
            final(self).max_timeouts() == old(self).max_timeouts(),
    {
        self.consecutive_timeouts = 0;
    }

    /// Whether the maximum number of consecutive timeouts was reached.
    pub fn is_max_reached(&self) -> (r: bool)
        ensures
            r == (self.count() >= self.max_timeouts()),
    {
        self.consecutive_timeouts >= self.config.max_consecutive_timeouts
    }

    /// Get the current consecutive timeout count.
    pub fn get_count(&self) -> (r: u32)
        ensures
            r == self.count(),
    {
        self.consecutive_timeouts
    }

    /// Reset the tracker.
    pub fn reset(&mut self)
        ensures
            final(self).count() == 0,
            final(self).max_timeouts() == old(self).max_timeouts(),
    {
        self.consecutive_timeouts = 0;
    }
}

impl Default for TimeoutTracker {
    fn default() -> (r: Self)
        ensures
            r.count() == 0,
            r.max_timeouts() == DEFAULT_MAX_CONSECUTIVE_TIMEOUTS,
    {
        Self::new()
    }
}

/// Counting timeouts one at a time from zero gives the number of timeouts
/// recorded (until the count saturates).
pub proof fn lemma_timeouts_accumulate(n: nat)
    ensures
        count_after_timeout(count_after_timeouts(n)) == count_after_timeouts(n + 1),
{
}

/// A fresh tracker gives up exactly when the number of consecutive
/// timeouts recorded reaches its maximum.
pub proof fn lemma_max_reached_after(n: nat, max: u32)
    ensures
        (count_after_timeouts(n) >= max) <==> (n >= max),
{
}

} // verus!
