//! Settings of the background garbage collection of expired keys.

use std::time::Duration;
use vstd::prelude::*;

use crate::time::{duration_from_millis, millis_duration};

verus! {

/// Configuration for the garbage collection (GC) of expired keys.
#[derive(Clone, Copy, Debug)]
pub struct GcConfig {
    /// How often to run GC (default: 250ms)
    pub cleanup_interval: Duration,
    /// Maximum number of expired keys to clean per batch (default: 100)
    pub batch_size: usize,
    /// Whether GC is enabled (default: true)
    pub enabled: bool,
}

impl GcConfig {
    /// The settings made of the three given values.
    pub open spec fn of(cleanup_interval: Duration, batch_size: usize, enabled: bool) -> GcConfig {
        GcConfig { cleanup_interval, batch_size, enabled }
    }

    /// The default settings: every 250ms, 100 keys per batch, enabled.
    pub open spec fn default_settings() -> GcConfig {
        GcConfig::of(millis_duration(250), 100, true)
    }

    /// These settings with another cleanup interval.
    pub open spec fn interval_set(self, interval: Duration) -> GcConfig {
        GcConfig { cleanup_interval: interval, ..self }
    }

    /// These settings with another batch size.
    pub open spec fn batch_size_set(self, batch_size: usize) -> GcConfig {
        GcConfig { batch_size, ..self }
    }

    /// These settings with GC switched on or off.
    pub open spec fn enabled_set(self, enabled: bool) -> GcConfig {
        GcConfig { enabled, ..self }
    }

    /// Enabled settings with a custom interval and batch size.
    pub fn new(cleanup_interval: Duration, batch_size: usize) -> (c: GcConfig)
        ensures
            c == GcConfig::of(cleanup_interval, batch_size, true),
    {
        GcConfig { cleanup_interval, batch_size, enabled: true }
    }

    /// Faster cleanup: every 100ms, 50 keys per batch.
    pub fn fast() -> (c: GcConfig)
        ensures
            c == GcConfig::of(millis_duration(100), 50, true),
    {
        GcConfig { cleanup_interval: duration_from_millis(100), batch_size: 50, enabled: true }
    }

    /// Slower cleanup: every 500ms, 200 keys per batch.
    pub fn slow() -> (c: GcConfig)
        ensures
            c == GcConfig::of(millis_duration(500), 200, true),
    {
        GcConfig { cleanup_interval: duration_from_millis(500), batch_size: 200, enabled: true }
    }

    /// The default interval and batch size, with GC switched off.
    pub fn disabled() -> (c: GcConfig)
        ensures
            c == GcConfig::of(millis_duration(250), 100, false),
    {
        GcConfig { cleanup_interval: duration_from_millis(250), batch_size: 100, enabled: false }
    }

    /// Sets the cleanup interval.
    pub fn with_interval(self, interval: Duration) -> (c: GcConfig)
        ensures
            c == self.interval_set(interval),
    {
        let mut c = self;
        c.cleanup_interval = interval;
        c
    }

    /// Sets the batch size.
    pub fn with_batch_size(self, batch_size: usize) -> (c: GcConfig)
        ensures
            c == self.batch_size_set(batch_size),
    {
        let mut c = self;
        c.batch_size = batch_size;
        c
    }

    /// Switches GC on or off.
    pub fn with_enabled(self, enabled: bool) -> (c: GcConfig)
        ensures
            c == self.enabled_set(enabled),
    {
        let mut c = self;
        c.enabled = enabled;
        c
    }
}

impl Default for GcConfig {
    fn default() -> (c: GcConfig)
        ensures
            c == GcConfig::default_settings(),
    {
        GcConfig { cleanup_interval: duration_from_millis(250), batch_size: 100, enabled: true }
    }
}

/// Each builder changes only its own setting, so builders applied to
/// different settings give the same result in either order; `new` is the
/// default with its interval and batch size set, and `disabled` is the
/// default switched off.
pub proof fn law_builders(c: GcConfig, interval: Duration, batch_size: usize, enabled: bool)
    ensures
        c.interval_set(interval).batch_size_set(batch_size) == c.batch_size_set(
            batch_size,
        ).interval_set(interval),
        c.interval_set(interval).enabled_set(enabled) == c.enabled_set(enabled).interval_set(
            interval,
        ),
        c.batch_size_set(batch_size).enabled_set(enabled) == c.enabled_set(
            enabled,
        ).batch_size_set(batch_size),
        c.interval_set(interval).interval_set(interval) == c.interval_set(interval),
        GcConfig::default_settings().interval_set(interval).batch_size_set(batch_size)
            == GcConfig::of(interval, batch_size, true),
        GcConfig::default_settings().enabled_set(false) == GcConfig::of(
            millis_duration(250),
            100,
            false,
        ),
{
}

} // verus!
