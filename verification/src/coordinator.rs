//! Sampling coordinator: ties the metric sources together on a debounced
//! cadence. It is invoked on every presentation tick but performs real work
//! only when at least the sampling interval has passed since the last sample,
//! at which point it pushes all four metrics into their rolling window stores
//! under one shared timestamp.

use crate::store::{DEFAULT_RETENTION_MS, RollingStore, Sample};
use vstd::prelude::*;
use vstd::string::StringExecFns;

verus! {

/// Minimum wall-clock distance between two samples, in milliseconds.
pub const SAMPLE_INTERVAL_MS: i64 = 500;

/// Whether enough time has passed since the last sample for the coordinator
/// to sample again: the age of the most recent sample has reached the
/// sampling interval.
pub open spec fn debounce_elapsed(last_sample_ms: i64, now_ms: i64) -> bool {
    now_ms - last_sample_ms >= SAMPLE_INTERVAL_MS
}

/// One instantaneous reading of all four metrics: aggregate CPU utilization
/// (percent), average CPU clock frequency (MHz), package temperature
/// (degrees), and the latest published power draw (watts).
#[derive(Clone, Copy, PartialEq, Eq, Structural, Debug)]
pub struct MetricSnapshot {
    pub cpu_usage_percent: i64,
    pub cpu_frequency_mhz: i64,
    pub package_temperature: i64,
    pub power_watts: i64,
}

/// The coordinator: the time of the last real sample and the four rolling
/// window stores it feeds.
pub struct Coordinator {
    last_sample_ms: i64,
    usage: RollingStore,
    frequency: RollingStore,
    temperature: RollingStore,
    watts: RollingStore,
}

impl Coordinator {
    /// The timestamp of the most recent sample.
    pub closed spec fn last_sample_spec(&self) -> i64 {
        self.last_sample_ms
    }

    /// The CPU utilization store.
    pub closed spec fn usage_spec(&self) -> RollingStore {
        self.usage
    }

    /// The CPU frequency store.
    pub closed spec fn frequency_spec(&self) -> RollingStore {
        self.frequency
    }

    /// The package temperature store.
    pub closed spec fn temperature_spec(&self) -> RollingStore {
        self.temperature
    }

    /// The power draw store.
    pub closed spec fn watts_spec(&self) -> RollingStore {
        self.watts
    }

    /// Every store holds at least one sample and keeps the default retention.
    pub open spec fn wf(&self) -> bool {
        &&& self.usage_spec().wf()
        &&& self.frequency_spec().wf()
        &&& self.temperature_spec().wf()
        &&& self.watts_spec().wf()
    }

    /// A coordinator whose stores each hold exactly one seed sample at
    /// `now_ms`: the given CPU utilization, frequency and temperature
    /// readings, and zero watts (no power delta exists before the sampler's
    /// second reading).
    pub fn new(
        now_ms: i64,
        cpu_usage_percent: i64,
        cpu_frequency_mhz: i64,
        package_temperature: i64,
    ) -> (c: Coordinator)
        ensures
            c.last_sample_spec() == now_ms,
            c.usage_spec()@ == seq![Sample { timestamp_ms: now_ms, value: cpu_usage_percent }],
            c.frequency_spec()@ == seq![Sample { timestamp_ms: now_ms, value: cpu_frequency_mhz }],
            c.temperature_spec()@ == seq![Sample { timestamp_ms: now_ms, value: package_temperature }],
            c.watts_spec()@ == seq![Sample { timestamp_ms: now_ms, value: 0 }],
            c.usage_spec().retention_spec() == DEFAULT_RETENTION_MS as int,
            c.frequency_spec().retention_spec() == DEFAULT_RETENTION_MS as int,
            c.temperature_spec().retention_spec() == DEFAULT_RETENTION_MS as int,
            c.watts_spec().retention_spec() == DEFAULT_RETENTION_MS as int,
            c.wf(),
    {
        Coordinator {
            last_sample_ms: now_ms,
            usage: RollingStore::new(now_ms, cpu_usage_percent, String::from_str("%"), 100),
            frequency: RollingStore::new(now_ms, cpu_frequency_mhz, String::from_str(" MHz"), 5000),
            temperature: RollingStore::new(now_ms, package_temperature, String::from_str(" C"), 100),
            watts: RollingStore::new(now_ms, 0, String::from_str(" W"), 80),
        }
    }

    /// Whether a tick arriving at `now_ms` would sample. The presentation
    /// layer may use this to avoid gathering a snapshot that a tick would
    /// discard.
    pub fn should_sample(&self, now_ms: i64) -> (r: bool)
        ensures
            r == debounce_elapsed(self.last_sample_spec(), now_ms),
    {
        (now_ms as i128) - (self.last_sample_ms as i128) >= SAMPLE_INTERVAL_MS as i128
    }

    /// One external tick. When the most recent sample is younger than the
    /// sampling interval this is a no-op; otherwise `now_ms` is recorded as
    /// the new sample time and all four snapshot values are pushed into their
    /// stores under the shared timestamp `now_ms`, so the four series stay
    /// time-aligned. A `true` result also signals that any render cache over
    /// the stores is stale and must be invalidated.
    pub fn tick(&mut self, now_ms: i64, snapshot: MetricSnapshot) -> (sampled: bool)
        ensures
            sampled == debounce_elapsed(old(self).last_sample_spec(), now_ms),
            !sampled ==> *final(self) == *old(self),
            sampled ==> {
                &&& final(self).last_sample_spec() == now_ms
                &&& RollingStore::push_post(
                    final(self).usage_spec(),
                    old(self).usage_spec(),
                    now_ms,
                    snapshot.cpu_usage_percent,
                )
                &&& RollingStore::push_post(
                    final(self).frequency_spec(),
                    old(self).frequency_spec(),
                    now_ms,
                    snapshot.cpu_frequency_mhz,
                )
                &&& RollingStore::push_post(
                    final(self).temperature_spec(),
                    old(self).temperature_spec(),
                    now_ms,
                    snapshot.package_temperature,
                )
                &&& RollingStore::push_post(
                    final(self).watts_spec(),
                    old(self).watts_spec(),
                    now_ms,
                    snapshot.power_watts,
                )
            },
            old(self).wf() ==> final(self).wf(),
    {
        if !self.should_sample(now_ms) {
            return false;
        }
        self.last_sample_ms = now_ms;
        self.usage.push(now_ms, snapshot.cpu_usage_percent);
        self.frequency.push(now_ms, snapshot.cpu_frequency_mhz);
        self.temperature.push(now_ms, snapshot.package_temperature);
        self.watts.push(now_ms, snapshot.power_watts);
        true
    }

    /// The CPU utilization store, read-only.
    pub fn usage(&self) -> (s: &RollingStore)
        ensures
            *s == self.usage_spec(),
    {
        &self.usage
    }

    /// The CPU frequency store, read-only.
    pub fn frequency(&self) -> (s: &RollingStore)
        ensures
            *s == self.frequency_spec(),
    {
        &self.frequency
    }

    /// The package temperature store, read-only.
    pub fn temperature(&self) -> (s: &RollingStore)
        ensures
            *s == self.temperature_spec(),
    {
        &self.temperature
    }

    /// The power draw store, read-only.
    pub fn watts(&self) -> (s: &RollingStore)
        ensures
            *s == self.watts_spec(),
    {
        &self.watts
    }

    /// The timestamp of the most recent sample.
    pub fn last_sample_ms(&self) -> (t: i64)
        ensures
            t == self.last_sample_spec(),
    {
        self.last_sample_ms
    }
}

/// Debounce idempotence: once a tick has sampled at `now_ms`, any further
/// tick arriving less than the sampling interval later does not sample, so
/// two ticks within one interval of each other push at most once per store
/// (the tick contract makes the non-sampling call leave the coordinator
/// unchanged).
pub proof fn lemma_debounce_idempotent(first_ms: i64, second_ms: i64)
    requires
        second_ms - first_ms < SAMPLE_INTERVAL_MS,
    ensures
        !debounce_elapsed(first_ms, second_ms),
{
}

} // verus!
