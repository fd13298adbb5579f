//! Instrumentation: cache-isolated atomic counters written from the hot path
//! and a cycle/wall-clock latency sampler.
//!
//! The counters are monotonically increasing statistics, incremented with
//! relaxed ordering; nothing correctness-critical reads them, so their
//! contracts promise only atomicity, which the standard library supplies.

use core::sync::atomic::{AtomicU64, Ordering};
use vstd::prelude::*;

verus! {

/// An atomic counter meant to live on its own cache line so producer and
/// consumer statistics do not contend.
pub struct CacheAlignedAtomicU64(pub AtomicU64);

impl CacheAlignedAtomicU64 {
    /// A counter starting at `v`.
    pub fn new(v: u64) -> Self {
        CacheAlignedAtomicU64(AtomicU64::new(v))
    }

    /// Add one, atomically, with relaxed ordering.
    pub fn inc(&self) {
        self.0.fetch_add(1, Ordering::Relaxed);
    }

    /// The counter's current value. Concurrent writers may race this read,
    /// so no more than atomicity is promised.
    pub fn load(&self) -> u64 {
        self.0.load(Ordering::Relaxed)
    }
}

/// The node's hot-path statistics, one counter per cache line.
pub struct NodeStats {
    pub rx_packets: CacheAlignedAtomicU64,
    pub tx_packets: CacheAlignedAtomicU64,
    pub opportunities: CacheAlignedAtomicU64,
}

impl NodeStats {
    /// All counters start at zero.
    pub fn new() -> Self {
        NodeStats {
            rx_packets: CacheAlignedAtomicU64::new(0),
            tx_packets: CacheAlignedAtomicU64::new(0),
            opportunities: CacheAlignedAtomicU64::new(0),
        }
    }
}

impl Default for NodeStats {
    /// Same as `new`: all counters start at zero.
    fn default() -> Self {
        NodeStats::new()
    }
}

/// One latency measurement: elapsed cycle count and elapsed microseconds.
#[derive(Clone, Copy, Debug)]
pub struct LatencySample {
    pub cycles: u64,
    pub micros: u64,
}

#[verifier::external_type_specification]
#[verifier::external_body]
pub struct ExInstant(minstant::Instant);

/// Relies on minstant::Instant::now: an opaque wall-clock reading; nothing
/// can be promised of a time source's value.
#[verifier::external_body]
fn instant_now() -> minstant::Instant {
    minstant::Instant::now()
}

/// Relies on minstant::Instant::elapsed: the wall-clock time since `start`,
/// converted to whole microseconds; the value depends on when the call runs,
/// so nothing can be promised of it.
#[verifier::external_body]
fn elapsed_micros(start: &minstant::Instant) -> u64
{
    start.elapsed().as_micros() as u64
}

/// In-flight latency measurement: the cycle counter and wall clock captured
/// when the measurement started.
///
/// The hardware cycle reading is taken by the caller (it is a machine
/// register read outside this library's reach) and handed in; on
/// architectures without a cycle counter callers pass zero and the cycle
/// half of the sample degrades to zero rather than failing.
pub struct LatencyClock {
    start_cycles: u64,
    start_time: minstant::Instant,
}

impl LatencyClock {
    /// The cycle-counter reading the measurement started at.
    pub closed spec fn spec_start_cycles(&self) -> u64 {
        self.start_cycles
    }

    /// Begin a measurement at the given cycle-counter reading.
    pub fn start(cycles_now: u64) -> (clock: Self)
        ensures
            clock.spec_start_cycles() == cycles_now,
    {
        LatencyClock { start_cycles: cycles_now, start_time: instant_now() }
    }

    /// Finish the measurement at the given cycle-counter reading: the cycle
    /// delta saturates at zero (never negative), and the microsecond half
    /// comes from the wall clock.
    pub fn stop(self, cycles_now: u64) -> (sample: LatencySample)
        ensures
            sample.cycles == if cycles_now >= self.spec_start_cycles() {
                cycles_now - self.spec_start_cycles()
            } else {
                0
            },
    {
        let cycles = if cycles_now >= self.start_cycles {
            cycles_now - self.start_cycles
        } else {
            0
        };
        LatencySample { cycles, micros: elapsed_micros(&self.start_time) }
    }
}

} // verus!
