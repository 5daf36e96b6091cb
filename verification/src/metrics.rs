//! The shared metrics aggregate: per-transaction counters and latency sums,
//! cleared exactly once at the warmup/measurement boundary, and the derived
//! report figures.

use vstd::prelude::*;

verus! {

/// Addition that stops at the top of the range instead of wrapping.
pub open spec fn spec_sat_add64(a: u64, b: u64) -> u64 {
    if a + b > u64::MAX {
        u64::MAX
    } else {
        (a + b) as u64
    }
}

/// The metrics aggregate: how many transactions finished, how many of them
/// failed, and the accumulated latency of all of them.
#[derive(Clone, Copy, Debug, PartialEq, Eq, Structural)]
pub struct StreamMetrics {
    pub total_count: u64,
    pub error_count: u64,
    pub latency_sum_micros: u64,
}

/// The aggregate right after a clear: everything at zero.
pub open spec fn spec_cleared_metrics() -> StreamMetrics {
    StreamMetrics { total_count: 0, error_count: 0, latency_sum_micros: 0 }
}

/// The aggregate after one more transaction is recorded: one more sample, one
/// more error if it failed, its latency added (stopping at the top of the
/// range rather than wrapping).
pub open spec fn spec_record(m: StreamMetrics, ok: bool, latency_micros: u64) -> StreamMetrics {
    StreamMetrics {
        total_count: (m.total_count + 1) as u64,
        error_count: if ok {
            m.error_count
        } else {
            (m.error_count + 1) as u64
        },
        latency_sum_micros: spec_sat_add64(m.latency_sum_micros, latency_micros),
    }
}

impl StreamMetrics {
    pub fn new() -> (m: StreamMetrics)
        ensures
            m == spec_cleared_metrics(),
    {
        StreamMetrics { total_count: 0, error_count: 0, latency_sum_micros: 0 }
    }

    /// Records one finished transaction: its outcome and its measured latency.
    pub fn record(&mut self, ok: bool, latency_micros: u64)
        requires
            old(self).total_count < u64::MAX,
            !ok ==> old(self).error_count < u64::MAX,
        ensures
            *final(self) == spec_record(*old(self), ok, latency_micros),
    {
        self.total_count = self.total_count + 1;
        if !ok {
            self.error_count = self.error_count + 1;
        }
        if self.latency_sum_micros > u64::MAX - latency_micros {
            self.latency_sum_micros = u64::MAX;
        } else {
            self.latency_sum_micros = self.latency_sum_micros + latency_micros;
        }
    }

    /// Resets the aggregate to zero.
    pub fn clear(&mut self)
        ensures
            *final(self) == spec_cleared_metrics(),
    {
        self.total_count = 0;
        self.error_count = 0;
        self.latency_sum_micros = 0;
    }
}

/// The figures of one report line: mean throughput, mean latency, cumulative
/// error count.
#[derive(Clone, Copy, Debug, PartialEq, Eq, Structural)]
pub struct MetricsReport {
    pub requests_per_sec: u64,
    pub mean_latency_micros: u64,
    pub error_count: u64,
}

/// The mean latency over all recorded transactions, zero when none finished.
pub open spec fn spec_mean_latency(m: StreamMetrics) -> int {
    if m.total_count == 0 {
        0
    } else {
        m.latency_sum_micros as int / m.total_count as int
    }
}

/// The mean throughput over the elapsed time, zero when no time elapsed, and
/// stopping at the top of the range.
pub open spec fn spec_requests_per_sec(m: StreamMetrics, elapsed_micros: u64) -> int {
    if elapsed_micros == 0 {
        0
    } else {
        let q = (m.total_count as int) * 1_000_000 / (elapsed_micros as int);
        if q > u64::MAX {
            u64::MAX as int
        } else {
            q
        }
    }
}

/// Derives the current report figures from the aggregate without resetting
/// it: mean throughput over the elapsed time, mean latency, error count.
pub fn print_metrics(metrics: &StreamMetrics, elapsed_micros: u64) -> (r: MetricsReport)
    ensures
        r.requests_per_sec == spec_requests_per_sec(*metrics, elapsed_micros),
        r.mean_latency_micros == spec_mean_latency(*metrics),
        r.error_count == metrics.error_count,
{
    let mean_latency_micros = if metrics.total_count == 0 {
        0
    } else {
        metrics.latency_sum_micros / metrics.total_count
    };
    let requests_per_sec = if elapsed_micros == 0 {
        0u64
    } else {
        let q: u128 = (metrics.total_count as u128) * 1_000_000u128 / (elapsed_micros as u128);
        if q > u64::MAX as u128 {
            u64::MAX
        } else {
            q as u64
        }
    };
    MetricsReport { requests_per_sec, mean_latency_micros, error_count: metrics.error_count }
}

} // verus!
