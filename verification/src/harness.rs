//! The load harness: the per-worker transaction loop, the warmup/measurement
//! rendezvous with its clear-once guard, and the whole benchmark run over a
//! pool of stream drivers.
//!
//! Time and scheduling are outside events: each loop takes the clock readings
//! it would make as inputs, and the run model serializes the workers in the
//! one order the rendezvous admits — every worker finishes warmup and arrives
//! before any worker measures.

use vstd::prelude::*;

use crate::client::{spec_teardown, ClientStream, StreamHandleError};
use crate::metrics::{spec_cleared_metrics, spec_record, spec_sat_add64, print_metrics,
    spec_mean_latency, spec_requests_per_sec, MetricsReport, StreamMetrics};
use crate::server::ExtProcService;

verus! {

/// What a worker observes at the top of one loop turn: the elapsed time of
/// its phase so far, and the latency the next transaction will take.
#[derive(Clone, Copy, Debug, PartialEq, Eq, Structural)]
pub struct BenchTick {
    pub elapsed_micros: u64,
    pub latency_micros: u64,
}

/// How many loop turns run on a budget: the leading ticks whose elapsed time
/// is still below it, counted from position `i`.
pub open spec fn spec_txn_count_from(ticks: Seq<BenchTick>, budget_micros: u64, i: int) -> int
    decreases ticks.len() - i when 0 <= i <= ticks.len()
{
    if i < 0 || i >= ticks.len() {
        0
    } else if ticks[i].elapsed_micros >= budget_micros {
        0
    } else {
        1 + spec_txn_count_from(ticks, budget_micros, i + 1)
    }
}

/// How many loop turns one phase of one worker runs on a budget.
pub open spec fn spec_txn_count(ticks: Seq<BenchTick>, budget_micros: u64) -> int {
    spec_txn_count_from(ticks, budget_micros, 0)
}

/// The aggregate after one phase of one worker: one successful sample per
/// loop turn, from position `i` on.
pub open spec fn spec_bench_metrics_from(
    m: StreamMetrics,
    ticks: Seq<BenchTick>,
    budget_micros: u64,
    i: int,
) -> StreamMetrics
    decreases ticks.len() - i when 0 <= i <= ticks.len()
{
    if i < 0 || i >= ticks.len() {
        m
    } else if ticks[i].elapsed_micros >= budget_micros {
        m
    } else {
        spec_bench_metrics_from(spec_record(m, true, ticks[i].latency_micros), ticks,
            budget_micros, i + 1)
    }
}

proof fn lemma_txn_count_from_bounds(ticks: Seq<BenchTick>, budget_micros: u64, i: int)
    requires
        0 <= i <= ticks.len(),
    ensures
        0 <= spec_txn_count_from(ticks, budget_micros, i) <= ticks.len() - i,
    decreases ticks.len() - i,
{
    if i < ticks.len() && ticks[i].elapsed_micros < budget_micros {
        lemma_txn_count_from_bounds(ticks, budget_micros, i + 1);
    }
}

/// One measured transaction: establish the connection (resetting state if it
/// was down), drive the whole exchange against the fixture responder, release
/// per policy, and record the outcome. With the fixture responder the
/// transaction always completes.
pub fn run_stream(
    metrics: &mut StreamMetrics,
    stream: &mut ClientStream,
    responder: &ExtProcService,
    latency_micros: u64,
) -> (r: Result<(), StreamHandleError>)
    requires
        old(metrics).total_count < u64::MAX,
        old(stream).state.handle_count < usize::MAX,
    ensures
        r is Ok,
        *final(metrics) == spec_record(*old(metrics), true, latency_micros),
        final(stream).data == old(stream).data,
        final(stream).config == old(stream).config,
        final(stream).state.handle_count == if old(stream).connected {
            old(stream).state.handle_count + 1
        } else {
            1
        },
        final(stream).connected == !spec_teardown(
            old(stream).config,
            final(stream).state.handle_count,
        ),
{
    stream.start_stream();
    match stream.handle_stream(responder) {
        Ok(_sent) => (),
        Err(e) => {
            return Err(e);
        },
    }
    stream.finish_stream();
    metrics.record(true, latency_micros);
    Ok(())
}

/// One phase of one worker: loop transactions while the clock reading at the
/// top of the turn is below the budget (or the readings run out), recording
/// one sample per transaction. Returns how many ran.
pub fn bench(
    metrics: &mut StreamMetrics,
    stream: &mut ClientStream,
    responder: &ExtProcService,
    ticks: &Vec<BenchTick>,
    budget_micros: u64,
) -> (n: usize)
    requires
        old(metrics).total_count + ticks@.len() <= u64::MAX,
        old(stream).state.handle_count + ticks@.len() <= usize::MAX,
    ensures
        n == spec_txn_count(ticks@, budget_micros),
        *final(metrics) == spec_bench_metrics_from(*old(metrics), ticks@, budget_micros, 0),
        final(metrics).total_count == old(metrics).total_count + n,
        final(metrics).error_count == old(metrics).error_count,
        final(stream).data == old(stream).data,
        final(stream).config == old(stream).config,
        final(stream).state.handle_count <= old(stream).state.handle_count + n,
{
    let mut i: usize = 0;
    while i < ticks.len() && ticks[i].elapsed_micros < budget_micros
        invariant
            0 <= i <= ticks@.len(),
            old(metrics).total_count + ticks@.len() <= u64::MAX,
            old(stream).state.handle_count + ticks@.len() <= usize::MAX,
            metrics.total_count == old(metrics).total_count + i,
            metrics.error_count == old(metrics).error_count,
            spec_bench_metrics_from(*metrics, ticks@, budget_micros, i as int)
                == spec_bench_metrics_from(*old(metrics), ticks@, budget_micros, 0),
            spec_txn_count(ticks@, budget_micros) == i + spec_txn_count_from(ticks@,
                budget_micros, i as int),
            stream.data == old(stream).data,
            stream.config == old(stream).config,
            stream.state.handle_count <= old(stream).state.handle_count + i,
        decreases ticks@.len() - i,
    {
        let latency = ticks[i].latency_micros;
        let _completed = run_stream(metrics, stream, responder, latency);
        i = i + 1;
    }
    proof {
        if i < ticks@.len() {
            assert(spec_txn_count_from(ticks@, budget_micros, i as int) == 0);
        }
    }
    i
}

/// The warmup/measurement rendezvous, sized to the worker count, paired with
/// the single-initialization guard for the one metrics clear.
pub struct WarmupGate {
    pub size: usize,
    pub arrived: usize,
    pub cleared: bool,
}

impl WarmupGate {
    /// Arrivals never exceed the size, and a set guard implies a full gate.
    pub open spec fn wf(&self) -> bool {
        1 <= self.size && self.arrived <= self.size && (self.cleared ==> self.arrived
            == self.size)
    }

    pub fn new(size: usize) -> (g: WarmupGate)
        requires
            size >= 1,
        ensures
            g.size == size,
            g.arrived == 0,
            !g.cleared,
            g.wf(),
    {
        WarmupGate { size, arrived: 0, cleared: false }
    }

    /// One worker reaches the rendezvous.
    pub fn arrive(&mut self)
        requires
            old(self).wf(),
            old(self).arrived < old(self).size,
        ensures
            *final(self) == (WarmupGate { arrived: (old(self).arrived + 1) as usize, ..*old(
                self,
            ) }),
            final(self).wf(),
    {
        self.arrived = self.arrived + 1;
    }

    /// Whether every worker has reached the rendezvous.
    pub fn all_arrived(&self) -> (r: bool)
        ensures
            r == (self.arrived == self.size),
    {
        self.arrived == self.size
    }

    /// The clear a worker attempts after the rendezvous opens: the first
    /// attempt resets the aggregate, every later one changes nothing. May
    /// only be called once every worker has arrived — no sample recorded
    /// after it belongs to warmup.
    pub fn clear_once(&mut self, metrics: &mut StreamMetrics) -> (fired: bool)
        requires
            old(self).wf(),
            old(self).arrived == old(self).size,
        ensures
            fired == !old(self).cleared,
            spec_clear_step(*old(self), *final(self), fired),
            final(self).wf(),
            fired ==> *final(metrics) == spec_cleared_metrics(),
            !fired ==> *final(metrics) == *old(metrics),
    {
        if self.cleared {
            false
        } else {
            self.cleared = true;
            metrics.clear();
            true
        }
    }
}

/// The transition of `clear_once`: it needs a full gate, it sets the guard,
/// and it reports whether the guard had still been unset.
pub open spec fn spec_clear_step(pre: WarmupGate, post: WarmupGate, fired: bool) -> bool {
    &&& pre.arrived == pre.size
    &&& post == (WarmupGate { cleared: true, ..pre })
    &&& fired == !pre.cleared
}

/// The aggregate is cleared exactly once per run: over any sequence of
/// clear attempts starting from a gate whose clear has not fired, the first
/// attempt fires and no later one does.
pub proof fn lemma_clear_exactly_once(gates: Seq<WarmupGate>, fires: Seq<bool>)
    requires
        gates.len() == fires.len() + 1,
        fires.len() >= 1,
        !gates[0].cleared,
        forall|i: int|
            0 <= i < fires.len() ==> spec_clear_step(gates[i], gates[i + 1], #[trigger] fires[i]),
    ensures
        fires[0],
        forall|i: int| 1 <= i < fires.len() ==> !(#[trigger] fires[i]),
{
    assert(spec_clear_step(gates[0], gates[1], fires[0]));
    assert forall|i: int| 1 <= i < fires.len() implies !(#[trigger] fires[i]) by {
        assert(spec_clear_step(gates[i - 1], gates[i], fires[i - 1]));
        assert(gates[i].cleared);
        assert(spec_clear_step(gates[i], gates[i + 1], fires[i]));
    }
}

/// Whether the run is long enough for the periodic monitor to be worth
/// starting: the combined warmup and measurement time (stopping at the top of
/// the range rather than wrapping) exceeds the reporting interval.
pub fn monitor_enabled(warmup_micros: u64, duration_micros: u64, interval_micros: u64) -> (r:
    bool)
    ensures
        r == (spec_sat_add64(warmup_micros, duration_micros) > interval_micros),
{
    let combined = if warmup_micros > u64::MAX - duration_micros {
        u64::MAX
    } else {
        warmup_micros + duration_micros
    };
    combined > interval_micros
}

/// The total tick count of the first `k` workers.
pub open spec fn spec_len_prefix(tickss: Seq<Vec<BenchTick>>, k: int) -> int
    decreases k when k >= 0
{
    if k <= 0 {
        0
    } else {
        spec_len_prefix(tickss, k - 1) + tickss[k - 1]@.len()
    }
}

/// The total transaction count of the first `k` workers on a budget.
pub open spec fn spec_txns_prefix(tickss: Seq<Vec<BenchTick>>, budget_micros: u64, k: int) -> int
    decreases k when k >= 0
{
    if k <= 0 {
        0
    } else {
        spec_txns_prefix(tickss, budget_micros, k - 1) + spec_txn_count(tickss[k - 1]@,
            budget_micros)
    }
}

proof fn lemma_prefix_bounds(tickss: Seq<Vec<BenchTick>>, budget_micros: u64, k: int)
    requires
        0 <= k <= tickss.len(),
    ensures
        0 <= spec_txns_prefix(tickss, budget_micros, k) <= spec_len_prefix(tickss, k),
    decreases k,
{
    if k > 0 {
        lemma_prefix_bounds(tickss, budget_micros, k - 1);
        lemma_txn_count_from_bounds(tickss[k - 1]@, budget_micros, 0);
    }
}

proof fn lemma_len_prefix_mono(tickss: Seq<Vec<BenchTick>>, k1: int, k2: int)
    requires
        0 <= k1 <= k2 <= tickss.len(),
    ensures
        spec_len_prefix(tickss, k1) <= spec_len_prefix(tickss, k2),
    decreases k2 - k1,
{
    if k1 < k2 {
        lemma_len_prefix_mono(tickss, k1, k2 - 1);
    }
}

/// One whole benchmark run over a pool of workers, serialized in the one
/// order the rendezvous admits: first the warmup loop of every worker, then
/// for each worker the guarded reset followed by its measurement loop. The
/// final report counts measurement samples alone, however much the warmup
/// loops recorded, and with the fixture responder it reports no errors.
pub fn perform_benchmark(
    streams: &mut Vec<ClientStream>,
    responder: &ExtProcService,
    metrics: &mut StreamMetrics,
    warmup_ticks: &Vec<Vec<BenchTick>>,
    warmup_micros: u64,
    measure_ticks: &Vec<Vec<BenchTick>>,
    duration_micros: u64,
) -> (report: MetricsReport)
    requires
        old(streams)@.len() >= 1,
        warmup_ticks@.len() == old(streams)@.len(),
        measure_ticks@.len() == old(streams)@.len(),
        old(metrics).total_count + spec_len_prefix(warmup_ticks@, warmup_ticks@.len() as int)
            <= u64::MAX,
        spec_len_prefix(measure_ticks@, measure_ticks@.len() as int) <= u64::MAX,
        forall|j: int|
            0 <= j < old(streams)@.len() ==> #[trigger] old(streams)@[j].state.handle_count
                + warmup_ticks@[j]@.len() + measure_ticks@[j]@.len() <= usize::MAX,
    ensures
        final(metrics).total_count == spec_txns_prefix(
            measure_ticks@,
            duration_micros,
            measure_ticks@.len() as int,
        ),
        final(metrics).error_count == 0,
        report.error_count == 0,
        report.mean_latency_micros == spec_mean_latency(*final(metrics)),
        report.requests_per_sec == spec_requests_per_sec(*final(metrics), duration_micros),
        final(streams)@.len() == old(streams)@.len(),
{
    let worker_count = streams.len();
    let mut gate = WarmupGate::new(worker_count);
    let mut k: usize = 0;
    while k < worker_count
        invariant
            0 <= k <= worker_count,
            worker_count == streams@.len(),
            streams@.len() == old(streams)@.len(),
            warmup_ticks@.len() == old(streams)@.len(),
            measure_ticks@.len() == old(streams)@.len(),
            old(metrics).total_count + spec_len_prefix(warmup_ticks@, warmup_ticks@.len() as int)
                <= u64::MAX,
            forall|j: int|
                0 <= j < old(streams)@.len() ==> #[trigger] old(streams)@[j].state.handle_count
                    + warmup_ticks@[j]@.len() + measure_ticks@[j]@.len() <= usize::MAX,
            gate.size == worker_count,
            gate.arrived == k,
            !gate.cleared,
            gate.wf(),
            metrics.total_count <= old(metrics).total_count + spec_len_prefix(warmup_ticks@,
                k as int),
            forall|j: int| k <= j < worker_count ==> streams@[j] == old(streams)@[j],
            forall|j: int|
                0 <= j < k ==> #[trigger] streams@[j].state.handle_count <= old(
                    streams,
                )@[j].state.handle_count + warmup_ticks@[j]@.len(),
        decreases worker_count - k,
    {
        proof {
            lemma_len_prefix_mono(warmup_ticks@, k as int, warmup_ticks@.len() as int);
            lemma_len_prefix_mono(warmup_ticks@, k + 1 as int, warmup_ticks@.len() as int);
            assert(spec_len_prefix(warmup_ticks@, k + 1 as int) == spec_len_prefix(warmup_ticks@,
                k as int) + warmup_ticks@[k as int]@.len());
            lemma_txn_count_from_bounds(warmup_ticks@[k as int]@, warmup_micros, 0);
        }
        let stream = &mut streams[k];
        let _warmed = bench(metrics, stream, responder, &warmup_ticks[k], warmup_micros);
        proof {
            assert(streams@[k as int].state.handle_count <= old(streams)@[k as int]
                .state.handle_count + warmup_ticks@[k as int]@.len());
        }
        gate.arrive();
        k = k + 1;
    }
    let ghost streams_mid = streams@;
    let ghost metrics_mid = *metrics;
    let mut k2: usize = 0;
    while k2 < worker_count
        invariant
            0 <= k2 <= worker_count,
            worker_count == streams@.len(),
            streams@.len() == old(streams)@.len(),
            measure_ticks@.len() == old(streams)@.len(),
            spec_len_prefix(measure_ticks@, measure_ticks@.len() as int) <= u64::MAX,
            streams_mid.len() == old(streams)@.len(),
            forall|j: int|
                0 <= j < old(streams)@.len() ==> #[trigger] streams_mid[j].state.handle_count
                    + measure_ticks@[j]@.len() <= usize::MAX,
            gate.size == worker_count,
            gate.arrived == worker_count,
            gate.wf(),
            k2 == 0 ==> !gate.cleared && *metrics == metrics_mid,
            k2 > 0 ==> gate.cleared,
            k2 > 0 ==> metrics.total_count == spec_txns_prefix(measure_ticks@, duration_micros,
                k2 as int) && metrics.error_count == 0,
            forall|j: int| k2 <= j < worker_count ==> streams@[j] == streams_mid[j],
        decreases worker_count - k2,
    {
        let _fired = gate.clear_once(metrics);
        proof {
            lemma_prefix_bounds(measure_ticks@, duration_micros, k2 as int);
            lemma_len_prefix_mono(measure_ticks@, k2 + 1 as int, measure_ticks@.len() as int);
            assert(spec_len_prefix(measure_ticks@, k2 + 1 as int) == spec_len_prefix(
                measure_ticks@, k2 as int) + measure_ticks@[k2 as int]@.len());
            lemma_len_prefix_mono(measure_ticks@, 0, k2 as int);
            lemma_len_prefix_mono(measure_ticks@, k2 + 1 as int, measure_ticks@.len() as int);
            assert(streams@[k2 as int] == streams_mid[k2 as int]);
            assert(streams_mid[k2 as int].state.handle_count + measure_ticks@[k2 as int]@.len()
                <= usize::MAX);
        }
        let stream = &mut streams[k2];
        let n = bench(metrics, stream, responder, &measure_ticks[k2], duration_micros);
        proof {
            assert(spec_txns_prefix(measure_ticks@, duration_micros, k2 + 1 as int)
                == spec_txns_prefix(measure_ticks@, duration_micros, k2 as int) + spec_txn_count(
                measure_ticks@[k2 as int]@, duration_micros));
        }
        k2 = k2 + 1;
    }
    print_metrics(metrics, duration_micros)
}

} // verus!
