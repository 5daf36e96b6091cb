use ext_proc_playground::client::{ClientStream, Config};
use ext_proc_playground::data::{DummyData, DummyDataConfig};
use ext_proc_playground::harness::{
    bench, monitor_enabled, perform_benchmark, run_stream, BenchTick, WarmupGate,
};
use ext_proc_playground::metrics::{print_metrics, StreamMetrics};
use ext_proc_playground::mode::ProcessingMode;
use ext_proc_playground::server::ExtProcService;

fn fixture() -> DummyData {
    DummyData::assemble(
        DummyDataConfig {
            request_headers: vec![("host".to_string(), "example.com".to_string())],
            request_body_filename: String::new(),
            response_status: 200,
            response_headers: Vec::new(),
            response_body_filename: String::new(),
        },
        Vec::new(),
        Vec::new(),
    )
}

fn worker(config: Config) -> ClientStream {
    ClientStream::new(fixture(), config)
}

fn ticks(pairs: &[(u64, u64)]) -> Vec<BenchTick> {
    pairs
        .iter()
        .map(|&(elapsed_micros, latency_micros)| BenchTick { elapsed_micros, latency_micros })
        .collect()
}

#[test]
fn record_and_clear_keep_exact_counts() {
    let mut m = StreamMetrics::new();
    m.record(true, 100);
    m.record(false, 300);
    assert_eq!(m.total_count, 2);
    assert_eq!(m.error_count, 1);
    assert_eq!(m.latency_sum_micros, 400);
    m.clear();
    assert_eq!(m.total_count, 0);
    assert_eq!(m.error_count, 0);
    assert_eq!(m.latency_sum_micros, 0);
}

#[test]
fn latency_sum_saturates_instead_of_wrapping() {
    let mut m = StreamMetrics::new();
    m.record(true, u64::MAX);
    m.record(true, 5);
    assert_eq!(m.latency_sum_micros, u64::MAX);
}

#[test]
fn report_figures_are_exact() {
    let mut m = StreamMetrics::new();
    for _ in 0..10 {
        m.record(true, 100);
    }
    let report = print_metrics(&m, 2_000_000);
    assert_eq!(report.requests_per_sec, 5);
    assert_eq!(report.mean_latency_micros, 100);
    assert_eq!(report.error_count, 0);
}

#[test]
fn report_handles_empty_aggregate_and_zero_elapsed() {
    let m = StreamMetrics::new();
    let report = print_metrics(&m, 0);
    assert_eq!(report.requests_per_sec, 0);
    assert_eq!(report.mean_latency_micros, 0);
    assert_eq!(report.error_count, 0);
}

#[test]
fn gate_clears_exactly_once() {
    let mut gate = WarmupGate::new(2);
    let mut m = StreamMetrics::new();
    m.record(true, 50);
    gate.arrive();
    assert!(!gate.all_arrived());
    gate.arrive();
    assert!(gate.all_arrived());
    assert!(gate.clear_once(&mut m));
    assert_eq!(m.total_count, 0);
    m.record(true, 70);
    assert!(!gate.clear_once(&mut m));
    assert_eq!(m.total_count, 1);
    assert_eq!(m.latency_sum_micros, 70);
}

#[test]
fn run_stream_records_one_success() {
    let responder = ExtProcService::new(ProcessingMode::initial());
    let mut m = StreamMetrics::new();
    let mut stream = worker(Config { reuse_stream: true, max_handled: None });
    run_stream(&mut m, &mut stream, &responder, 250).unwrap();
    assert_eq!(m.total_count, 1);
    assert_eq!(m.error_count, 0);
    assert_eq!(m.latency_sum_micros, 250);
    assert_eq!(stream.state.handle_count, 1);
    assert!(stream.is_connected());
}

#[test]
fn run_stream_without_reuse_restarts_the_counter() {
    let responder = ExtProcService::new(ProcessingMode::initial());
    let mut m = StreamMetrics::new();
    let mut stream = worker(Config { reuse_stream: false, max_handled: None });
    for _ in 0..3 {
        run_stream(&mut m, &mut stream, &responder, 10).unwrap();
        assert_eq!(stream.state.handle_count, 1);
        assert!(!stream.is_connected());
    }
    assert_eq!(m.total_count, 3);
}

#[test]
fn bench_stops_at_the_budget() {
    let responder = ExtProcService::new(ProcessingMode::initial());
    let mut m = StreamMetrics::new();
    let mut stream = worker(Config { reuse_stream: true, max_handled: None });
    let t = ticks(&[(0, 10), (5, 20), (10, 30), (15, 40)]);
    let n = bench(&mut m, &mut stream, &responder, &t, 10);
    assert_eq!(n, 2);
    assert_eq!(m.total_count, 2);
    assert_eq!(m.latency_sum_micros, 30);
}

#[test]
fn bench_with_zero_budget_runs_nothing() {
    let responder = ExtProcService::new(ProcessingMode::initial());
    let mut m = StreamMetrics::new();
    let mut stream = worker(Config { reuse_stream: true, max_handled: None });
    let t = ticks(&[(0, 10), (1, 20)]);
    let n = bench(&mut m, &mut stream, &responder, &t, 0);
    assert_eq!(n, 0);
    assert_eq!(m.total_count, 0);
}

#[test]
fn bench_stops_when_the_clock_readings_run_out() {
    let responder = ExtProcService::new(ProcessingMode::initial());
    let mut m = StreamMetrics::new();
    let mut stream = worker(Config { reuse_stream: true, max_handled: None });
    let t = ticks(&[(0, 1), (1, 1)]);
    let n = bench(&mut m, &mut stream, &responder, &t, 1_000_000);
    assert_eq!(n, 2);
}

#[test]
fn benchmark_report_counts_measurement_samples_only() {
    let responder = ExtProcService::new(ProcessingMode::initial());
    let mut streams = vec![
        worker(Config { reuse_stream: true, max_handled: None }),
        worker(Config { reuse_stream: false, max_handled: None }),
    ];
    let mut m = StreamMetrics::new();
    let warmup = vec![ticks(&[(0, 5), (1, 5), (2, 5)]), ticks(&[(0, 5), (1, 5)])];
    let measure = vec![ticks(&[(0, 100), (3, 100), (9, 100)]), ticks(&[(0, 100), (5, 100)])];
    let report = perform_benchmark(&mut streams, &responder, &mut m, &warmup, 10, &measure, 10, );
    assert_eq!(m.total_count, 5);
    assert_eq!(m.error_count, 0);
    assert_eq!(report.error_count, 0);
    assert_eq!(report.mean_latency_micros, 100);
    assert_eq!(report.requests_per_sec, 500_000);
}

#[test]
fn benchmark_with_zero_warmup_records_no_warmup_samples() {
    let responder = ExtProcService::new(ProcessingMode::initial());
    let mut streams = vec![worker(Config { reuse_stream: true, max_handled: None })];
    let mut m = StreamMetrics::new();
    let warmup = vec![ticks(&[(0, 5), (1, 5)])];
    let measure = vec![ticks(&[(0, 40), (2, 60)])];
    let report = perform_benchmark(&mut streams, &responder, &mut m, &warmup, 0, &measure, 5);
    assert_eq!(m.total_count, 2);
    assert_eq!(m.latency_sum_micros, 100);
    assert_eq!(report.mean_latency_micros, 50);
    assert_eq!(report.error_count, 0);
}

#[test]
fn monitor_runs_only_when_the_run_outlasts_the_interval() {
    assert!(monitor_enabled(5_000_000, 30_000_000, 2_000_000));
    assert!(!monitor_enabled(0, 1_000_000, 2_000_000));
    assert!(monitor_enabled(u64::MAX, u64::MAX, 2_000_000));
}
