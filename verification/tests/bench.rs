use sqlite_profiler::bench::{Action, Benchmark};
use sqlite_profiler::clock::Stopwatch;
use sqlite_profiler::config::BenchmarkConfiguration;
use sqlite_profiler::counter::SampleCounter;
use sqlite_profiler::hook::profile;
use sqlite_profiler::phase::Phase;
use sqlite_profiler::report::PhaseReport;
use sqlite_profiler::workload::Workload;

fn config(budget_secs: u64, evict: bool) -> BenchmarkConfiguration {
    BenchmarkConfiguration { budget_secs, evict, debug: false }
}

#[test]
fn run_starts_with_insert() {
    let run = Benchmark::new(config(5, true));
    assert_eq!(run.phase(), Some(Phase::Insert));
    assert!(!run.is_finished());
}

#[test]
fn zero_budget_run_reports_empty_phases_in_order() {
    let mut run = Benchmark::new(config(0, true));
    let mut counter = SampleCounter::new();
    let mut lines = Vec::new();
    let mut populated = 0;
    let mut begun = Vec::new();
    loop {
        match run.advance(&mut counter, 0) {
            Action::Begin(phase) => begun.push(phase),
            Action::Trial(trial) => {
                assert_eq!(trial.phase, Phase::Populate);
                assert!(!trial.evict);
                populated += 1;
            }
            Action::End(phase, Some(report)) => {
                assert!(phase.timed());
                assert!(report.no_samples());
                lines.push(report.line());
            }
            Action::End(phase, None) => assert_eq!(phase, Phase::Populate),
            Action::Finished => break,
        }
    }
    assert_eq!(populated, 9_999);
    assert_eq!(
        begun,
        vec![Phase::Insert, Phase::Populate, Phase::Update, Phase::Select, Phase::Delete]
    );
    assert_eq!(
        lines,
        vec![
            "INSERT 0 0 undefined",
            "UPDATE 0 0 undefined",
            "SELECT 0 0 undefined",
            "DELETE 0 0 undefined"
        ]
    );
    assert!(run.is_finished());
    assert_eq!(run.phase(), None);
    assert!(matches!(run.advance(&mut counter, 0), Action::Finished));
    assert!(matches!(run.advance(&mut counter, 9), Action::Finished));
}

#[test]
fn timed_phase_reports_what_the_hook_captured() {
    let mut run = Benchmark::new(config(3, false));
    let mut counter = SampleCounter::new();
    counter.record(1_000);
    assert!(matches!(run.advance(&mut counter, 0), Action::Begin(Phase::Insert)));
    assert_eq!(counter.snapshot(), (0, 0));
    for (elapsed, micros) in [(0u64, 40u128), (1, 0), (2, 25)] {
        match run.advance(&mut counter, elapsed) {
            Action::Trial(trial) => {
                assert_eq!(trial.phase, Phase::Insert);
                assert!(trial.flush_statements);
                assert!(!trial.evict);
                profile(&mut counter, trial.phase.workload().statement(), micros);
            }
            other => panic!("expected a trial, found {:?}", other),
        }
    }
    match run.advance(&mut counter, 3) {
        Action::End(Phase::Insert, Some(report)) => {
            assert_eq!(
                report,
                PhaseReport {
                    workload: Workload::Insert,
                    count: 2,
                    total_micros: 65,
                    mean_micros: Some(32)
                }
            );
            assert_eq!(report.line(), "INSERT 2 65 32");
        }
        other => panic!("expected the end of insert, found {:?}", other),
    }
    assert_eq!(run.phase(), Some(Phase::Populate));
    assert_eq!(counter.snapshot(), (2, 65));
    assert!(matches!(run.advance(&mut counter, 3), Action::Begin(Phase::Populate)));
    assert_eq!(counter.snapshot(), (0, 0));
}

#[test]
fn trials_never_go_back_to_an_earlier_phase() {
    let mut run = Benchmark::new(config(2, true));
    let mut counter = SampleCounter::new();
    let readings: [u64; 7] = [0, 0, 1, 5, 0, 1, 2];
    let mut at = 0;
    let mut last = 0u8;
    let mut trials_of = [0u32; 5];
    loop {
        let elapsed = readings[at % readings.len()];
        at += 1;
        match run.advance(&mut counter, elapsed) {
            Action::Trial(trial) => {
                assert_eq!(Some(trial.phase), run.phase());
                assert!(trial.phase.index() >= last);
                assert_eq!(trial.evict, trial.phase.timed());
                last = trial.phase.index();
                trials_of[last as usize] += 1;
            }
            Action::Begin(phase) => {
                assert!(phase.index() >= last);
                last = phase.index();
            }
            Action::End(phase, report) => {
                assert_eq!(phase.index(), last);
                assert_eq!(report.is_some(), phase.timed());
            }
            Action::Finished => break,
        }
    }
    assert_eq!(last, 4);
    assert_eq!(trials_of[1], 9_999);
}

#[test]
fn tick_with_no_budget_ends_insert_at_once() {
    let mut run = Benchmark::new(config(0, true));
    let mut counter = SampleCounter::new();
    assert!(matches!(run.tick(&mut counter), Action::Begin(Phase::Insert)));
    match run.tick(&mut counter) {
        Action::End(Phase::Insert, Some(report)) => {
            assert_eq!(report.count, 0);
            assert_eq!(report.total_micros, 0);
            assert_eq!(report.mean_micros, None);
        }
        other => panic!("expected the end of insert, found {:?}", other),
    }
    assert!(matches!(run.tick(&mut counter), Action::Begin(Phase::Populate)));
    assert!(matches!(run.tick(&mut counter), Action::Trial(_)));
}

#[test]
fn tick_runs_a_phase_for_its_budget() {
    let mut run = Benchmark::new(config(1, false));
    let mut counter = SampleCounter::new();
    let watch = Stopwatch::start();
    assert!(matches!(run.tick(&mut counter), Action::Begin(Phase::Insert)));
    let mut trials: u64 = 0;
    loop {
        match run.tick(&mut counter) {
            Action::Trial(trial) => {
                assert_eq!(trial.phase, Phase::Insert);
                assert!(watch.elapsed_secs() < 2);
                profile(&mut counter, "", 3);
                trials += 1;
            }
            Action::End(Phase::Insert, Some(report)) => {
                assert!(trials >= 1);
                assert_eq!(report.count, trials);
                assert_eq!(report.total_micros, 3 * trials);
                assert_eq!(report.mean_micros, Some(3));
                break;
            }
            other => panic!("expected a trial or the end of insert, found {:?}", other),
        }
    }
    let took = watch.elapsed_secs();
    assert!(took >= 1 && took < 3);
}

#[test]
fn stopwatch_starts_at_zero() {
    let watch = Stopwatch::start();
    assert_eq!(watch.elapsed_secs(), 0);
}
