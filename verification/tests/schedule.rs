use sqlite_profiler::config::BenchmarkConfiguration;
use sqlite_profiler::evict::{eviction_steps, EvictionMethod, EvictionStep};
use sqlite_profiler::phase::{Phase, POPULATE_ROWS};
use sqlite_profiler::workload::Workload;

#[test]
fn flags_become_the_configuration() {
    let config = BenchmarkConfiguration::from_flags(false, false, 5);
    assert_eq!(config, BenchmarkConfiguration { budget_secs: 5, evict: true, debug: false });
    let config = BenchmarkConfiguration::from_flags(true, true, 0);
    assert_eq!(config, BenchmarkConfiguration { budget_secs: 0, evict: false, debug: true });
    let config = BenchmarkConfiguration::from_flags(false, true, u32::MAX);
    assert_eq!(config.budget_secs, 4_294_967_295);
    assert!(!config.evict);
}

#[test]
fn phases_follow_in_their_order() {
    let mut seen = vec![Phase::first()];
    let mut phase = Phase::first();
    while let Some(next) = phase.next() {
        seen.push(next);
        phase = next;
    }
    assert_eq!(
        seen,
        vec![Phase::Insert, Phase::Populate, Phase::Update, Phase::Select, Phase::Delete]
    );
    for (place, phase) in seen.iter().enumerate() {
        assert_eq!(phase.index() as usize, place);
    }
    assert_eq!(Phase::Delete.next(), None);
}

#[test]
fn only_populate_is_untimed() {
    assert!(Phase::Insert.timed());
    assert!(!Phase::Populate.timed());
    assert!(Phase::Update.timed());
    assert!(Phase::Select.timed());
    assert!(Phase::Delete.timed());
    assert_eq!(POPULATE_ROWS, 9_999);
}

#[test]
fn populate_runs_the_insert_workload() {
    assert_eq!(Phase::Insert.workload(), Workload::Insert);
    assert_eq!(Phase::Populate.workload(), Workload::Insert);
    assert_eq!(Phase::Update.workload(), Workload::Update);
    assert_eq!(Phase::Select.workload(), Workload::Select);
    assert_eq!(Phase::Delete.workload(), Workload::Delete);
}

#[test]
fn eviction_method_follows_the_platform() {
    assert_eq!(EvictionMethod::for_platform("macos"), EvictionMethod::Purge);
    assert_eq!(EvictionMethod::for_platform("windows"), EvictionMethod::Unsupported);
    assert_eq!(EvictionMethod::for_platform("linux"), EvictionMethod::DropCaches);
    assert_eq!(EvictionMethod::for_platform("freebsd"), EvictionMethod::DropCaches);
    assert_eq!(EvictionMethod::for_platform(""), EvictionMethod::DropCaches);
    assert_eq!(EvictionMethod::for_platform("MacOS"), EvictionMethod::DropCaches);
}

#[test]
fn eviction_flushes_then_drops() {
    assert_eq!(
        EvictionMethod::DropCaches.steps(),
        vec![EvictionStep::FlushWrites, EvictionStep::DropPageCache]
    );
    assert_eq!(
        EvictionMethod::Purge.steps(),
        vec![EvictionStep::FlushWrites, EvictionStep::RunPurge]
    );
    assert_eq!(EvictionMethod::Unsupported.steps(), vec![]);
}

#[test]
fn no_eviction_without_the_flag() {
    assert_eq!(eviction_steps(false, EvictionMethod::DropCaches), vec![]);
    assert_eq!(eviction_steps(false, EvictionMethod::Purge), vec![]);
    assert_eq!(eviction_steps(true, EvictionMethod::Unsupported), vec![]);
    assert_eq!(
        eviction_steps(true, EvictionMethod::DropCaches),
        vec![EvictionStep::FlushWrites, EvictionStep::DropPageCache]
    );
    assert_eq!(
        eviction_steps(true, EvictionMethod::Purge),
        vec![EvictionStep::FlushWrites, EvictionStep::RunPurge]
    );
}
