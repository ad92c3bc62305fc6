use sqlite_profiler::counter::SampleCounter;
use sqlite_profiler::report::{mean_micros, PhaseReport};
use sqlite_profiler::text::{decimal_string, join_words};
use sqlite_profiler::workload::Workload;

#[test]
fn mean_is_the_truncated_quotient() {
    assert_eq!(mean_micros(3, 30), Some(10));
    assert_eq!(mean_micros(3, 31), Some(10));
    assert_eq!(mean_micros(3, 32), Some(10));
    assert_eq!(mean_micros(3, 33), Some(11));
    assert_eq!(mean_micros(1, 0), Some(0));
    assert_eq!(mean_micros(7, 6), Some(0));
    assert_eq!(mean_micros(1, u64::MAX), Some(u64::MAX));
    assert_eq!(mean_micros(u64::MAX, u64::MAX), Some(1));
}

#[test]
fn mean_of_no_samples_does_not_exist() {
    assert_eq!(mean_micros(0, 0), None);
    assert_eq!(mean_micros(0, 99), None);
}

#[test]
fn report_reads_the_counter() {
    let mut counter = SampleCounter::new();
    counter.record(10);
    counter.record(25);
    counter.record(0);
    let report = PhaseReport::of(Workload::Update, &counter);
    assert_eq!(
        report,
        PhaseReport { workload: Workload::Update, count: 2, total_micros: 35, mean_micros: Some(17) }
    );
    assert!(!report.no_samples());
    assert_eq!(counter.snapshot(), (2, 35));
}

#[test]
fn report_of_an_empty_phase_has_no_mean() {
    let counter = SampleCounter::new();
    let report = PhaseReport::of(Workload::Insert, &counter);
    assert_eq!(
        report,
        PhaseReport { workload: Workload::Insert, count: 0, total_micros: 0, mean_micros: None }
    );
    assert!(report.no_samples());
}

#[test]
fn line_has_label_count_total_and_mean() {
    let mut counter = SampleCounter::new();
    for d in [10u64, 10, 10] {
        counter.record(d);
    }
    assert_eq!(PhaseReport::of(Workload::Insert, &counter).line(), "INSERT 3 30 10");
    counter.record(1204);
    assert_eq!(PhaseReport::of(Workload::Select, &counter).line(), "SELECT 4 1234 308");
    assert_eq!(PhaseReport::of(Workload::Update, &counter).line(), "UPDATE 4 1234 308");
    assert_eq!(PhaseReport::of(Workload::Delete, &counter).line(), "DELETE 4 1234 308");
}

#[test]
fn line_of_an_empty_phase_says_undefined() {
    let counter = SampleCounter::new();
    assert_eq!(PhaseReport::of(Workload::Delete, &counter).line(), "DELETE 0 0 undefined");
}

#[test]
fn decimal_string_writes_the_number() {
    assert_eq!(decimal_string(0), "0");
    assert_eq!(decimal_string(7), "7");
    assert_eq!(decimal_string(9), "9");
    assert_eq!(decimal_string(10), "10");
    assert_eq!(decimal_string(1234567890), "1234567890");
    assert_eq!(decimal_string(1000), "1000");
    assert_eq!(decimal_string(u64::MAX), "18446744073709551615");
}

#[test]
fn decimal_string_agrees_with_std() {
    let mut n: u64 = 1;
    for _ in 0..64 {
        assert_eq!(decimal_string(n), n.to_string());
        assert_eq!(decimal_string(n - 1), (n - 1).to_string());
        n = n.wrapping_mul(3).wrapping_add(11);
    }
}

#[test]
fn join_words_puts_one_space_between() {
    assert_eq!(join_words(&vec![]), "");
    assert_eq!(join_words(&vec![String::from("lorem")]), "lorem");
    assert_eq!(
        join_words(&vec![String::from("a"), String::from("bc"), String::from("d")]),
        "a bc d"
    );
    assert_eq!(join_words(&vec![String::from(""), String::from("")]), " ");
}
