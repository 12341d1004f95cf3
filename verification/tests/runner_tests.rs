use arc_or_clone::measure::{merge_all, ExperimentResult};
use arc_or_clone::source::{ArcStrSrc, CloneStrSrc, StringSrc};
use arc_or_clone::workload::thread_loop;

#[test]
fn result_new_is_zero() {
    let r = ExperimentResult::new();
    assert_eq!(r.num_operations, 0);
    assert_eq!(r.elapsed_nanos, 0);
}

#[test]
fn merge_adds_field_wise() {
    let mut r = ExperimentResult { num_operations: 5, elapsed_nanos: 100 };
    r.merge(ExperimentResult { num_operations: 7, elapsed_nanos: 50 });
    assert_eq!(r.num_operations, 12);
    assert_eq!(r.elapsed_nanos, 150);
}

#[test]
fn merge_all_sums_every_entry() {
    let results = vec![
        ExperimentResult { num_operations: 1, elapsed_nanos: 10 },
        ExperimentResult { num_operations: 2, elapsed_nanos: 20 },
        ExperimentResult { num_operations: 3, elapsed_nanos: 30 },
    ];
    let merged = merge_all(&results);
    assert_eq!(merged.num_operations, 6);
    assert_eq!(merged.elapsed_nanos, 60);
}

#[test]
fn runner_totals_are_workers_times_iterations() {
    let src = StringSrc::Cloning(CloneStrSrc::new(4, 2));
    for n in [1usize, 2, 8] {
        let mut results = Vec::new();
        for _ in 0..n {
            results.push(thread_loop(&src, 100));
        }
        let merged = merge_all(&results);
        assert_eq!(merged.num_operations, n * 100);
    }
}

#[test]
fn end_to_end_two_workers() {
    // pool size 1, string length 16, 2 workers, 1000 iterations each
    let src = StringSrc::Shared(ArcStrSrc::new(16, 1));
    let r1 = thread_loop(&src, 1000);
    let r2 = thread_loop(&src, 1000);
    assert_eq!(r1.num_operations, 1000);
    let merged = merge_all(&vec![r1, r2]);
    assert_eq!(merged.num_operations, 2000);
    assert!(merged.elapsed_nanos > 0);
    let elapsed_sec = merged.elapsed_nanos as f64 / 1_000_000_000.0;
    let ops_per_sec = merged.num_operations as f64 / elapsed_sec;
    assert!(ops_per_sec.is_finite());
    assert!(ops_per_sec > 0.0);
}
