use arc_or_clone::sweep::{reported_threads, sweep_cases, SweepCase};

#[test]
fn sweep_has_thirty_combinations_in_report_order() {
    let cases = sweep_cases();
    assert_eq!(cases.len(), 30);
    // pool size outer, string length inner, strategy innermost (shared first)
    assert_eq!(cases[0], SweepCase { num_strings: 1, strlen: 16, shared: true });
    assert_eq!(cases[1], SweepCase { num_strings: 1, strlen: 16, shared: false });
    assert_eq!(cases[2], SweepCase { num_strings: 1, strlen: 32, shared: true });
    assert_eq!(cases[8], SweepCase { num_strings: 1, strlen: 1024, shared: true });
    assert_eq!(cases[9], SweepCase { num_strings: 1, strlen: 1024, shared: false });
    assert_eq!(cases[10], SweepCase { num_strings: 8, strlen: 16, shared: true });
    assert_eq!(cases[20], SweepCase { num_strings: 128, strlen: 16, shared: true });
    assert_eq!(cases[29], SweepCase { num_strings: 128, strlen: 1024, shared: false });
}

#[test]
fn sweep_covers_every_combination_once() {
    let cases = sweep_cases();
    for n in [1usize, 8, 128] {
        for l in [16usize, 32, 64, 512, 1024] {
            for shared in [true, false] {
                let count = cases
                    .iter()
                    .filter(|c| c.num_strings == n && c.strlen == l && c.shared == shared)
                    .count();
                assert_eq!(count, 1);
            }
        }
    }
}

#[test]
fn tags_name_the_strategy() {
    let cases = sweep_cases();
    assert_eq!(cases[0].tag(), "A");
    assert_eq!(cases[1].tag(), "C");
}

#[test]
fn reported_threads_is_four_times_the_hardware_count() {
    assert_eq!(reported_threads(1), 4);
    assert_eq!(reported_threads(12), 48);
}
