use arc_or_clone::classify::string_calculation;
use arc_or_clone::scratch::ScratchBuffer;
use arc_or_clone::source::{ArcStrSrc, CloneStrSrc, StringSrc};
use arc_or_clone::workload::{thread_loop, workload};

#[test]
fn classification_accepts_exactly_the_alphanumeric_strings() {
    assert_eq!(string_calculation("abc123"), Some("abc123"));
    assert_eq!(string_calculation("ABCxyz"), Some("ABCxyz"));
    // vacuously alphanumeric
    assert_eq!(string_calculation(""), Some(""));
    assert_eq!(string_calculation("hello world"), None);
    assert_eq!(string_calculation("abc!"), None);
    assert_eq!(string_calculation("!!!"), None);
}

#[test]
fn scratch_first_slot_overwritten_exactly_once_after_wrap() {
    let mut scratch = ScratchBuffer::new(3);
    assert_eq!(scratch.num_slots(), 3);
    assert_eq!(scratch.accepted_count(), 0);
    for s in ["w0", "w1", "w2", "w3"] {
        scratch.record(s.to_string());
    }
    // capacity + 1 accepted writes: slot 0 took write 0, then write 3 again;
    // the other slots were written once each
    assert_eq!(scratch.accepted_count(), 4);
    assert_eq!(scratch.slot(0), "w3");
    assert_eq!(scratch.slot(1), "w1");
    assert_eq!(scratch.slot(2), "w2");
}

#[test]
fn always_accepting_pool_advances_scratch_every_iteration() {
    // every pool string is alphanumeric, so every iteration is accepted
    let src = StringSrc::Cloning(CloneStrSrc::from_strings(vec!["abc".to_string()]));
    let mut scratch = ScratchBuffer::new(2);
    workload(&src, 5, &mut scratch);
    assert_eq!(scratch.accepted_count(), 5);
    assert_eq!(scratch.slot(0), "abc");
    assert_eq!(scratch.slot(1), "abc");
}

#[test]
fn all_non_alphanumeric_pool_is_never_written_to_scratch() {
    let src = StringSrc::Shared(ArcStrSrc::from_strings(&vec!["!?-".to_string()]));
    let mut scratch = ScratchBuffer::new(4);
    workload(&src, 10, &mut scratch);
    // acceptance count strictly less than the iteration count: nothing landed
    assert_eq!(scratch.accepted_count(), 0);
    assert!(scratch.accepted_count() < 10);
    for i in 0..4 {
        assert_eq!(scratch.slot(i), "");
    }
}

#[test]
fn mixed_pool_writes_only_accepted_pool_strings() {
    let strings = vec!["good1".to_string(), "bad!".to_string()];
    let src = StringSrc::Cloning(CloneStrSrc::from_strings(strings));
    let mut scratch = ScratchBuffer::new(8);
    workload(&src, 50, &mut scratch);
    assert!(scratch.accepted_count() <= 50);
    for i in 0..8 {
        let s = scratch.slot(i).as_str();
        assert!(s.is_empty() || s == "good1");
    }
}

#[test]
fn thread_loop_reports_every_iteration_as_an_operation() {
    let src = StringSrc::Cloning(CloneStrSrc::from_strings(vec!["##".to_string()]));
    // operations count iterations, accepted or not
    let r = thread_loop(&src, 10);
    assert_eq!(r.num_operations, 10);
}
