use os_bulk_index::progress::ProgressCounters;
use os_bulk_index::progress::ProgressEvent;

#[test]
fn test_progress_accounting_three_records_batch_size_one() {
    // N = 3 records with B = 1: after a successful run the completed count
    // is 3 and the submitted and in-flight counts are both 0
    let mut counters = ProgressCounters::new();
    for _ in 0..3 {
        counters.apply_event(ProgressEvent::LineRead);
        counters.apply_event(ProgressEvent::BatchSubmitted);
    }
    for _ in 0..3 {
        counters.apply_event(ProgressEvent::BatchStarted);
        counters.apply_event(ProgressEvent::BatchCompleted);
    }
    counters.apply_event(ProgressEvent::Finished);
    assert_eq!(counters.lines, 3);
    assert_eq!(counters.submitted, 0);
    assert_eq!(counters.in_flight, 0);
    assert_eq!(counters.completed, 3);
    assert!(counters.done);
}

#[test]
fn test_progress_transitions() {
    let mut counters = ProgressCounters::new();
    counters.apply_event(ProgressEvent::LineRead);
    assert_eq!(counters.lines, 1);
    counters.apply_event(ProgressEvent::BatchSubmitted);
    assert_eq!((counters.submitted, counters.in_flight, counters.completed), (1, 0, 0));
    counters.apply_event(ProgressEvent::BatchStarted);
    assert_eq!((counters.submitted, counters.in_flight, counters.completed), (0, 1, 0));
    counters.apply_event(ProgressEvent::BatchCompleted);
    assert_eq!((counters.submitted, counters.in_flight, counters.completed), (0, 0, 1));
}

#[test]
fn test_progress_stops_after_finished() {
    let mut counters = ProgressCounters::new();
    counters.apply_event(ProgressEvent::Finished);
    assert!(counters.done);
    assert!(!counters.can_apply_event(&ProgressEvent::LineRead));
}

#[test]
fn test_progress_rejects_unmatched_start() {
    let counters = ProgressCounters::new();
    // a start without a prior submission is not a valid next event
    assert!(!counters.can_apply_event(&ProgressEvent::BatchStarted));
    assert!(!counters.can_apply_event(&ProgressEvent::BatchCompleted));
    assert!(counters.can_apply_event(&ProgressEvent::LineRead));
}
