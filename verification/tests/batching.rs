use os_bulk_index::orchestrator::Orchestrator;

fn drive(n: usize, batch_size: usize, max_pending: usize, limit: Option<usize>) -> Vec<Vec<String>> {
    let mut orch = Orchestrator::new(batch_size, max_pending, limit);
    let mut batches = Vec::new();
    let mut i = 0usize;
    while orch.wants_line() && i < n {
        // backpressure: resolve outstanding tasks until there is room
        while orch.must_wait() {
            orch.task_resolved();
            assert!(orch.pending_count() <= max_pending);
        }
        if let Some(batch) = orch.offer_line(format!("record-{i}")) {
            batches.push(batch);
        }
        assert!(orch.pending_count() <= max_pending);
        i += 1;
    }
    while orch.must_wait() {
        orch.task_resolved();
    }
    if let Some(batch) = orch.end_input() {
        batches.push(batch);
    }
    assert!(orch.pending_count() <= max_pending);
    while orch.pending_count() > 0 {
        orch.task_resolved();
    }
    assert!(orch.is_drained());
    batches
}

#[test]
fn test_batch_count_with_remainder() {
    // 10 records in batches of 3: ceil(10/3) = 4 batches, the last of size 1
    let batches = drive(10, 3, 64, None);
    assert_eq!(batches.len(), 4);
    assert_eq!(batches[0].len(), 3);
    assert_eq!(batches[1].len(), 3);
    assert_eq!(batches[2].len(), 3);
    assert_eq!(batches[3].len(), 1);
}

#[test]
fn test_batch_count_exact_multiple() {
    // 6 records in batches of 3: 2 batches, the last of full size 3
    let batches = drive(6, 3, 64, None);
    assert_eq!(batches.len(), 2);
    assert!(batches.iter().all(|b| b.len() == 3));
}

#[test]
fn test_batch_size_one() {
    let batches = drive(5, 1, 64, None);
    assert_eq!(batches.len(), 5);
    assert!(batches.iter().all(|b| b.len() == 1));
}

#[test]
fn test_batch_larger_than_input() {
    // fewer records than one batch: everything arrives in the final batch
    let batches = drive(2, 5, 64, None);
    assert_eq!(batches.len(), 1);
    assert_eq!(batches[0].len(), 2);
}

#[test]
fn test_empty_input() {
    let batches = drive(0, 8, 64, None);
    assert_eq!(batches.len(), 0);
}

#[test]
fn test_batches_preserve_record_order() {
    let batches = drive(7, 3, 64, None);
    let flat: Vec<&String> = batches.iter().flatten().collect();
    for (i, record) in flat.iter().enumerate() {
        assert_eq!(**record, format!("record-{i}"));
    }
}

#[test]
fn test_backpressure_ceiling_is_respected() {
    // a tight ceiling: the pending count may reach it but never pass it
    let batches = drive(20, 1, 2, None);
    assert_eq!(batches.len(), 20);
}

#[test]
fn test_line_limit_stops_reading() {
    let mut orch = Orchestrator::new(4, 8, Some(3));
    let mut offered = 0usize;
    while orch.wants_line() {
        assert!(orch.offer_line(format!("r{offered}")).is_none());
        offered += 1;
    }
    assert_eq!(offered, 3);
    let last = orch.end_input().expect("a partial batch should remain");
    assert_eq!(last.len(), 3);
}
