use dozer_tracing::batch::{BatchConfig, BatchProcessor};

fn small_config() -> BatchConfig {
    BatchConfig { max_export_batch_size: 4, max_queue_size: 100, max_concurrent_exports: 2 }
}

#[test]
fn more_spans_than_one_batch_means_more_than_one_export_call() {
    let mut p = BatchProcessor::new(small_config());
    for id in 0..10u64 {
        p.submit(id);
    }
    let mut calls: Vec<Vec<u64>> = Vec::new();
    loop {
        match p.take_batch(true) {
            Some(b) => {
                calls.push(b);
                p.export_done();
            }
            None => break,
        }
    }
    assert!(calls.len() > 1);
    assert_eq!(calls.len(), 3);
    for c in &calls {
        assert!(c.len() <= 4);
    }
    let flat: Vec<u64> = calls.concat();
    assert_eq!(flat, (0..10u64).collect::<Vec<u64>>());
}

#[test]
fn concurrency_bound_caps_outstanding_exports() {
    let mut p = BatchProcessor::new(small_config());
    for id in 0..12u64 {
        p.submit(id);
    }
    assert!(p.take_batch(false).is_some());
    assert!(p.take_batch(false).is_some());
    // Two exports outstanding is the bound: the third batch must wait.
    assert!(p.take_batch(false).is_none());
    p.export_done();
    assert!(p.take_batch(false).is_some());
}

#[test]
fn a_failed_export_counts_its_spans_as_lost_and_is_not_retried() {
    let mut p = BatchProcessor::new(small_config());
    for id in 0..6u64 {
        p.submit(id);
    }
    let batch = p.take_batch(false).expect("a full batch is due");
    assert_eq!(batch, vec![0, 1, 2, 3]);
    // The backend rejects the batch: the spans are booked as lost, the
    // in-flight slot frees up, and the batch is gone from the buffer.
    p.export_failed(batch.len());
    assert_eq!(p.dropped, 4);
    assert_eq!(p.in_flight, 0);
    assert_eq!(p.queue, vec![4, 5]);
    // The next call carries the remaining spans, not the failed ones.
    let next = p.take_batch(true).expect("the remainder is due under force");
    assert_eq!(next, vec![4, 5]);
}

#[test]
fn no_batch_is_due_below_the_threshold_without_force() {
    let mut p = BatchProcessor::new(small_config());
    p.submit(1);
    p.submit(2);
    assert!(p.take_batch(false).is_none());
    let b = p.take_batch(true).expect("a forced flush drains a partial batch");
    assert_eq!(b, vec![1, 2]);
}

#[test]
fn full_buffer_drops_oldest_first_and_counts_them() {
    let cfg = BatchConfig { max_export_batch_size: 4, max_queue_size: 3, max_concurrent_exports: 1 };
    let mut p = BatchProcessor::new(cfg);
    p.submit(1);
    p.submit(2);
    p.submit(3);
    assert_eq!(p.dropped, 0);
    p.submit(4);
    assert_eq!(p.dropped, 1);
    assert_eq!(p.queue, vec![2, 3, 4]);
}

#[test]
fn shutdown_with_an_unresponsive_backend_still_returns_with_losses_counted() {
    let mut p = BatchProcessor::new(small_config());
    for id in 0..5u64 {
        p.submit(id);
    }
    // The backend never responds, so not a single export call fits the bound.
    let calls = p.shutdown_flush(0);
    assert!(calls.is_empty());
    assert_eq!(p.dropped, 5);
    assert!(p.queue.is_empty());
}

#[test]
fn shutdown_within_budget_flushes_everything_in_order() {
    let mut p = BatchProcessor::new(small_config());
    for id in 0..10u64 {
        p.submit(id);
    }
    let calls = p.shutdown_flush(5);
    assert_eq!(calls.len(), 3);
    assert_eq!(calls[0].len(), 4);
    assert_eq!(calls[1].len(), 4);
    assert_eq!(calls[2].len(), 2);
    assert_eq!(p.dropped, 0);
    let flat: Vec<u64> = calls.concat();
    assert_eq!(flat, (0..10u64).collect::<Vec<u64>>());
}

#[test]
fn shutdown_beyond_budget_keeps_the_oldest_and_counts_the_rest() {
    let mut p = BatchProcessor::new(small_config());
    for id in 0..10u64 {
        p.submit(id);
    }
    let calls = p.shutdown_flush(1);
    assert_eq!(calls.len(), 1);
    assert_eq!(calls[0], vec![0, 1, 2, 3]);
    assert_eq!(p.dropped, 6);
}
