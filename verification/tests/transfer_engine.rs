//! The transfer engine: classification, worker accounting, queue order,
//! completion tracking and fail-fast behaviour, driven as the worker pool
//! drives it.

use algorithmia_cli::transfer::{
    classify, concurrency_from_arg, effective_concurrency, ClassifyError, TransferDirection,
    TransferEngine, TransferError, TransferOutcome, TransferRequest, DEFAULT_CONCURRENCY,
};

fn strings(items: &[&str]) -> Vec<String> {
    items.iter().map(|s| s.to_string()).collect()
}

#[test]
fn classify_upload() {
    let sources = strings(&["a.txt", "b.txt"]);
    assert_eq!(classify(&sources, "data://dir"), Ok(TransferDirection::Upload));
}

#[test]
fn classify_download() {
    let sources = strings(&["data://dir/a.txt"]);
    assert_eq!(classify(&sources, "./out"), Ok(TransferDirection::Download));
}

#[test]
fn classify_mixed_sources_download() {
    // One remote source suffices for a download.
    let sources = strings(&["local.txt", "data://dir/a.txt"]);
    assert_eq!(classify(&sources, "out"), Ok(TransferDirection::Download));
}

#[test]
fn classify_remote_to_remote_rejected() {
    let sources = strings(&["data://a.txt"]);
    assert_eq!(
        classify(&sources, "data://dir"),
        Err(ClassifyError::AmbiguousDirection)
    );
}

#[test]
fn classify_all_local_rejected() {
    let sources = strings(&["a.txt"]);
    assert_eq!(classify(&sources, "dir"), Err(ClassifyError::AmbiguousPath));
}

#[test]
fn worker_count_is_capped_by_limit() {
    assert_eq!(effective_concurrency(10, 2), 2);
    assert_eq!(effective_concurrency(2, 10), 2);
    assert_eq!(effective_concurrency(0, 8), 0);
    let request = TransferRequest::new(
        strings(&["a", "b", "c", "d", "e", "f", "g", "h", "i", "j"]),
        "data://dir".to_string(),
        2,
    );
    let engine = TransferEngine::new(request).unwrap();
    assert_eq!(engine.worker_count(), 2);
}

#[test]
fn worker_count_is_capped_by_item_count() {
    let request = TransferRequest::new(strings(&["a", "b"]), "data://dir".to_string(), 8);
    let engine = TransferEngine::new(request).unwrap();
    assert_eq!(engine.worker_count(), 2);
}

#[test]
fn engine_rejects_ambiguous_request() {
    let request = TransferRequest::new(strings(&["a"]), "dir".to_string(), 8);
    match TransferEngine::new(request) {
        Err(e) => assert_eq!(e, ClassifyError::AmbiguousPath),
        Ok(_) => panic!("ambiguous request accepted"),
    }
}

#[test]
fn items_come_off_the_queue_in_input_order() {
    let request = TransferRequest::new(
        strings(&["first", "second", "third"]),
        "data://dir".to_string(),
        8,
    );
    let mut engine = TransferEngine::new(request).unwrap();
    assert_eq!(engine.next_item(), Some("first".to_string()));
    assert_eq!(engine.next_item(), Some("second".to_string()));
    assert!(!engine.is_drained());
    assert_eq!(engine.next_item(), Some("third".to_string()));
    assert!(engine.is_drained());
    assert_eq!(engine.next_item(), None);
}

#[test]
fn full_upload_run_counts_every_success() {
    let request = TransferRequest::new(
        strings(&["a.txt", "b.txt", "c.txt"]),
        "data://dir".to_string(),
        8,
    );
    let mut engine = TransferEngine::new(request).unwrap();
    assert_eq!(engine.direction(), TransferDirection::Upload);
    assert_eq!(engine.upload_target(), "dir");

    let workers = engine.worker_count();
    assert_eq!(workers, 3);
    let mut peak = 0;
    for _ in 0..workers {
        engine.start_worker();
        peak = peak.max(engine.active_workers());
    }
    assert!(peak <= workers);
    while let Some(item) = engine.next_item() {
        let resolved = format!("data://dir/{}", item);
        engine.record_outcome(TransferOutcome::Success {
            path: item,
            resolved,
            bytes: 10,
        });
    }
    for _ in 0..workers {
        assert!(!engine.barrier_released());
        engine.worker_done();
    }
    assert!(engine.barrier_released());
    assert_eq!(engine.completed_count(), 3);
    assert_eq!(engine.exit_code(), 0);
    assert!(engine.failure().is_none());
    assert_eq!(engine.summary_message(), "Finished uploading 3 file(s)");
}

#[test]
fn failures_are_reported_but_not_counted() {
    let request = TransferRequest::new(
        strings(&["data://dir/a.csv", "data://dir/b.csv"]),
        "out".to_string(),
        4,
    );
    let mut engine = TransferEngine::new(request).unwrap();
    assert_eq!(engine.direction(), TransferDirection::Download);
    let workers = engine.worker_count();
    for _ in 0..workers {
        engine.start_worker();
    }
    let first = engine.next_item().unwrap();
    engine.record_outcome(TransferOutcome::Success {
        path: first,
        resolved: "out".to_string(),
        bytes: 512,
    });
    let second = engine.next_item().unwrap();
    engine.record_outcome(TransferOutcome::Failure {
        path: second,
        error: TransferError::Remote("404 not found".to_string()),
    });
    for _ in 0..workers {
        engine.worker_done();
    }
    assert!(engine.barrier_released());
    assert_eq!(engine.completed_count(), 1);
    assert_eq!(engine.summary_message(), "Finished downloading 1 file(s)");
}

#[test]
fn fail_fast_keeps_barrier_accounting() {
    // An injected failure on the middle item: the failure is reported, the
    // exit status is non-zero, and the barrier still releases.
    let request = TransferRequest::new(
        strings(&["a.txt", "b.txt", "c.txt"]),
        "data://dir".to_string(),
        3,
    );
    let mut engine = TransferEngine::new(request).unwrap();
    let workers = engine.worker_count();
    assert_eq!(workers, 3);
    for _ in 0..workers {
        engine.start_worker();
    }
    let a = engine.next_item().unwrap();
    engine.record_outcome(TransferOutcome::Success {
        path: a,
        resolved: "data://dir/a.txt".to_string(),
        bytes: 1,
    });
    let b = engine.next_item().unwrap();
    engine.record_outcome(TransferOutcome::Failure {
        path: b.clone(),
        error: TransferError::LocalIo("permission denied".to_string()),
    });
    // Fail-fast: the third item is never processed, but every worker still
    // signals the barrier.
    for _ in 0..workers {
        engine.worker_done();
    }
    assert!(engine.barrier_released());
    assert_eq!(engine.exit_code(), 1);
    match engine.failure() {
        Some(TransferOutcome::Failure { path, error }) => {
            assert_eq!(path, "b.txt");
            assert_eq!(
                *error,
                TransferError::LocalIo("permission denied".to_string())
            );
        }
        other => panic!("expected the b.txt failure, got {:?}", other),
    }
    assert_eq!(engine.completed_count(), 1);
}

#[test]
fn first_failure_wins() {
    let request = TransferRequest::new(strings(&["a", "b"]), "data://d".to_string(), 2);
    let mut engine = TransferEngine::new(request).unwrap();
    engine.start_worker();
    let a = engine.next_item().unwrap();
    engine.record_outcome(TransferOutcome::Failure {
        path: a,
        error: TransferError::Remote("first".to_string()),
    });
    let b = engine.next_item().unwrap();
    engine.record_outcome(TransferOutcome::Failure {
        path: b,
        error: TransferError::Remote("second".to_string()),
    });
    match engine.failure() {
        Some(TransferOutcome::Failure { path, .. }) => assert_eq!(path, "a"),
        other => panic!("expected the first failure, got {:?}", other),
    }
}

#[test]
fn empty_source_list_finishes_at_once() {
    let request = TransferRequest::new(strings(&[]), "data://dir".to_string(), 8);
    let mut engine = TransferEngine::new(request).unwrap();
    assert_eq!(engine.worker_count(), 0);
    assert!(engine.is_drained());
    assert_eq!(engine.next_item(), None);
    assert!(engine.barrier_released());
    assert_eq!(engine.completed_count(), 0);
    assert_eq!(engine.exit_code(), 0);
}

#[test]
fn download_target_resolution_through_engine() {
    let request = TransferRequest::new(
        strings(&["data://dir/report.csv"]),
        "./out".to_string(),
        8,
    );
    let engine = TransferEngine::new(request).unwrap();
    assert_eq!(
        engine.download_target("data://dir/report.csv", true),
        "./out/report.csv"
    );
    assert_eq!(
        engine.download_target("data://dir/report.csv", false),
        "./out"
    );
}

#[test]
fn concurrency_flag_parsing() {
    assert_eq!(concurrency_from_arg(&None), Some(DEFAULT_CONCURRENCY));
    assert_eq!(concurrency_from_arg(&None), Some(8));
    assert_eq!(concurrency_from_arg(&Some("3".to_string())), Some(3));
    assert_eq!(concurrency_from_arg(&Some("+12".to_string())), Some(12));
    assert_eq!(concurrency_from_arg(&Some("0".to_string())), None);
    assert_eq!(concurrency_from_arg(&Some("".to_string())), None);
    assert_eq!(concurrency_from_arg(&Some("eight".to_string())), None);
    assert_eq!(concurrency_from_arg(&Some("4294967296".to_string())), None);
}
