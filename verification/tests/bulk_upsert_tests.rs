//! Integration tests for the bulk upsert functionality
//!
//! These tests verify the core business logic of batch upsert operations
//! including edge cases like empty batches, partial failures, and
//! boundary conditions.

use mangayomi_server::db::bulk_upsert::{
    BulkUpserter, FailedItem, UpsertBatchResult, UpsertFilter, UpsertOutcome, get_chunk_size,
    get_concurrency, total_counts_fit, upsert_report,
};
use mangayomi_server::diagnostics::LogLevel;
use mangayomi_server::oid::Oid;

/// Test that UpsertBatchResult correctly tracks multiple failure scenarios
///
/// Business logic: We need to ensure that when some items fail in a batch,
/// we can identify which items failed and why, while still tracking
/// successful operations.
#[test]
fn test_upsert_batch_result_handles_partial_failures() {
    // Simulate a batch where 3 out of 5 items succeeded, 2 failed
    let result = UpsertBatchResult {
        modified_count: 2, // 2 items were modified (updated)
        matched_count: 3,  // 3 items matched (1 unchanged, 2 failed)
        failed_items: vec![
            FailedItem {
                id: 42,
                error: "Serialization failed: invalid field 'updatedAt'".to_string(),
            },
            FailedItem {
                id: 99,
                error: "Write conflict: document modified by another operation".to_string(),
            },
        ],
    };

    // Verify we can identify partial success
    assert_eq!(result.modified_count, 2, "Should track modified count");
    assert_eq!(result.matched_count, 3, "Should track matched count");
    assert_eq!(result.failed_items.len(), 2, "Should capture both failures");

    // Verify we can identify which specific items failed
    let failed_ids: Vec<i64> = result.failed_items.iter().map(|f| f.id).collect();
    assert!(failed_ids.contains(&42), "Should identify first failed ID");
    assert!(failed_ids.contains(&99), "Should identify second failed ID");

    // Verify error messages are descriptive
    assert!(
        result.failed_items[0].error.contains("Serialization"),
        "Should preserve detailed error context"
    );
}

/// Test complete failure scenario
///
/// Business logic: When every item in a batch fails, we should still
/// get a structured result that allows for proper error handling and retry.
#[test]
fn test_total_batch_failure_scenario() {
    let result = UpsertBatchResult {
        modified_count: 0,
        matched_count: 0,
        failed_items: vec![
            FailedItem {
                id: 1,
                error: "Network timeout".to_string(),
            },
            FailedItem {
                id: 2,
                error: "Network timeout".to_string(),
            },
            FailedItem {
                id: 3,
                error: "Network timeout".to_string(),
            },
        ],
    };

    // All items failed
    assert_eq!(result.failed_items.len(), 3);
    assert_eq!(
        result.modified_count, 0,
        "Nothing modified on total failure"
    );

    // Can identify this as a retryable scenario (all same error)
    let all_same_error = result
        .failed_items
        .iter()
        .all(|f| f.error == "Network timeout");
    assert!(
        all_same_error,
        "Should be able to detect retryable batch failures"
    );
}

/// Test edge case: Maximum reasonable number of failures
///
/// Business logic: The system should handle batches where every item
/// fails gracefully without crashing.
#[test]
fn test_batch_with_maximum_failures() {
    const MAX_TEST_FAILURES: usize = 1000;

    let failures: Vec<FailedItem> = (0..MAX_TEST_FAILURES)
        .map(|i| FailedItem {
            id: i as i64,
            error: format!("Failure {}", i),
        })
        .collect();

    let result = UpsertBatchResult {
        modified_count: 0,
        matched_count: 0,
        failed_items: failures,
    };

    assert_eq!(result.failed_items.len(), MAX_TEST_FAILURES);

    // Verify we can iterate and process all failures
    let total: usize = result.failed_items.len();
    assert_eq!(total, MAX_TEST_FAILURES);
}

#[test]
fn test_from_outcomes_sums_and_keeps_failures_in_order() {
    let outcomes = vec![
        UpsertOutcome::Applied { modified: 1, matched: 1 },
        UpsertOutcome::Failed(FailedItem::serialization(7, "bad field")),
        UpsertOutcome::Applied { modified: 0, matched: 1 },
        UpsertOutcome::Applied { modified: 1, matched: 0 },
        UpsertOutcome::Failed(FailedItem { id: 9, error: "E11000 duplicate key".to_string() }),
    ];
    let result = UpsertBatchResult::from_outcomes(outcomes);
    assert_eq!(result.modified_count, 2);
    assert_eq!(result.matched_count, 2);
    assert_eq!(result.failed_items.len(), 2);
    assert_eq!(result.failed_items[0].id, 7);
    assert_eq!(result.failed_items[0].error, "Serialization: bad field");
    assert_eq!(result.failed_items[1].id, 9);
}

#[test]
fn test_empty_batch_result() {
    let result = UpsertBatchResult::empty();
    assert_eq!(result.modified_count, 0);
    assert_eq!(result.matched_count, 0);
    assert!(result.failed_items.is_empty());
}

#[test]
fn test_detect_selects_strategy_from_version() {
    let (mode, line) = BulkUpserter::detect(Ok("8.0.4".to_string()));
    assert_eq!(mode, BulkUpserter::V8);
    assert_eq!(line.level, LogLevel::Info);
    assert_eq!(line.message, "MongoDB 8.0.4 detected - using parallel update mode");

    let (mode, line) = BulkUpserter::detect(Ok("7.0.12".to_string()));
    assert_eq!(mode, BulkUpserter::Legacy);
    assert_eq!(line.message, "MongoDB 7.0.12 detected - using sequential update mode");

    let (mode, line) = BulkUpserter::detect(Ok("10.1.0-rc1".to_string()));
    assert_eq!(mode, BulkUpserter::V8);
    assert_eq!(line.level, LogLevel::Info);

    let (mode, line) = BulkUpserter::detect(Ok("eight".to_string()));
    assert_eq!(mode, BulkUpserter::Legacy);
    assert_eq!(line.level, LogLevel::Warn);
    let reason = semver::Version::parse("eight").unwrap_err().to_string();
    assert_eq!(
        line.message,
        format!(
            "Failed to detect MongoDB version (Kind: Custom user error: Parse error: {}, labels: {{}}, source: None, server response: None), using legacy mode",
            reason
        )
    );

    let (mode, line) = BulkUpserter::detect(Err("connection refused".to_string()));
    assert_eq!(mode, BulkUpserter::Legacy);
    assert_eq!(line.message, "Failed to detect MongoDB version (connection refused), using legacy mode");
}

#[test]
fn test_chunk_size_and_concurrency_resolution() {
    assert_eq!(get_chunk_size(None), 50);
    assert_eq!(get_chunk_size(Some("5000")), 1000);
    assert_eq!(get_chunk_size(Some("0")), 1);
    assert_eq!(get_concurrency(None), 20);
    assert_eq!(get_concurrency(Some("+64")), 64);
    assert_eq!(get_concurrency(Some("-3")), 20);
}

#[test]
fn test_upsert_filter_for_item() {
    let user = Oid { hi: 1, lo: 2 };
    let f = UpsertFilter::for_item(user, 42, 1_775_156_240_310);
    assert_eq!(f.id, 42);
    assert_eq!(f.user, user);
    assert_eq!(f.updated_before, 1_775_156_240_310);
}

#[test]
fn test_total_counts_fit() {
    let small = vec![
        UpsertOutcome::Applied { modified: 1, matched: 1 },
        UpsertOutcome::Failed(FailedItem { id: 3, error: "timeout".to_string() }),
    ];
    assert!(total_counts_fit(&small));
    assert!(total_counts_fit(&Vec::new()));
    let huge = vec![
        UpsertOutcome::Applied { modified: u64::MAX, matched: 0 },
        UpsertOutcome::Applied { modified: 1, matched: 0 },
    ];
    assert_eq!(total_counts_fit(&huge), usize::MAX as u128 >= u64::MAX as u128 + 1);
}

#[test]
fn test_upsert_report_lines() {
    let line = upsert_report(BulkUpserter::Legacy, 2, 10).unwrap();
    assert_eq!(line.level, LogLevel::Warn);
    assert_eq!(line.message, "Legacy upsert: 2 failures out of 10");
    let line = upsert_report(BulkUpserter::V8, 1, 3).unwrap();
    assert_eq!(line.level, LogLevel::Warn);
    assert_eq!(line.message, "Parallel upsert: 1 failures out of 3");
    let line = upsert_report(BulkUpserter::V8, 0, 25).unwrap();
    assert_eq!(line.level, LogLevel::Info);
    assert_eq!(line.message, "Parallel upsert: 25 items processed");
    assert!(upsert_report(BulkUpserter::Legacy, 0, 25).is_none());
}

#[test]
fn test_outcome_order_does_not_change_the_result() {
    let outcomes = || {
        vec![
            UpsertOutcome::Applied { modified: 1, matched: 1 },
            UpsertOutcome::Failed(FailedItem { id: 4, error: "timeout".to_string() }),
            UpsertOutcome::Applied { modified: 0, matched: 1 },
            UpsertOutcome::Failed(FailedItem { id: 8, error: "E11000".to_string() }),
        ]
    };
    let sequential = UpsertBatchResult::from_outcomes(outcomes());
    let mut reordered = outcomes();
    reordered.reverse();
    let concurrent = UpsertBatchResult::from_outcomes(reordered);
    assert_eq!(sequential.modified_count, concurrent.modified_count);
    assert_eq!(sequential.matched_count, concurrent.matched_count);
    let mut a: Vec<i64> = sequential.failed_items.iter().map(|f| f.id).collect();
    let mut b: Vec<i64> = concurrent.failed_items.iter().map(|f| f.id).collect();
    a.sort();
    b.sort();
    assert_eq!(a, b);
    assert_eq!(a, vec![4, 8]);
}
