use operation_log::handlers::{
    build_timeline, create_operation_outcome, list_operations_outcome, list_page,
    replay_operations_outcome, submit_operation, QueryOutcome, STATUS_GATEWAY_TIMEOUT,
    STATUS_INTERNAL_SERVER_ERROR, STATUS_NOT_FOUND, STATUS_SERVICE_UNAVAILABLE,
};
use operation_log::models::{
    CreateOperationRequest, CreateOperationResponse, DocumentOperation, OperationType,
    PaginationQuery, PendingOperation,
};
use operation_log::repository::EnqueueError;
use operation_log::timestamp::{Timestamp, MAX_TIMESTAMP_SECS, MIN_TIMESTAMP_SECS};

fn ts(secs: i64, nanos: u32) -> Timestamp {
    Timestamp::new(secs, nanos).unwrap()
}

fn op(id: u128, user: &str, created_at: Timestamp) -> DocumentOperation {
    DocumentOperation {
        id,
        document_id: "doc".to_string(),
        user_id: user.to_string(),
        operation_type: OperationType::Edit,
        content_before: Some(format!("before {}", id)),
        content_after: Some(format!("after {}", id)),
        change_summary: None,
        created_at,
    }
}

fn request() -> CreateOperationRequest {
    CreateOperationRequest {
        document_id: "doc".to_string(),
        user_id: "bob".to_string(),
        operation_type: OperationType::Create,
        content_before: None,
        content_after: Some("hello".to_string()),
        change_summary: None,
    }
}

#[test]
fn list_page_clamps_page_and_size() {
    assert_eq!(list_page(PaginationQuery { page: 0, page_size: 0 }), (1, 1));
    assert_eq!(list_page(PaginationQuery { page: -5, page_size: -3 }), (1, 1));
    assert_eq!(list_page(PaginationQuery { page: 3, page_size: 1000 }), (3, 100));
    assert_eq!(list_page(PaginationQuery { page: 7, page_size: 50 }), (7, 50));
    assert_eq!(list_page(PaginationQuery { page: 1, page_size: 100 }), (1, 100));
}

#[test]
fn list_page_is_idempotent() {
    for page in -3i64..5 {
        for page_size in [-1i64, 0, 1, 20, 100, 101, 5000] {
            let (p, s) = list_page(PaginationQuery { page, page_size });
            assert_eq!(list_page(PaginationQuery { page: p, page_size: s }), (p, s));
        }
    }
}

#[test]
fn list_outcome_completed_builds_page() {
    let r = list_operations_outcome(QueryOutcome::Completed((vec![1u8, 2], 41)), 2, 20).unwrap();
    assert_eq!(r.items, vec![1, 2]);
    assert_eq!(r.total, 41);
    assert_eq!(r.page, 2);
    assert_eq!(r.page_size, 20);
    assert_eq!(r.total_pages, 3);
}

#[test]
fn list_outcome_errors() {
    let failed: QueryOutcome<(Vec<u8>, i64)> = QueryOutcome::Failed;
    assert_eq!(list_operations_outcome(failed, 1, 20).unwrap_err(), STATUS_INTERNAL_SERVER_ERROR);
    let late: QueryOutcome<(Vec<u8>, i64)> = QueryOutcome::TimedOut;
    assert_eq!(list_operations_outcome(late, 1, 20).unwrap_err(), STATUS_GATEWAY_TIMEOUT);
    assert_eq!(STATUS_INTERNAL_SERVER_ERROR, 500);
    assert_eq!(STATUS_GATEWAY_TIMEOUT, 504);
}

#[test]
fn build_timeline_empty_is_none() {
    assert!(build_timeline("doc".to_string(), &vec![]).is_none());
}

#[test]
fn build_timeline_numbers_steps_and_measures_gaps() {
    let ops = vec![
        op(1, "a", ts(1000, 0)),
        op(2, "b", ts(1001, 500_000_000)),
        op(3, "c", ts(1003, 499_999)),
    ];
    let t = build_timeline("doc".to_string(), &ops).unwrap();
    assert_eq!(t.document_id, "doc");
    assert_eq!(t.total_operations, 3);
    assert_eq!(t.start_time, ts(1000, 0));
    assert_eq!(t.end_time, ts(1003, 499_999));
    assert_eq!(t.total_duration_ms, 3000);
    assert_eq!(t.operations.len(), 3);
    let seqs: Vec<i64> = t.operations.iter().map(|s| s.sequence).collect();
    assert_eq!(seqs, vec![1, 2, 3]);
    let deltas: Vec<i64> = t.operations.iter().map(|s| s.time_delta_ms).collect();
    assert_eq!(deltas, vec![0, 1500, 1500]);
    assert_eq!(t.operations[1].operation_id, 2);
    assert_eq!(t.operations[1].user_id, "b");
    assert_eq!(t.operations[1].timestamp, ts(1001, 500_000_000));
    assert_eq!(t.operations[2].content_before.as_deref(), Some("before 3"));
    assert_eq!(t.operations[2].content_after.as_deref(), Some("after 3"));
    assert_eq!(t.operations[2].operation_type, OperationType::Edit);
}

#[test]
fn build_timeline_truncates_toward_zero() {
    let ops = vec![
        op(1, "a", ts(2000, 0)),
        op(2, "a", ts(2000, 999_999)),
        op(3, "a", ts(1999, 500_000_001)),
    ];
    let t = build_timeline("doc".to_string(), &ops).unwrap();
    let deltas: Vec<i64> = t.operations.iter().map(|s| s.time_delta_ms).collect();
    // 0.999999 ms rounds to 0; -0.500999999... s rounds to -500 ms, not -501.
    assert_eq!(deltas, vec![0, 0, -500]);
    // -0.499999999 s rounds to -499 ms.
    assert_eq!(t.total_duration_ms, -499);
}

#[test]
fn build_timeline_single_operation() {
    let t = build_timeline("d".to_string(), &vec![op(9, "z", ts(5, 5))]).unwrap();
    assert_eq!(t.total_operations, 1);
    assert_eq!(t.total_duration_ms, 0);
    assert_eq!(t.start_time, t.end_time);
    assert_eq!(t.operations[0].sequence, 1);
    assert_eq!(t.operations[0].time_delta_ms, 0);
}

#[test]
fn build_timeline_across_whole_range() {
    let ops = vec![op(1, "a", ts(MIN_TIMESTAMP_SECS, 0)), op(2, "a", ts(MAX_TIMESTAMP_SECS, 999_999_999))];
    let t = build_timeline("doc".to_string(), &ops).unwrap();
    let span = (MAX_TIMESTAMP_SECS - MIN_TIMESTAMP_SECS) * 1000 + 999;
    assert_eq!(t.total_duration_ms, span);
    assert_eq!(t.operations[1].time_delta_ms, span);
}

#[test]
fn build_timeline_leap_seconds() {
    // 12:00:59 on day 0 is second 43259; 1.5 s into it is inside a leap second.
    let in_leap = ts(43_259, 1_500_000_000);
    let ops = vec![
        op(1, "a", ts(43_259, 0)),
        op(2, "a", in_leap),
        op(3, "a", ts(43_260, 0)),
        op(4, "a", ts(43_258, 0)),
    ];
    let t = build_timeline("doc".to_string(), &ops).unwrap();
    let deltas: Vec<i64> = t.operations.iter().map(|s| s.time_delta_ms).collect();
    assert_eq!(deltas, vec![0, 1500, 500, -2000]);
    // A leap second at the end of the day and the next midnight.
    let ops = vec![op(1, "a", ts(86_399, 1_500_000_000)), op(2, "a", ts(86_400, 0))];
    let t = build_timeline("doc".to_string(), &ops).unwrap();
    assert_eq!(t.operations[1].time_delta_ms, -500);
}

#[test]
fn replay_outcome_statuses() {
    assert_eq!(
        replay_operations_outcome("doc".to_string(), QueryOutcome::Completed(vec![])).unwrap_err(),
        STATUS_NOT_FOUND
    );
    assert_eq!(
        replay_operations_outcome("doc".to_string(), QueryOutcome::Failed).unwrap_err(),
        STATUS_INTERNAL_SERVER_ERROR
    );
    assert_eq!(
        replay_operations_outcome("doc".to_string(), QueryOutcome::TimedOut).unwrap_err(),
        STATUS_GATEWAY_TIMEOUT
    );
    assert_eq!(STATUS_NOT_FOUND, 404);
}

#[test]
fn replay_outcome_completed_builds_timeline() {
    let ops = vec![op(1, "a", ts(10, 0)), op(2, "a", ts(12, 250_000_000))];
    let t = replay_operations_outcome("doc".to_string(), QueryOutcome::Completed(ops)).unwrap();
    assert_eq!(t.total_operations, 2);
    assert_eq!(t.total_duration_ms, 2250);
    assert_eq!(t.operations[1].time_delta_ms, 2250);
}

#[test]
fn create_outcome_maps_queue_refusals() {
    let response = CreateOperationResponse { id: 7, created_at: ts(1, 0) };
    assert_eq!(create_operation_outcome(response, Ok(())), Ok(response));
    let pending = PendingOperation::from_request_with(request(), 7, ts(1, 0));
    assert_eq!(
        create_operation_outcome(response, Err(EnqueueError::Full(pending.clone()))),
        Err(STATUS_SERVICE_UNAVAILABLE)
    );
    assert_eq!(
        create_operation_outcome(response, Err(EnqueueError::Closed(pending))),
        Err(STATUS_INTERNAL_SERVER_ERROR)
    );
    assert_eq!(STATUS_SERVICE_UNAVAILABLE, 503);
}

#[test]
fn submit_operation_queues_until_full() {
    let (tx, mut rx) = tokio::sync::mpsc::channel::<PendingOperation>(1);
    let pending = PendingOperation::from_request(request());
    let (id, created_at) = (pending.id, pending.created_at);
    let first = submit_operation(&tx, pending).0.unwrap();
    assert_eq!(first.id, id);
    assert_eq!(first.created_at, created_at);
    assert_eq!((first.id >> 76) & 0xf, 4);
    assert_eq!(
        submit_operation(&tx, PendingOperation::from_request(request())).0,
        Err(STATUS_SERVICE_UNAVAILABLE)
    );
    let queued = rx.try_recv().unwrap();
    assert_eq!(queued.id, first.id);
    assert_eq!(queued.created_at, first.created_at);
    assert_eq!(queued.user_id, "bob");
    assert_eq!(queued.content_after.as_deref(), Some("hello"));
    drop(rx);
    assert_eq!(
        submit_operation(&tx, PendingOperation::from_request(request())).0,
        Err(STATUS_INTERNAL_SERVER_ERROR)
    );
}

#[test]
fn gaps_add_up_on_whole_milliseconds() {
    let ops = vec![
        op(1, "a", ts(100, 0)),
        op(2, "a", ts(100, 7_000_000)),
        op(3, "a", ts(99, 3_000_000)),
        op(4, "a", ts(250, 999_000_000)),
    ];
    let t = build_timeline("doc".to_string(), &ops).unwrap();
    let sum: i64 = t.operations.iter().map(|s| s.time_delta_ms).sum();
    assert_eq!(sum, t.total_duration_ms);
    assert_eq!(t.total_duration_ms, 150_999);
}

#[test]
fn gaps_may_drift_below_a_millisecond() {
    // Two gaps of 0.6 ms each are 0 ms apiece, while the whole span is 1 ms.
    let ops = vec![op(1, "a", ts(0, 0)), op(2, "a", ts(0, 600_000)), op(3, "a", ts(0, 1_200_000))];
    let t = build_timeline("doc".to_string(), &ops).unwrap();
    let sum: i64 = t.operations.iter().map(|s| s.time_delta_ms).sum();
    assert_eq!(sum, 0);
    assert_eq!(t.total_duration_ms, 1);
}
