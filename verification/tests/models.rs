use operation_log::models::{
    default_page, default_page_size, CreateOperationRequest, OperationType, PaginatedResponse,
    PaginationQuery, PendingOperation,
};
use operation_log::timestamp::Timestamp;

const ALL_TYPES: [OperationType; 5] = [
    OperationType::Create,
    OperationType::Edit,
    OperationType::Delete,
    OperationType::Rename,
    OperationType::Format,
];

#[test]
fn operation_type_names() {
    assert_eq!(OperationType::Create.as_str(), "create");
    assert_eq!(OperationType::Edit.as_str(), "edit");
    assert_eq!(OperationType::Delete.as_str(), "delete");
    assert_eq!(OperationType::Rename.as_str(), "rename");
    assert_eq!(OperationType::Format.as_str(), "format");
}

#[test]
fn operation_type_from_str_known_names() {
    assert_eq!(OperationType::from_str("create"), Some(OperationType::Create));
    assert_eq!(OperationType::from_str("edit"), Some(OperationType::Edit));
    assert_eq!(OperationType::from_str("delete"), Some(OperationType::Delete));
    assert_eq!(OperationType::from_str("rename"), Some(OperationType::Rename));
    assert_eq!(OperationType::from_str("format"), Some(OperationType::Format));
}

#[test]
fn operation_type_from_str_rejects_other_text() {
    assert_eq!(OperationType::from_str("Create"), None);
    assert_eq!(OperationType::from_str(""), None);
    assert_eq!(OperationType::from_str("edits"), None);
    assert_eq!(OperationType::from_str("edi"), None);
    assert_eq!(OperationType::from_str(" edit"), None);
    assert_eq!(OperationType::from_str("формат"), None);
}

#[test]
fn operation_type_round_trip_law() {
    for t in ALL_TYPES {
        assert_eq!(OperationType::from_str(t.as_str()), Some(t));
    }
}

#[test]
fn pagination_defaults() {
    assert_eq!(default_page(), 1);
    assert_eq!(default_page_size(), 20);
    let q = PaginationQuery::default();
    assert_eq!(q, PaginationQuery { page: 1, page_size: 20 });
}

#[test]
fn paginated_response_no_items_has_no_pages() {
    let r: PaginatedResponse<u32> = PaginatedResponse::new(vec![], 0, 1, 20);
    assert_eq!(r.total_pages, 0);
    assert_eq!(r.total, 0);
    assert_eq!(r.page, 1);
    assert_eq!(r.page_size, 20);
    assert!(r.items.is_empty());
}

#[test]
fn paginated_response_rounds_pages_up() {
    assert_eq!(PaginatedResponse::new(vec![1u8], 1, 1, 20).total_pages, 1);
    assert_eq!(PaginatedResponse::<u8>::new(vec![], 20, 1, 20).total_pages, 1);
    assert_eq!(PaginatedResponse::<u8>::new(vec![], 21, 2, 20).total_pages, 2);
    assert_eq!(PaginatedResponse::<u8>::new(vec![], 45, 1, 10).total_pages, 5);
    assert_eq!(PaginatedResponse::<u8>::new(vec![], 100, 1, 100).total_pages, 1);
    assert_eq!(PaginatedResponse::<u8>::new(vec![], 101, 1, 100).total_pages, 2);
}

#[test]
fn paginated_response_keeps_items_and_fields() {
    let r = PaginatedResponse::new(vec![7u32, 8, 9], 23, 3, 10);
    assert_eq!(r.items, vec![7, 8, 9]);
    assert_eq!(r.total, 23);
    assert_eq!(r.page, 3);
    assert_eq!(r.page_size, 10);
    assert_eq!(r.total_pages, 3);
}

#[test]
fn paginated_response_truncates_like_rust_division() {
    // (-5 + 2 - 1) / 2 rounds toward zero.
    assert_eq!(PaginatedResponse::<u8>::new(vec![], -5, 1, 2).total_pages, -2);
    assert_eq!(PaginatedResponse::<u8>::new(vec![], 7, 1, -2).total_pages, -2);
    assert_eq!(PaginatedResponse::<u8>::new(vec![], i64::MAX - 9, 1, 10).total_pages, i64::MAX / 10);
}

#[test]
fn page_count_covers_law_examples() {
    for total in 0i64..300 {
        for size in 1i64..=30 {
            let pages = PaginatedResponse::<u8>::new(vec![], total, 1, size).total_pages;
            assert!(total <= pages * size);
            if total > 0 {
                assert!((pages - 1) * size < total);
            } else {
                assert_eq!(pages, 0);
            }
        }
    }
}

fn sample_request() -> CreateOperationRequest {
    CreateOperationRequest {
        document_id: "doc-1".to_string(),
        user_id: "alice".to_string(),
        operation_type: OperationType::Rename,
        content_before: Some("old".to_string()),
        content_after: None,
        change_summary: Some("renamed".to_string()),
    }
}

#[test]
fn pending_from_request_with_keeps_fields() {
    let at = Timestamp::new(1_700_000_000, 5).unwrap();
    let p = PendingOperation::from_request_with(sample_request(), 42, at);
    assert_eq!(p.id, 42);
    assert_eq!(p.created_at, at);
    assert_eq!(p.document_id, "doc-1");
    assert_eq!(p.user_id, "alice");
    assert_eq!(p.operation_type, OperationType::Rename);
    assert_eq!(p.content_before.as_deref(), Some("old"));
    assert_eq!(p.content_after, None);
    assert_eq!(p.change_summary.as_deref(), Some("renamed"));
}

#[test]
fn pending_from_request_gets_random_id_and_current_time() {
    let a = PendingOperation::from_request(sample_request());
    let b = PendingOperation::from_request(sample_request());
    assert_ne!(a.id, b.id);
    for p in [&a, &b] {
        assert_eq!((p.id >> 76) & 0xf, 4);
        assert_eq!((p.id >> 62) & 0x3, 2);
        assert!(p.created_at.secs > 1_600_000_000);
        assert!(p.created_at.nanos < 1_000_000_000);
        assert_eq!(p.document_id, "doc-1");
    }
}
