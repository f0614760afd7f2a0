use vstd::prelude::*;

use crate::div_toward_zero;
use crate::ids::{is_random_id, random_id};
use crate::text::text_eq;
use crate::timestamp::{chrono_now, Timestamp, NANOS_PER_SEC};

verus! {

/// The kind of change an operation made to a document.
#[derive(Clone, Copy, Debug, PartialEq, Eq, Structural)]
pub enum OperationType {
    Create,
    Edit,
    Delete,
    Rename,
    Format,
}

impl OperationType {
    /// The lower-case name under which the kind is stored and exchanged.
    pub open spec fn text(self) -> Seq<char> {
        match self {
            OperationType::Create => "create"@,
            OperationType::Edit => "edit"@,
            OperationType::Delete => "delete"@,
            OperationType::Rename => "rename"@,
            OperationType::Format => "format"@,
        }
    }

    /// The kind named by a text, if any.
    pub open spec fn parse(s: Seq<char>) -> Option<OperationType> {
        if s == "create"@ {
            Some(OperationType::Create)
        } else if s == "edit"@ {
            Some(OperationType::Edit)
        } else if s == "delete"@ {
            Some(OperationType::Delete)
        } else if s == "rename"@ {
            Some(OperationType::Rename)
        } else if s == "format"@ {
            Some(OperationType::Format)
        } else {
            None
        }
    }

    /// The lower-case name of the kind.
    pub fn as_str(&self) -> (r: &'static str)
        ensures
            r@ == self.text(),
    {
        match self {
            OperationType::Create => "create",
            OperationType::Edit => "edit",
            OperationType::Delete => "delete",
            OperationType::Rename => "rename",
            OperationType::Format => "format",
        }
    }

    /// Reads a kind from its lower-case name; any other text (other case included) is `None`.
    pub fn from_str(s: &str) -> (r: Option<Self>)
        ensures
            r == OperationType::parse(s@),
    {
        if text_eq(s, "create") {
            Some(OperationType::Create)
        } else if text_eq(s, "edit") {
            Some(OperationType::Edit)
        } else if text_eq(s, "delete") {
            Some(OperationType::Delete)
        } else if text_eq(s, "rename") {
            Some(OperationType::Rename)
        } else if text_eq(s, "format") {
            Some(OperationType::Format)
        } else {
            None
        }
    }
}

/// Every kind reads back from its own name, and a name that reads as a kind is that
/// kind's name: `from_str` and `as_str` are inverse on the five names.
pub proof fn lemma_operation_type_round_trip(t: OperationType, s: Seq<char>)
    ensures
        OperationType::parse(t.text()) == Some(t),
        OperationType::parse(s) == Some(t) ==> s == t.text(),
{
    reveal_strlit("create");
    reveal_strlit("edit");
    reveal_strlit("delete");
    reveal_strlit("rename");
    reveal_strlit("format");
    // "edit" is the only name of four characters; the others differ in their first one.
    assert("edit"@.len() == 4 && "create"@.len() == 6 && "delete"@.len() == 6);
    assert("rename"@.len() == 6 && "format"@.len() == 6);
    assert("create"@[0] == 'c' && "delete"@[0] == 'd' && "rename"@[0] == 'r' && "format"@[0]
        == 'f');
}

/// Distinct kinds have distinct names.
pub proof fn lemma_operation_type_names_distinct(t1: OperationType, t2: OperationType)
    ensures
        t1.text() == t2.text() ==> t1 == t2,
{
    lemma_operation_type_round_trip(t1, t2.text());
    lemma_operation_type_round_trip(t2, t1.text());
}

/// A recorded change to a document, as read back from the store.
#[derive(Clone, Debug, PartialEq, Eq)]
pub struct DocumentOperation {
    pub id: u128,
    pub document_id: String,
    pub user_id: String,
    pub operation_type: OperationType,
    pub content_before: Option<String>,
    pub content_after: Option<String>,
    pub change_summary: Option<String>,
    pub created_at: Timestamp,
}

/// A change accepted from a client and waiting to be written.
#[derive(Clone, Debug, PartialEq, Eq)]
pub struct PendingOperation {
    pub id: u128,
    pub document_id: String,
    pub user_id: String,
    pub operation_type: OperationType,
    pub content_before: Option<String>,
    pub content_after: Option<String>,
    pub change_summary: Option<String>,
    pub created_at: Timestamp,
}

impl PendingOperation {
    /// The record that the pending change becomes once written.
    pub open spec fn as_document(self) -> DocumentOperation {
        DocumentOperation {
            id: self.id,
            document_id: self.document_id,
            user_id: self.user_id,
            operation_type: self.operation_type,
            content_before: self.content_before,
            content_after: self.content_after,
            change_summary: self.change_summary,
            created_at: self.created_at,
        }
    }

    /// The pending change for a request, with the given id and creation instant.
    pub fn from_request_with(req: CreateOperationRequest, id: u128, created_at: Timestamp) -> (r:
        PendingOperation)
        ensures
            r.id == id,
            r.created_at == created_at,
            r.document_id == req.document_id,
            r.user_id == req.user_id,
            r.operation_type == req.operation_type,
            r.content_before == req.content_before,
            r.content_after == req.content_after,
            r.change_summary == req.change_summary,
    {
        PendingOperation {
            id,
            document_id: req.document_id,
            user_id: req.user_id,
            operation_type: req.operation_type,
            content_before: req.content_before,
            content_after: req.content_after,
            change_summary: req.change_summary,
            created_at,
        }
    }

    /// The pending change for a request: a fresh random id and the current instant, the
    /// rest taken from the request.
    pub fn from_request(req: CreateOperationRequest) -> (r: PendingOperation)
        ensures
            is_random_id(r.id),
            r.created_at.is_valid(),
            r.created_at.nanos < NANOS_PER_SEC,
            r.document_id == req.document_id,
            r.user_id == req.user_id,
            r.operation_type == req.operation_type,
            r.content_before == req.content_before,
            r.content_after == req.content_after,
            r.change_summary == req.change_summary,
    {
        let id = random_id();
        let created_at = chrono_now();
        PendingOperation::from_request_with(req, id, created_at)
    }
}

/// A client's request to record a change.
#[derive(Clone, Debug, PartialEq, Eq)]
pub struct CreateOperationRequest {
    pub document_id: String,
    pub user_id: String,
    pub operation_type: OperationType,
    pub content_before: Option<String>,
    pub content_after: Option<String>,
    pub change_summary: Option<String>,
}

/// What a client learns of an accepted change.
#[derive(Clone, Copy, Debug, PartialEq, Eq, Structural)]
pub struct CreateOperationResponse {
    pub id: u128,
    pub created_at: Timestamp,
}

/// Page requested by a listing; a field left out takes its default.
#[derive(Clone, Copy, Debug, PartialEq, Eq, Structural)]
pub struct PaginationQuery {
    pub page: i64,
    pub page_size: i64,
}

/// Page number used when a listing names none.
pub fn default_page() -> (r: i64)
    ensures
        r == 1,
{
    1
}

/// Page size used when a listing names none.
pub fn default_page_size() -> (r: i64)
    ensures
        r == 20,
{
    20
}

impl Default for PaginationQuery {
    fn default() -> (r: PaginationQuery)
        ensures
            r.page == 1,
            r.page_size == 20,
    {
        PaginationQuery { page: default_page(), page_size: default_page_size() }
    }
}

/// Number of pages of `page_size` items that hold `total` items (none for no items).
pub open spec fn page_count(total: int, page_size: int) -> int {
    if total == 0 {
        0
    } else {
        div_toward_zero(total + page_size - 1, page_size)
    }
}

/// One page of a listing.
#[derive(Clone, Debug, PartialEq, Eq)]
pub struct PaginatedResponse<T> {
    pub items: Vec<T>,
    pub total: i64,
    pub page: i64,
    pub page_size: i64,
    pub total_pages: i64,
}

impl<T> PaginatedResponse<T> {
    /// A page of `items` out of `total`, with the number of pages of `page_size` items
    /// that the total fills: `(total + page_size - 1) / page_size`, rounded toward zero,
    /// and 0 where `total` is 0.
    pub fn new(items: Vec<T>, total: i64, page: i64, page_size: i64) -> (r: Self)
        requires
            total != 0 ==> {
                &&& page_size != 0
                &&& i64::MIN <= total + page_size <= i64::MAX
                &&& i64::MIN <= total + page_size - 1
                &&& !(total + page_size - 1 == i64::MIN && page_size == -1)
            },
        ensures
            r.items@ == items@,
            r.total == total,
            r.page == page,
            r.page_size == page_size,
            r.total_pages == page_count(total as int, page_size as int),
    {
        let total_pages = if total == 0 {
            0
        } else {
            let spread = total + page_size - 1;
            proof {
                lemma_quotient_fits(spread as int, page_size as int);
            }
            spread / page_size
        };
        PaginatedResponse { items, total, page, page_size, total_pages }
    }
}

/// A quotient rounded toward zero of two `i64` values fits `i64`, save `i64::MIN / -1`.
proof fn lemma_quotient_fits(x: int, d: int)
    requires
        i64::MIN <= x <= i64::MAX,
        i64::MIN <= d <= i64::MAX,
        d != 0,
        !(x == i64::MIN && d == -1),
    ensures
        i64::MIN <= div_toward_zero(x, d) <= i64::MAX,
{
    if x >= 0 {
        if d > 0 {
            assert(0 <= x / d <= x) by (nonlinear_arith)
                requires
                    x >= 0,
                    d > 0,
            ;
        } else {
            assert(-x <= x / d <= 0) by (nonlinear_arith)
                requires
                    x >= 0,
                    d < 0,
            ;
        }
    } else {
        let y = -x;
        if d > 0 {
            assert(0 <= y / d <= y) by (nonlinear_arith)
                requires
                    y > 0,
                    d > 0,
            ;
        } else {
            assert(d <= -1);
            assert(y / d <= 0) by (nonlinear_arith)
                requires
                    y > 0,
                    d < 0,
            ;
            if d == -1 {
                assert(y / d == -y) by (nonlinear_arith)
                    requires
                        d == -1,
                ;
            } else {
                assert(2 * (-(y / d)) <= y) by (nonlinear_arith)
                    requires
                        y > 0,
                        d <= -2,
                ;
            }
        }
    }
}

/// For a count of items and a positive page size, the page count is the least number
/// of full-size pages that hold every item.
pub proof fn lemma_page_count_covers(total: int, page_size: int)
    requires
        total >= 0,
        page_size >= 1,
    ensures
        page_count(total, page_size) >= 0,
        page_count(total, page_size) == 0 <==> total == 0,
        total <= page_count(total, page_size) * page_size,
        total > 0 ==> (page_count(total, page_size) - 1) * page_size < total,
{
    if total > 0 {
        let n = total + page_size - 1;
        let q = n / page_size;
        assert(q * page_size <= n < q * page_size + page_size) by (nonlinear_arith)
            requires
                n >= 0,
                page_size >= 1,
                q == n / page_size,
        ;
        assert(q >= 1) by (nonlinear_arith)
            requires
                q * page_size <= n < q * page_size + page_size,
                n >= page_size,
                page_size >= 1,
        ;
        assert(total <= q * page_size);
        assert((q - 1) * page_size < total) by (nonlinear_arith)
            requires
                q * page_size <= n,
                n == total + page_size - 1,
        ;
    }
}

/// Which changes a replay covers, and whether it carries document contents.
#[derive(Clone, Copy, Debug, PartialEq, Eq, Structural)]
pub struct ReplayQuery {
    pub start_time: Option<Timestamp>,
    pub end_time: Option<Timestamp>,
    pub include_content: bool,
}

/// One step of a replayed history.
#[derive(Clone, Debug, PartialEq, Eq)]
pub struct ReplayOperation {
    pub sequence: i64,
    pub operation_id: u128,
    pub user_id: String,
    pub operation_type: OperationType,
    pub timestamp: Timestamp,
    pub time_delta_ms: i64,
    pub content_before: Option<String>,
    pub content_after: Option<String>,
    pub change_summary: Option<String>,
}

/// The history of a document, oldest change first.
#[derive(Clone, Debug, PartialEq, Eq)]
pub struct ReplayTimeline {
    pub document_id: String,
    pub total_operations: i64,
    pub start_time: Timestamp,
    pub end_time: Timestamp,
    pub total_duration_ms: i64,
    pub operations: Vec<ReplayOperation>,
}

} // verus!
