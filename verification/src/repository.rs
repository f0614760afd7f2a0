use vstd::prelude::*;
use vstd::arithmetic::power2::pow2;

use crate::ids::{format_id, id_text, is_random_id, parse_id, random_id, uuid_parse};
use crate::models::{DocumentOperation, OperationType, PendingOperation, ReplayQuery};
use crate::text::{contains, contains_text, copy_optional_text, copy_text};
use crate::queue::{send_outcome, try_send_pending, SendReceipt};
use crate::timestamp::Timestamp;

verus! {

/// Most operations written in one transaction.
pub const DEFAULT_BATCH_SIZE: usize = 100;

/// Milliseconds between two flushes of a partly filled batch.
pub const DEFAULT_FLUSH_INTERVAL_MS: u64 = 200;

/// Operations that may wait in the write queue.
pub const DEFAULT_QUEUE_CAPACITY: usize = 10000;

/// Most tries of one batch write.
pub const DEFAULT_MAX_RETRIES: u32 = 5;

/// Wait before the second try of a batch write; each later wait doubles.
pub const DEFAULT_RETRY_BASE_DELAY_MS: u64 = 50;

/// An operation as a row of the store: ids and kinds as text.
#[derive(Clone, Debug, PartialEq, Eq)]
pub struct StoredOperation {
    pub id: String,
    pub document_id: String,
    pub user_id: String,
    pub operation_type: String,
    pub content_before: Option<String>,
    pub content_after: Option<String>,
    pub change_summary: Option<String>,
    pub created_at: Timestamp,
}

/// `row` is the stored form of `op`: the id in hyphenated text (which reads back to the
/// id), the kind by its name, every other field as it is.
pub open spec fn encodes(op: PendingOperation, row: StoredOperation) -> bool {
    &&& row.id@ == id_text(op.id)
    &&& uuid_parse(row.id@) == Some(op.id)
    &&& row.document_id == op.document_id
    &&& row.user_id == op.user_id
    &&& row.operation_type@ == op.operation_type.text()
    &&& row.content_before == op.content_before
    &&& row.content_after == op.content_after
    &&& row.change_summary == op.change_summary
    &&& row.created_at == op.created_at
}

/// The operation that a row reads as. An id that does not parse is replaced by
/// `fallback_id`, an unknown kind by `Edit`; without `include_content` the contents
/// before and after are left out.
pub open spec fn decode_row(row: StoredOperation, include_content: bool, fallback_id: u128)
    -> DocumentOperation {
    DocumentOperation {
        id: match uuid_parse(row.id@) {
            Some(id) => id,
            None => fallback_id,
        },
        document_id: row.document_id,
        user_id: row.user_id,
        operation_type: match OperationType::parse(row.operation_type@) {
            Some(t) => t,
            None => OperationType::Edit,
        },
        content_before: if include_content {
            row.content_before
        } else {
            None
        },
        content_after: if include_content {
            row.content_after
        } else {
            None
        },
        change_summary: row.change_summary,
        created_at: row.created_at,
    }
}

/// The row under which a pending operation is written.
pub fn encode_operation(op: &PendingOperation) -> (r: StoredOperation)
    ensures
        encodes(*op, r),
{
    let kind = op.operation_type.as_str();
    StoredOperation {
        id: format_id(op.id),
        document_id: copy_text(&op.document_id),
        user_id: copy_text(&op.user_id),
        operation_type: String::from_str(kind),
        content_before: copy_optional_text(&op.content_before),
        content_after: copy_optional_text(&op.content_after),
        change_summary: copy_optional_text(&op.change_summary),
        created_at: op.created_at,
    }
}

/// The operation a row reads as, with `fallback_id` standing in for an id that does not
/// parse.
pub fn decode_operation_with(row: &StoredOperation, include_content: bool, fallback_id: u128) -> (r:
    DocumentOperation)
    ensures
        r == decode_row(*row, include_content, fallback_id),
{
    let operation_type = match OperationType::from_str(row.operation_type.as_str()) {
        Some(t) => t,
        None => OperationType::Edit,
    };
    let id = match parse_id(row.id.as_str()) {
        Some(id) => id,
        None => fallback_id,
    };
    let (content_before, content_after) = if include_content {
        (copy_optional_text(&row.content_before), copy_optional_text(&row.content_after))
    } else {
        (None, None)
    };
    DocumentOperation {
        id,
        document_id: copy_text(&row.document_id),
        user_id: copy_text(&row.user_id),
        operation_type,
        content_before,
        content_after,
        change_summary: copy_optional_text(&row.change_summary),
        created_at: row.created_at,
    }
}

/// The operation a row reads as; an id that does not parse is replaced by a fresh
/// random one.
pub fn decode_operation(row: &StoredOperation, include_content: bool) -> (r: DocumentOperation)
    ensures
        r == decode_row(*row, include_content, r.id),
        uuid_parse(row.id@) is None ==> is_random_id(r.id),
{
    let fallback_id = match parse_id(row.id.as_str()) {
        Some(id) => id,
        None => random_id(),
    };
    decode_operation_with(row, include_content, fallback_id)
}

/// The operations that rows read as, in the same order.
pub fn decode_operations(rows: &Vec<StoredOperation>, include_content: bool) -> (r: Vec<
    DocumentOperation,
>)
    ensures
        r@.len() == rows@.len(),
        forall|i: int|
            0 <= i < rows@.len() ==> #[trigger] r@[i] == decode_row(rows@[i], include_content, r@[i].id),
        forall|i: int|
            0 <= i < rows@.len() && uuid_parse(rows@[i].id@) is None ==> is_random_id(
                #[trigger] r@[i].id,
            ),
{
    let mut out: Vec<DocumentOperation> = Vec::new();
    let n = rows.len();
    for i in 0..n
        invariant
            n == rows@.len(),
            out@.len() == i,
            forall|j: int|
                0 <= j < i ==> #[trigger] out@[j] == decode_row(rows@[j], include_content, out@[j].id),
            forall|j: int|
                0 <= j < i && uuid_parse(rows@[j].id@) is None ==> is_random_id(
                    #[trigger] out@[j].id,
                ),
    {
        let op = decode_operation(&rows[i], include_content);
        out.push(op);
    }
    out
}

/// What encoding writes, decoding reads back: the stored form of a pending operation
/// reads as that operation (without its contents where they are left out).
pub proof fn lemma_stored_round_trip(
    op: PendingOperation,
    row: StoredOperation,
    include_content: bool,
    fallback_id: u128,
)
    requires
        encodes(op, row),
    ensures
        include_content ==> decode_row(row, include_content, fallback_id) == op.as_document(),
        !include_content ==> decode_row(row, include_content, fallback_id) == (DocumentOperation {
            content_before: None,
            content_after: None,
            ..op.as_document()
        }),
{
    crate::models::lemma_operation_type_round_trip(op.operation_type, row.operation_type@);
}

/// LIMIT and OFFSET of a page of a listing.
#[derive(Clone, Copy, Debug, PartialEq, Eq, Structural)]
pub struct PageWindow {
    pub limit: i64,
    pub offset: i64,
}

/// A page size brought into 1..=100.
pub open spec fn clamp_page_size(page_size: int) -> int {
    if page_size < 1 {
        1
    } else if page_size > 100 {
        100
    } else {
        page_size
    }
}

/// The rows that page `page` of `page_size` rows covers: the offset counts whole pages
/// of the size asked for, the limit is that size brought into 1..=100.
pub fn page_window(page: i64, page_size: i64) -> (r: PageWindow)
    requires
        i64::MIN <= page - 1,
        i64::MIN <= (page - 1) * page_size <= i64::MAX,
    ensures
        r.offset == (page - 1) * page_size,
        r.limit == clamp_page_size(page_size as int),
{
    let offset = (page - 1) * page_size;
    let limit = if page_size < 1 {
        1
    } else if page_size > 100 {
        100
    } else {
        page_size
    };
    PageWindow { limit, offset }
}

/// Pages of a size in 1..=100 tile the rows: page `page + 1` starts where page `page`
/// ends, and the first page starts at row 0.
pub proof fn lemma_pages_tile(page: int, page_size: int)
    requires
        page >= 1,
        1 <= page_size <= 100,
    ensures
        (page - 1) * page_size >= 0,
        (1 - 1) * page_size == 0,
        page * page_size == (page - 1) * page_size + clamp_page_size(page_size),
{
    assert((page - 1) * page_size >= 0) by (nonlinear_arith)
        requires
            page >= 1,
            page_size >= 1,
    ;
    assert(page * page_size == (page - 1) * page_size + page_size) by (nonlinear_arith);
}

/// Counts the operations of a document; binds the document id.
pub const LIST_COUNT_SQL: &'static str =
    "SELECT COUNT(*) as count FROM document_operations WHERE document_id = ?";

/// One page of a document's operations, newest first; binds the document id, then the
/// `limit` and the `offset` of a `PageWindow`.
pub const LIST_PAGE_SQL: &'static str = "
            SELECT id, document_id, user_id, operation_type, content_before,
                   content_after, change_summary, created_at
            FROM document_operations
            WHERE document_id = ?
            ORDER BY created_at DESC
            LIMIT ? OFFSET ?
            ";

/// The fixed part of the replay query; filters and ordering follow it.
pub const REPLAY_BASE_SQL: &'static str = "
            SELECT id, document_id, user_id, operation_type, content_before,
                   content_after, change_summary, created_at
            FROM document_operations
            WHERE document_id = ?
        ";

/// The replay query for the filters a request sets: the base query, then
/// ` AND created_at >= ?` for a start and ` AND created_at <= ?` for an end, then the
/// ordering, oldest first.
pub open spec fn replay_sql(has_start: bool, has_end: bool) -> Seq<char> {
    let filters = if has_start && has_end {
        " AND "@ + "created_at >= ?"@ + " AND "@ + "created_at <= ?"@
    } else if has_start {
        " AND "@ + "created_at >= ?"@
    } else if has_end {
        " AND "@ + "created_at <= ?"@
    } else {
        Seq::empty()
    };
    REPLAY_BASE_SQL@ + filters + " ORDER BY created_at ASC"@
}

/// The instants bound after the document id, in the order of their placeholders.
pub open spec fn replay_binds(query: ReplayQuery) -> Seq<Timestamp> {
    let starts = match query.start_time {
        Some(t) => seq![t],
        None => Seq::empty(),
    };
    let ends = match query.end_time {
        Some(t) => seq![t],
        None => Seq::empty(),
    };
    starts + ends
}

/// The replay statement for a request and the instants to bind after the document id.
pub fn replay_statement(query: &ReplayQuery) -> (r: (String, Vec<Timestamp>))
    ensures
        r.0@ == replay_sql(query.start_time is Some, query.end_time is Some),
        r.1@ == replay_binds(*query),
{
    let mut sql = String::from_str(REPLAY_BASE_SQL);
    let mut conditions: Vec<&str> = Vec::new();
    if query.start_time.is_some() {
        conditions.push("created_at >= ?");
    }
    if query.end_time.is_some() {
        conditions.push("created_at <= ?");
    }
    let n = conditions.len();
    for i in 0..n
        invariant
            n == conditions@.len(),
            sql@ == REPLAY_BASE_SQL@ + joined_conditions(conditions@.take(i as int)),
    {
        sql.append(" AND ");
        sql.append(conditions[i]);
        assert(conditions@.take(i + 1).drop_last() =~= conditions@.take(i as int));
    }
    assert(conditions@.take(n as int) =~= conditions@);
    sql.append(" ORDER BY created_at ASC");
    let mut binds: Vec<Timestamp> = Vec::new();
    if let Some(t) = query.start_time {
        binds.push(t);
    }
    if let Some(t) = query.end_time {
        binds.push(t);
    }
    proof {
        reveal_with_fuel(joined_conditions, 3);
        assert(binds@ =~= replay_binds(*query));
        if query.start_time is Some && query.end_time is Some {
            assert(conditions@.drop_last() =~= seq!["created_at >= ?"]);
        }
        assert(sql@ =~= replay_sql(query.start_time is Some, query.end_time is Some));
    }
    (sql, binds)
}

/// Each condition, in order, with ` AND ` before it.
pub open spec fn joined_conditions(conditions: Seq<&str>) -> Seq<char>
    decreases conditions.len(),
{
    if conditions.len() == 0 {
        Seq::empty()
    } else {
        joined_conditions(conditions.drop_last()) + " AND "@ + conditions.last()@
    }
}

/// A database error that reports a locked or busy store, which a later try may clear.
pub open spec fn is_busy_text(message: Seq<char>) -> bool {
    contains_text(message, "database is locked"@) || contains_text(message, "busy"@)
}

/// Whether a database error message reports a locked or busy store.
pub fn is_busy_message(message: &str) -> (r: bool)
    ensures
        r == is_busy_text(message@),
{
    contains(message, "database is locked") || contains(message, "busy")
}

/// Wait before the try after try number `attempt`: the base delay, doubled for each try
/// after the first.
pub open spec fn retry_delay_ms(attempt: int) -> int {
    DEFAULT_RETRY_BASE_DELAY_MS * pow2((attempt - 1) as nat)
}

/// Whether to try a batch write again after try number `attempt` failed, and after how
/// many milliseconds. `database_message` is the message of a database error, `None` for
/// any other error. Only a busy store is retried, and never past the last try.
pub fn retry_after_failure(attempt: u32, database_message: Option<&str>) -> (r: Option<u64>)
    requires
        attempt >= 1,
    ensures
        r == (if attempt >= DEFAULT_MAX_RETRIES {
            None
        } else if database_message matches Some(m) && is_busy_text(m@) {
            Some(retry_delay_ms(attempt as int) as u64)
        } else {
            None
        }),
{
    if attempt >= DEFAULT_MAX_RETRIES {
        return None;
    }
    let busy = match database_message {
        Some(m) => is_busy_message(m),
        None => false,
    };
    if !busy {
        return None;
    }
    let mut delay: u64 = DEFAULT_RETRY_BASE_DELAY_MS;
    let mut k: u32 = 1;
    proof {
        vstd::arithmetic::power2::lemma2_to64();
    }
    while k < attempt
        invariant
            1 <= k <= attempt,
            attempt < DEFAULT_MAX_RETRIES,
            delay == DEFAULT_RETRY_BASE_DELAY_MS * pow2((k - 1) as nat),
        decreases attempt - k,
    {
        proof {
            vstd::arithmetic::power2::lemma2_to64();
            vstd::arithmetic::power2::lemma_pow2_unfold(k as nat);
        }
        delay = delay * 2;
        k = k + 1;
    }
    Some(delay)
}

/// The retry schedule: a busy store is tried at most `DEFAULT_MAX_RETRIES` times, and the
/// waits between tries are 50, 100, 200 and 400 milliseconds, 750 in all.
pub proof fn lemma_retry_schedule()
    ensures
        retry_delay_ms(1) == 50,
        retry_delay_ms(2) == 100,
        retry_delay_ms(3) == 200,
        retry_delay_ms(4) == 400,
        retry_delay_ms(1) + retry_delay_ms(2) + retry_delay_ms(3) + retry_delay_ms(4) == 750,
        forall|attempt: int|
            1 <= attempt < DEFAULT_MAX_RETRIES ==> #[trigger] retry_delay_ms(attempt + 1) == 2
                * retry_delay_ms(attempt),
{
    vstd::arithmetic::power2::lemma2_to64();
    assert forall|attempt: int| 1 <= attempt < DEFAULT_MAX_RETRIES implies #[trigger] retry_delay_ms(
        attempt + 1,
    ) == 2 * retry_delay_ms(attempt) by {
        vstd::arithmetic::power2::lemma_pow2_unfold(attempt as nat);
    }
}

/// Milliseconds waited in all before try number `attempt` of one batch write.
pub open spec fn waited_before(attempt: int) -> int {
    DEFAULT_RETRY_BASE_DELAY_MS * (pow2((attempt - 1) as nat) - 1)
}

/// The tries of one batch write so far and the time waited between them.
pub struct WriteRetry {
    tries: u32,
    waited_ms: u64,
}

impl WriteRetry {
    /// At least one and at most `DEFAULT_MAX_RETRIES` tries, with every wait the policy
    /// asks for taken between them; every retry state keeps this.
    #[verifier::type_invariant]
    pub closed spec fn wf(self) -> bool {
        &&& 1 <= self.tries <= DEFAULT_MAX_RETRIES
        &&& self.waited_ms == waited_before(self.tries as int)
    }

    /// Number of the try being made (or just made).
    pub closed spec fn tries_made(self) -> int {
        self.tries as int
    }

    /// Milliseconds waited between the tries so far.
    pub closed spec fn total_wait_ms(self) -> int {
        self.waited_ms as int
    }

    /// The state of a write about to be tried for the first time.
    pub fn first_try() -> (r: WriteRetry)
        ensures
            r.tries_made() == 1,
            r.total_wait_ms() == 0,
            r.wf(),
    {
        proof {
            vstd::arithmetic::power2::lemma2_to64();
        }
        WriteRetry { tries: 1, waited_ms: 0 }
    }

    /// Number of the try being made (or just made).
    pub fn tries(&self) -> (r: u32)
        ensures
            r == self.tries_made(),
    {
        self.tries
    }

    /// After the current try failed: whether to try again and after how many milliseconds,
    /// as `retry_after_failure` decides; on a retry the try count and the time waited
    /// grow accordingly, otherwise nothing changes.
    pub fn after_failure(&mut self, database_message: Option<&str>) -> (r: Option<u64>)
        ensures
            r == (if old(self).tries_made() >= DEFAULT_MAX_RETRIES {
                None
            } else if database_message matches Some(m) && is_busy_text(m@) {
                Some(retry_delay_ms(old(self).tries_made()) as u64)
            } else {
                None
            }),
            r matches Some(delay) ==> final(self).tries_made() == old(self).tries_made() + 1
                && final(self).total_wait_ms() == old(self).total_wait_ms() + delay,
            r is None ==> final(self).tries_made() == old(self).tries_made()
                && final(self).total_wait_ms() == old(self).total_wait_ms(),
            final(self).wf(),
    {
        proof {
            use_type_invariant(&*self);
            vstd::arithmetic::power2::lemma2_to64();
        }
        let decision = retry_after_failure(self.tries, database_message);
        match decision {
            Some(delay) => {
                proof {
                    vstd::arithmetic::power2::lemma_pow2_unfold(self.tries as nat);
                    assert(waited_before(self.tries + 1) == self.waited_ms + delay);
                }
                *self = WriteRetry { tries: self.tries + 1, waited_ms: self.waited_ms + delay };
                Some(delay)
            },
            None => None,
        }
    }
}

/// Every run of retries makes at most `DEFAULT_MAX_RETRIES` tries of a batch write and
/// waits at most 750 milliseconds in all between them.
pub proof fn lemma_retry_run_bounded(retry: WriteRetry)
    requires
        retry.wf(),
    ensures
        1 <= retry.tries_made() <= DEFAULT_MAX_RETRIES,
        0 <= retry.total_wait_ms() <= 750,
{
    vstd::arithmetic::power2::lemma2_to64();
}

/// Why the write queue refused an operation; the operation comes back with the refusal.
#[derive(Debug)]
pub enum EnqueueError {
    /// The queue holds as many operations as it can.
    Full(PendingOperation),
    /// The writer has stopped taking operations.
    Closed(PendingOperation),
}

impl EnqueueError {
    /// The operation that was refused.
    pub open spec fn operation(self) -> PendingOperation {
        match self {
            EnqueueError::Full(op) => op,
            EnqueueError::Closed(op) => op,
        }
    }
}

/// Hands a pending operation to the batch writer without waiting. The receipt records
/// that this very operation was offered to the queue and how the queue answered; a refusal
/// (queue full, or writer stopped) hands the same operation back.
pub fn enqueue_operation(
    tx: &tokio::sync::mpsc::Sender<PendingOperation>,
    pending: PendingOperation,
) -> (r: (Result<(), EnqueueError>, SendReceipt))
    ensures
        r.1.offered() == pending,
        r.1.outcome() == send_outcome(&r.0),
        r.0 matches Err(e) ==> e.operation() == pending,
{
    try_send_pending(tx, pending)
}

} // verus!
