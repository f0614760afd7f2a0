use vstd::prelude::*;

use crate::models::{
    page_count, CreateOperationResponse, DocumentOperation,
    PaginatedResponse, PaginationQuery, PendingOperation, ReplayOperation, ReplayTimeline,
};
use crate::queue::{send_outcome, SendOutcome, SendReceipt};
use crate::repository::{enqueue_operation, EnqueueError};
use crate::text::{copy_optional_text, copy_text};
use crate::div_toward_zero;
use crate::timestamp::{
    chrono_millis_between, millis_between, nanos_between, Timestamp, MAX_TIMESTAMP_SECS,
    MIN_TIMESTAMP_SECS, NANOS_PER_MILLI, NANOS_PER_SEC,
};

verus! {

pub const STATUS_NOT_FOUND: u16 = 404;

pub const STATUS_INTERNAL_SERVER_ERROR: u16 = 500;

pub const STATUS_SERVICE_UNAVAILABLE: u16 = 503;

pub const STATUS_GATEWAY_TIMEOUT: u16 = 504;

/// Seconds a listing may take before the request is answered with a timeout.
pub const LIST_TIMEOUT_SECS: u64 = 5;

/// Seconds a replay may take before the request is answered with a timeout.
pub const REPLAY_TIMEOUT_SECS: u64 = 10;

/// Largest page a listing returns.
pub const MAX_PAGE_SIZE: i64 = 100;

/// How a query against the store ended.
pub enum QueryOutcome<T> {
    /// It returned a result.
    Completed(T),
    /// It failed.
    Failed,
    /// It did not finish in time.
    TimedOut,
}

/// The status a query that did not complete is answered with.
pub open spec fn unfinished_status<T>(outcome: QueryOutcome<T>) -> u16 {
    match outcome {
        QueryOutcome::TimedOut => STATUS_GATEWAY_TIMEOUT,
        _ => STATUS_INTERNAL_SERVER_ERROR,
    }
}

/// The answer to a request to record a change for each answer of the write queue: the
/// response when it took the change, 503 when it was full, 500 when the writer stopped.
pub open spec fn create_answer(response: CreateOperationResponse, outcome: SendOutcome) -> Result<
    CreateOperationResponse,
    u16,
> {
    match outcome {
        SendOutcome::Taken => Ok(response),
        SendOutcome::Full => Err(STATUS_SERVICE_UNAVAILABLE),
        SendOutcome::Closed => Err(STATUS_INTERNAL_SERVER_ERROR),
    }
}

/// The answer to a request to record a change, once the write queue has taken or refused
/// it: the response on success, 503 when the queue is full, 500 when the writer stopped.
pub fn create_operation_outcome(
    response: CreateOperationResponse,
    enqueued: Result<(), EnqueueError>,
) -> (r: Result<CreateOperationResponse, u16>)
    ensures
        match enqueued {
            Ok(()) => r == Ok::<CreateOperationResponse, u16>(response),
            Err(EnqueueError::Full(_)) => r == Err::<CreateOperationResponse, u16>(
                STATUS_SERVICE_UNAVAILABLE,
            ),
            Err(EnqueueError::Closed(_)) => r == Err::<CreateOperationResponse, u16>(
                STATUS_INTERNAL_SERVER_ERROR,
            ),
        },
        r == create_answer(response, send_outcome(&enqueued)),
{
    match enqueued {
        Ok(()) => Ok(response),
        Err(EnqueueError::Full(_)) => Err(STATUS_SERVICE_UNAVAILABLE),
        Err(EnqueueError::Closed(_)) => Err(STATUS_INTERNAL_SERVER_ERROR),
    }
}

/// The response that tells a client under which id and instant its change is recorded.
pub open spec fn response_for(pending: PendingOperation) -> CreateOperationResponse {
    CreateOperationResponse { id: pending.id, created_at: pending.created_at }
}

/// Records a change that `PendingOperation::from_request` prepared: offers that very change
/// to the write queue without waiting, and answers as the queue's answer (recorded in the
/// receipt) calls for: its id and creation instant, or 503 (queue full) or 500 (writer
/// stopped).
pub fn submit_operation(
    tx: &tokio::sync::mpsc::Sender<PendingOperation>,
    pending: PendingOperation,
) -> (r: (Result<CreateOperationResponse, u16>, SendReceipt))
    ensures
        r.1.offered() == pending,
        r.0 == create_answer(response_for(pending), r.1.outcome()),
        r.0 matches Ok(response) ==> response.id == pending.id && response.created_at
            == pending.created_at,
        r.0 matches Err(code) ==> code == STATUS_SERVICE_UNAVAILABLE || code
            == STATUS_INTERNAL_SERVER_ERROR,
{
    let response = CreateOperationResponse { id: pending.id, created_at: pending.created_at };
    let (enqueued, receipt) = enqueue_operation(tx, pending);
    (create_operation_outcome(response, enqueued), receipt)
}

/// The page a listing asks for, at least 1.
pub open spec fn requested_page(query: PaginationQuery) -> i64 {
    if query.page < 1 {
        1
    } else {
        query.page
    }
}

/// The page size a listing asks for, brought into 1..=100.
pub open spec fn requested_page_size(query: PaginationQuery) -> i64 {
    if query.page_size < 1 {
        1
    } else if query.page_size > MAX_PAGE_SIZE {
        MAX_PAGE_SIZE
    } else {
        query.page_size
    }
}

/// Page and page size of a listing: the page at least 1, the size in 1..=100.
pub fn list_page(query: PaginationQuery) -> (r: (i64, i64))
    ensures
        r.0 == requested_page(query),
        r.1 == requested_page_size(query),
        r.0 >= 1,
        1 <= r.1 <= MAX_PAGE_SIZE,
        query.page >= 1 ==> r.0 == query.page,
        query.page < 1 ==> r.0 == 1,
        1 <= query.page_size <= MAX_PAGE_SIZE ==> r.1 == query.page_size,
        query.page_size < 1 ==> r.1 == 1,
        query.page_size > MAX_PAGE_SIZE ==> r.1 == MAX_PAGE_SIZE,
{
    let page = if query.page < 1 {
        1
    } else {
        query.page
    };
    let page_size = if query.page_size < 1 {
        1
    } else if query.page_size > MAX_PAGE_SIZE {
        MAX_PAGE_SIZE
    } else {
        query.page_size
    };
    (page, page_size)
}

/// A page and a page size already in range are kept as asked; a page below 1 becomes 1,
/// a size below 1 becomes 1 and a size above 100 becomes 100.
pub proof fn lemma_list_page_keeps_valid_requests(query: PaginationQuery)
    ensures
        query.page >= 1 ==> requested_page(query) == query.page,
        query.page < 1 ==> requested_page(query) == 1,
        1 <= query.page_size <= 100 ==> requested_page_size(query) == query.page_size,
        query.page_size < 1 ==> requested_page_size(query) == 1,
        query.page_size > 100 ==> requested_page_size(query) == 100,
{
}

/// Normalizing a listing's page twice changes nothing more.
pub proof fn lemma_list_page_idempotent(query: PaginationQuery)
    ensures
        requested_page(PaginationQuery { page: requested_page(query), page_size: requested_page_size(query) })
            == requested_page(query),
        requested_page_size(PaginationQuery { page: requested_page(query), page_size: requested_page_size(query) })
            == requested_page_size(query),
{
}

/// The answer to a listing: the page of operations with the total and the page count,
/// or 500 when the query failed and 504 when it timed out.
pub fn list_operations_outcome<T>(
    outcome: QueryOutcome<(Vec<T>, i64)>,
    page: i64,
    page_size: i64,
) -> (r: Result<PaginatedResponse<T>, u16>)
    requires
        1 <= page_size <= MAX_PAGE_SIZE,
        outcome matches QueryOutcome::Completed((_, total)) ==> total <= i64::MAX - page_size,
    ensures
        match outcome {
            QueryOutcome::Completed((items, total)) => r matches Ok(response) && response.items@
                == items@ && response.total == total && response.page == page && response.page_size
                == page_size && response.total_pages == page_count(total as int, page_size as int),
            _ => r == Err::<PaginatedResponse<T>, u16>(unfinished_status(outcome)),
        },
{
    match outcome {
        QueryOutcome::Completed((items, total)) => Ok(
            PaginatedResponse::new(items, total, page, page_size),
        ),
        QueryOutcome::Failed => Err(STATUS_INTERNAL_SERVER_ERROR),
        QueryOutcome::TimedOut => Err(STATUS_GATEWAY_TIMEOUT),
    }
}

/// Every operation carries a valid creation instant.
pub open spec fn all_instants_valid(ops: Seq<DocumentOperation>) -> bool {
    forall|i: int| 0 <= i < ops.len() ==> (#[trigger] ops[i]).created_at.is_valid()
}

/// Step `i` of the replay of `ops`: numbered from 1, with the milliseconds since the
/// step before it (0 for the first).
pub open spec fn replay_entry(ops: Seq<DocumentOperation>, i: int) -> ReplayOperation {
    ReplayOperation {
        sequence: (i + 1) as i64,
        operation_id: ops[i].id,
        user_id: ops[i].user_id,
        operation_type: ops[i].operation_type,
        timestamp: ops[i].created_at,
        time_delta_ms: if i == 0 {
            0
        } else {
            millis_between(ops[i].created_at, ops[i - 1].created_at) as i64
        },
        content_before: ops[i].content_before,
        content_after: ops[i].content_after,
        change_summary: ops[i].change_summary,
    }
}

/// Each gap of a replay of valid instants is the exact span in milliseconds from the step
/// before: the `i64` it is held in loses nothing.
pub proof fn lemma_replay_gap_exact(ops: Seq<DocumentOperation>, i: int)
    requires
        all_instants_valid(ops),
        1 <= i < ops.len(),
    ensures
        replay_entry(ops, i).time_delta_ms == millis_between(ops[i].created_at, ops[i - 1].created_at),
{
    assert(ops[i].created_at.is_valid());
    assert(ops[i - 1].created_at.is_valid());
    crate::timestamp::lemma_millis_between_fits(ops[i].created_at, ops[i - 1].created_at);
}

/// `step` is step `i` of a replay of `ops`: numbered `i + 1`, carrying the id, author,
/// kind, instant, contents and summary of operation `i`, and the exact milliseconds since
/// operation `i - 1` (0 for the first).
pub open spec fn step_replays(step: ReplayOperation, ops: Seq<DocumentOperation>, i: int) -> bool {
    &&& step.sequence == i + 1
    &&& step.operation_id == ops[i].id
    &&& step.user_id == ops[i].user_id
    &&& step.operation_type == ops[i].operation_type
    &&& step.timestamp == ops[i].created_at
    &&& step.content_before == ops[i].content_before
    &&& step.content_after == ops[i].content_after
    &&& step.change_summary == ops[i].change_summary
    &&& i == 0 ==> step.time_delta_ms == 0
    &&& i > 0 ==> step.time_delta_ms == millis_between(ops[i].created_at, ops[i - 1].created_at)
}

/// Every step built for a replay carries the fields of the operation it replays.
pub proof fn lemma_replay_entry_replays(ops: Seq<DocumentOperation>, i: int)
    requires
        all_instants_valid(ops),
        0 <= i < ops.len(),
        ops.len() < i64::MAX,
    ensures
        step_replays(replay_entry(ops, i), ops, i),
{
    if i > 0 {
        lemma_replay_gap_exact(ops, i);
    }
}

/// In every replay of valid instants, step `i` carries the kind, id, author, instant,
/// contents and summary of operation `i`, its number is `i + 1`, and its gap is the exact
/// span from the operation before.
pub proof fn lemma_replay_steps(timeline: ReplayTimeline, document_id: String, ops: Seq<
    DocumentOperation,
>)
    requires
        replays(timeline, document_id, ops),
        all_instants_valid(ops),
        ops.len() < i64::MAX,
    ensures
        forall|i: int|
            #![trigger timeline.operations@[i]]
            0 <= i < ops.len() ==> {
                &&& timeline.operations@[i].sequence == i + 1
                &&& timeline.operations@[i].operation_id == ops[i].id
                &&& timeline.operations@[i].user_id == ops[i].user_id
                &&& timeline.operations@[i].operation_type == ops[i].operation_type
                &&& timeline.operations@[i].timestamp == ops[i].created_at
                &&& timeline.operations@[i].content_before == ops[i].content_before
                &&& timeline.operations@[i].content_after == ops[i].content_after
                &&& timeline.operations@[i].change_summary == ops[i].change_summary
                &&& i == 0 ==> timeline.operations@[i].time_delta_ms == 0
                &&& i > 0 ==> timeline.operations@[i].time_delta_ms == millis_between(
                    ops[i].created_at,
                    ops[i - 1].created_at,
                )
            },
{
    assert forall|i: int| 0 <= i < ops.len() implies step_replays(
        #[trigger] timeline.operations@[i],
        ops,
        i,
    ) by {
        lemma_replay_entry_replays(ops, i);
    }
}

/// `timeline` replays `ops` of the document `document_id`.
pub open spec fn replays(timeline: ReplayTimeline, document_id: String, ops: Seq<DocumentOperation>) -> bool {
    &&& ops.len() > 0
    &&& timeline.document_id == document_id
    &&& timeline.total_operations == ops.len()
    &&& timeline.start_time == ops[0].created_at
    &&& timeline.end_time == ops.last().created_at
    &&& timeline.total_duration_ms == millis_between(ops.last().created_at, ops[0].created_at)
    &&& timeline.operations@.len() == ops.len()
    &&& forall|i: int| 0 <= i < ops.len() ==> #[trigger] timeline.operations@[i] == replay_entry(ops, i)
}

/// The replay of a document's operations (oldest first): `None` when there are none.
pub fn build_timeline(document_id: String, operations: &Vec<DocumentOperation>) -> (r: Option<
    ReplayTimeline,
>)
    requires
        operations@.len() < i64::MAX,
        all_instants_valid(operations@),
    ensures
        r is None <==> operations@.len() == 0,
        r matches Some(timeline) ==> replays(timeline, document_id, operations@),
        r matches Some(timeline) ==> timeline.operations@.len() == operations@.len() && forall|i: int|
            #![trigger timeline.operations@[i]]
            0 <= i < operations@.len() ==> {
                &&& timeline.operations@[i].sequence == i + 1
                &&& timeline.operations@[i].operation_id == operations@[i].id
                &&& timeline.operations@[i].user_id == operations@[i].user_id
                &&& timeline.operations@[i].operation_type == operations@[i].operation_type
                &&& timeline.operations@[i].timestamp == operations@[i].created_at
                &&& timeline.operations@[i].content_before == operations@[i].content_before
                &&& timeline.operations@[i].content_after == operations@[i].content_after
                &&& timeline.operations@[i].change_summary == operations@[i].change_summary
                &&& i == 0 ==> timeline.operations@[i].time_delta_ms == 0
                &&& i > 0 ==> timeline.operations@[i].time_delta_ms == millis_between(
                    operations@[i].created_at,
                    operations@[i - 1].created_at,
                )
            },
{
    let n = operations.len();
    if n == 0 {
        return None;
    }
    let ghost ops = operations@;
    let start_time = operations[0].created_at;
    let end_time = operations[n - 1].created_at;
    let total_duration_ms = chrono_millis_between(end_time, start_time);
    let mut steps: Vec<ReplayOperation> = Vec::new();
    for i in 0..n
        invariant
            n == ops.len(),
            ops == operations@,
            n < i64::MAX,
            all_instants_valid(ops),
            steps@.len() == i,
            forall|j: int| 0 <= j < i ==> #[trigger] steps@[j] == replay_entry(ops, j),
    {
        let op = &operations[i];
        let time_delta_ms = if i == 0 {
            0
        } else {
            chrono_millis_between(op.created_at, operations[i - 1].created_at)
        };
        let step = ReplayOperation {
            sequence: (i + 1) as i64,
            operation_id: op.id,
            user_id: copy_text(&op.user_id),
            operation_type: op.operation_type,
            timestamp: op.created_at,
            time_delta_ms,
            content_before: copy_optional_text(&op.content_before),
            content_after: copy_optional_text(&op.content_after),
            change_summary: copy_optional_text(&op.change_summary),
        };
        steps.push(step);
    }
    proof {
        assert forall|i: int| 0 <= i < n implies step_replays(#[trigger] steps@[i], ops, i) by {
            lemma_replay_entry_replays(ops, i);
        }
    }
    Some(
        ReplayTimeline {
            document_id,
            total_operations: n as i64,
            start_time,
            end_time,
            total_duration_ms,
            operations: steps,
        },
    )
}

/// The answer to a replay: the timeline, 404 when the document has no operations in the
/// range, 500 when the query failed and 504 when it timed out.
pub fn replay_operations_outcome(
    document_id: String,
    outcome: QueryOutcome<Vec<DocumentOperation>>,
) -> (r: Result<ReplayTimeline, u16>)
    requires
        outcome matches QueryOutcome::Completed(ops) ==> ops@.len() < i64::MAX && all_instants_valid(
            ops@,
        ),
    ensures
        match outcome {
            QueryOutcome::Completed(ops) => if ops@.len() == 0 {
                r == Err::<ReplayTimeline, u16>(STATUS_NOT_FOUND)
            } else {
                r matches Ok(timeline) && replays(timeline, document_id, ops@)
            },
            _ => r == Err::<ReplayTimeline, u16>(unfinished_status(outcome)),
        },
{
    match outcome {
        QueryOutcome::Completed(ops) => match build_timeline(document_id, &ops) {
            Some(timeline) => Ok(timeline),
            None => Err(STATUS_NOT_FOUND),
        },
        QueryOutcome::Failed => Err(STATUS_INTERNAL_SERVER_ERROR),
        QueryOutcome::TimedOut => Err(STATUS_GATEWAY_TIMEOUT),
    }
}

/// The gaps of the steps of a replay, added up.
pub open spec fn sum_gaps(steps: Seq<ReplayOperation>) -> int
    decreases steps.len(),
{
    if steps.len() == 0 {
        0
    } else {
        sum_gaps(steps.drop_last()) + steps.last().time_delta_ms
    }
}

/// A non-leap instant on a whole millisecond.
pub open spec fn on_whole_millisecond(t: Timestamp) -> bool {
    t.nanos < NANOS_PER_SEC && t.nanos % NANOS_PER_MILLI == 0
}

/// Milliseconds since the epoch of an instant on a whole millisecond.
pub open spec fn epoch_millis(t: Timestamp) -> int {
    t.secs * 1000 + (t.nanos / NANOS_PER_MILLI) as int
}

proof fn lemma_whole_millis_between(later: Timestamp, earlier: Timestamp)
    requires
        later.is_valid(),
        earlier.is_valid(),
        on_whole_millisecond(later),
        on_whole_millisecond(earlier),
    ensures
        millis_between(later, earlier) == epoch_millis(later) - epoch_millis(earlier),
        i64::MIN <= epoch_millis(later) - epoch_millis(earlier) <= i64::MAX,
{
    let k = epoch_millis(later) - epoch_millis(earlier);
    let ln = later.nanos as int;
    let en = earlier.nanos as int;
    assert(ln == (ln / 1_000_000) * 1_000_000) by (nonlinear_arith)
        requires
            ln % 1_000_000 == 0,
            ln >= 0,
    ;
    assert(en == (en / 1_000_000) * 1_000_000) by (nonlinear_arith)
        requires
            en % 1_000_000 == 0,
            en >= 0,
    ;
    assert(nanos_between(later, earlier) == (later.secs - earlier.secs) * 1_000_000_000 + ln - en);
    assert(nanos_between(later, earlier) == k * 1_000_000) by (nonlinear_arith)
        requires
            nanos_between(later, earlier) == (later.secs - earlier.secs) * 1_000_000_000 + ln - en,
            ln == (ln / 1_000_000) * 1_000_000,
            en == (en / 1_000_000) * 1_000_000,
            k == (later.secs * 1000 + ln / 1_000_000) - (earlier.secs * 1000 + en / 1_000_000),
    ;
    if k >= 0 {
        assert((k * 1_000_000) / 1_000_000 == k) by (nonlinear_arith);
    } else {
        assert(((-k) * 1_000_000) / 1_000_000 == -k) by (nonlinear_arith);
        assert(-(k * 1_000_000) == (-k) * 1_000_000) by (nonlinear_arith);
    }
    assert(div_toward_zero(k * 1_000_000, 1_000_000) == k);
    assert(0 <= ln / 1_000_000 < 1000) by (nonlinear_arith)
        requires
            0 <= ln < 1_000_000_000,
    ;
    assert(0 <= en / 1_000_000 < 1000) by (nonlinear_arith)
        requires
            0 <= en < 1_000_000_000,
    ;
    assert(MIN_TIMESTAMP_SECS <= later.secs <= MAX_TIMESTAMP_SECS);
    assert(MIN_TIMESTAMP_SECS <= earlier.secs <= MAX_TIMESTAMP_SECS);
}

proof fn lemma_gaps_prefix(steps: Seq<ReplayOperation>, ops: Seq<DocumentOperation>, k: int)
    requires
        steps.len() == ops.len(),
        forall|i: int| 0 <= i < ops.len() ==> #[trigger] steps[i] == replay_entry(ops, i),
        1 <= k <= ops.len(),
        all_instants_valid(ops),
        forall|i: int| 0 <= i < ops.len() ==> on_whole_millisecond(#[trigger] ops[i].created_at),
    ensures
        sum_gaps(steps.take(k)) == epoch_millis(ops[k - 1].created_at) - epoch_millis(
            ops[0].created_at,
        ),
    decreases k,
{
    assert(steps.take(k).drop_last() =~= steps.take(k - 1));
    assert(steps.take(k).last() == steps[k - 1]);
    if k == 1 {
        assert(steps.take(0) =~= Seq::<ReplayOperation>::empty());
        assert(sum_gaps(steps.take(0)) == 0);
        assert(steps[0] == replay_entry(ops, 0));
        assert(steps[0].time_delta_ms == 0);
    } else {
        lemma_gaps_prefix(steps, ops, k - 1);
        assert(steps[k - 1] == replay_entry(ops, k - 1));
        assert(ops[k - 1].created_at.is_valid());
        assert(ops[k - 2].created_at.is_valid());
        assert(on_whole_millisecond(ops[k - 1].created_at));
        assert(on_whole_millisecond(ops[k - 2].created_at));
        lemma_whole_millis_between(ops[k - 1].created_at, ops[k - 2].created_at);
        assert(steps[k - 1].time_delta_ms == epoch_millis(ops[k - 1].created_at) - epoch_millis(
            ops[k - 2].created_at,
        ));
    }
}

/// Where every instant is a non-leap whole millisecond, the gaps of a replay add up to
/// its total duration. (Gaps drop sub-millisecond parts one by one, so with finer instants
/// the sum may differ from the duration.)
pub proof fn lemma_gaps_add_up(timeline: ReplayTimeline, document_id: String, ops: Seq<
    DocumentOperation,
>)
    requires
        replays(timeline, document_id, ops),
        all_instants_valid(ops),
        forall|i: int| 0 <= i < ops.len() ==> on_whole_millisecond(#[trigger] ops[i].created_at),
    ensures
        sum_gaps(timeline.operations@) == timeline.total_duration_ms,
{
    let steps = timeline.operations@;
    let n = ops.len();
    lemma_gaps_prefix(steps, ops, n as int);
    assert(steps.take(n as int) =~= steps);
    assert(ops[0].created_at.is_valid() && ops[n - 1].created_at.is_valid());
    assert(on_whole_millisecond(ops[0].created_at) && on_whole_millisecond(ops[n - 1].created_at));
    lemma_whole_millis_between(ops[n - 1].created_at, ops[0].created_at);
}

} // verus!
