use vstd::prelude::*;

use crate::models::PendingOperation;
use crate::repository::EnqueueError;

verus! {

/// tokio's bounded `mpsc::Sender`, carried through as an opaque value.
#[verifier::external_type_specification]
#[verifier::external_body]
#[verifier::reject_recursive_types(T)]
pub struct ExSender<T>(tokio::sync::mpsc::Sender<T>);

/// How the write queue answered an offered operation.
#[derive(Clone, Copy, Debug, PartialEq, Eq, Structural)]
pub enum SendOutcome {
    /// The queue took the operation.
    Taken,
    /// The queue was full.
    Full,
    /// The writer had stopped.
    Closed,
}

/// The answer that a hand-off result stands for.
pub open spec fn send_outcome(r: &Result<(), EnqueueError>) -> SendOutcome {
    match r {
        Ok(()) => SendOutcome::Taken,
        Err(EnqueueError::Full(_)) => SendOutcome::Full,
        Err(EnqueueError::Closed(_)) => SendOutcome::Closed,
    }
}

/// Evidence of one offer to the write queue: which operation was offered and how the
/// queue answered. Only `try_send_pending`, which makes the offer, gives one out.
pub struct SendReceipt {
    offered: Ghost<PendingOperation>,
    outcome: Ghost<SendOutcome>,
}

impl SendReceipt {
    /// The operation offered to the queue.
    pub closed spec fn offered(self) -> PendingOperation {
        self.offered@
    }

    /// How the queue answered.
    pub closed spec fn outcome(self) -> SendOutcome {
        self.outcome@
    }
}

/// tokio's `mpsc::Sender::try_send`, offering `pending` to the queue. Whether the queue
/// takes it depends on the other tasks that share the queue, so the contract claims only
/// that this operation is the one offered, that the receipt records the answer, and that
/// a refusal hands the same operation back.
#[verifier::external_body]
pub(crate) fn try_send_pending(
    tx: &tokio::sync::mpsc::Sender<PendingOperation>,
    pending: PendingOperation,
) -> (r: (Result<(), EnqueueError>, SendReceipt))
    ensures
        r.1.offered() == pending,
        r.1.outcome() == send_outcome(&r.0),
        r.0 matches Err(e) ==> e.operation() == pending,
{
    let offered = Ghost(pending);
    match tx.try_send(pending) {
        Ok(()) => (Ok(()), SendReceipt { offered, outcome: Ghost(SendOutcome::Taken) }),
        Err(tokio::sync::mpsc::error::TrySendError::Full(op)) => (
            Err(EnqueueError::Full(op)),
            SendReceipt { offered, outcome: Ghost(SendOutcome::Full) },
        ),
        Err(tokio::sync::mpsc::error::TrySendError::Closed(op)) => (
            Err(EnqueueError::Closed(op)),
            SendReceipt { offered, outcome: Ghost(SendOutcome::Closed) },
        ),
    }
}

} // verus!
