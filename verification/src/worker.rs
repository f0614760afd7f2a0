use vstd::prelude::*;

use crate::repository::DEFAULT_BATCH_SIZE;

verus! {

/// What the batch writer is woken by.
pub enum WorkerEvent<T> {
    /// An operation arrived from the queue.
    Received(T),
    /// Every sender is gone: no operation will arrive again.
    Closed,
    /// The flush interval elapsed.
    Tick,
}

/// What the batch writer does next.
pub enum WorkerAction<T> {
    /// Nothing: keep waiting.
    Wait,
    /// Write these operations (and drop them if the write fails for good).
    Flush(Vec<T>),
    /// Write these operations, which may be none, then stop.
    FlushAndStop(Vec<T>),
}

impl<T> WorkerAction<T> {
    /// The operations handed out for writing.
    pub open spec fn flushed(&self) -> Seq<T> {
        match self {
            WorkerAction::Wait => Seq::empty(),
            WorkerAction::Flush(batch) => batch@,
            WorkerAction::FlushAndStop(batch) => batch@,
        }
    }
}

/// The operations an event brings.
pub open spec fn received<T>(event: WorkerEvent<T>) -> Seq<T> {
    match event {
        WorkerEvent::Received(op) => seq![op],
        _ => Seq::empty(),
    }
}

/// The operations written on an event, given those that waited before it: a batch that
/// reaches `DEFAULT_BATCH_SIZE`, everything when the queue closes, and everything on a
/// tick.
pub open spec fn flushed_by<T>(batch: Seq<T>, event: WorkerEvent<T>) -> Seq<T> {
    match event {
        WorkerEvent::Received(op) => if batch.len() + 1 >= DEFAULT_BATCH_SIZE {
            batch.push(op)
        } else {
            Seq::empty()
        },
        WorkerEvent::Closed => batch,
        WorkerEvent::Tick => batch,
    }
}

/// The operations still waiting after an event.
pub open spec fn pending_after<T>(batch: Seq<T>, event: WorkerEvent<T>) -> Seq<T> {
    match event {
        WorkerEvent::Received(op) => if batch.len() + 1 >= DEFAULT_BATCH_SIZE {
            Seq::empty()
        } else {
            batch.push(op)
        },
        WorkerEvent::Closed => Seq::empty(),
        WorkerEvent::Tick => Seq::empty(),
    }
}

/// The batching state of the writer that drains the operation queue.
pub struct BatchWorker<T> {
    batch: Vec<T>,
}

impl<T> BatchWorker<T> {
    /// Fewer than `DEFAULT_BATCH_SIZE` operations wait; every writer keeps this.
    #[verifier::type_invariant]
    pub closed spec fn wf(self) -> bool {
        self.batch@.len() < DEFAULT_BATCH_SIZE
    }

    /// The operations received and not yet handed out, oldest first.
    pub closed spec fn pending(self) -> Seq<T> {
        self.batch@
    }

    /// A writer with nothing waiting.
    pub fn new() -> (r: Self)
        ensures
            r.pending() == Seq::<T>::empty(),
            r.wf(),
    {
        BatchWorker { batch: Vec::new() }
    }

    /// Takes one event and says what to do: write a batch once it reaches
    /// `DEFAULT_BATCH_SIZE`, write what waits on a tick (if anything does), and write what
    /// waits and stop once the queue closes.
    pub fn step(&mut self, event: WorkerEvent<T>) -> (action: WorkerAction<T>)
        ensures
            final(self).pending() == pending_after(old(self).pending(), event),
            final(self).pending().len() < DEFAULT_BATCH_SIZE,
            final(self).wf(),
            action.flushed() == flushed_by(old(self).pending(), event),
            action is FlushAndStop <==> event is Closed,
            action is Wait <==> (!(event is Closed) && flushed_by(old(self).pending(), event).len()
                == 0),
            event is Tick ==> action.flushed() == old(self).pending() && final(self).pending()
                == Seq::<T>::empty(),
            event is Tick && old(self).pending().len() > 0 ==> action is Flush,
            event is Closed ==> action.flushed() == old(self).pending() && final(self).pending()
                == Seq::<T>::empty(),
            event matches WorkerEvent::Received(op) ==> if old(self).pending().len() + 1
                >= DEFAULT_BATCH_SIZE {
                action.flushed() == old(self).pending().push(op) && final(self).pending()
                    == Seq::<T>::empty()
            } else {
                action is Wait && final(self).pending() == old(self).pending().push(op)
            },
    {
        proof {
            use_type_invariant(&*self);
        }
        match event {
            WorkerEvent::Received(op) => {
                let mut batch: Vec<T> = Vec::new();
                std::mem::swap(&mut batch, &mut self.batch);
                batch.push(op);
                if batch.len() >= DEFAULT_BATCH_SIZE {
                    WorkerAction::Flush(batch)
                } else {
                    self.batch = batch;
                    WorkerAction::Wait
                }
            },
            WorkerEvent::Closed => {
                let mut batch: Vec<T> = Vec::new();
                std::mem::swap(&mut batch, &mut self.batch);
                WorkerAction::FlushAndStop(batch)
            },
            WorkerEvent::Tick => {
                if self.batch.len() > 0 {
                    let mut batch: Vec<T> = Vec::new();
                    std::mem::swap(&mut batch, &mut self.batch);
                    WorkerAction::Flush(batch)
                } else {
                    WorkerAction::Wait
                }
            },
        }
    }
}

/// A well-formed writer (every writer that `new` and `step` give) has fewer than
/// `DEFAULT_BATCH_SIZE` operations waiting.
pub proof fn lemma_pending_bounded<T>(worker: BatchWorker<T>)
    requires
        worker.wf(),
    ensures
        worker.pending().len() < DEFAULT_BATCH_SIZE,
{
}

/// What each event does to the waiting operations: a tick hands out every waiting
/// operation; closing hands out every waiting operation; an arrival waits unless it fills
/// the batch, in which case the whole batch, the arrival last, is handed out.
pub proof fn lemma_event_effects<T>(batch: Seq<T>, op: T)
    ensures
        flushed_by(batch, WorkerEvent::<T>::Tick) == batch,
        pending_after(batch, WorkerEvent::<T>::Tick) == Seq::<T>::empty(),
        flushed_by(batch, WorkerEvent::<T>::Closed) == batch,
        pending_after(batch, WorkerEvent::<T>::Closed) == Seq::<T>::empty(),
        batch.len() + 1 < DEFAULT_BATCH_SIZE ==> flushed_by(batch, WorkerEvent::Received(op))
            == Seq::<T>::empty() && pending_after(batch, WorkerEvent::Received(op)) == batch.push(
            op,
        ),
        batch.len() + 1 >= DEFAULT_BATCH_SIZE ==> flushed_by(batch, WorkerEvent::Received(op))
            == batch.push(op) && pending_after(batch, WorkerEvent::Received(op))
            == Seq::<T>::empty(),
{
}

/// One event neither loses nor invents an operation, nor reorders them: what is written
/// followed by what still waits is what waited followed by what arrived.
pub proof fn lemma_step_conserves<T>(batch: Seq<T>, event: WorkerEvent<T>)
    ensures
        flushed_by(batch, event) + pending_after(batch, event) == batch + received(event),
        batch.len() < DEFAULT_BATCH_SIZE ==> pending_after(batch, event).len() < DEFAULT_BATCH_SIZE,
        batch.len() < DEFAULT_BATCH_SIZE ==> flushed_by(batch, event).len() <= DEFAULT_BATCH_SIZE,
{
    match event {
        WorkerEvent::Received(op) => {
            assert(batch.push(op) =~= batch + seq![op]);
            assert(batch.push(op) + Seq::<T>::empty() =~= batch.push(op));
            assert(Seq::<T>::empty() + batch.push(op) =~= batch.push(op));
        },
        _ => {
            assert(batch + Seq::<T>::empty() =~= batch);
        },
    }
}

/// All operations that a run of events brings, in arrival order.
pub open spec fn all_received<T>(events: Seq<WorkerEvent<T>>) -> Seq<T>
    decreases events.len(),
{
    if events.len() == 0 {
        Seq::empty()
    } else {
        received(events[0]) + all_received(events.drop_first())
    }
}

/// All operations written during a run of events, in the order they are written.
pub open spec fn run_flushed<T>(batch: Seq<T>, events: Seq<WorkerEvent<T>>) -> Seq<T>
    decreases events.len(),
{
    if events.len() == 0 {
        Seq::empty()
    } else {
        flushed_by(batch, events[0]) + run_flushed(
            pending_after(batch, events[0]),
            events.drop_first(),
        )
    }
}

/// The operations that wait after a run of events.
pub open spec fn run_pending<T>(batch: Seq<T>, events: Seq<WorkerEvent<T>>) -> Seq<T>
    decreases events.len(),
{
    if events.len() == 0 {
        batch
    } else {
        run_pending(pending_after(batch, events[0]), events.drop_first())
    }
}

/// Over any run of events, every operation that arrives is written exactly once, in
/// arrival order, or still waits at the end; fewer than `DEFAULT_BATCH_SIZE` ever wait.
pub proof fn lemma_run_conserves<T>(batch: Seq<T>, events: Seq<WorkerEvent<T>>)
    ensures
        run_flushed(batch, events) + run_pending(batch, events) == batch + all_received(events),
        batch.len() < DEFAULT_BATCH_SIZE ==> run_pending(batch, events).len() < DEFAULT_BATCH_SIZE,
    decreases events.len(),
{
    if events.len() == 0 {
        assert(Seq::<T>::empty() + batch =~= batch);
        assert(batch + Seq::<T>::empty() =~= batch);
    } else {
        let e = events[0];
        let rest = events.drop_first();
        let next = pending_after(batch, e);
        lemma_step_conserves(batch, e);
        lemma_run_conserves(next, rest);
        assert(run_flushed(batch, events) + run_pending(batch, events) =~= flushed_by(batch, e) + (
        run_flushed(next, rest) + run_pending(next, rest)));
        assert(flushed_by(batch, e) + (next + all_received(rest)) =~= (flushed_by(batch, e) + next)
            + all_received(rest));
        assert((batch + received(e)) + all_received(rest) =~= batch + (received(e) + all_received(
            rest,
        )));
    }
}

/// Once the queue closes, nothing waits and everything that waited is written.
pub proof fn lemma_close_drains<T>(batch: Seq<T>)
    ensures
        pending_after(batch, WorkerEvent::<T>::Closed) == Seq::<T>::empty(),
        flushed_by(batch, WorkerEvent::<T>::Closed) == batch,
{
}

} // verus!
