//! The decisions of a flush of the buffer store: pop batches of staged rows,
//! insert each batch into the column store, and put a batch back at the front of
//! the buffer when its insert fails, so that no row is lost.
use vstd::prelude::*;

use crate::log_row::LogRow;

verus! {

/// The list of the buffer store in which rows wait to be flushed.
pub const BUFFER_LIST_KEY: &'static str = "ingestor:logs";

/// Why a flush failed.
#[derive(Clone, Copy, Debug, PartialEq, Eq, Structural)]
pub enum FlushError {
    /// Rows could not be popped from the buffer.
    Pop,
    /// A batch could not be inserted; it was put back into the buffer.
    Insert,
    /// A batch could not be inserted, nor put back into the buffer.
    Restore,
    /// The capacity is zero, so no row can be moved.
    NoCapacity,
}

impl FlushError {
    /// The message reported for the error.
    pub fn message(&self) -> (r: String)
        ensures
            r@ == (match *self {
                FlushError::Pop => "Cannot pop logs from the buffer"@,
                FlushError::Insert => "Cannot insert logs; they were put back into the buffer"@,
                FlushError::Restore => "Cannot insert logs nor put them back into the buffer"@,
                FlushError::NoCapacity => "Cannot flush logs with a batch capacity of zero"@,
            }),
    {
        match self {
            FlushError::Pop => String::from_str("Cannot pop logs from the buffer"),
            FlushError::Insert => String::from_str(
                "Cannot insert logs; they were put back into the buffer",
            ),
            FlushError::Restore => String::from_str(
                "Cannot insert logs nor put them back into the buffer",
            ),
            FlushError::NoCapacity => String::from_str(
                "Cannot flush logs with a batch capacity of zero",
            ),
        }
    }
}

/// Where a flush stands.
#[derive(Clone, Copy, Debug, PartialEq, Eq, Structural)]
pub enum FlushPhase {
    /// Waiting for rows popped from the front of the buffer.
    Popping,
    /// Waiting for the insert of a batch; `full` when the batch filled the
    /// capacity, so that more rows may wait in the buffer.
    Inserting { full: bool },
    /// Waiting for a batch to be put back at the front of the buffer.
    Restoring,
    /// Reported.
    Done,
}

/// What the stores report back.
#[derive(Clone, Debug, PartialEq)]
pub enum FlushEvent {
    /// These rows were popped from the front of the buffer, in order.
    Popped(Vec<LogRow>),
    /// Popping failed.
    PopFailed,
    /// The batch was inserted.
    Inserted,
    /// The insert of the batch failed; these are its rows.
    InsertFailed(Vec<LogRow>),
    /// The batch was put back at the front of the buffer, or not.
    Restored(bool),
}

/// What to do next.
#[derive(Debug, PartialEq)]
pub enum FlushAction {
    /// Pop at most this many rows from the front of this list.
    Pop { list: &'static str, count: usize },
    /// Insert these rows into the column store as one batch.
    Insert(Vec<LogRow>),
    /// Put these rows back at the front of this list, in this order.
    Restore { list: &'static str, rows: Vec<LogRow> },
    /// Report the outcome.
    Finish(Result<(), FlushError>),
}

/// Whether an event is one that a phase waits for: popped rows never exceed the
/// capacity, and the rows of a failed insert are the batch handed to it.
pub open spec fn flush_accepts(capacity: nat, phase: FlushPhase, batch: Seq<LogRow>, event: FlushEvent) -> bool {
    match (phase, event) {
        (FlushPhase::Popping, FlushEvent::Popped(rows)) => rows@.len() <= capacity,
        (FlushPhase::Popping, FlushEvent::PopFailed) => true,
        (FlushPhase::Inserting { .. }, FlushEvent::Inserted) => true,
        (FlushPhase::Inserting { .. }, FlushEvent::InsertFailed(rows)) => rows@ == batch,
        (FlushPhase::Restoring, FlushEvent::Restored(_)) => true,
        _ => false,
    }
}

/// The next phase and action of a flush with the given capacity: no rows end it
/// with success; popped rows are inserted as they are, as one batch; after an
/// insert, a full batch is followed by another pop and a short one ends the flush;
/// a failed insert puts the same rows back, then reports the error; a failed pop
/// reports its error.
pub open spec fn flush_transition(capacity: nat, phase: FlushPhase, event: FlushEvent) -> (
    FlushPhase,
    FlushAction,
) {
    match (phase, event) {
        (FlushPhase::Popping, FlushEvent::Popped(rows)) => if rows@.len() == 0 {
            (FlushPhase::Done, FlushAction::Finish(Ok(())))
        } else {
            (FlushPhase::Inserting { full: rows@.len() == capacity }, FlushAction::Insert(rows))
        },
        (FlushPhase::Popping, FlushEvent::PopFailed) => (
            FlushPhase::Done,
            FlushAction::Finish(Err(FlushError::Pop)),
        ),
        (FlushPhase::Inserting { full }, FlushEvent::Inserted) => if full {
            (FlushPhase::Popping, FlushAction::Pop { list: BUFFER_LIST_KEY, count: capacity as usize })
        } else {
            (FlushPhase::Done, FlushAction::Finish(Ok(())))
        },
        (FlushPhase::Inserting { .. }, FlushEvent::InsertFailed(rows)) => (
            FlushPhase::Restoring,
            FlushAction::Restore { list: BUFFER_LIST_KEY, rows },
        ),
        (FlushPhase::Restoring, FlushEvent::Restored(ok)) => (
            FlushPhase::Done,
            FlushAction::Finish(Err(if ok { FlushError::Insert } else { FlushError::Restore })),
        ),
        _ => (phase, FlushAction::Finish(Err(FlushError::Pop))),
    }
}

/// The batch a flush holds after an event: the rows just popped, or the batch
/// it held before.
pub open spec fn next_batch(batch: Seq<LogRow>, event: FlushEvent) -> Seq<LogRow> {
    match event {
        FlushEvent::Popped(rows) => rows@,
        _ => batch,
    }
}

/// A flush of the buffer, popping at most `capacity` rows at a time.
pub struct BufferFlush {
    capacity: usize,
    phase: FlushPhase,
    batch: Ghost<Seq<LogRow>>,
}

impl BufferFlush {
    /// The most rows popped at once.
    pub closed spec fn spec_capacity(&self) -> nat {
        self.capacity as nat
    }

    /// Where the flush stands.
    pub closed spec fn spec_phase(&self) -> FlushPhase {
        self.phase
    }

    /// The last batch popped, which is the one being inserted or put back.
    pub closed spec fn spec_batch(&self) -> Seq<LogRow> {
        self.batch@
    }

    /// A flush that pops at most `capacity` rows at a time; it first pops, or,
    /// with a capacity of zero, reports at once that it cannot move any row.
    pub fn start(capacity: usize) -> (r: (BufferFlush, FlushAction))
        ensures
            r.0.spec_capacity() == capacity,
            capacity == 0 ==> r.0.spec_phase() == FlushPhase::Done && r.1 == FlushAction::Finish(
                Err(FlushError::NoCapacity),
            ),
            capacity > 0 ==> r.0.spec_phase() == FlushPhase::Popping && r.1 == (FlushAction::Pop {
                list: BUFFER_LIST_KEY,
                count: capacity,
            }),
    {
        if capacity == 0 {
            (
                BufferFlush { capacity, phase: FlushPhase::Done, batch: Ghost(Seq::empty()) },
                FlushAction::Finish(Err(FlushError::NoCapacity)),
            )
        } else {
            (
                BufferFlush { capacity, phase: FlushPhase::Popping, batch: Ghost(Seq::empty()) },
                FlushAction::Pop { list: BUFFER_LIST_KEY, count: capacity },
            )
        }
    }

    /// Where the flush stands.
    pub fn phase(&self) -> (r: FlushPhase)
        ensures
            r == self.spec_phase(),
    {
        self.phase
    }

    /// Takes what the stores reported and gives the next action.
    pub fn step(&mut self, event: FlushEvent) -> (a: FlushAction)
        requires
            flush_accepts(old(self).spec_capacity(), old(self).spec_phase(), old(self).spec_batch(), event),
        ensures
            final(self).spec_capacity() == old(self).spec_capacity(),
            final(self).spec_batch() == next_batch(old(self).spec_batch(), event),
            (final(self).spec_phase(), a) == flush_transition(
                old(self).spec_capacity(),
                old(self).spec_phase(),
                event,
            ),
    {
        let ghost batch = next_batch(self.batch@, event);
        let (phase, action) = match (self.phase, event) {
            (FlushPhase::Popping, FlushEvent::Popped(rows)) => if rows.len() == 0 {
                (FlushPhase::Done, FlushAction::Finish(Ok(())))
            } else {
                let full = rows.len() == self.capacity;
                (FlushPhase::Inserting { full }, FlushAction::Insert(rows))
            },
            (FlushPhase::Popping, FlushEvent::PopFailed) => (
                FlushPhase::Done,
                FlushAction::Finish(Err(FlushError::Pop)),
            ),
            (FlushPhase::Inserting { full }, FlushEvent::Inserted) => if full {
                (FlushPhase::Popping, FlushAction::Pop { list: BUFFER_LIST_KEY, count: self.capacity })
            } else {
                (FlushPhase::Done, FlushAction::Finish(Ok(())))
            },
            (FlushPhase::Inserting { .. }, FlushEvent::InsertFailed(rows)) => (
                FlushPhase::Restoring,
                FlushAction::Restore { list: BUFFER_LIST_KEY, rows },
            ),
            (FlushPhase::Restoring, FlushEvent::Restored(ok)) => (
                FlushPhase::Done,
                FlushAction::Finish(Err(if ok { FlushError::Insert } else { FlushError::Restore })),
            ),
            (p, _) => (p, FlushAction::Finish(Err(FlushError::Pop))),
        };
        self.phase = phase;
        self.batch = Ghost(batch);
        action
    }
}

/// The phase reached and the actions given when a flush takes a sequence of
/// events from a phase, one step at a time.
pub open spec fn flush_run(capacity: nat, phase: FlushPhase, events: Seq<FlushEvent>) -> (
    FlushPhase,
    Seq<FlushAction>,
)
    decreases events.len(),
{
    if events.len() == 0 {
        (phase, Seq::empty())
    } else {
        let (next, action) = flush_transition(capacity, phase, events[0]);
        let (last, actions) = flush_run(capacity, next, events.drop_first());
        (last, seq![action] + actions)
    }
}

/// Whether a flush in a phase, holding a batch, can take a sequence of events,
/// one step at a time.
pub open spec fn flush_valid(capacity: nat, phase: FlushPhase, batch: Seq<LogRow>, events: Seq<FlushEvent>) -> bool
    decreases events.len(),
{
    events.len() == 0 || (flush_accepts(capacity, phase, batch, events[0]) && flush_valid(
        capacity,
        flush_transition(capacity, phase, events[0]).0,
        next_batch(batch, events[0]),
        events.drop_first(),
    ))
}

/// The batches of rows popped from the buffer, leaving out empty pops, in order.
pub open spec fn popped_batches(events: Seq<FlushEvent>) -> Seq<Vec<LogRow>>
    decreases events.len(),
{
    if events.len() == 0 {
        Seq::empty()
    } else {
        let first = match events[0] {
            FlushEvent::Popped(rows) => if rows@.len() == 0 {
                Seq::empty()
            } else {
                seq![rows]
            },
            _ => Seq::empty(),
        };
        first + popped_batches(events.drop_first())
    }
}

/// The batches whose insert failed, in order.
pub open spec fn failed_batches(events: Seq<FlushEvent>) -> Seq<Vec<LogRow>>
    decreases events.len(),
{
    if events.len() == 0 {
        Seq::empty()
    } else {
        let first = match events[0] {
            FlushEvent::InsertFailed(rows) => seq![rows],
            _ => Seq::empty(),
        };
        first + failed_batches(events.drop_first())
    }
}

/// The batches handed to the column store, in order.
pub open spec fn inserted_batches(actions: Seq<FlushAction>) -> Seq<Vec<LogRow>>
    decreases actions.len(),
{
    if actions.len() == 0 {
        Seq::empty()
    } else {
        let first = match actions[0] {
            FlushAction::Insert(rows) => seq![rows],
            _ => Seq::empty(),
        };
        first + inserted_batches(actions.drop_first())
    }
}

/// The batches put back into the buffer, in order.
pub open spec fn restored_batches(actions: Seq<FlushAction>) -> Seq<Vec<LogRow>>
    decreases actions.len(),
{
    if actions.len() == 0 {
        Seq::empty()
    } else {
        let first = match actions[0] {
            FlushAction::Restore { rows, .. } => seq![rows],
            _ => Seq::empty(),
        };
        first + restored_batches(actions.drop_first())
    }
}

/// Whether every pop asks for exactly `capacity` rows from the buffer list.
pub open spec fn pops_ask_capacity(capacity: nat, actions: Seq<FlushAction>) -> bool {
    forall|i: int|
        0 <= i < actions.len() ==> (#[trigger] actions[i] matches FlushAction::Pop { list, count }
            ==> count == capacity && list == BUFFER_LIST_KEY)
}

/// Whether every pop asks for at most `capacity` rows.
pub open spec fn pops_within(capacity: nat, actions: Seq<FlushAction>) -> bool {
    forall|i: int|
        0 <= i < actions.len() ==> (#[trigger] actions[i] matches FlushAction::Pop { count, .. }
            ==> count <= capacity)
}

proof fn lemma_flush_run_unfold(capacity: nat, phase: FlushPhase, events: Seq<FlushEvent>)
    requires
        events.len() > 0,
    ensures
        flush_run(capacity, phase, events) == ({
            let (next, action) = flush_transition(capacity, phase, events[0]);
            let (last, actions) = flush_run(capacity, next, events.drop_first());
            (last, seq![action] + actions)
        }),
{
}

/// Whether every batch put back after the first action is the one handed to the
/// insert just before.
pub open spec fn restores_after_inserts(actions: Seq<FlushAction>) -> bool {
    forall|i: int|
        0 < i < actions.len() ==> (#[trigger] actions[i] matches FlushAction::Restore { rows, .. }
            ==> (actions[i - 1] matches FlushAction::Insert(inserted) && inserted@ == rows@))
}

/// Whether every batch put back is the one handed to the insert just before.
pub open spec fn restores_follow_inserts(actions: Seq<FlushAction>) -> bool {
    forall|i: int|
        0 <= i < actions.len() ==> (#[trigger] actions[i] matches FlushAction::Restore { rows, .. }
            ==> i > 0 && (actions[i - 1] matches FlushAction::Insert(inserted) && inserted@
            == rows@))
}

/// A step into the insert phase comes only from a pop that gave rows, and hands
/// exactly those rows to the insert.
proof fn lemma_into_inserting(capacity: nat, phase: FlushPhase, batch: Seq<LogRow>, event: FlushEvent)
    requires
        flush_accepts(capacity, phase, batch, event),
        flush_transition(capacity, phase, event).0 is Inserting,
    ensures
        flush_transition(capacity, phase, event).1 matches FlushAction::Insert(rows) && rows@
            == next_batch(batch, event),
{
}

proof fn lemma_flush_batches(capacity: usize, phase: FlushPhase, batch: Seq<LogRow>, events: Seq<FlushEvent>)
    requires
        flush_valid(capacity as nat, phase, batch, events),
    ensures
        inserted_batches(flush_run(capacity as nat, phase, events).1) == popped_batches(events),
        restored_batches(flush_run(capacity as nat, phase, events).1) == failed_batches(events),
        pops_within(capacity as nat, flush_run(capacity as nat, phase, events).1),
        pops_ask_capacity(capacity as nat, flush_run(capacity as nat, phase, events).1),
    decreases events.len(),
{
    if events.len() > 0 {
        let (next, action) = flush_transition(capacity as nat, phase, events[0]);
        let rest = events.drop_first();
        lemma_flush_batches(capacity, next, next_batch(batch, events[0]), rest);
        lemma_flush_run_unfold(capacity as nat, phase, events);
        let actions = flush_run(capacity as nat, phase, events).1;
        let tail = flush_run(capacity as nat, next, rest).1;
        assert(actions == seq![action] + tail);
        assert(actions[0] == action);
        assert(actions.drop_first() =~= tail);
        assert forall|i: int|
            0 <= i < actions.len() implies (#[trigger] actions[i] matches FlushAction::Pop { count, .. }
            ==> count <= capacity) by {
            if i > 0 {
                assert(actions[i] == tail[i - 1]);
            }
        }
        assert forall|i: int|
            0 <= i < actions.len() implies (#[trigger] actions[i] matches FlushAction::Pop {
            list,
            count,
        } ==> count == capacity && list == BUFFER_LIST_KEY) by {
            if i > 0 {
                assert(actions[i] == tail[i - 1]);
            }
        }
    }
}

proof fn lemma_flush_restores(capacity: usize, phase: FlushPhase, batch: Seq<LogRow>, events: Seq<FlushEvent>)
    requires
        flush_valid(capacity as nat, phase, batch, events),
    ensures
        restores_after_inserts(flush_run(capacity as nat, phase, events).1),
        flush_run(capacity as nat, phase, events).1.len() > 0 ==> (flush_run(
            capacity as nat,
            phase,
            events,
        ).1[0] matches FlushAction::Restore { rows, .. } ==> phase is Inserting && rows@ == batch),
    decreases events.len(),
{
    if events.len() > 0 {
        let (next, action) = flush_transition(capacity as nat, phase, events[0]);
        let nb = next_batch(batch, events[0]);
        let rest = events.drop_first();
        lemma_flush_restores(capacity, next, nb, rest);
        lemma_flush_run_unfold(capacity as nat, phase, events);
        let actions = flush_run(capacity as nat, phase, events).1;
        let tail = flush_run(capacity as nat, next, rest).1;
        assert(actions == seq![action] + tail);
        assert(actions[0] == action);
        assert forall|i: int|
            0 < i < actions.len() implies (#[trigger] actions[i] matches FlushAction::Restore {
            rows,
            ..
        } ==> (actions[i - 1] matches FlushAction::Insert(inserted) && inserted@ == rows@)) by {
            {
                assert(actions[i] == tail[i - 1]);
                if i >= 2 {
                    assert(actions[i - 1] == tail[i - 2]);
                } else if actions[i] matches FlushAction::Restore { .. } {
                    assert(next is Inserting);
                    lemma_into_inserting(capacity as nat, phase, batch, events[0]);
                }
            }
        }
    }
}

/// From any phase but an insert in progress (a flush starts by popping), a flush
/// loses no row and invents none: the batches it inserts are exactly the
/// non-empty batches popped from the buffer, in order, each as it was popped;
/// every batch it puts back is exactly the batch whose insert failed, handed to
/// the insert just before; the batches put back are those the failed-insert
/// events name, in order; and every pop asks the buffer list for exactly the
/// capacity, never more nor fewer rows. So
/// each popped row is either inserted or put back (unless putting it back
/// fails, which the flush reports).
pub proof fn lemma_flush_moves_every_popped_row(
    capacity: usize,
    phase: FlushPhase,
    batch: Seq<LogRow>,
    events: Seq<FlushEvent>,
)
    requires
        flush_valid(capacity as nat, phase, batch, events),
        !(phase is Inserting),
    ensures
        inserted_batches(flush_run(capacity as nat, phase, events).1) == popped_batches(events),
        restored_batches(flush_run(capacity as nat, phase, events).1) == failed_batches(events),
        pops_within(capacity as nat, flush_run(capacity as nat, phase, events).1),
        pops_ask_capacity(capacity as nat, flush_run(capacity as nat, phase, events).1),
        restores_follow_inserts(flush_run(capacity as nat, phase, events).1),
{
    lemma_flush_batches(capacity, phase, batch, events);
    lemma_flush_restores(capacity, phase, batch, events);
    let actions = flush_run(capacity as nat, phase, events).1;
    assert forall|i: int|
        0 <= i < actions.len() implies (#[trigger] actions[i] matches FlushAction::Restore { rows, .. }
        ==> i > 0 && (actions[i - 1] matches FlushAction::Insert(inserted) && inserted@
        == rows@)) by {
        if i > 0 {
            assert(actions[i] == actions[i]);
        }
    }
}

/// A batch is full exactly when it holds as many rows as the capacity: after a
/// pop that gives a full batch and a successful insert, the flush pops the
/// buffer list again for the whole capacity, as more rows may wait; after a pop
/// that gives fewer rows (but some) and a successful insert, it finishes with
/// success; after a pop that gives none, it finishes with success at once. Every
/// popped batch is handed to the insert as it is.
pub proof fn lemma_full_batch_pops_again(capacity: nat, rows: Vec<LogRow>)
    requires
        0 < capacity <= usize::MAX,
        rows@.len() <= capacity,
    ensures
        ({
            let (after_pop, first) = flush_transition(capacity, FlushPhase::Popping, FlushEvent::Popped(rows));
            let (_, second) = flush_transition(capacity, after_pop, FlushEvent::Inserted);
            &&& rows@.len() == 0 ==> first == FlushAction::Finish(Ok(()))
            &&& rows@.len() > 0 ==> first == FlushAction::Insert(rows)
            &&& rows@.len() == capacity ==> second == (FlushAction::Pop {
                list: BUFFER_LIST_KEY,
                count: capacity as usize,
            })
            &&& 0 < rows@.len() < capacity ==> second == FlushAction::Finish(Ok(()))
        }),
{
}

} // verus!
