//! The decisions of a batch insert into the column store: open the insert, write
//! each row in order, commit, and report.
use vstd::prelude::*;

verus! {

/// The table of the column store that holds the rows.
pub const LOG_TABLE: &'static str = "logs";

/// Why a batch insert failed.
#[derive(Clone, Copy, Debug, PartialEq, Eq, Structural)]
pub enum InsertError {
    /// The insert could not be opened.
    Open,
    /// The batch could not be committed.
    Commit,
}

impl InsertError {
    /// The message reported for the error.
    pub fn message(&self) -> (r: String)
        ensures
            r@ == (match *self {
                InsertError::Open => "Clickhouse insert error"@,
                InsertError::Commit => "ClickHouse failed to commit batch to ClickHouse"@,
            }),
    {
        match self {
            InsertError::Open => String::from_str("Clickhouse insert error"),
            InsertError::Commit => String::from_str("ClickHouse failed to commit batch to ClickHouse"),
        }
    }
}

/// Where a batch insert stands.
#[derive(Clone, Copy, Debug, PartialEq, Eq, Structural)]
pub enum InsertPhase {
    /// Waiting for the insert to open.
    Opening,
    /// Waiting for the write of the row at this index.
    Writing(usize),
    /// Waiting for the commit.
    Committing,
    /// Reported.
    Done,
}

/// What the insert reports back.
#[derive(Clone, Copy, Debug, PartialEq, Eq, Structural)]
pub enum InsertEvent {
    /// The insert was opened, or not.
    Opened(bool),
    /// The current row was written, or not.
    Written(bool),
    /// The batch was committed, or not.
    Committed(bool),
}

/// What to do next.
#[derive(Clone, Copy, Debug, PartialEq, Eq)]
pub enum InsertAction {
    /// Open an insert into this table.
    Open { table: &'static str },
    /// Write the row at this index.
    Write(usize),
    /// Commit the batch.
    Commit,
    /// Report the outcome.
    Finish(Result<(), InsertError>),
}

/// A batch insert of a number of rows.
pub struct BatchInsert {
    total: usize,
    phase: InsertPhase,
}

/// Whether an event is the one a phase waits for.
pub open spec fn phase_accepts(phase: InsertPhase, event: InsertEvent) -> bool {
    match (phase, event) {
        (InsertPhase::Opening, InsertEvent::Opened(_)) => true,
        (InsertPhase::Writing(_), InsertEvent::Written(_)) => true,
        (InsertPhase::Committing, InsertEvent::Committed(_)) => true,
        _ => false,
    }
}

/// The phase after the write of the row at an index, whatever its outcome: the
/// next row, or the commit after the last one.
pub open spec fn after_write(total: nat, index: nat) -> (InsertPhase, InsertAction) {
    if index + 1 < total {
        (InsertPhase::Writing((index + 1) as usize), InsertAction::Write((index + 1) as usize))
    } else {
        (InsertPhase::Committing, InsertAction::Commit)
    }
}

/// The next phase and action of a batch insert of `total` rows on an event: a
/// failed open ends the insert with an error; an open leads to the first write,
/// or to the commit of an empty batch; a write, failed or not, leads to the next
/// write or to the commit; the commit's outcome is reported.
pub open spec fn insert_transition(total: nat, phase: InsertPhase, event: InsertEvent) -> (
    InsertPhase,
    InsertAction,
) {
    match (phase, event) {
        (InsertPhase::Opening, InsertEvent::Opened(ok)) => if !ok {
            (InsertPhase::Done, InsertAction::Finish(Err(InsertError::Open)))
        } else if total == 0 {
            (InsertPhase::Committing, InsertAction::Commit)
        } else {
            (InsertPhase::Writing(0), InsertAction::Write(0))
        },
        (InsertPhase::Writing(i), InsertEvent::Written(_)) => after_write(total, i as nat),
        (InsertPhase::Committing, InsertEvent::Committed(ok)) => (
            InsertPhase::Done,
            InsertAction::Finish(if ok { Ok(()) } else { Err(InsertError::Commit) }),
        ),
        _ => (phase, InsertAction::Finish(Err(InsertError::Open))),
    }
}

/// Whether a phase is consistent with a batch of `total` rows.
pub open spec fn phase_valid(total: nat, phase: InsertPhase) -> bool {
    match phase {
        InsertPhase::Writing(i) => i < total,
        _ => true,
    }
}

impl BatchInsert {
    /// The number of rows in the batch.
    pub closed spec fn spec_total(&self) -> nat {
        self.total as nat
    }

    /// Where the insert stands.
    pub closed spec fn spec_phase(&self) -> InsertPhase {
        self.phase
    }

    /// The insert's own consistency: the row being written is in the batch.
    pub closed spec fn wf(&self) -> bool {
        phase_valid(self.total as nat, self.phase)
    }

    /// A batch insert of `total` rows, which first opens an insert into the log
    /// table.
    pub fn start(total: usize) -> (r: (BatchInsert, InsertAction))
        ensures
            r.0.wf(),
            r.0.spec_total() == total,
            r.0.spec_phase() == InsertPhase::Opening,
            r.1 == (InsertAction::Open { table: LOG_TABLE }),
    {
        (BatchInsert { total, phase: InsertPhase::Opening }, InsertAction::Open { table: LOG_TABLE })
    }

    /// Where the insert stands.
    pub fn phase(&self) -> (r: InsertPhase)
        ensures
            r == self.spec_phase(),
    {
        self.phase
    }

    /// Takes the outcome of the last action and gives the next one.
    pub fn step(&mut self, event: InsertEvent) -> (a: InsertAction)
        requires
            old(self).wf(),
            phase_accepts(old(self).spec_phase(), event),
        ensures
            final(self).wf(),
            final(self).spec_total() == old(self).spec_total(),
            (final(self).spec_phase(), a) == insert_transition(
                old(self).spec_total(),
                old(self).spec_phase(),
                event,
            ),
    {
        let (phase, action) = match (self.phase, event) {
            (InsertPhase::Opening, InsertEvent::Opened(ok)) => if !ok {
                (InsertPhase::Done, InsertAction::Finish(Err(InsertError::Open)))
            } else if self.total == 0 {
                (InsertPhase::Committing, InsertAction::Commit)
            } else {
                (InsertPhase::Writing(0), InsertAction::Write(0))
            },
            (InsertPhase::Writing(i), InsertEvent::Written(_)) => if i + 1 < self.total {
                (InsertPhase::Writing(i + 1), InsertAction::Write(i + 1))
            } else {
                (InsertPhase::Committing, InsertAction::Commit)
            },
            (InsertPhase::Committing, InsertEvent::Committed(ok)) => (
                InsertPhase::Done,
                InsertAction::Finish(if ok { Ok(()) } else { Err(InsertError::Commit) }),
            ),
            (p, _) => (p, InsertAction::Finish(Err(InsertError::Open))),
        };
        self.phase = phase;
        action
    }
}

/// The phase reached and the actions given when a batch insert of `total` rows
/// takes a sequence of events from a phase, one step at a time.
pub open spec fn insert_run(total: nat, phase: InsertPhase, events: Seq<InsertEvent>) -> (
    InsertPhase,
    Seq<InsertAction>,
)
    decreases events.len(),
{
    if events.len() == 0 {
        (phase, Seq::empty())
    } else {
        let (next, action) = insert_transition(total, phase, events[0]);
        let (last, actions) = insert_run(total, next, events.drop_first());
        (last, seq![action] + actions)
    }
}

/// The events of writes with the given outcomes.
pub open spec fn write_events(outcomes: Seq<bool>) -> Seq<InsertEvent> {
    outcomes.map_values(|ok: bool| InsertEvent::Written(ok))
}

/// The writes of the rows from index `from` up to `total`, in order.
pub open spec fn writes_from(from: nat, total: nat) -> Seq<InsertAction> {
    Seq::new((total - from) as nat, |j: int| InsertAction::Write((from + j) as usize))
}

/// What a commit with the given outcome reports.
pub open spec fn commit_outcome(committed: bool) -> Result<(), InsertError> {
    if committed {
        Ok(())
    } else {
        Err(InsertError::Commit)
    }
}

/// One step of a run: the first event's transition, then the run of the rest.
proof fn lemma_run_unfold(total: nat, phase: InsertPhase, events: Seq<InsertEvent>)
    requires
        events.len() > 0,
    ensures
        insert_run(total, phase, events) == ({
            let (next, action) = insert_transition(total, phase, events[0]);
            let (last, actions) = insert_run(total, next, events.drop_first());
            (last, seq![action] + actions)
        }),
{
}

proof fn lemma_writing_run(total: nat, index: nat, outcomes: Seq<bool>, committed: bool)
    requires
        index < total,
        total <= usize::MAX,
        outcomes.len() == total - index,
    ensures
        insert_run(
            total,
            InsertPhase::Writing(index as usize),
            write_events(outcomes) + seq![InsertEvent::Committed(committed)],
        ) == (
            InsertPhase::Done,
            writes_from(index + 1, total) + seq![
                InsertAction::Commit,
                InsertAction::Finish(commit_outcome(committed)),
            ],
        ),
    decreases outcomes.len(),
{
    let events = write_events(outcomes) + seq![InsertEvent::Committed(committed)];
    assert(events[0] == InsertEvent::Written(outcomes[0]));
    lemma_run_unfold(total, InsertPhase::Writing(index as usize), events);
    let rest = events.drop_first();
    let finish = seq![InsertAction::Commit, InsertAction::Finish(commit_outcome(committed))];
    if index + 1 < total {
        let tail = outcomes.drop_first();
        assert(rest =~= write_events(tail) + seq![InsertEvent::Committed(committed)]);
        lemma_writing_run(total, index + 1, tail, committed);
        assert(insert_transition(total, InsertPhase::Writing(index as usize), events[0]) == (
            InsertPhase::Writing((index + 1) as usize),
            InsertAction::Write((index + 1) as usize),
        ));
        assert(seq![InsertAction::Write((index + 1) as usize)] + (writes_from(index + 2, total)
            + finish) =~= writes_from(index + 1, total) + finish);
    } else {
        assert(rest =~= seq![InsertEvent::Committed(committed)]);
        assert(insert_transition(total, InsertPhase::Writing(index as usize), events[0]) == (
            InsertPhase::Committing,
            InsertAction::Commit,
        ));
        lemma_run_unfold(total, InsertPhase::Committing, rest);
        assert(rest[0] == InsertEvent::Committed(committed));
        assert(rest.drop_first() =~= Seq::<InsertEvent>::empty());
        assert(insert_run(total, InsertPhase::Done, rest.drop_first()) == (
            InsertPhase::Done,
            Seq::<InsertAction>::empty(),
        ));
        assert(writes_from(index + 1, total) =~= Seq::<InsertAction>::empty());
        assert(seq![InsertAction::Commit] + (seq![InsertAction::Finish(commit_outcome(committed))]
            + Seq::<InsertAction>::empty()) =~= writes_from(index + 1, total) + finish);
    }
}

/// A batch insert that opens writes every row of the batch exactly once, in
/// order, whatever the outcome of each write, then commits, and reports success
/// exactly when the commit succeeds; one that cannot open reports the open error
/// and writes nothing.
pub proof fn lemma_batch_insert_run(total: usize, outcomes: Seq<bool>, committed: bool)
    requires
        outcomes.len() == total,
    ensures
        insert_run(
            total as nat,
            InsertPhase::Opening,
            seq![InsertEvent::Opened(true)] + write_events(outcomes) + seq![
                InsertEvent::Committed(committed),
            ],
        ) == (
            InsertPhase::Done,
            writes_from(0, total as nat) + seq![
                InsertAction::Commit,
                InsertAction::Finish(commit_outcome(committed)),
            ],
        ),
        insert_run(total as nat, InsertPhase::Opening, seq![InsertEvent::Opened(false)]) == (
            InsertPhase::Done,
            seq![InsertAction::Finish(Err(InsertError::Open))],
        ),
{
    let events = seq![InsertEvent::Opened(true)] + write_events(outcomes) + seq![
        InsertEvent::Committed(committed),
    ];
    let finish = seq![InsertAction::Commit, InsertAction::Finish(commit_outcome(committed))];
    assert(events[0] == InsertEvent::Opened(true));
    lemma_run_unfold(total as nat, InsertPhase::Opening, events);
    let rest = events.drop_first();
    assert(rest =~= write_events(outcomes) + seq![InsertEvent::Committed(committed)]);
    if total > 0 {
        lemma_writing_run(total as nat, 0, outcomes, committed);
        assert(seq![InsertAction::Write(0)] + (writes_from(1, total as nat) + finish)
            =~= writes_from(0, total as nat) + finish);
    } else {
        assert(rest =~= seq![InsertEvent::Committed(committed)]);
        lemma_run_unfold(total as nat, InsertPhase::Committing, rest);
        assert(rest[0] == InsertEvent::Committed(committed));
        assert(rest.drop_first() =~= Seq::<InsertEvent>::empty());
        assert(insert_run(total as nat, InsertPhase::Done, rest.drop_first()) == (
            InsertPhase::Done,
            Seq::<InsertAction>::empty(),
        ));
        assert(writes_from(0, total as nat) =~= Seq::<InsertAction>::empty());
        assert(seq![InsertAction::Commit] + (seq![InsertAction::Finish(commit_outcome(committed))]
            + Seq::<InsertAction>::empty()) =~= writes_from(0, total as nat) + finish);
    }
    let fail = seq![InsertEvent::Opened(false)];
    lemma_run_unfold(total as nat, InsertPhase::Opening, fail);
    assert(fail.drop_first() =~= Seq::<InsertEvent>::empty());
    assert(insert_run(total as nat, InsertPhase::Done, fail.drop_first()) == (
        InsertPhase::Done,
        Seq::<InsertAction>::empty(),
    ));
    assert(seq![InsertAction::Finish(Err(InsertError::Open))] + Seq::<InsertAction>::empty()
        =~= seq![InsertAction::Finish(Err(InsertError::Open))]);
}

} // verus!
