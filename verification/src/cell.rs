//! The single slot that holds the current record, and the loop that writes a record
//! to storage when the slot holds another one than the loop wrote last.
//!
//! Neither suspends nor locks: a caller that shares a cell among tasks guards it, and
//! wakes the loop after each `publish` and `close`.

use crate::record::{AutofillData, AutofillView};
use crate::wire::record_text;
use vstd::prelude::*;

verus! {

/// One slot with the current record. It is replaced as a whole, never changed in part.
#[derive(Debug)]
pub struct SharedCell {
    value: AutofillData,
    listening: bool,
    closed: bool,
}

/// What a cell holds.
pub struct CellView {
    pub value: AutofillView,
    /// Someone still waits for changes.
    pub listening: bool,
    /// The cell is shut down: a waiter that has seen its record is told to end.
    pub closed: bool,
}

impl CellView {
    /// A cell that has just been made.
    pub open spec fn seeded(seed: AutofillView) -> CellView {
        CellView { value: seed, listening: true, closed: false }
    }

    /// The cell after a record was published in it.
    pub open spec fn published(self, value: AutofillView) -> CellView {
        CellView { value, ..self }
    }

    /// What a waiter with this baseline is told: the cell's record where it differs
    /// from the baseline; otherwise that the cell is closed, where it is; otherwise
    /// nothing yet.
    pub open spec fn change_from(self, baseline: AutofillView) -> ChangeView {
        if self.value != baseline {
            ChangeView::Changed(self.value)
        } else if self.closed {
            ChangeView::Closed
        } else {
            ChangeView::Pending
        }
    }
}

/// What a waiter learns when it looks at the cell.
#[derive(Debug)]
pub enum Change {
    /// The cell holds this record, which differs from the baseline.
    Changed(AutofillData),
    /// The cell holds the baseline and is closed.
    Closed,
    /// The cell holds the baseline: wait for the next `publish` or `close`.
    Pending,
}

/// What a `Change` says.
pub enum ChangeView {
    Changed(AutofillView),
    Closed,
    Pending,
}

impl View for Change {
    type V = ChangeView;

    open spec fn view(&self) -> ChangeView {
        match self {
            Change::Changed(value) => ChangeView::Changed(value@),
            Change::Closed => ChangeView::Closed,
            Change::Pending => ChangeView::Pending,
        }
    }
}

impl View for SharedCell {
    type V = CellView;

    closed spec fn view(&self) -> CellView {
        CellView { value: self.value@, listening: self.listening, closed: self.closed }
    }
}

impl SharedCell {
    /// A cell that holds `seed`, with a waiter and open.
    pub fn new(seed: AutofillData) -> (cell: Self)
        ensures
            cell@ == CellView::seeded(seed@),
    {
        SharedCell { value: seed, listening: true, closed: false }
    }

    /// Whether someone still waits for changes.
    pub fn is_listening(&self) -> (r: bool)
        ensures
            r == self@.listening,
    {
        self.listening
    }

    /// Whether the cell is closed.
    pub fn is_closed(&self) -> (r: bool)
        ensures
            r == self@.closed,
    {
        self.closed
    }

    /// Puts `value` in the place of the cell's record. Where nobody waits for changes
    /// the cell stays as it is and the record comes back.
    pub fn publish(&mut self, value: AutofillData) -> (r: Result<(), AutofillData>)
        ensures
            match r {
                Ok(_) => old(self)@.listening && final(self)@ == old(self)@.published(value@),
                Err(back) => !old(self)@.listening && final(self)@ == old(self)@ && back@
                    == value@,
            },
    {
        if self.listening {
            self.value = value;
            Ok(())
        } else {
            Err(value)
        }
    }

    /// The current record, without waiting.
    pub fn snapshot(&self) -> (r: &AutofillData)
        ensures
            r@ == self@.value,
    {
        &self.value
    }

    /// What a waiter with this baseline is told now.
    pub fn change_from(&self, baseline: &AutofillData) -> (r: Change)
        ensures
            r@ == self@.change_from(baseline@),
    {
        if !self.value.same_as(baseline) {
            Change::Changed(self.value.clone())
        } else if self.closed {
            Change::Closed
        } else {
            Change::Pending
        }
    }

    /// Shuts the cell down: a waiter that has seen its record is told to end. The record
    /// stays, and `publish` goes on as before.
    pub fn close(&mut self)
        ensures
            final(self)@ == (CellView { closed: true, ..old(self)@ }),
    {
        self.closed = true;
    }

    /// Records that nobody waits for changes any more.
    pub fn stop_listening(&mut self)
        ensures
            final(self)@ == (CellView { listening: false, ..old(self)@ }),
    {
        self.listening = false;
    }
}

/// What the loop does next.
#[derive(Debug)]
pub enum LoopStep {
    /// Write this text over the whole stored file, and step again when that is done.
    Write(String),
    /// Wait for the next `publish` or `close`, and step again.
    Wait,
    /// The cell is closed and its last record is written: end.
    Stop,
}

/// What a `LoopStep` says.
pub enum LoopStepView {
    Write(Seq<char>),
    Wait,
    Stop,
}

impl View for LoopStep {
    type V = LoopStepView;

    open spec fn view(&self) -> LoopStepView {
        match self {
            LoopStep::Write(text) => LoopStepView::Write(text@),
            LoopStep::Wait => LoopStepView::Wait,
            LoopStep::Stop => LoopStepView::Stop,
        }
    }
}

/// The record that the loop knows after it looked at the cell.
pub open spec fn known_after(known: AutofillView, cell: CellView) -> AutofillView {
    match cell.change_from(known) {
        ChangeView::Changed(value) => value,
        _ => known,
    }
}

/// What the loop does after it looked at the cell.
pub open spec fn step_after(known: AutofillView, cell: CellView) -> LoopStepView {
    match cell.change_from(known) {
        ChangeView::Changed(value) => LoopStepView::Write(record_text(value)),
        ChangeView::Closed => LoopStepView::Stop,
        ChangeView::Pending => LoopStepView::Wait,
    }
}

/// The loop that keeps the stored file up to date. It knows the record that it wrote
/// last, or that it was started with.
#[derive(Debug)]
pub struct PersistenceLoop {
    known: AutofillData,
}

impl View for PersistenceLoop {
    type V = AutofillView;

    closed spec fn view(&self) -> AutofillView {
        self.known@
    }
}

impl PersistenceLoop {
    /// A loop that knows `seed`, the record that its cell was made with.
    pub fn new(seed: AutofillData) -> (keeper: Self)
        ensures
            keeper@ == seed@,
    {
        PersistenceLoop { known: seed }
    }

    /// The record that the loop knows.
    pub fn known(&self) -> (r: &AutofillData)
        ensures
            r@ == self@,
    {
        &self.known
    }

    /// Looks at the cell. Where it holds another record than the loop knows, the loop
    /// knows that record from now on and asks for it to be written.
    pub fn step(&mut self, cell: &SharedCell) -> (r: LoopStep)
        ensures
            final(self)@ == known_after(old(self)@, cell@),
            r@ == step_after(old(self)@, cell@),
    {
        match cell.change_from(&self.known) {
            Change::Changed(value) => {
                let text = value.to_json_text();
                self.known = value;
                LoopStep::Write(text)
            },
            Change::Closed => LoopStep::Stop,
            Change::Pending => LoopStep::Wait,
        }
    }
}

/// Of two records published one after the other before the loop looks, only the second
/// counts: the loop does what it would do had the first never been published, and where
/// it writes, it writes the second.
pub proof fn lemma_latest_wins(
    cell: CellView,
    known: AutofillView,
    first: AutofillView,
    second: AutofillView,
)
    ensures
        step_after(known, cell.published(first).published(second)) == step_after(
            known,
            cell.published(second),
        ),
        known_after(known, cell.published(first).published(second)) == known_after(
            known,
            cell.published(second),
        ),
        second != known ==> step_after(known, cell.published(first).published(second))
            == LoopStepView::Write(record_text(second)),
        second != known ==> known_after(known, cell.published(first).published(second)) == second,
{
}

/// A record equal to the one that the cell holds, published in it, changes nothing of
/// what the loop does; where the loop knows the cell's record, nothing is written.
pub proof fn lemma_equal_record_is_not_written(
    cell: CellView,
    known: AutofillView,
    value: AutofillView,
)
    requires
        value == cell.value,
    ensures
        cell.published(value) == cell,
        step_after(known, cell.published(value)) == step_after(known, cell),
        known_after(known, cell.published(value)) == known_after(known, cell),
        known == cell.value ==> !(step_after(known, cell.published(value)) is Write),
{
}

/// What the loop asks to be written is the text of the record that the cell holds when
/// the loop looks, and the loop knows that record from then on: nothing reaches storage
/// that the cell did not hold.
pub proof fn lemma_written_text_is_the_cells(cell: CellView, known: AutofillView)
    requires
        step_after(known, cell) is Write,
    ensures
        step_after(known, cell) == LoopStepView::Write(record_text(cell.value)),
        known_after(known, cell) == cell.value,
{
}

/// Once the loop has looked at the cell, it has nothing to write until the cell is
/// published in again.
pub proof fn lemma_step_catches_up(cell: CellView, known: AutofillView)
    ensures
        !(step_after(known_after(known, cell), cell) is Write),
{
}

} // verus!
