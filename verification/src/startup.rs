//! How the process comes up: the stored record is restored, the cell is made with it,
//! and the cell is installed exactly once, before anything is served.
//!
//! Two tasks start together. The initializer says that it runs and then waits for the
//! cell; setup waits for that word, reads the store, makes the cell and sends it. The
//! tasks and their signals are the caller's; what each event leads to is decided here.

use crate::cell::{CellView, PersistenceLoop, SharedCell};
use crate::record::{AutofillData, AutofillView};
use crate::wire::text_record;
use vstd::prelude::*;

verus! {

/// What reading the store gave: its text, or the message of the failure.
pub open spec fn read_view(read: Result<String, String>) -> Result<Seq<char>, Seq<char>> {
    match read {
        Ok(text) => Ok(text@),
        Err(message) => Err(message@),
    }
}

/// The record to start with: the stored one where the store was read and its text
/// stands for a record, the fallback record otherwise.
pub open spec fn restored_record(read: Result<Seq<char>, Seq<char>>) -> AutofillView {
    match read {
        Ok(text) => match text_record(text) {
            Ok(record) => record,
            Err(_) => AutofillView::fallback(),
        },
        Err(_) => AutofillView::fallback(),
    }
}

/// Why the fallback record was taken, where it was.
pub open spec fn restore_complaint(read: Result<Seq<char>, Seq<char>>) -> Option<Seq<char>> {
    match read {
        Ok(text) => match text_record(text) {
            Ok(_) => None,
            Err(e) => Some("failed to get user information: "@ + e.message()),
        },
        Err(message) => Some("failed to get user information: "@ + message),
    }
}

/// What a complaint says, where there is one.
pub open spec fn complaint_view(complaint: Option<String>) -> Option<Seq<char>> {
    match complaint {
        Some(text) => Some(text@),
        None => None,
    }
}

/// The record to start with, and what there is to log about the store.
#[derive(Debug)]
pub struct Restored {
    pub record: AutofillData,
    pub complaint: Option<String>,
}

/// Restores the record from what reading the store gave. A store that is missing,
/// unreadable or holds no record gives the fallback record and a complaint to log;
/// nothing is raised.
pub fn restore(read: Result<String, String>) -> (r: Restored)
    ensures
        r.record@ == restored_record(read_view(read)),
        complaint_view(r.complaint) == restore_complaint(read_view(read)),
        read is Err || text_record(read->Ok_0@) is Err ==> r.record@ == AutofillView::fallback(),
{
    match read {
        Ok(text) => match AutofillData::from_json_text(text.as_str()) {
            Ok(record) => Restored { record, complaint: None },
            Err(e) => {
                let message = e.message();
                Restored {
                    record: AutofillData::fallback(),
                    complaint: Some(
                        "failed to get user information: ".to_owned().concat(message.as_str()),
                    ),
                }
            },
        },
        Err(message) => Restored {
            record: AutofillData::fallback(),
            complaint: Some(
                "failed to get user information: ".to_owned().concat(message.as_str()),
            ),
        },
    }
}

/// How far the handoff has come.
#[derive(Clone, Copy, Debug, PartialEq, Eq, Structural)]
pub enum Phase {
    /// Both tasks are started; the initializer has not been heard from.
    Launched,
    /// The initializer runs and waits for the cell.
    Begun,
    /// The cell is made and on its way to the initializer.
    Sent,
    /// The cell is installed: commands are served.
    Installed,
    /// A signal was lost or came out of turn: startup is given up.
    Failed,
}

/// What can happen during the handoff, without what it carries.
#[derive(Clone, Copy, Debug, PartialEq, Eq, Structural)]
pub enum Signal {
    Began,
    StoreRead,
    CellReceived,
    Lost,
}

/// What can happen during the handoff.
#[derive(Debug)]
pub enum HandoffEvent {
    /// The initializer has signalled that it runs.
    InitializerBegan,
    /// Setup has read the store: its text, or the message of the failure.
    StoreRead(Result<String, String>),
    /// The initializer has received the cell.
    CellReceived,
    /// The other end of a signal is gone.
    SignalLost,
}

impl HandoffEvent {
    /// The event without what it carries.
    pub open spec fn signal(self) -> Signal {
        match self {
            HandoffEvent::InitializerBegan => Signal::Began,
            HandoffEvent::StoreRead(_) => Signal::StoreRead,
            HandoffEvent::CellReceived => Signal::CellReceived,
            HandoffEvent::SignalLost => Signal::Lost,
        }
    }
}

/// What the caller does after an event.
#[derive(Debug)]
pub enum HandoffAction {
    /// Prepare the platform and read the store.
    ReadStore,
    /// Send the cell to the initializer and start the loop; log the complaint.
    Deliver { keeper: PersistenceLoop, complaint: Option<String> },
    /// Start serving commands.
    Serve,
    /// Give up startup.
    Abort,
    /// Nothing: the handoff is over.
    Nothing,
}

/// What an action says.
pub enum HandoffActionView {
    ReadStore,
    Deliver { known: AutofillView, complaint: Option<Seq<char>> },
    Serve,
    Abort,
    Nothing,
}

impl View for HandoffAction {
    type V = HandoffActionView;

    open spec fn view(&self) -> HandoffActionView {
        match self {
            HandoffAction::ReadStore => HandoffActionView::ReadStore,
            HandoffAction::Deliver { keeper, complaint } => HandoffActionView::Deliver {
                known: keeper@,
                complaint: complaint_view(*complaint),
            },
            HandoffAction::Serve => HandoffActionView::Serve,
            HandoffAction::Abort => HandoffActionView::Abort,
            HandoffAction::Nothing => HandoffActionView::Nothing,
        }
    }
}

/// What a command that asks for the record is told.
#[derive(Debug)]
pub enum LoadAnswer {
    /// The cell is installed and holds this record.
    Ready(AutofillData),
    /// The handoff is under way: wait until it is over and ask again.
    NotYet,
    /// Startup was given up: there will be no cell.
    Never,
}

/// What a `LoadAnswer` says.
pub enum LoadAnswerView {
    Ready(AutofillView),
    NotYet,
    Never,
}

impl View for LoadAnswer {
    type V = LoadAnswerView;

    open spec fn view(&self) -> LoadAnswerView {
        match self {
            LoadAnswer::Ready(record) => LoadAnswerView::Ready(record@),
            LoadAnswer::NotYet => LoadAnswerView::NotYet,
            LoadAnswer::Never => LoadAnswerView::Never,
        }
    }
}

/// One thing that happens while the process runs: an event of the handoff, or a
/// command that publishes a record. Commands come whenever the user interface sends
/// them, before, during or after the handoff.
pub enum Occurrence {
    Event(HandoffEvent),
    Publish(AutofillView),
}

/// The phase after a signal. The three signals of a handoff advance it, each only in
/// its turn; once installed or failed it stays so; anything else fails it.
pub open spec fn next_phase(phase: Phase, signal: Signal) -> Phase {
    match (phase, signal) {
        (Phase::Installed, _) => Phase::Installed,
        (Phase::Failed, _) => Phase::Failed,
        (Phase::Launched, Signal::Began) => Phase::Begun,
        (Phase::Begun, Signal::StoreRead) => Phase::Sent,
        (Phase::Sent, Signal::CellReceived) => Phase::Installed,
        _ => Phase::Failed,
    }
}

/// The phase after a run of signals from launch.
pub open spec fn phase_after(signals: Seq<Signal>) -> Phase
    decreases signals.len(),
{
    if signals.len() == 0 {
        Phase::Launched
    } else {
        next_phase(phase_after(signals.drop_last()), signals.last())
    }
}

/// The state of the handoff: its phase, and the cell once there is one.
pub struct HandoffView {
    pub phase: Phase,
    /// The cell, from the moment it is made.
    pub cell: Option<CellView>,
}

impl HandoffView {
    /// The state after an event.
    pub open spec fn next(self, event: HandoffEvent) -> HandoffView {
        HandoffView {
            phase: next_phase(self.phase, event.signal()),
            cell: match (self.phase, event) {
                (Phase::Begun, HandoffEvent::StoreRead(read)) => Some(
                    CellView::seeded(restored_record(read_view(read))),
                ),
                (Phase::Installed, _) | (Phase::Failed, _) | (Phase::Sent, HandoffEvent::CellReceived) => self.cell,
                _ => None,
            },
        }
    }

    /// What the caller does after an event in this state.
    pub open spec fn action(self, event: HandoffEvent) -> HandoffActionView {
        match (self.phase, event) {
            (Phase::Installed, _) | (Phase::Failed, _) => HandoffActionView::Nothing,
            (Phase::Launched, HandoffEvent::InitializerBegan) => HandoffActionView::ReadStore,
            (Phase::Begun, HandoffEvent::StoreRead(read)) => HandoffActionView::Deliver {
                known: restored_record(read_view(read)),
                complaint: restore_complaint(read_view(read)),
            },
            (Phase::Sent, HandoffEvent::CellReceived) => HandoffActionView::Serve,
            _ => HandoffActionView::Abort,
        }
    }

    /// The state at launch.
    pub open spec fn launched() -> HandoffView {
        HandoffView { phase: Phase::Launched, cell: None }
    }

    /// The cell that commands work on: there is one exactly when it is installed.
    pub open spec fn served(self) -> Option<CellView> {
        if self.phase == Phase::Installed {
            self.cell
        } else {
            None
        }
    }

    /// Whether a record can be published: a cell is installed and someone waits for
    /// its changes.
    pub open spec fn can_publish(self) -> bool {
        self.served() is Some && self.served()->0.listening
    }

    /// The state after a record was published in the installed cell.
    pub open spec fn published(self, value: AutofillView) -> HandoffView {
        HandoffView { cell: Some(self.served()->0.published(value)), ..self }
    }

    /// What a command that asks for the record is told in this state: the installed
    /// cell's record; before the cell is installed, to wait; after startup was given
    /// up, that there will be none.
    pub open spec fn load_answer(self) -> LoadAnswerView {
        match self.served() {
            Some(cell) => LoadAnswerView::Ready(cell.value),
            None => if self.phase == Phase::Failed {
                LoadAnswerView::Never
            } else {
                LoadAnswerView::NotYet
            },
        }
    }

    /// The state after something happened. A record is published where one can be, and
    /// dropped otherwise.
    pub open spec fn after(self, occurrence: Occurrence) -> HandoffView {
        match occurrence {
            Occurrence::Event(event) => self.next(event),
            Occurrence::Publish(value) => if self.can_publish() {
                self.published(value)
            } else {
                self
            },
        }
    }
}

/// The state after a run of occurrences from launch.
pub open spec fn state_after(run: Seq<Occurrence>) -> HandoffView
    decreases run.len(),
{
    if run.len() == 0 {
        HandoffView::launched()
    } else {
        state_after(run.drop_last()).after(run.last())
    }
}

/// The signals of the handoff's events in a run, in their order.
pub open spec fn signals_of(run: Seq<Occurrence>) -> Seq<Signal>
    decreases run.len(),
{
    if run.len() == 0 {
        Seq::empty()
    } else {
        match run.last() {
            Occurrence::Event(event) => signals_of(run.drop_last()).push(event.signal()),
            Occurrence::Publish(_) => signals_of(run.drop_last()),
        }
    }
}

/// What the first reading of the store in a run gave, if the store was read in it.
pub open spec fn first_read(run: Seq<Occurrence>) -> Option<Result<String, String>>
    decreases run.len(),
{
    if run.len() == 0 {
        None
    } else {
        match first_read(run.drop_last()) {
            Some(read) => Some(read),
            None => match run.last() {
                Occurrence::Event(HandoffEvent::StoreRead(read)) => Some(read),
                _ => None,
            },
        }
    }
}

/// The record that was published last in a run, if one was: a record counts where it
/// could be published when it came.
pub open spec fn last_published(run: Seq<Occurrence>) -> Option<AutofillView>
    decreases run.len(),
{
    if run.len() == 0 {
        None
    } else {
        match run.last() {
            Occurrence::Publish(value) => if state_after(run.drop_last()).can_publish() {
                Some(value)
            } else {
                last_published(run.drop_last())
            },
            Occurrence::Event(_) => last_published(run.drop_last()),
        }
    }
}

/// The handoff of the cell from setup to the initializer, and the installed cell after
/// it.
#[derive(Debug)]
pub struct Handoff {
    state: State,
}

#[derive(Debug)]
enum State {
    Launched,
    Begun,
    Sent(SharedCell),
    Installed(SharedCell),
    Failed,
}

impl View for Handoff {
    type V = HandoffView;

    closed spec fn view(&self) -> HandoffView {
        match self.state {
            State::Launched => HandoffView { phase: Phase::Launched, cell: None },
            State::Begun => HandoffView { phase: Phase::Begun, cell: None },
            State::Sent(cell) => HandoffView { phase: Phase::Sent, cell: Some(cell@) },
            State::Installed(cell) => HandoffView { phase: Phase::Installed, cell: Some(cell@) },
            State::Failed => HandoffView { phase: Phase::Failed, cell: None },
        }
    }
}

impl Handoff {
    /// The handoff at launch.
    pub fn new() -> (r: Self)
        ensures
            r@ == HandoffView::launched(),
    {
        Handoff { state: State::Launched }
    }

    /// How far the handoff has come.
    pub fn phase(&self) -> (r: Phase)
        ensures
            r == self@.phase,
    {
        match &self.state {
            State::Launched => Phase::Launched,
            State::Begun => Phase::Begun,
            State::Sent(_) => Phase::Sent,
            State::Installed(_) => Phase::Installed,
            State::Failed => Phase::Failed,
        }
    }

    /// Whether the cell is installed, so that commands are served.
    pub fn is_serving(&self) -> (r: bool)
        ensures
            r == (self@.phase == Phase::Installed),
            r == self@.served() is Some,
    {
        match &self.state {
            State::Installed(_) => true,
            _ => false,
        }
    }

    /// Takes an event and says what the caller does next.
    pub fn step(&mut self, event: HandoffEvent) -> (action: HandoffAction)
        ensures
            final(self)@ == old(self)@.next(event),
            final(self)@ == old(self)@.after(Occurrence::Event(event)),
            action@ == old(self)@.action(event),
    {
        let mut state = State::Failed;
        core::mem::swap(&mut self.state, &mut state);
        match state {
            State::Installed(cell) => {
                self.state = State::Installed(cell);
                HandoffAction::Nothing
            },
            State::Failed => HandoffAction::Nothing,
            State::Launched => match event {
                HandoffEvent::InitializerBegan => {
                    self.state = State::Begun;
                    HandoffAction::ReadStore
                },
                _ => HandoffAction::Abort,
            },
            State::Begun => match event {
                HandoffEvent::StoreRead(read) => {
                    let restored = restore(read);
                    let keeper = PersistenceLoop::new(restored.record.clone());
                    self.state = State::Sent(SharedCell::new(restored.record));
                    HandoffAction::Deliver { keeper, complaint: restored.complaint }
                },
                _ => HandoffAction::Abort,
            },
            State::Sent(cell) => match event {
                HandoffEvent::CellReceived => {
                    self.state = State::Installed(cell);
                    HandoffAction::Serve
                },
                _ => HandoffAction::Abort,
            },
        }
    }

    /// The installed cell; none before it is installed.
    pub fn cell(&self) -> (r: Option<&SharedCell>)
        ensures
            match r {
                Some(cell) => self@.served() == Some(cell@),
                None => self@.served() is None,
            },
    {
        match &self.state {
            State::Installed(cell) => Some(cell),
            _ => None,
        }
    }

    /// Records that the loop has ended: nobody waits for the cell's changes any more.
    /// Without an installed cell nothing changes.
    pub fn stop_listening(&mut self)
        ensures
            final(self)@ == (match old(self)@.served() {
                Some(cell) => HandoffView {
                    cell: Some(CellView { listening: false, ..cell }),
                    ..old(self)@
                },
                None => old(self)@,
            }),
    {
        match &mut self.state {
            State::Installed(cell) => cell.stop_listening(),
            _ => {},
        }
    }

    /// Closes the installed cell, at shutdown. Without an installed cell nothing
    /// changes.
    pub fn close(&mut self)
        ensures
            final(self)@ == (match old(self)@.served() {
                Some(cell) => HandoffView {
                    cell: Some(CellView { closed: true, ..cell }),
                    ..old(self)@
                },
                None => old(self)@,
            }),
    {
        match &mut self.state {
            State::Installed(cell) => cell.close(),
            _ => {},
        }
    }

    /// Publishes a record in the installed cell. The record comes back where no cell is
    /// installed or nobody waits for its changes; the state is then as it was.
    pub fn publish(&mut self, value: AutofillData) -> (r: Result<(), AutofillData>)
        ensures
            match r {
                Ok(_) => old(self)@.can_publish() && final(self)@ == old(self)@.published(value@),
                Err(back) => !old(self)@.can_publish() && final(self)@ == old(self)@ && back@
                    == value@,
            },
            final(self)@ == old(self)@.after(Occurrence::Publish(value@)),
    {
        match &mut self.state {
            State::Installed(cell) => cell.publish(value),
            _ => Err(value),
        }
    }
}

/// Where a run of signals from launch leaves the handoff: each phase is reached by
/// exactly one run, that of the signals of a handoff in their order, and installed by
/// every run that begins with all three.
pub proof fn lemma_phase_after(signals: Seq<Signal>)
    ensures
        phase_after(signals) == Phase::Launched <==> signals.len() == 0,
        phase_after(signals) == Phase::Begun <==> signals =~= seq![Signal::Began],
        phase_after(signals) == Phase::Sent <==> signals =~= seq![
            Signal::Began,
            Signal::StoreRead,
        ],
        phase_after(signals) == Phase::Installed <==> signals.len() >= 3 && signals.subrange(0, 3)
            =~= seq![Signal::Began, Signal::StoreRead, Signal::CellReceived],
    decreases signals.len(),
{
    if signals.len() > 0 {
        lemma_phase_after(signals.drop_last());
        assert(signals.drop_last().len() >= 3 ==> signals.drop_last().subrange(0, 3)
            =~= signals.subrange(0, 3));
    }
}

/// Commands are served only after the whole handoff, in its order: the initializer
/// began, the store was read and the cell made, the initializer received the cell.
pub proof fn lemma_served_only_after_handoff(signals: Seq<Signal>)
    requires
        phase_after(signals) == Phase::Installed,
    ensures
        signals.len() >= 3,
        signals[0] == Signal::Began,
        signals[1] == Signal::StoreRead,
        signals[2] == Signal::CellReceived,
{
    lemma_phase_after(signals);
    assert(signals.subrange(0, 3)[0] == signals[0]);
    assert(signals.subrange(0, 3)[1] == signals[1]);
    assert(signals.subrange(0, 3)[2] == signals[2]);
}

/// The cell is installed once: the third signal installs it or none does, and no signal
/// after that changes the phase.
pub proof fn lemma_installed_once(signals: Seq<Signal>, n: int)
    requires
        0 <= n < signals.len(),
        phase_after(signals.subrange(0, n)) != Phase::Installed,
        phase_after(signals.subrange(0, n + 1)) == Phase::Installed,
    ensures
        n == 2,
{
    lemma_phase_after(signals.subrange(0, n));
    lemma_phase_after(signals.subrange(0, n + 1));
    if n > 2 {
        assert(signals.subrange(0, n).subrange(0, 3) =~= signals.subrange(0, n + 1).subrange(
            0,
            3,
        ));
    }
}

proof fn lemma_run(run: Seq<Occurrence>)
    ensures
        state_after(run).phase == phase_after(signals_of(run)),
        state_after(run).phase != Phase::Sent && state_after(run).phase != Phase::Installed
            ==> state_after(run).cell is None,
        state_after(run).phase == Phase::Launched || state_after(run).phase == Phase::Begun
            ==> first_read(run) is None,
        state_after(run).phase != Phase::Installed ==> last_published(run) is None,
        state_after(run).phase == Phase::Sent || state_after(run).phase == Phase::Installed ==> {
            &&& first_read(run) is Some
            &&& state_after(run).cell is Some
            &&& state_after(run).cell->0.listening
            &&& state_after(run).cell->0.value == (match last_published(run) {
                Some(value) => value,
                None => restored_record(read_view(first_read(run)->0)),
            })
        },
    decreases run.len(),
{
    if run.len() > 0 {
        let before = run.drop_last();
        lemma_run(before);
        match run.last() {
            Occurrence::Event(event) => {
                assert(signals_of(run).drop_last() =~= signals_of(before));
            },
            Occurrence::Publish(_) => {},
        }
    }
}

/// A command that asks for the record, come when it may, is answered with a record
/// exactly when the cell is installed, which takes the three signals of the handoff in
/// their order. The record is then the one that was published last, or the restored
/// one if none was; a record that came before the cell was installed was not taken.
/// Until then the command is told to wait, and it is told that there will be no cell
/// exactly when startup was given up.
pub proof fn lemma_load_answer(run: Seq<Occurrence>)
    ensures
        state_after(run).load_answer() is Ready <==> phase_after(signals_of(run))
            == Phase::Installed,
        state_after(run).load_answer() is Never <==> phase_after(signals_of(run)) == Phase::Failed,
        state_after(run).load_answer() is Ready ==> {
            &&& signals_of(run).len() >= 3
            &&& signals_of(run)[0] == Signal::Began
            &&& signals_of(run)[1] == Signal::StoreRead
            &&& signals_of(run)[2] == Signal::CellReceived
            &&& first_read(run) is Some
            &&& state_after(run).load_answer() == LoadAnswerView::Ready(
                match last_published(run) {
                    Some(value) => value,
                    None => restored_record(read_view(first_read(run)->0)),
                },
            )
        },
        !(state_after(run).load_answer() is Ready) ==> last_published(run) is None,
{
    lemma_run(run);
    if phase_after(signals_of(run)) == Phase::Installed {
        lemma_served_only_after_handoff(signals_of(run));
    }
}

} // verus!
