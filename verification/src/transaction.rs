//! The course of one change to the stored ledger: take the lock, load the
//! whole ledger, change it in memory, store the whole ledger, let go. What
//! is decided here is what to do next; the caller does it and reports back.

use crate::command::{
    applied, apply, ledger_is_sound, Command, CommandError, CommandView,
};
use crate::model::{ledger_view, Drug, DrugView};
use vstd::prelude::*;

verus! {

/// Why the store did not serve.
#[derive(Clone, Copy, Debug, PartialEq, Eq, Structural)]
pub enum StoreFault {
    /// The store could not be read or written.
    StoreUnavailable,
    /// What the store holds is no ledger.
    CorruptLedger,
}

/// Looks a loaded ledger through: a ledger is good if every record in it is
/// sound, and corrupt if one is not.
pub fn checked_ledger(records: Vec<Drug>) -> (r: Result<Vec<Drug>, StoreFault>)
    ensures
        match r {
            Ok(ledger) => ledger@ == records@ && ledger_is_sound(ledger_view(records@)),
            Err(e) => e == StoreFault::CorruptLedger && !ledger_is_sound(ledger_view(records@)),
        },
{
    let mut i: usize = 0;
    while i < records.len()
        invariant
            i <= records.len(),
            forall|j: int| 0 <= j < i ==> (#[trigger] ledger_view(records@)[j]).sound(),
        decreases records.len() - i,
    {
        if !records[i].is_sound() {
            assert(!ledger_view(records@)[i as int].sound());
            return Err(StoreFault::CorruptLedger);
        }
        i += 1;
    }
    Ok(records)
}

/// How a transaction ended.
#[derive(Clone, Copy, Debug, PartialEq, Eq, Structural)]
pub enum Outcome {
    /// The changed ledger is stored.
    Committed,
    /// The command was refused; nothing was stored.
    Rejected(CommandError),
    /// The store failed; the change counts as not made.
    Failed(StoreFault),
    /// An event came that was not due; nothing more is done.
    OutOfTurn,
}

/// Where a transaction stands.
#[derive(Clone, Copy, Debug, PartialEq, Eq, Structural)]
pub enum Stage {
    Fresh,
    WaitingForLock,
    WaitingForLedger,
    WaitingForStore,
    Finished,
}

/// What the caller reports.
#[derive(Debug)]
pub enum Event {
    /// The transaction is to start.
    Begin,
    /// The lock on the ledger is held.
    LockHeld,
    /// The store gave this ledger.
    Loaded(Vec<Drug>),
    /// The store gave no ledger.
    LoadFailed(StoreFault),
    /// The ledger handed out for storing is stored.
    Stored,
    /// The ledger handed out for storing could not be stored.
    StoreFailed,
}

/// What the caller is to do next.
#[derive(Debug)]
pub enum Action {
    /// Take the lock that keeps every other change out, then report
    /// `LockHeld`.
    AcquireLock,
    /// Load the whole ledger, then report `Loaded` or `LoadFailed`.
    Load,
    /// Store this ledger in place of what the store holds, then report
    /// `Stored` or `StoreFailed`.
    Store(Vec<Drug>),
    /// Let go of the lock if it is held, and answer the request.
    Finish(Outcome),
}

/// An event, a ledger in it by its view.
pub enum EventView {
    Begin,
    LockHeld,
    Loaded(Seq<DrugView>),
    LoadFailed(StoreFault),
    Stored,
    StoreFailed,
}

/// An action, a ledger in it by its view.
pub enum ActionView {
    AcquireLock,
    Load,
    Store(Seq<DrugView>),
    Finish(Outcome),
}

impl View for Event {
    type V = EventView;

    open spec fn view(&self) -> EventView {
        match self {
            Event::Begin => EventView::Begin,
            Event::LockHeld => EventView::LockHeld,
            Event::Loaded(ledger) => EventView::Loaded(ledger_view(ledger@)),
            Event::LoadFailed(fault) => EventView::LoadFailed(*fault),
            Event::Stored => EventView::Stored,
            Event::StoreFailed => EventView::StoreFailed,
        }
    }
}

impl View for Action {
    type V = ActionView;

    open spec fn view(&self) -> ActionView {
        match self {
            Action::AcquireLock => ActionView::AcquireLock,
            Action::Load => ActionView::Load,
            Action::Store(ledger) => ActionView::Store(ledger_view(ledger@)),
            Action::Finish(outcome) => ActionView::Finish(*outcome),
        }
    }
}

/// The stage that follows and the action that is due, for an event at a
/// stage of a transaction that carries `command`.
pub open spec fn next(stage: Stage, command: CommandView, event: EventView) -> (Stage, ActionView) {
    match (stage, event) {
        (Stage::Fresh, EventView::Begin) => (Stage::WaitingForLock, ActionView::AcquireLock),
        (Stage::WaitingForLock, EventView::LockHeld) => (Stage::WaitingForLedger, ActionView::Load),
        (Stage::WaitingForLedger, EventView::Loaded(ledger)) => match applied(command, ledger) {
            Ok(after) => (Stage::WaitingForStore, ActionView::Store(after)),
            Err(e) => (Stage::Finished, ActionView::Finish(Outcome::Rejected(e))),
        },
        (Stage::WaitingForLedger, EventView::LoadFailed(fault)) => (
            Stage::Finished,
            ActionView::Finish(Outcome::Failed(fault)),
        ),
        (Stage::WaitingForStore, EventView::Stored) => (
            Stage::Finished,
            ActionView::Finish(Outcome::Committed),
        ),
        (Stage::WaitingForStore, EventView::StoreFailed) => (
            Stage::Finished,
            ActionView::Finish(Outcome::Failed(StoreFault::StoreUnavailable)),
        ),
        _ => (Stage::Finished, ActionView::Finish(Outcome::OutOfTurn)),
    }
}

/// How far a stage is along the course of a transaction.
pub open spec fn progress(stage: Stage) -> nat {
    match stage {
        Stage::Fresh => 0,
        Stage::WaitingForLock => 1,
        Stage::WaitingForLedger => 2,
        Stage::WaitingForStore => 3,
        Stage::Finished => 4,
    }
}

/// One change to the stored ledger, from the request to the answer.
#[derive(Debug)]
pub struct Transaction {
    command: Command,
    stage: Stage,
}

impl Transaction {
    pub closed spec fn command_view(&self) -> CommandView {
        self.command@
    }

    pub closed spec fn stage_view(&self) -> Stage {
        self.stage
    }

    /// A transaction for `command`, not yet begun.
    pub fn new(command: Command) -> (t: Transaction)
        ensures
            t.command_view() == command@,
            t.stage_view() == Stage::Fresh,
    {
        Transaction { command, stage: Stage::Fresh }
    }

    pub fn stage(&self) -> (stage: Stage)
        ensures
            stage == self.stage_view(),
    {
        self.stage
    }

    pub fn command(&self) -> (command: &Command)
        ensures
            command@ == self.command_view(),
    {
        &self.command
    }

    /// Takes what the caller reports and says what is due next.
    pub fn advance(&mut self, event: Event) -> (action: Action)
        ensures
            (final(self).stage_view(), action@) == next(
                old(self).stage_view(),
                old(self).command_view(),
                event@,
            ),
            final(self).command_view() == old(self).command_view(),
    {
        match (self.stage, event) {
            (Stage::Fresh, Event::Begin) => {
                self.stage = Stage::WaitingForLock;
                Action::AcquireLock
            },
            (Stage::WaitingForLock, Event::LockHeld) => {
                self.stage = Stage::WaitingForLedger;
                Action::Load
            },
            (Stage::WaitingForLedger, Event::Loaded(ledger)) => {
                let mut ledger = ledger;
                match apply(&self.command, &mut ledger) {
                    Ok(()) => {
                        self.stage = Stage::WaitingForStore;
                        Action::Store(ledger)
                    },
                    Err(e) => {
                        self.stage = Stage::Finished;
                        Action::Finish(Outcome::Rejected(e))
                    },
                }
            },
            (Stage::WaitingForLedger, Event::LoadFailed(fault)) => {
                self.stage = Stage::Finished;
                Action::Finish(Outcome::Failed(fault))
            },
            (Stage::WaitingForStore, Event::Stored) => {
                self.stage = Stage::Finished;
                Action::Finish(Outcome::Committed)
            },
            (Stage::WaitingForStore, Event::StoreFailed) => {
                self.stage = Stage::Finished;
                Action::Finish(Outcome::Failed(StoreFault::StoreUnavailable))
            },
            _ => {
                self.stage = Stage::Finished;
                Action::Finish(Outcome::OutOfTurn)
            },
        }
    }
}

/// A transaction never goes back: every event takes it to a later stage,
/// and once finished it stays finished and does nothing more. So it takes
/// the lock, loads and stores once at most, and in that order.
pub proof fn law_transaction_advances(stage: Stage, command: CommandView, event: EventView)
    ensures
        stage != Stage::Finished ==> progress(next(stage, command, event).0) > progress(stage),
        stage == Stage::Finished ==> next(stage, command, event) == (
            Stage::Finished,
            ActionView::Finish(Outcome::OutOfTurn),
        ),
        next(stage, command, event).1 is Finish <==> next(stage, command, event).0
            == Stage::Finished,
{
}

/// Nothing is loaded but under the lock, and nothing is stored but what the
/// command made of the ledger that was loaded before under the same lock.
pub proof fn law_store_follows_load(stage: Stage, command: CommandView, event: EventView)
    ensures
        next(stage, command, event).1 is Load ==> stage == Stage::WaitingForLock && event
            is LockHeld,
        next(stage, command, event).0 == Stage::WaitingForLedger ==> stage
            == Stage::WaitingForLock,
        next(stage, command, event).1 matches ActionView::Store(stored) ==> stage
            == Stage::WaitingForLedger && (event matches EventView::Loaded(loaded) && applied(
            command,
            loaded,
        ) == Ok::<Seq<DrugView>, CommandError>(stored)),
{
}

} // verus!
