//! The topology reconciler: the decision procedure that brings the
//! workload's database and its collections in line with the configuration.
//!
//! The reconciler talks to nobody. It names the operation that is due
//! ([`Command`]); its driver performs it against the cluster and reports
//! what came of it ([`Event`]). An existing database is reused only if it is
//! complete; otherwise it is dropped and built anew, never patched.

use crate::arangodb::{outcome_view, ArangoError, ArangoErrorView};
use crate::text::{decimal, lemma_numbered_names_distinct};
use vstd::prelude::*;

verus! {

/// The operation that the driver performs next. Collections are numbered
/// from one.
#[derive(Debug, PartialEq, Eq)]
pub enum Command {
    /// Probe whether the database exists.
    CheckDatabase,
    /// Probe whether the collection with this number exists.
    CheckCollection(u32),
    /// Drop the database.
    DropDatabase,
    /// Create the database.
    CreateDatabase,
    /// Create the collection with this number.
    CreateCollection(u32),
    /// Insert the documents of the collection with this number.
    Populate(u32),
    /// Nothing is left to do. `Ok(true)`: the database was there and
    /// complete, and was left as it was; `Ok(false)`: it was built and
    /// populated in this pass; `Err`: an operation failed, and the pass
    /// ended there.
    Finish(Result<bool, ArangoError>),
}

pub enum CommandView {
    CheckDatabase,
    CheckCollection(u32),
    DropDatabase,
    CreateDatabase,
    CreateCollection(u32),
    Populate(u32),
    Finish(Result<bool, ArangoErrorView>),
}

impl View for Command {
    type V = CommandView;

    open spec fn view(&self) -> CommandView {
        match self {
            Command::CheckDatabase => CommandView::CheckDatabase,
            Command::CheckCollection(number) => CommandView::CheckCollection(*number),
            Command::DropDatabase => CommandView::DropDatabase,
            Command::CreateDatabase => CommandView::CreateDatabase,
            Command::CreateCollection(number) => CommandView::CreateCollection(*number),
            Command::Populate(number) => CommandView::Populate(*number),
            Command::Finish(Ok(existed)) => CommandView::Finish(Ok(*existed)),
            Command::Finish(Err(error)) => CommandView::Finish(Err(error@)),
        }
    }
}

/// What came of the operation that was due.
#[derive(Debug, PartialEq, Eq)]
pub enum Event {
    /// The answer to a probe.
    Exists(bool),
    /// The result of a drop, a creation or a population.
    Done(Result<(), ArangoError>),
}

pub enum EventView {
    Exists(bool),
    Done(Result<(), ArangoErrorView>),
}

impl View for Event {
    type V = EventView;

    open spec fn view(&self) -> EventView {
        match self {
            Event::Exists(exists) => EventView::Exists(*exists),
            Event::Done(outcome) => EventView::Done(outcome_view(*outcome)),
        }
    }
}

/// The name of the collection with this number.
pub open spec fn collection_name(number: nat) -> Seq<char> {
    "c"@ + decimal(number)
}

/// Collections with different numbers have different names.
pub proof fn lemma_collection_names_distinct(a: nat, b: nat)
    requires
        a != b,
    ensures
        collection_name(a) != collection_name(b),
{
    lemma_numbered_names_distinct("c"@, a, b);
}

/// Where the probing of collections goes on: at the collection with this
/// number if there is one, and else the database is complete.
pub open spec fn check_from(number_of_collections: u32, number: int) -> CommandView {
    if 1 <= number <= number_of_collections {
        CommandView::CheckCollection(number as u32)
    } else {
        CommandView::Finish(Ok(true))
    }
}

/// Where the building of collections goes on: at the collection with this
/// number if there is one, and else the database is built.
pub open spec fn create_from(number_of_collections: u32, number: int) -> CommandView {
    if 1 <= number <= number_of_collections {
        CommandView::CreateCollection(number as u32)
    } else {
        CommandView::Finish(Ok(false))
    }
}

/// The operation that is due after `event` has answered `pending`. An
/// event of the wrong kind for `pending`, or any event after the end,
/// changes nothing.
pub open spec fn next_command(
    number_of_collections: u32,
    drop_first: bool,
    pending: CommandView,
    event: EventView,
) -> CommandView {
    match (pending, event) {
        (CommandView::CheckDatabase, EventView::Exists(exists)) => if !exists {
            CommandView::CreateDatabase
        } else if drop_first {
            CommandView::DropDatabase
        } else {
            check_from(number_of_collections, 1)
        },
        (CommandView::CheckCollection(number), EventView::Exists(exists)) => if exists {
            check_from(number_of_collections, number + 1)
        } else {
            CommandView::DropDatabase
        },
        (CommandView::DropDatabase, EventView::Done(Ok(_))) => CommandView::CreateDatabase,
        (CommandView::CreateDatabase, EventView::Done(Ok(_))) => create_from(
            number_of_collections,
            1,
        ),
        (CommandView::CreateCollection(number), EventView::Done(Ok(_))) => CommandView::Populate(
            number,
        ),
        (CommandView::Populate(number), EventView::Done(Ok(_))) => create_from(
            number_of_collections,
            number + 1,
        ),
        (CommandView::DropDatabase, EventView::Done(Err(error))) => CommandView::Finish(Err(error)),
        (CommandView::CreateDatabase, EventView::Done(Err(error))) => CommandView::Finish(
            Err(error),
        ),
        (CommandView::CreateCollection(_), EventView::Done(Err(error))) => CommandView::Finish(
            Err(error),
        ),
        (CommandView::Populate(_), EventView::Done(Err(error))) => CommandView::Finish(Err(error)),
        _ => pending,
    }
}

/// The state of one reconciliation pass.
#[derive(Debug)]
pub struct Reconciler {
    number_of_collections: u32,
    drop_first: bool,
    pending: Command,
}

pub struct ReconcilerView {
    pub number_of_collections: u32,
    pub drop_first: bool,
    pub pending: CommandView,
}

impl View for Reconciler {
    type V = ReconcilerView;

    closed spec fn view(&self) -> ReconcilerView {
        ReconcilerView {
            number_of_collections: self.number_of_collections,
            drop_first: self.drop_first,
            pending: self.pending@,
        }
    }
}

impl Reconciler {
    /// A pass that has done nothing yet: the probe of the database is due.
    pub fn new(number_of_collections: u32, drop_first: bool) -> (reconciler: Reconciler)
        ensures
            reconciler@ == (ReconcilerView {
                number_of_collections,
                drop_first,
                pending: CommandView::CheckDatabase,
            }),
    {
        Reconciler { number_of_collections, drop_first, pending: Command::CheckDatabase }
    }

    /// The operation that is due.
    pub fn command(&self) -> (command: &Command)
        ensures
            command@ == self@.pending,
    {
        &self.pending
    }

    fn check_from(&self, number: u32) -> (command: Command)
        requires
            number >= 1,
        ensures
            command@ == check_from(self@.number_of_collections, number as int),
    {
        if number <= self.number_of_collections {
            Command::CheckCollection(number)
        } else {
            Command::Finish(Ok(true))
        }
    }

    fn create_from(&self, number: u32) -> (command: Command)
        requires
            number >= 1,
        ensures
            command@ == create_from(self@.number_of_collections, number as int),
    {
        if number <= self.number_of_collections {
            Command::CreateCollection(number)
        } else {
            Command::Finish(Ok(false))
        }
    }

    fn after_existence(&self, exists: bool) -> (next: Option<Command>)
        ensures
            match next {
                Some(command) => command@ == next_command(
                    self@.number_of_collections,
                    self@.drop_first,
                    self@.pending,
                    EventView::Exists(exists),
                ),
                None => self@.pending == next_command(
                    self@.number_of_collections,
                    self@.drop_first,
                    self@.pending,
                    EventView::Exists(exists),
                ),
            },
    {
        match &self.pending {
            Command::CheckDatabase => {
                if !exists {
                    Some(Command::CreateDatabase)
                } else if self.drop_first {
                    Some(Command::DropDatabase)
                } else {
                    Some(self.check_from(1))
                }
            },
            Command::CheckCollection(number) => {
                if !exists {
                    Some(Command::DropDatabase)
                } else if *number < self.number_of_collections {
                    Some(self.check_from(*number + 1))
                } else {
                    Some(Command::Finish(Ok(true)))
                }
            },
            _ => None,
        }
    }

    fn after_success(&self) -> (next: Option<Command>)
        ensures
            match next {
                Some(command) => command@ == next_command(
                    self@.number_of_collections,
                    self@.drop_first,
                    self@.pending,
                    EventView::Done(Ok(())),
                ),
                None => self@.pending == next_command(
                    self@.number_of_collections,
                    self@.drop_first,
                    self@.pending,
                    EventView::Done(Ok(())),
                ),
            },
    {
        match &self.pending {
            Command::DropDatabase => Some(Command::CreateDatabase),
            Command::CreateDatabase => Some(self.create_from(1)),
            Command::CreateCollection(number) => Some(Command::Populate(*number)),
            Command::Populate(number) => {
                if *number < self.number_of_collections {
                    Some(self.create_from(*number + 1))
                } else {
                    Some(Command::Finish(Ok(false)))
                }
            },
            _ => None,
        }
    }

    fn awaits_result(&self) -> (awaited: bool)
        ensures
            awaited == (self@.pending is DropDatabase || self@.pending is CreateDatabase
                || self@.pending is CreateCollection || self@.pending is Populate),
    {
        match &self.pending {
            Command::DropDatabase => true,
            Command::CreateDatabase => true,
            Command::CreateCollection(_) => true,
            Command::Populate(_) => true,
            _ => false,
        }
    }

    /// Takes in what came of the operation that was due, and decides which
    /// one is due now.
    pub fn advance(&mut self, event: Event)
        ensures
            final(self)@ == (ReconcilerView {
                pending: next_command(
                    old(self)@.number_of_collections,
                    old(self)@.drop_first,
                    old(self)@.pending,
                    event@,
                ),
                ..old(self)@
            }),
    {
        let next: Option<Command> = match event {
            Event::Exists(exists) => self.after_existence(exists),
            Event::Done(Ok(_)) => self.after_success(),
            Event::Done(Err(error)) => {
                if self.awaits_result() {
                    Some(Command::Finish(Err(error)))
                } else {
                    None
                }
            },
        };
        match next {
            Some(command) => {
                self.pending = command;
            },
            None => {},
        }
    }
}

} // verus!
