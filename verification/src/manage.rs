//! Creating, renaming and dropping managed Databases: the order of the work, and what a failure at
//! each point leaves.

use vstd::prelude::*;

use crate::catalog::{
    is_hyphenated_uuid, is_summary_of, names_sorted, random_identity, uuid_parses, valid_catalog,
    validate_catalog, Catalog, OPERATION_VERSION,
};
use crate::client::{DatabaseSummary, IoFailure};
use crate::execution::{database_failure, database_failure_view, DatabaseError};
use crate::failure::{
    busy, busy_view, internal, internal_view, FailureView, ProtocolFailure, ServerError,
};
use crate::lifecycle::{admit_create, create_refusal, is_creation, plan_create, CatalogChange};
use crate::path::{join, joined};
use crate::restore::failure_view;
use crate::text::{join2, join3};

verus! {

/// The kinds of catalog changes.
#[derive(Clone, Copy, Debug, PartialEq, Eq, Structural)]
pub enum OperationKind {
    /// A Database was created.
    Create,
    /// A Database was renamed.
    Rename,
    /// A Database was dropped.
    Drop,
}

/// The journal of a catalog change.
#[derive(Debug, PartialEq, Eq)]
pub struct OperationJournal {
    /// Journal format version.
    pub operation_version: u32,
    /// The kind of the change.
    pub kind: OperationKind,
    /// The Database that the change is about.
    pub database_id: String,
    /// The catalog before the change.
    pub before: Catalog,
    /// The catalog after the change.
    pub after: Catalog,
}

/// Where a catalog change stands.
#[derive(Clone, Copy, Debug, PartialEq, Eq, Structural)]
pub enum TransitionStep {
    /// Write the journal.
    WriteJournal,
    /// Write the catalog.
    WriteCatalog,
    /// Remove the journal of a change that did not come about.
    RemoveJournal,
    /// The change is over.
    Finished,
}

/// A running catalog change.
pub struct Transition {
    /// The journal.
    pub journal: OperationJournal,
    /// Where the change stands.
    pub step: TransitionStep,
    /// The failure that it reports in the end, if any.
    pub error: Option<ServerError>,
}

/// The step that follows `step`; `done` says whether its work succeeded.
pub open spec fn transition_next(step: TransitionStep, done: bool) -> TransitionStep {
    match step {
        TransitionStep::WriteJournal => if done {
            TransitionStep::WriteCatalog
        } else {
            TransitionStep::Finished
        },
        TransitionStep::WriteCatalog => if done {
            TransitionStep::Finished
        } else {
            TransitionStep::RemoveJournal
        },
        _ => TransitionStep::Finished,
    }
}

impl Transition {
    /// Starts changing `catalog` into `next`, which must be valid.
    pub fn start(catalog: &Catalog, next: &Catalog, kind: OperationKind, database_id: &str) -> (result:
        Result<Transition, ServerError>)
        ensures
            result is Ok <==> valid_catalog(next@),
            match result {
                Ok(transition) => {
                    &&& transition.step is WriteJournal
                    &&& transition.error is None
                    &&& transition.journal.operation_version == OPERATION_VERSION
                    &&& transition.journal.kind == kind
                    &&& transition.journal.database_id@ == database_id@
                    &&& transition.journal.before@ == catalog@
                    &&& transition.journal.after@ == next@
                },
                Err(error) => crate::catalog::catalog_error(
                    next@,
                    crate::catalog::identified_by_uuid(next@.databases),
                ) == Some(error@),
            },
    {
        match validate_catalog(next) {
            Err(error) => Err(error),
            Ok(()) => Ok(
                Transition {
                    journal: OperationJournal {
                        operation_version: OPERATION_VERSION,
                        kind,
                        database_id: database_id.to_owned(),
                        before: catalog.copy(),
                        after: next.copy(),
                    },
                    step: TransitionStep::WriteJournal,
                    error: None,
                },
            ),
        }
    }

    /// Takes in what came of the step's work. A journal that cannot be removed stays for the next
    /// start, which finds the catalog as it was.
    pub fn advance(&mut self, event: Result<(), ServerError>)
        requires
            !(old(self).step is Finished),
        ensures
            final(self).journal == old(self).journal,
            final(self).step == transition_next(old(self).step, event is Ok),
            final(self).error == (if event is Err && !(old(self).step is RemoveJournal) {
                Some(event->Err_0)
            } else {
                old(self).error
            }),
    {
        match self.step {
            TransitionStep::WriteJournal => match event {
                Ok(()) => {
                    self.step = TransitionStep::WriteCatalog;
                },
                Err(error) => {
                    self.step = TransitionStep::Finished;
                    self.error = Some(error);
                },
            },
            TransitionStep::WriteCatalog => match event {
                Ok(()) => {
                    self.step = TransitionStep::Finished;
                },
                Err(error) => {
                    self.step = TransitionStep::RemoveJournal;
                    self.error = Some(error);
                },
            },
            _ => {
                self.step = TransitionStep::Finished;
            },
        }
    }

    /// The catalog that holds once the change is over, or why it did not come about.
    pub fn result(self) -> (result: Result<Catalog, ServerError>)
        requires
            self.step is Finished,
        ensures
            match self.error {
                Some(error) => result == Err::<Catalog, ServerError>(error),
                None => result == Ok::<Catalog, ServerError>(self.journal.after),
            },
    {
        match self.error {
            Some(error) => Err(error),
            None => Ok(self.journal.after),
        }
    }
}

/// Hands on the result of a committed change. A journal that could not be removed is no failure
/// of it: the next start removes it.
pub fn preserve_committed_lifecycle_result<T>(
    result: T,
    operation: &str,
    cleanup: Result<(), ServerError>,
) -> (preserved: T)
    ensures
        preserved == result,
{
    result
}

/// Hands on the result of an import. A temporary directory that could not be removed changes
/// nothing of it.
pub fn preserve_protocol_result_after_cleanup<T>(
    result: Result<T, ProtocolFailure>,
    path: &str,
    cleanup: Result<(), IoFailure>,
) -> (preserved: Result<T, ProtocolFailure>)
    ensures
        preserved == result,
{
    result
}

/// What came of the work of a creation or a drop.
pub enum LifecycleEvent {
    /// It succeeded.
    Done,
    /// It failed.
    Failed(String),
    /// The storage engine refused it.
    Refused(DatabaseError),
    /// Whether a file exists.
    Exists(bool),
    /// The map of open Databases cannot be used.
    MapPoisoned,
    /// The Database's lock cannot be used.
    LockPoisoned,
    /// The Database is not in the map of open Databases.
    Missing,
    /// Another operation holds the Database.
    Unavailable,
}

/// Where a creation stands.
#[derive(Clone, Copy, Debug, PartialEq, Eq, Structural)]
pub enum CreateStep {
    /// Make the Database's directory.
    MakeDirectory,
    /// Create the Database in it.
    CreateDatabase,
    /// Remove the directory of a Database that was not created.
    RemoveDirectory,
    /// Change the catalog.
    ChangeCatalog,
    /// Close the Database and move its directory out of the way.
    Quarantine,
    /// Add the Database to the map of open ones.
    Register,
    /// Remove the journal of the catalog change.
    ForgetJournal,
    /// The creation is over.
    Finished,
}

/// The reports that a step of a creation can have.
pub open spec fn create_event_fits(step: CreateStep, event: LifecycleEvent) -> bool {
    match step {
        CreateStep::CreateDatabase => event is Done || event is Refused,
        CreateStep::Register => event is Done || event is MapPoisoned,
        CreateStep::Finished => false,
        _ => event is Done || event is Failed,
    }
}

/// The step that follows `step` after `event`.
pub open spec fn create_next(step: CreateStep, event: LifecycleEvent) -> CreateStep {
    let done = event is Done;
    match step {
        CreateStep::MakeDirectory => if done {
            CreateStep::CreateDatabase
        } else {
            CreateStep::Finished
        },
        CreateStep::CreateDatabase => if done {
            CreateStep::ChangeCatalog
        } else {
            CreateStep::RemoveDirectory
        },
        CreateStep::ChangeCatalog => if done {
            CreateStep::Register
        } else {
            CreateStep::Quarantine
        },
        CreateStep::Register => if done {
            CreateStep::ForgetJournal
        } else {
            CreateStep::Finished
        },
        _ => CreateStep::Finished,
    }
}

/// The failure that a creation holds after `event` at `step`.
pub open spec fn create_failure(
    step: CreateStep,
    event: LifecycleEvent,
    failure: Option<FailureView>,
) -> Option<FailureView> {
    match step {
        CreateStep::MakeDirectory | CreateStep::ChangeCatalog => match event {
            LifecycleEvent::Failed(message) => Some(internal_view(message@)),
            _ => failure,
        },
        CreateStep::CreateDatabase => match event {
            LifecycleEvent::Refused(error) => Some(database_failure_view(error, false)),
            _ => failure,
        },
        CreateStep::Register => if event is Done {
            failure
        } else {
            Some(internal_view("managed Database map is poisoned"@))
        },
        _ => failure,
    }
}

/// A running creation.
pub struct CreateMachine {
    /// The catalog with the new Database, and its entry.
    pub change: CatalogChange,
    /// Where the creation stands.
    pub step: CreateStep,
    /// The failure that it reports in the end, if any.
    pub failure: Option<ProtocolFailure>,
}

impl CreateMachine {
    /// Starts creating a Database under `name`, with a fresh random identity.
    pub fn start(catalog: &Catalog, name: &str) -> (result: Result<Self, ProtocolFailure>)
        requires
            names_sorted(catalog@.databases),
        ensures
            match result {
                Ok(machine) => {
                    &&& create_refusal(catalog@.databases, name@) is None
                    &&& machine.change.entry@.name == name@
                    &&& machine.change.entry@.state == "ready"@
                    &&& is_hyphenated_uuid(machine.change.entry@.id)
                    &&& uuid_parses(machine.change.entry@.id)
                    &&& is_creation(catalog@, machine.change.catalog@, machine.change.entry@)
                    &&& machine.step is MakeDirectory
                    &&& machine.failure is None
                },
                Err(failure) => create_refusal(catalog@.databases, name@) == Some(failure@),
            },
    {
        match admit_create(catalog, name) {
            Err(failure) => Err(failure),
            Ok(()) => {
                let id = random_identity();
                Ok(
                    CreateMachine {
                        change: plan_create(catalog, id.as_str(), name),
                        step: CreateStep::MakeDirectory,
                        failure: None,
                    },
                )
            },
        }
    }

    /// Takes in what came of the step's work.
    pub fn advance(&mut self, event: LifecycleEvent)
        requires
            create_event_fits(old(self).step, event),
        ensures
            final(self).change == old(self).change,
            final(self).step == create_next(old(self).step, event),
            failure_view(final(self).failure) == create_failure(
                old(self).step,
                event,
                failure_view(old(self).failure),
            ),
    {
        match self.step {
            CreateStep::MakeDirectory => match event {
                LifecycleEvent::Failed(message) => {
                    self.failure = Some(internal(message.as_str()));
                    self.step = CreateStep::Finished;
                },
                _ => {
                    self.step = CreateStep::CreateDatabase;
                },
            },
            CreateStep::CreateDatabase => match event {
                LifecycleEvent::Refused(error) => {
                    self.failure = Some(database_failure(error, false));
                    self.step = CreateStep::RemoveDirectory;
                },
                _ => {
                    self.step = CreateStep::ChangeCatalog;
                },
            },
            CreateStep::ChangeCatalog => match event {
                LifecycleEvent::Failed(message) => {
                    self.failure = Some(internal(message.as_str()));
                    self.step = CreateStep::Quarantine;
                },
                _ => {
                    self.step = CreateStep::Register;
                },
            },
            CreateStep::Register => match event {
                LifecycleEvent::Done => {
                    self.step = CreateStep::ForgetJournal;
                },
                _ => {
                    self.failure = Some(internal("managed Database map is poisoned"));
                    self.step = CreateStep::Finished;
                },
            },
            _ => {
                self.step = CreateStep::Finished;
            },
        }
    }

    /// What the creation reports once it is over.
    pub fn result(self) -> (result: Result<DatabaseSummary, ProtocolFailure>)
        requires
            self.step is Finished,
        ensures
            match self.failure {
                Some(failure) => result == Err::<DatabaseSummary, ProtocolFailure>(failure),
                None => result is Ok && is_summary_of(result->Ok_0, self.change.entry@),
            },
    {
        match self.failure {
            Some(failure) => Err(failure),
            None => Ok(self.change.entry.summary()),
        }
    }
}

/// Where the storage of a Database that could not be created is moved.
pub fn failed_create_directory(data_directory: &str, id: &str) -> (path: String)
    ensures
        path@ == joined(joined(data_directory@, "recovery"@), "failed-create-"@ + id@),
{
    join(join(data_directory, "recovery").as_str(), join2("failed-create-", id).as_str())
}

/// What a rename reports, from what came of the catalog change.
pub fn finish_rename(change: CatalogChange, changed: Result<(), ServerError>) -> (result: Result<
    DatabaseSummary,
    ProtocolFailure,
>)
    ensures
        match changed {
            Ok(()) => result is Ok && is_summary_of(result->Ok_0, change.entry@),
            Err(error) => result is Err && result->Err_0@ == internal_view(error@),
        },
{
    match changed {
        Ok(()) => Ok(change.entry.summary()),
        Err(error) => Err(internal(error.text())),
    }
}

/// Where a drop stands.
#[derive(Clone, Copy, Debug, PartialEq, Eq, Structural)]
pub enum DropStep {
    /// Look whether the trash has a place for the Database.
    CheckTrash,
    /// Take the Database out of its handle.
    Take,
    /// Checkpoint it.
    Checkpoint,
    /// Put it back after a refused checkpoint.
    Reinstate,
    /// Close it and take its handle out of the map of open Databases.
    Close,
    /// Change the catalog.
    ChangeCatalog,
    /// Open the Database again after the catalog could not be changed.
    Reopen,
    /// Put it back into its handle, and the handle into the map.
    PutBack,
    /// Move its directory to the trash.
    MoveToTrash,
    /// Remove the journal of the catalog change.
    ForgetJournal,
    /// The drop is over.
    Finished,
}

/// The reports that a step of a drop can have.
pub open spec fn drop_event_fits(step: DropStep, event: LifecycleEvent) -> bool {
    match step {
        DropStep::CheckTrash => event is Exists,
        DropStep::Take => event is Done || event is MapPoisoned || event is Missing
            || event is LockPoisoned || event is Unavailable,
        DropStep::Checkpoint => event is Done || event is Refused,
        DropStep::Reinstate | DropStep::Close => event is Done,
        DropStep::PutBack => event is Done || event is LockPoisoned || event is MapPoisoned,
        DropStep::Finished => false,
        _ => event is Done || event is Failed,
    }
}

/// The step that follows `step` after `event`.
pub open spec fn drop_next(step: DropStep, event: LifecycleEvent) -> DropStep {
    let done = event is Done;
    match step {
        DropStep::CheckTrash => if event == LifecycleEvent::Exists(true) {
            DropStep::Finished
        } else {
            DropStep::Take
        },
        DropStep::Take => if done {
            DropStep::Checkpoint
        } else {
            DropStep::Finished
        },
        DropStep::Checkpoint => if done {
            DropStep::Close
        } else {
            DropStep::Reinstate
        },
        DropStep::Close => DropStep::ChangeCatalog,
        DropStep::ChangeCatalog => if done {
            DropStep::MoveToTrash
        } else {
            DropStep::Reopen
        },
        DropStep::Reopen => if done {
            DropStep::PutBack
        } else {
            DropStep::Finished
        },
        DropStep::MoveToTrash => if done {
            DropStep::ForgetJournal
        } else {
            DropStep::Finished
        },
        _ => DropStep::Finished,
    }
}

/// The message of a held failure.
pub open spec fn held_message(failure: Option<FailureView>) -> Seq<char> {
    match failure {
        Some(failure) => failure.message,
        None => Seq::empty(),
    }
}

/// The failure that a drop holds after `event` at `step`.
pub open spec fn drop_failure(
    step: DropStep,
    event: LifecycleEvent,
    failure: Option<FailureView>,
) -> Option<FailureView> {
    match step {
        DropStep::CheckTrash => if event == LifecycleEvent::Exists(true) {
            Some(internal_view("Database trash target already exists"@))
        } else {
            failure
        },
        DropStep::Take | DropStep::PutBack => match event {
            LifecycleEvent::MapPoisoned => Some(
                internal_view("managed Database map is poisoned"@),
            ),
            LifecycleEvent::Missing => Some(internal_view("managed Database handle is missing"@)),
            LifecycleEvent::LockPoisoned => Some(
                internal_view("managed Database lock is poisoned"@),
            ),
            LifecycleEvent::Unavailable => Some(busy_view()),
            _ => failure,
        },
        DropStep::Checkpoint => match event {
            LifecycleEvent::Refused(error) => Some(database_failure_view(error, false)),
            _ => failure,
        },
        DropStep::ChangeCatalog | DropStep::MoveToTrash => match event {
            LifecycleEvent::Failed(message) => Some(internal_view(message@)),
            _ => failure,
        },
        DropStep::Reopen => match event {
            LifecycleEvent::Failed(message) => Some(
                internal_view(
                    "catalog drop failed ("@ + held_message(failure)
                        + ") and Database could not reopen: "@ + message@,
                ),
            ),
            _ => failure,
        },
        _ => failure,
    }
}

/// A running drop.
pub struct DropMachine {
    /// The catalog without the Database, and its entry.
    pub change: CatalogChange,
    /// Where the drop stands.
    pub step: DropStep,
    /// The failure that it reports in the end, if any.
    pub failure: Option<ProtocolFailure>,
}

impl DropMachine {
    /// Starts a drop that was admitted.
    pub fn start(change: CatalogChange) -> (machine: Self)
        ensures
            machine.change == change,
            machine.step is CheckTrash,
            machine.failure is None,
    {
        DropMachine { change, step: DropStep::CheckTrash, failure: None }
    }

    fn following(step: DropStep, event: &LifecycleEvent) -> (next: DropStep)
        ensures
            next == drop_next(step, *event),
    {
        let done: bool = matches!(event, LifecycleEvent::Done);
        match step {
            DropStep::CheckTrash => match event {
                LifecycleEvent::Exists(exists) => if *exists {
                    DropStep::Finished
                } else {
                    DropStep::Take
                },
                _ => DropStep::Take,
            },
            DropStep::Take => if done {
                DropStep::Checkpoint
            } else {
                DropStep::Finished
            },
            DropStep::Checkpoint => if done {
                DropStep::Close
            } else {
                DropStep::Reinstate
            },
            DropStep::Close => DropStep::ChangeCatalog,
            DropStep::ChangeCatalog => if done {
                DropStep::MoveToTrash
            } else {
                DropStep::Reopen
            },
            DropStep::Reopen => if done {
                DropStep::PutBack
            } else {
                DropStep::Finished
            },
            DropStep::MoveToTrash => if done {
                DropStep::ForgetJournal
            } else {
                DropStep::Finished
            },
            _ => DropStep::Finished,
        }
    }

    fn noted(step: DropStep, event: LifecycleEvent, failure: Option<ProtocolFailure>) -> (next:
        Option<ProtocolFailure>)
        ensures
            failure_view(next) == drop_failure(step, event, failure_view(failure)),
    {
        match step {
            DropStep::CheckTrash => match event {
                LifecycleEvent::Exists(exists) => if exists {
                    Some(internal("Database trash target already exists"))
                } else {
                    failure
                },
                _ => failure,
            },
            DropStep::Take | DropStep::PutBack => match event {
                LifecycleEvent::MapPoisoned => Some(internal("managed Database map is poisoned")),
                LifecycleEvent::Missing => Some(internal("managed Database handle is missing")),
                LifecycleEvent::LockPoisoned => Some(internal("managed Database lock is poisoned")),
                LifecycleEvent::Unavailable => Some(busy()),
                _ => failure,
            },
            DropStep::Checkpoint => match event {
                LifecycleEvent::Refused(error) => Some(database_failure(error, false)),
                _ => failure,
            },
            DropStep::ChangeCatalog | DropStep::MoveToTrash => match event {
                LifecycleEvent::Failed(message) => Some(internal(message.as_str())),
                _ => failure,
            },
            DropStep::Reopen => match event {
                LifecycleEvent::Failed(message) => {
                    let cause = match &failure {
                        Some(failure) => failure.message.clone(),
                        None => String::new(),
                    };
                    let prefix = join3(
                        "catalog drop failed (",
                        cause.as_str(),
                        ") and Database could not reopen: ",
                    );
                    Some(internal(join2(prefix.as_str(), message.as_str()).as_str()))
                },
                _ => failure,
            },
            _ => failure,
        }
    }

    /// Takes in what came of the step's work.
    pub fn advance(&mut self, event: LifecycleEvent)
        requires
            drop_event_fits(old(self).step, event),
        ensures
            final(self).change == old(self).change,
            final(self).step == drop_next(old(self).step, event),
            failure_view(final(self).failure) == drop_failure(
                old(self).step,
                event,
                failure_view(old(self).failure),
            ),
    {
        let step = self.step;
        let next = Self::following(step, &event);
        let failure = self.failure.take();
        self.failure = Self::noted(step, event, failure);
        self.step = next;
    }

    /// What the drop reports once it is over.
    pub fn result(self) -> (result: Result<DatabaseSummary, ProtocolFailure>)
        requires
            self.step is Finished,
        ensures
            match self.failure {
                Some(failure) => result == Err::<DatabaseSummary, ProtocolFailure>(failure),
                None => result is Ok && is_summary_of(result->Ok_0, self.change.entry@),
            },
    {
        match self.failure {
            Some(failure) => Err(failure),
            None => Ok(self.change.entry.summary()),
        }
    }
}

/// Whether a Database is served.
#[derive(Clone, Copy, PartialEq, Eq, Structural)]
pub enum Service {
    /// Its handle serves it.
    Open,
    /// An operation has taken it out of its handle.
    Taken,
    /// It is closed.
    Closed,
}

/// What a creation or a drop changes.
pub struct LifecycleWorld {
    /// Whether the durable catalog lists the Database.
    pub listed: bool,
    /// Whether the journal of the change exists.
    pub journal: bool,
    /// Whether the Database's directory is among the active ones.
    pub active: bool,
    /// Whether the Database's directory is in the trash.
    pub trashed: bool,
    /// Whether the Database is served.
    pub service: Service,
    /// Whether the Database could not be opened or put back after a catalog change failed.
    pub stranded: bool,
    /// Whether a catalog change that was reported as failed took effect all the same, or may have:
    /// neither it nor its undoing came through.
    pub torn: bool,
}

/// What a failed change of the catalog may leave: the catalog as it was, or torn. The journal is
/// removed where that succeeds.
pub open spec fn change_failed(before: LifecycleWorld, after: LifecycleWorld) -> bool {
    ||| after == LifecycleWorld { journal: after.journal, ..before }
    ||| after == LifecycleWorld {
        journal: after.journal,
        listed: after.listed,
        torn: true,
        ..before
    }
}

/// What the work of a drop's step does, a failed change of the catalog aside.
pub open spec fn drop_performed(
    step: DropStep,
    event: LifecycleEvent,
    before: LifecycleWorld,
) -> LifecycleWorld {
    let done = event is Done;
    match step {
        DropStep::Take => if done {
            LifecycleWorld { service: Service::Taken, ..before }
        } else {
            before
        },
        DropStep::Reinstate => LifecycleWorld { service: Service::Open, ..before },
        DropStep::Close => LifecycleWorld { service: Service::Closed, ..before },
        DropStep::ChangeCatalog => if done {
            LifecycleWorld { listed: false, journal: true, ..before }
        } else {
            before
        },
        DropStep::Reopen => if done {
            before
        } else {
            LifecycleWorld { stranded: true, ..before }
        },
        DropStep::PutBack => if done {
            LifecycleWorld { service: Service::Open, ..before }
        } else {
            LifecycleWorld { stranded: true, ..before }
        },
        DropStep::MoveToTrash => if done {
            LifecycleWorld { active: false, trashed: true, ..before }
        } else {
            before
        },
        DropStep::ForgetJournal => if done {
            LifecycleWorld { journal: false, ..before }
        } else {
            before
        },
        _ => before,
    }
}

/// Whether `after` can come of `event` at a drop's step.
pub open spec fn drop_outcome(
    step: DropStep,
    event: LifecycleEvent,
    before: LifecycleWorld,
    after: LifecycleWorld,
) -> bool {
    if step is ChangeCatalog && event !is Done {
        change_failed(before, after)
    } else {
        after == drop_performed(step, event, before)
    }
}

spec fn still_listed(world: LifecycleWorld, service: Service) -> bool {
    &&& world.listed || world.torn
    &&& world.active
    &&& !world.trashed
    &&& !world.stranded
    &&& world.service == service
}

/// What holds at each step of a drop that started in `start`.
pub closed spec fn drop_invariant(
    step: DropStep,
    failed: bool,
    start: LifecycleWorld,
    world: LifecycleWorld,
) -> bool {
    match step {
        DropStep::CheckTrash | DropStep::Take => !failed && world == start,
        DropStep::Checkpoint => !failed && world.listed && still_listed(world, Service::Taken),
        DropStep::Reinstate => failed && world.listed && still_listed(world, Service::Taken),
        DropStep::Close => !failed && world.listed && still_listed(world, Service::Taken),
        DropStep::ChangeCatalog => !failed && world.listed && still_listed(world, Service::Closed),
        DropStep::Reopen | DropStep::PutBack => failed && still_listed(world, Service::Closed),
        DropStep::MoveToTrash => !failed && !world.listed && world.journal && world.active
            && !world.trashed && world.service is Closed,
        DropStep::ForgetJournal => !failed && !world.listed && !world.active && world.trashed
            && world.service is Closed,
        DropStep::Finished => if failed {
            ||| world == start
            ||| still_listed(world, Service::Open)
            ||| (world.listed || world.torn) && world.active && world.stranded
            ||| !world.listed && world.journal && world.active && !world.trashed
        } else {
            !world.listed && !world.active && world.trashed && world.service is Closed
        },
    }
}

/// A drop starts with its invariant.
pub proof fn law_drop_begins(start: LifecycleWorld)
    ensures
        drop_invariant(DropStep::CheckTrash, false, start, start),
{
}

/// The work of every step of a drop keeps its invariant.
pub proof fn law_drop_keeps_invariant(
    step: DropStep,
    event: LifecycleEvent,
    failure: Option<FailureView>,
    start: LifecycleWorld,
    before: LifecycleWorld,
    after: LifecycleWorld,
)
    requires
        start.listed && start.active && !start.trashed && !start.stranded,
        drop_invariant(step, failure is Some, start, before),
        drop_event_fits(step, event),
        drop_outcome(step, event, before, after),
    ensures
        drop_invariant(
            drop_next(step, event),
            drop_failure(step, event, failure) is Some,
            start,
            after,
        ),
{
}

/// A drop that reports success has taken the Database out of the catalog and kept its storage in
/// the trash. One that fails has left the Database as it was, or serves it again, or could not
/// open it again although it is listed, or has left the journal by which the next start moves the
/// storage to the trash. Its storage is where it was either way; only where the change of the
/// catalog was torn may the Database be missing from it.
pub proof fn law_drop_keeps_the_storage(
    failed: bool,
    start: LifecycleWorld,
    world: LifecycleWorld,
)
    requires
        drop_invariant(DropStep::Finished, failed, start, world),
    ensures
        !failed ==> !world.listed && world.trashed && !world.active,
        failed ==> {
            ||| world == start
            ||| (world.listed || world.torn) && world.active && (world.service is Open
                || world.stranded)
            ||| !world.listed && world.journal && world.active
        },
{
}

/// A refused checkpoint leaves the Database listed and served: it is usable at once.
pub proof fn law_refused_checkpoint_keeps_the_database_served(
    event: LifecycleEvent,
    refusal: DatabaseError,
    start: LifecycleWorld,
    world: LifecycleWorld,
)
    requires
        drop_invariant(DropStep::Checkpoint, false, start, world),
        event == LifecycleEvent::Refused(refusal),
    ensures
        drop_next(DropStep::Checkpoint, event) is Reinstate,
        drop_next(DropStep::Reinstate, LifecycleEvent::Done) is Finished,
        drop_performed(DropStep::Reinstate, LifecycleEvent::Done, world).service is Open,
        drop_performed(DropStep::Reinstate, LifecycleEvent::Done, world).listed,
        drop_failure(DropStep::Checkpoint, event, None) == Some(
            database_failure_view(refusal, false),
        ),
{
}

/// What the work of a creation's step does, a failed change of the catalog aside.
pub open spec fn create_performed(
    step: CreateStep,
    event: LifecycleEvent,
    before: LifecycleWorld,
) -> LifecycleWorld {
    let done = event is Done;
    match step {
        CreateStep::MakeDirectory => if done {
            LifecycleWorld { active: true, ..before }
        } else {
            before
        },
        CreateStep::RemoveDirectory | CreateStep::Quarantine => if done {
            LifecycleWorld { active: false, ..before }
        } else {
            before
        },
        CreateStep::ChangeCatalog => if done {
            LifecycleWorld { listed: true, journal: true, ..before }
        } else {
            before
        },
        CreateStep::Register => if done {
            LifecycleWorld { service: Service::Open, ..before }
        } else {
            LifecycleWorld { stranded: true, ..before }
        },
        CreateStep::ForgetJournal => if done {
            LifecycleWorld { journal: false, ..before }
        } else {
            before
        },
        _ => before,
    }
}

/// Whether `after` can come of `event` at a creation's step.
pub open spec fn create_outcome(
    step: CreateStep,
    event: LifecycleEvent,
    before: LifecycleWorld,
    after: LifecycleWorld,
) -> bool {
    if step is ChangeCatalog && event !is Done {
        change_failed(before, after)
    } else {
        after == create_performed(step, event, before)
    }
}

/// What holds at each step of a creation.
pub closed spec fn create_invariant(step: CreateStep, failed: bool, world: LifecycleWorld) -> bool {
    match step {
        CreateStep::MakeDirectory => !failed && !world.listed && !world.active,
        CreateStep::CreateDatabase | CreateStep::ChangeCatalog => !failed && !world.listed
            && world.active,
        CreateStep::RemoveDirectory | CreateStep::Quarantine => failed && (!world.listed
            || world.torn),
        CreateStep::Register => !failed && world.listed && world.active && world.journal,
        CreateStep::ForgetJournal => !failed && world.listed && world.active
            && world.service is Open,
        CreateStep::Finished => if failed {
            !world.listed || world.torn || (world.listed && world.active && world.stranded
                && world.journal)
        } else {
            world.listed && world.active && world.service is Open
        },
    }
}

/// A creation starts with its invariant.
pub proof fn law_create_begins(start: LifecycleWorld)
    requires
        !start.listed,
        !start.active,
    ensures
        create_invariant(CreateStep::MakeDirectory, false, start),
{
}

/// The work of every step of a creation keeps its invariant.
pub proof fn law_create_keeps_invariant(
    step: CreateStep,
    event: LifecycleEvent,
    failure: Option<FailureView>,
    before: LifecycleWorld,
    after: LifecycleWorld,
)
    requires
        create_invariant(step, failure is Some, before),
        create_event_fits(step, event),
        create_outcome(step, event, before, after),
    ensures
        create_invariant(
            create_next(step, event),
            create_failure(step, event, failure) is Some,
            after,
        ),
{
}

/// A creation that reports success lists and serves the Database. One that fails does not list it,
/// unless only its registration failed after the commit, or the change of the catalog was torn.
pub proof fn law_create_lists_only_what_it_made(failed: bool, world: LifecycleWorld)
    requires
        create_invariant(CreateStep::Finished, failed, world),
    ensures
        !failed ==> world.listed && world.active && world.service is Open,
        failed && world.listed && !world.torn ==> world.active && world.stranded,
{
}

/// One moment of a drop.
pub struct DropMoment {
    /// The step that the drop stands at.
    pub step: DropStep,
    /// The failure that it holds, if any.
    pub failure: Option<FailureView>,
    /// The Database and the catalog.
    pub world: LifecycleWorld,
}

/// Whether `event` leads from one moment of a drop to the next.
pub open spec fn drop_moves(event: LifecycleEvent, before: DropMoment, after: DropMoment) -> bool {
    &&& drop_event_fits(before.step, event)
    &&& drop_outcome(before.step, event, before.world, after.world)
    &&& after.step == drop_next(before.step, event)
    &&& after.failure == drop_failure(before.step, event, before.failure)
}

/// Whether `moments` is a drop that starts in `start` and meets these events.
pub open spec fn is_drop_run(
    start: LifecycleWorld,
    events: Seq<LifecycleEvent>,
    moments: Seq<DropMoment>,
) -> bool {
    &&& moments.len() == events.len() + 1
    &&& moments[0] == DropMoment { step: DropStep::CheckTrash, failure: None, world: start }
    &&& forall|i: int|
        0 <= i < events.len() ==> drop_moves(#[trigger] events[i], moments[i], moments[i + 1])
}

proof fn lemma_drop_run(
    start: LifecycleWorld,
    events: Seq<LifecycleEvent>,
    moments: Seq<DropMoment>,
    i: int,
)
    requires
        start.listed && start.active && !start.trashed && !start.stranded,
        is_drop_run(start, events, moments),
        0 <= i < moments.len(),
    ensures
        drop_invariant(moments[i].step, moments[i].failure is Some, start, moments[i].world),
    decreases i,
{
    if i == 0 {
        law_drop_begins(start);
    } else {
        lemma_drop_run(start, events, moments, i - 1);
        let before = moments[i - 1];
        assert(drop_moves(events[i - 1], before, moments[i]));
        law_drop_keeps_invariant(
            before.step,
            events[i - 1],
            before.failure,
            start,
            before.world,
            moments[i].world,
        );
    }
}

/// Whatever the events of a drop are, the Database's storage is among the active ones or in the
/// trash at every moment, and it leaves the active ones only after the catalog has let it go.
pub proof fn law_no_drop_loses_the_storage(
    start: LifecycleWorld,
    events: Seq<LifecycleEvent>,
    moments: Seq<DropMoment>,
    i: int,
)
    requires
        start.listed && start.active && !start.trashed && !start.stranded,
        is_drop_run(start, events, moments),
        0 <= i < moments.len(),
    ensures
        moments[i].world.active || moments[i].world.trashed,
        !moments[i].world.active ==> !moments[i].world.listed,
        moments[i].step is Finished && moments[i].failure is None ==> !moments[i].world.listed
            && moments[i].world.trashed,
{
    lemma_drop_run(start, events, moments, i);
}

/// One moment of a creation.
pub struct CreateMoment {
    /// The step that the creation stands at.
    pub step: CreateStep,
    /// The failure that it holds, if any.
    pub failure: Option<FailureView>,
    /// The Database and the catalog.
    pub world: LifecycleWorld,
}

/// Whether `event` leads from one moment of a creation to the next.
pub open spec fn create_moves(
    event: LifecycleEvent,
    before: CreateMoment,
    after: CreateMoment,
) -> bool {
    &&& create_event_fits(before.step, event)
    &&& create_outcome(before.step, event, before.world, after.world)
    &&& after.step == create_next(before.step, event)
    &&& after.failure == create_failure(before.step, event, before.failure)
}

/// Whether `moments` is a creation that starts in `start` and meets these events.
pub open spec fn is_create_run(
    start: LifecycleWorld,
    events: Seq<LifecycleEvent>,
    moments: Seq<CreateMoment>,
) -> bool {
    &&& moments.len() == events.len() + 1
    &&& moments[0] == CreateMoment { step: CreateStep::MakeDirectory, failure: None, world: start }
    &&& forall|i: int|
        0 <= i < events.len() ==> create_moves(#[trigger] events[i], moments[i], moments[i + 1])
}

proof fn lemma_create_run(
    start: LifecycleWorld,
    events: Seq<LifecycleEvent>,
    moments: Seq<CreateMoment>,
    i: int,
)
    requires
        !start.listed,
        !start.active,
        is_create_run(start, events, moments),
        0 <= i < moments.len(),
    ensures
        create_invariant(moments[i].step, moments[i].failure is Some, moments[i].world),
    decreases i,
{
    if i == 0 {
        law_create_begins(start);
    } else {
        lemma_create_run(start, events, moments, i - 1);
        let before = moments[i - 1];
        assert(create_moves(events[i - 1], before, moments[i]));
        law_create_keeps_invariant(
            before.step,
            events[i - 1],
            before.failure,
            before.world,
            moments[i].world,
        );
    }
}

/// Whatever the events of a creation are, the catalog lists the Database only while its storage is
/// there, unless a change of the catalog was torn; a creation that reports success lists and
/// serves it.
pub proof fn law_no_creation_lists_missing_storage(
    start: LifecycleWorld,
    events: Seq<LifecycleEvent>,
    moments: Seq<CreateMoment>,
    i: int,
)
    requires
        !start.listed,
        !start.active,
        is_create_run(start, events, moments),
        0 <= i < moments.len(),
    ensures
        moments[i].world.listed && !moments[i].world.torn ==> moments[i].world.active,
        moments[i].step is Finished && moments[i].failure is None ==> moments[i].world.listed
            && moments[i].world.active && moments[i].world.service is Open,
{
    lemma_create_run(start, events, moments, i);
}

/// The catalog is changed only after the journal that announces the change was written; a catalog
/// that could not be written takes the journal away again, and one that was written leaves it for
/// the caller to remove.
pub proof fn law_catalog_changes_are_announced(step: TransitionStep, done: bool)
    requires
        step !is Finished,
    ensures
        match transition_next(step, done) {
            TransitionStep::WriteJournal => false,
            TransitionStep::WriteCatalog => step is WriteJournal && done,
            TransitionStep::RemoveJournal => step is WriteCatalog && !done,
            TransitionStep::Finished => {
                ||| step is WriteJournal && !done
                ||| step is WriteCatalog && done
                ||| step is RemoveJournal
            },
        },
{
}

/// Each step of a creation is reached only in one way: the catalog lists a Database only once its
/// directory was made and its storage was created, and it is served only once the catalog lists it.
/// Storage that the engine refused is removed, and storage that the catalog does not list is put
/// aside.
pub proof fn law_create_steps_follow_their_cause(step: CreateStep, event: LifecycleEvent)
    requires
        create_event_fits(step, event),
    ensures
        match create_next(step, event) {
            CreateStep::MakeDirectory => false,
            CreateStep::CreateDatabase => step is MakeDirectory && event is Done,
            CreateStep::RemoveDirectory => step is CreateDatabase && event !is Done,
            CreateStep::ChangeCatalog => step is CreateDatabase && event is Done,
            CreateStep::Quarantine => step is ChangeCatalog && event !is Done,
            CreateStep::Register => step is ChangeCatalog && event is Done,
            CreateStep::ForgetJournal => step is Register && event is Done,
            CreateStep::Finished => {
                ||| (step is MakeDirectory || step is Register) && event !is Done
                ||| step is RemoveDirectory || step is Quarantine || step is ForgetJournal
            },
        },
{
}

/// Each step of a drop is reached only in one way: the catalog forgets a Database only once its
/// handle was taken, its storage checkpointed and the handle closed, and the storage moves to the
/// trash only once the catalog has forgotten it. A refused checkpoint gives the handle back, and a
/// catalog that could not be changed opens the Database again.
pub proof fn law_drop_steps_follow_their_cause(step: DropStep, event: LifecycleEvent)
    requires
        drop_event_fits(step, event),
    ensures
        match drop_next(step, event) {
            DropStep::CheckTrash => false,
            DropStep::Take => step is CheckTrash && !event->Exists_0,
            DropStep::Checkpoint => step is Take && event is Done,
            DropStep::Reinstate => step is Checkpoint && event !is Done,
            DropStep::Close => step is Checkpoint && event is Done,
            DropStep::ChangeCatalog => step is Close,
            DropStep::Reopen => step is ChangeCatalog && event !is Done,
            DropStep::PutBack => step is Reopen && event is Done,
            DropStep::MoveToTrash => step is ChangeCatalog && event is Done,
            DropStep::ForgetJournal => step is MoveToTrash && event is Done,
            DropStep::Finished => {
                ||| step is CheckTrash && event->Exists_0
                ||| (step is Take || step is Reopen || step is MoveToTrash) && event !is Done
                ||| step is Reinstate || step is PutBack || step is ForgetJournal
            },
        },
{
}

/// A failed creation tells its cause: what the engine refused is told as the engine's failure, all
/// else is internal, in the words of what failed. Cleaning up changes nothing of it.
pub proof fn law_create_failures_tell_their_cause(
    step: CreateStep,
    event: LifecycleEvent,
    failure: Option<FailureView>,
)
    requires
        create_event_fits(step, event),
    ensures
        event is Done ==> create_failure(step, event, failure) == failure,
        step is RemoveDirectory || step is Quarantine || step is ForgetJournal ==> create_failure(
            step,
            event,
            failure,
        ) == failure,
        event matches LifecycleEvent::Refused(error) ==> create_failure(step, event, failure)
            == Some(database_failure_view(error, false)),
        event matches LifecycleEvent::Failed(message) ==> (step is MakeDirectory || step
            is ChangeCatalog ==> (create_failure(step, event, failure) matches Some(told)
            && told.code is InternalError && told.message == message@ && !told.retryable)),
        event is MapPoisoned ==> (create_failure(step, event, failure) matches Some(told)
            && told.code is InternalError && told.message == "managed Database map is poisoned"@
            && !told.retryable),
{
}

/// A failed drop tells its cause: what the engine refused is told as the engine's failure, a Database
/// that is closed is busy and worth a retry, all else is internal, in the words of what failed. A
/// Database that could not be opened again is told with what went wrong before.
pub proof fn law_drop_failures_tell_their_cause(
    step: DropStep,
    event: LifecycleEvent,
    failure: Option<FailureView>,
)
    requires
        drop_event_fits(step, event),
    ensures
        event is Done || event == LifecycleEvent::Exists(false) || step is ForgetJournal
            ==> drop_failure(step, event, failure) == failure,
        event matches LifecycleEvent::Refused(error) ==> drop_failure(step, event, failure) == Some(
            database_failure_view(error, false),
        ),
        event is Unavailable ==> (drop_failure(step, event, failure) matches Some(told) && told.code
            is DatabaseBusy && told.retryable),
        event is MapPoisoned || event is LockPoisoned || event is Missing || event
            == LifecycleEvent::Exists(true) ==> (drop_failure(step, event, failure) matches Some(
            told,
        ) && told.code is InternalError && !told.retryable && told.message == (match event {
            LifecycleEvent::MapPoisoned => "managed Database map is poisoned"@,
            LifecycleEvent::LockPoisoned => "managed Database lock is poisoned"@,
            LifecycleEvent::Missing => "managed Database handle is missing"@,
            _ => "Database trash target already exists"@,
        })),
        event matches LifecycleEvent::Failed(message) ==> (step !is ForgetJournal ==> (drop_failure(
            step,
            event,
            failure,
        ) matches Some(told) && told.code is InternalError && !told.retryable && (if step
            is Reopen {
            told.message == "catalog drop failed ("@ + (match failure {
                Some(failure) => failure.message,
                None => Seq::empty(),
            }) + ") and Database could not reopen: "@ + message@
        } else {
            told.message == message@
        }))),
{
}

/// Each step of a creation reports that it was done or what stopped it, in the one way that it can be
/// stopped, and a finished creation takes no report.
pub proof fn law_create_steps_report_their_outcome(step: CreateStep, event: LifecycleEvent)
    ensures
        create_event_fits(step, event) <==> match event {
            LifecycleEvent::Done => step !is Finished,
            LifecycleEvent::Refused(_) => step is CreateDatabase,
            LifecycleEvent::MapPoisoned => step is Register,
            LifecycleEvent::Failed(_) => step is MakeDirectory || step is RemoveDirectory || step
                is ChangeCatalog || step is Quarantine || step is ForgetJournal,
            LifecycleEvent::Exists(_) => false,
            LifecycleEvent::LockPoisoned => false,
            LifecycleEvent::Missing => false,
            LifecycleEvent::Unavailable => false,
        },
{
}

/// Each step of a removal reports that it was done or what stopped it, in the ways that it can be
/// stopped, and a finished removal takes no report.
pub proof fn law_drop_steps_report_their_outcome(step: DropStep, event: LifecycleEvent)
    ensures
        drop_event_fits(step, event) <==> match event {
            LifecycleEvent::Done => step !is CheckTrash && step !is Finished,
            LifecycleEvent::Exists(_) => step is CheckTrash,
            LifecycleEvent::Refused(_) => step is Checkpoint,
            LifecycleEvent::MapPoisoned => step is Take || step is PutBack,
            LifecycleEvent::LockPoisoned => step is Take || step is PutBack,
            LifecycleEvent::Missing => step is Take,
            LifecycleEvent::Unavailable => step is Take,
            LifecycleEvent::Failed(_) => step is ChangeCatalog || step is Reopen || step is MoveToTrash
                || step is ForgetJournal,
        },
{
}

} // verus!
