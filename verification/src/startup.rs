//! Starting on an existing data directory: finishing an interrupted catalog change, checking the
//! managed storage, and setting orphans aside.

use vstd::prelude::*;

use crate::catalog::{Catalog, CatalogView, OPERATION_VERSION};
use crate::failure::ServerError;
use crate::lifecycle::{check_selected, has_id};
use crate::manage::{OperationJournal, OperationKind};
use crate::path::{join, joined};
use crate::storage::{server_error_view, OPERATION_FILE};
use crate::text::{decimal, decimal_text, join2, join3};

verus! {

/// The directory of a Database.
pub open spec fn database_directory_text(root: Seq<char>, id: Seq<char>) -> Seq<char> {
    joined(joined(root, "databases"@), id)
}

/// The directory of a Database.
pub fn database_directory(root: &str, id: &str) -> (path: String)
    ensures
        path@ == database_directory_text(root@, id@),
{
    join(join(root, "databases").as_str(), id)
}

/// The live file of a Database.
pub fn database_path(root: &str, id: &str) -> (path: String)
    ensures
        path@ == joined(database_directory_text(root@, id@), "database.ndb"@),
{
    join(database_directory(root, id).as_str(), "database.ndb")
}

/// The place of a dropped Database.
pub fn trash_directory(root: &str, id: &str) -> (path: String)
    ensures
        path@ == joined(joined(root@, "trash"@), id@),
{
    join(join(root, "trash").as_str(), id)
}

/// The failure for a data directory that is none.
pub fn missing_root(root: &str) -> (error: ServerError)
    ensures
        error@ == "data directory "@ + root@
            + " does not exist or is not a directory; run `nostd init` first"@,
{
    ServerError(
        join3(
            "data directory ",
            root,
            " does not exist or is not a directory; run `nostd init` first",
        ),
    )
}

/// One piece of work in finishing a catalog change.
#[derive(Clone, Copy, Debug, PartialEq, Eq, Structural)]
pub enum OperationStep {
    /// Read and decode the journal.
    ReadJournal,
    /// Look whether the created Database's file exists.
    CheckCreated,
    /// Look whether the dropped Database's directory is among the active ones.
    CheckActive,
    /// Look whether it is in the trash.
    CheckTrash,
    /// Move it to the trash.
    MoveToTrash,
    /// Remove the journal.
    RemoveJournal,
    /// Nothing is left to do.
    Finished,
}

/// What came of a piece of work.
#[derive(Debug, PartialEq, Eq)]
pub enum OperationEvent {
    /// There is no journal.
    NoJournal,
    /// The decoded journal.
    Journal(OperationJournal),
    /// The journal was read but is no journal.
    Malformed(String),
    /// Whether a file exists.
    Exists(bool),
    /// The work succeeded.
    Done,
    /// The work failed and changed nothing.
    Failed {
        /// What went wrong.
        message: String,
        /// Whether the file to act on does not exist.
        missing: bool,
    },
}

/// The reports that a step can have.
pub open spec fn operation_event_fits(step: OperationStep, event: OperationEvent) -> bool {
    match step {
        OperationStep::ReadJournal => event is NoJournal || event is Journal || event is Malformed
            || event is Failed,
        OperationStep::CheckCreated | OperationStep::CheckActive | OperationStep::CheckTrash =>
            event is Exists,
        OperationStep::MoveToTrash | OperationStep::RemoveJournal => event is Done
            || event is Failed,
        OperationStep::Finished => false,
    }
}

/// The step that a journal leads to.
pub open spec fn journal_step(journal: OperationJournal, catalog: CatalogView) -> OperationStep {
    if journal.operation_version != OPERATION_VERSION {
        OperationStep::Finished
    } else if catalog == journal.before@ {
        OperationStep::RemoveJournal
    } else if catalog != journal.after@ {
        OperationStep::Finished
    } else {
        match journal.kind {
            OperationKind::Create => OperationStep::CheckCreated,
            OperationKind::Rename => OperationStep::RemoveJournal,
            OperationKind::Drop => OperationStep::CheckActive,
        }
    }
}

/// What is wrong with a journal.
pub open spec fn journal_error(journal: OperationJournal, catalog: CatalogView) -> Option<
    Seq<char>,
> {
    if journal.operation_version != OPERATION_VERSION {
        Some(
            "unsupported lifecycle operation_version "@ + decimal_text(
                journal.operation_version as nat,
            ),
        )
    } else if catalog == journal.before@ || catalog == journal.after@ {
        None
    } else {
        Some(
            "catalog matches neither side of the lifecycle journal; operator recovery is required"@,
        )
    }
}

/// The step that follows `step` after `event`.
pub open spec fn operation_next(
    step: OperationStep,
    event: OperationEvent,
    catalog: CatalogView,
) -> OperationStep {
    match step {
        OperationStep::ReadJournal => match event {
            OperationEvent::Journal(journal) => journal_step(journal, catalog),
            _ => OperationStep::Finished,
        },
        OperationStep::CheckCreated => if event == OperationEvent::Exists(true) {
            OperationStep::RemoveJournal
        } else {
            OperationStep::Finished
        },
        OperationStep::CheckActive => if event == OperationEvent::Exists(true) {
            OperationStep::CheckTrash
        } else {
            OperationStep::RemoveJournal
        },
        OperationStep::CheckTrash => if event == OperationEvent::Exists(true) {
            OperationStep::Finished
        } else {
            OperationStep::MoveToTrash
        },
        OperationStep::MoveToTrash => if event is Done {
            OperationStep::RemoveJournal
        } else {
            OperationStep::Finished
        },
        _ => OperationStep::Finished,
    }
}

/// What finishing a catalog change reports after `event` at `step`.
pub open spec fn operation_error(
    root: Seq<char>,
    step: OperationStep,
    event: OperationEvent,
    catalog: CatalogView,
) -> Option<Seq<char>> {
    match step {
        OperationStep::ReadJournal => match event {
            OperationEvent::Journal(journal) => journal_error(journal, catalog),
            OperationEvent::Malformed(error) => Some("invalid lifecycle journal: "@ + error@),
            OperationEvent::Failed { message, .. } => Some(
                "cannot read lifecycle journal: "@ + message@,
            ),
            _ => None,
        },
        OperationStep::CheckCreated => if event == OperationEvent::Exists(true) {
            None
        } else {
            Some("committed Database create has no storage; operator recovery is required"@)
        },
        OperationStep::CheckTrash => if event == OperationEvent::Exists(true) {
            Some("drop recovery found both active and trash storage"@)
        } else {
            None
        },
        OperationStep::MoveToTrash => match event {
            OperationEvent::Failed { message, .. } => Some(
                "cannot finish interrupted Database drop: "@ + message@,
            ),
            _ => None,
        },
        OperationStep::RemoveJournal => match event {
            OperationEvent::Failed { message, missing } => if missing {
                None
            } else {
                Some("cannot remove "@ + joined(root, OPERATION_FILE@) + ": "@ + message@)
            },
            _ => None,
        },
        _ => None,
    }
}

/// Finishing an interrupted catalog change.
pub struct OperationRecovery {
    /// The data directory.
    pub root: String,
    /// The catalog that was found.
    pub catalog: Catalog,
    /// The Database that the journal is about.
    pub database_id: String,
    /// Where the recovery stands.
    pub step: OperationStep,
    /// The failure that it ended with, if any.
    pub error: Option<ServerError>,
}

impl OperationRecovery {
    /// Starts looking for an interrupted change of `catalog`.
    pub fn start(root: &str, catalog: &Catalog) -> (recovery: Self)
        ensures
            recovery.root@ == root@,
            recovery.catalog@ == catalog@,
            recovery.step is ReadJournal,
            recovery.error is None,
    {
        OperationRecovery {
            root: root.to_owned(),
            catalog: catalog.copy(),
            database_id: String::new(),
            step: OperationStep::ReadJournal,
            error: None,
        }
    }

    fn judge(&mut self, journal: OperationJournal)
        ensures
            final(self).root == old(self).root,
            final(self).catalog == old(self).catalog,
            final(self).database_id == journal.database_id,
            final(self).step == journal_step(journal, old(self).catalog@),
            server_error_view(final(self).error) == journal_error(journal, old(self).catalog@),
    {
        self.database_id = journal.database_id;
        self.error = None;
        if journal.operation_version != OPERATION_VERSION {
            self.error = Some(
                ServerError(
                    join2(
                        "unsupported lifecycle operation_version ",
                        decimal(journal.operation_version as u64).as_str(),
                    ),
                ),
            );
            self.step = OperationStep::Finished;
        } else if self.catalog.same(&journal.before) {
            self.step = OperationStep::RemoveJournal;
        } else if !self.catalog.same(&journal.after) {
            self.error = Some(
                ServerError::new(
                    "catalog matches neither side of the lifecycle journal; operator recovery is required",
                ),
            );
            self.step = OperationStep::Finished;
        } else {
            self.step = match journal.kind {
                OperationKind::Create => OperationStep::CheckCreated,
                OperationKind::Rename => OperationStep::RemoveJournal,
                OperationKind::Drop => OperationStep::CheckActive,
            };
        }
    }

    /// Takes in what came of the step's work.
    pub fn advance(&mut self, event: OperationEvent)
        requires
            operation_event_fits(old(self).step, event),
        ensures
            final(self).root == old(self).root,
            final(self).catalog == old(self).catalog,
            event matches OperationEvent::Journal(journal) ==> final(self).database_id
                == journal.database_id,
            !(event is Journal) ==> final(self).database_id == old(self).database_id,
            final(self).step == operation_next(old(self).step, event, old(self).catalog@),
            server_error_view(final(self).error) == operation_error(
                old(self).root@,
                old(self).step,
                event,
                old(self).catalog@,
            ),
    {
        match self.step {
            OperationStep::ReadJournal => match event {
                OperationEvent::Journal(journal) => self.judge(journal),
                OperationEvent::Malformed(error) => {
                    self.error = Some(
                        ServerError(join2("invalid lifecycle journal: ", error.as_str())),
                    );
                    self.step = OperationStep::Finished;
                },
                OperationEvent::Failed { message, .. } => {
                    self.error = Some(
                        ServerError(join2("cannot read lifecycle journal: ", message.as_str())),
                    );
                    self.step = OperationStep::Finished;
                },
                _ => {
                    self.error = None;
                    self.step = OperationStep::Finished;
                },
            },
            OperationStep::CheckCreated => match event {
                OperationEvent::Exists(true) => {
                    self.error = None;
                    self.step = OperationStep::RemoveJournal;
                },
                _ => {
                    self.error = Some(
                        ServerError::new(
                            "committed Database create has no storage; operator recovery is required",
                        ),
                    );
                    self.step = OperationStep::Finished;
                },
            },
            OperationStep::CheckActive => {
                self.error = None;
                self.step = match event {
                    OperationEvent::Exists(true) => OperationStep::CheckTrash,
                    _ => OperationStep::RemoveJournal,
                };
            },
            OperationStep::CheckTrash => match event {
                OperationEvent::Exists(true) => {
                    self.error = Some(
                        ServerError::new("drop recovery found both active and trash storage"),
                    );
                    self.step = OperationStep::Finished;
                },
                _ => {
                    self.error = None;
                    self.step = OperationStep::MoveToTrash;
                },
            },
            OperationStep::MoveToTrash => match event {
                OperationEvent::Failed { message, .. } => {
                    self.error = Some(
                        ServerError(
                            join2("cannot finish interrupted Database drop: ", message.as_str()),
                        ),
                    );
                    self.step = OperationStep::Finished;
                },
                _ => {
                    self.error = None;
                    self.step = OperationStep::RemoveJournal;
                },
            },
            _ => {
                self.error = match event {
                    OperationEvent::Failed { message, missing } => if missing {
                        None
                    } else {
                        let path = join(self.root.as_str(), OPERATION_FILE);
                        let prefix = join3("cannot remove ", path.as_str(), ": ");
                        Some(ServerError(join2(prefix.as_str(), message.as_str())))
                    },
                    _ => None,
                };
                self.step = OperationStep::Finished;
            },
        }
    }

    /// What the recovery reports once it is over.
    pub fn result(self) -> (result: Result<(), ServerError>)
        requires
            self.step is Finished,
        ensures
            result == (match self.error {
                Some(error) => Err::<(), ServerError>(error),
                None => Ok::<(), ServerError>(()),
            }),
    {
        match self.error {
            Some(error) => Err(error),
            None => Ok(()),
        }
    }
}

/// The first Database whose storage is missing; `present` says of each whether its directory and
/// its file are there.
pub open spec fn first_missing(present: Seq<bool>, i: int) -> Option<int>
    decreases present.len() - i,
{
    if i < 0 || i >= present.len() {
        None
    } else if !present[i] {
        Some(i)
    } else {
        first_missing(present, i + 1)
    }
}

/// Checks that every listed Database has its storage.
pub fn validate_storage(catalog: &Catalog, present: &Vec<bool>) -> (result: Result<(), ServerError>)
    requires
        present@.len() == catalog.databases@.len(),
    ensures
        match first_missing(present@, 0) {
            None => result is Ok,
            Some(i) => result is Err && result->Err_0@ == "catalog Database `"@
                + catalog@.databases[i].name
                + "` has missing managed storage; recovery is required"@,
        },
        result is Ok <==> forall|i: int| 0 <= i < present@.len() ==> present@[i],
{
    let mut i: usize = 0;
    while i < present.len()
        invariant
            i <= present@.len(),
            present@.len() == catalog.databases@.len(),
            first_missing(present@, 0) == first_missing(present@, i as int),
            forall|k: int| 0 <= k < i ==> present@[k],
        decreases present.len() - i,
    {
        if !present[i] {
            assert(catalog@.databases[i as int].name == catalog.databases@[i as int].name@);
            return Err(
                ServerError(
                    join3(
                        "catalog Database `",
                        catalog.databases[i].name.as_str(),
                        "` has missing managed storage; recovery is required",
                    ),
                ),
            );
        }
        i = i + 1;
    }
    Ok(())
}

/// What to do with a directory among the managed ones.
#[derive(Debug, PartialEq, Eq)]
pub enum Orphan {
    /// Nothing: the catalog lists it.
    Listed,
    /// Move it here.
    Quarantine(String),
}

/// Where an orphan is moved.
pub open spec fn orphan_target_text(root: Seq<char>, name: Seq<char>) -> Seq<char> {
    joined(joined(root, "recovery"@), "orphan-"@ + name)
}

/// Decides about the directory `name` among the managed ones; `target_exists` says whether the
/// place it would be moved to is taken.
pub fn judge_orphan(root: &str, catalog: &Catalog, name: &str, target_exists: bool) -> (decision:
    Result<Orphan, ServerError>)
    ensures
        has_id(catalog@.databases, name@) ==> decision == Ok::<Orphan, ServerError>(Orphan::Listed),
        !has_id(catalog@.databases, name@) && target_exists ==> decision is Err
            && decision->Err_0@ == "orphan storage `"@ + name@
            + "` and its recovery target both exist; operator recovery is required"@,
        !has_id(catalog@.databases, name@) && !target_exists ==> (decision matches Ok(
            Orphan::Quarantine(target),
        ) && target@ == orphan_target_text(root@, name@)),
{
    match check_selected(catalog, name) {
        Ok(()) => Ok(Orphan::Listed),
        Err(_) => {
            if target_exists {
                return Err(
                    ServerError(
                        join3(
                            "orphan storage `",
                            name,
                            "` and its recovery target both exist; operator recovery is required",
                        ),
                    ),
                );
            }
            Ok(
                Orphan::Quarantine(
                    join(join(root, "recovery").as_str(), join2("orphan-", name).as_str()),
                ),
            )
        },
    }
}

/// The failure for an orphan that could not be moved.
pub fn orphan_failure(name: &str, error: &str) -> (failure: ServerError)
    ensures
        failure@ == "cannot quarantine orphan storage `"@ + name@ + "`: "@ + error@,
{
    ServerError(join2(join3("cannot quarantine orphan storage `", name, "`: ").as_str(), error))
}

/// What came of opening a managed Database.
#[derive(Debug, PartialEq, Eq)]
pub enum OpenOutcome {
    /// It is open; this says whether a human-readable source still has authority over it.
    Opened(bool),
    /// It did not open.
    Failed(String),
    /// It opened but could not be inspected.
    Uninspected(String),
}

/// Decides whether a managed Database may be served.
pub fn admit_opened(name: &str, outcome: OpenOutcome) -> (result: Result<(), ServerError>)
    ensures
        match outcome {
            OpenOutcome::Opened(false) => result is Ok,
            OpenOutcome::Opened(true) => result is Err && result->Err_0@ == "managed Database `"@
                + name@ + "` still has Source Mode authority; import it explicitly"@,
            OpenOutcome::Failed(error) => result is Err && result->Err_0@
                == "cannot open managed Database `"@ + name@ + "`: "@ + error@,
            OpenOutcome::Uninspected(error) => result is Err && result->Err_0@
                == "cannot inspect managed Database `"@ + name@ + "`: "@ + error@,
        },
{
    match outcome {
        OpenOutcome::Opened(source) => if source {
            Err(
                ServerError(
                    join3(
                        "managed Database `",
                        name,
                        "` still has Source Mode authority; import it explicitly",
                    ),
                ),
            )
        } else {
            Ok(())
        },
        OpenOutcome::Failed(error) => {
            let prefix = join3("cannot open managed Database `", name, "`: ");
            Err(ServerError(join2(prefix.as_str(), error.as_str())))
        },
        OpenOutcome::Uninspected(error) => {
            let prefix = join3("cannot inspect managed Database `", name, "`: ");
            Err(ServerError(join2(prefix.as_str(), error.as_str())))
        },
    }
}

/// What a start finds of an interrupted catalog change.
pub struct OperationWorld {
    /// The catalog on disk.
    pub catalog: CatalogView,
    /// Whether the journal exists.
    pub journal: bool,
    /// Whether the Database's file is among the active ones.
    pub file: bool,
    /// Whether the Database's directory is among the active ones.
    pub active: bool,
    /// Whether the Database's directory is in the trash.
    pub trashed: bool,
}

/// Whether `event` and `after` can come of a step's work in `before`, where `journal` is what the
/// journal says.
pub open spec fn operation_outcome(
    step: OperationStep,
    event: OperationEvent,
    journal: OperationJournal,
    before: OperationWorld,
    after: OperationWorld,
) -> bool {
    match step {
        OperationStep::ReadJournal => {
            &&& after == before
            &&& event is NoJournal ==> !before.journal
            &&& event matches OperationEvent::Journal(found) ==> before.journal && found == journal
        },
        OperationStep::CheckCreated => after == before && event == OperationEvent::Exists(
            before.file,
        ),
        OperationStep::CheckActive => after == before && event == OperationEvent::Exists(
            before.active,
        ),
        OperationStep::CheckTrash => after == before && event == OperationEvent::Exists(
            before.trashed,
        ),
        OperationStep::MoveToTrash => if event is Done {
            after == (OperationWorld { file: false, active: false, trashed: true, ..before })
        } else {
            after == before
        },
        OperationStep::RemoveJournal => if event is Done {
            after == (OperationWorld { journal: false, ..before })
        } else {
            after == before && (event matches OperationEvent::Failed { missing, .. } && missing
                ==> !before.journal)
        },
        OperationStep::Finished => false,
    }
}

/// One moment of finishing a catalog change.
pub struct OperationMoment {
    /// The step that the recovery stands at.
    pub step: OperationStep,
    /// Whether it ended with a failure.
    pub failed: bool,
    /// The catalog, the journal and the storage.
    pub world: OperationWorld,
}

/// Whether `event` leads from one moment of the recovery to the next.
pub open spec fn operation_moves(
    root: Seq<char>,
    journal: OperationJournal,
    event: OperationEvent,
    before: OperationMoment,
    after: OperationMoment,
) -> bool {
    &&& operation_event_fits(before.step, event)
    &&& operation_outcome(before.step, event, journal, before.world, after.world)
    &&& after.step == operation_next(before.step, event, before.world.catalog)
    &&& after.failed == operation_error(root, before.step, event, before.world.catalog) is Some
}

/// Whether `moments` is a recovery that starts in `start`, finds `journal` where there is one, and
/// meets these events.
pub open spec fn is_operation_run(
    root: Seq<char>,
    journal: OperationJournal,
    start: OperationWorld,
    events: Seq<OperationEvent>,
    moments: Seq<OperationMoment>,
) -> bool {
    &&& moments.len() == events.len() + 1
    &&& moments[0] == OperationMoment {
        step: OperationStep::ReadJournal,
        failed: false,
        world: start,
    }
    &&& forall|i: int|
        0 <= i < events.len() ==> operation_moves(
            root,
            journal,
            #[trigger] events[i],
            moments[i],
            moments[i + 1],
        )
}

/// Whether a start has a committed drop to finish.
pub open spec fn drop_committed(journal: OperationJournal, start: OperationWorld) -> bool {
    &&& start.journal
    &&& journal.kind is Drop
    &&& start.catalog == journal.after@
    &&& start.catalog != journal.before@
}

/// Whether a start has a committed creation to check.
pub open spec fn create_committed(journal: OperationJournal, start: OperationWorld) -> bool {
    &&& start.journal
    &&& journal.kind is Create
    &&& start.catalog == journal.after@
    &&& start.catalog != journal.before@
}

spec fn operation_invariant(
    journal: OperationJournal,
    start: OperationWorld,
    moment: OperationMoment,
) -> bool {
    let world = moment.world;
    let moved = start.active && !start.trashed && world == (OperationWorld {
        file: false,
        active: false,
        trashed: true,
        journal: world.journal,
        ..start
    });
    let kept = world == (OperationWorld { journal: world.journal, ..start });
    &&& kept || (moved && drop_committed(journal, start))
    &&& world.journal ==> start.journal
    &&& match moment.step {
        OperationStep::ReadJournal => world == start,
        OperationStep::CheckCreated => world == start && create_committed(journal, start),
        OperationStep::CheckActive => world == start && drop_committed(journal, start),
        OperationStep::CheckTrash => world == start && drop_committed(journal, start)
            && start.active,
        OperationStep::MoveToTrash => world == start && drop_committed(journal, start)
            && start.active && !start.trashed,
        OperationStep::RemoveJournal => {
            &&& world.journal
            &&& drop_committed(journal, start) ==> !world.active
            &&& create_committed(journal, start) ==> world.file
        },
        OperationStep::Finished => moment.failed || {
            &&& !world.journal
            &&& drop_committed(journal, start) ==> !world.active
            &&& create_committed(journal, start) ==> world.file
        },
    }
    &&& moment.step !is Finished || moment.failed ==> world.journal == start.journal
}

proof fn lemma_operation_run(
    root: Seq<char>,
    journal: OperationJournal,
    start: OperationWorld,
    events: Seq<OperationEvent>,
    moments: Seq<OperationMoment>,
    i: int,
)
    requires
        is_operation_run(root, journal, start, events, moments),
        0 <= i < moments.len(),
    ensures
        operation_invariant(journal, start, moments[i]),
    decreases i,
{
    if i > 0 {
        lemma_operation_run(root, journal, start, events, moments, i - 1);
        assert(operation_moves(root, journal, events[i - 1], moments[i - 1], moments[i]));
    }
}

/// An interrupted catalog change is settled at the next start. Whatever the events are, the
/// catalog stays as it is, a directory only leaves the active ones for the trash, and only where
/// a drop was committed; and as long as the work is not done the journal stays. Once it ends
/// without a failure, no journal is left, the storage of a Database whose drop was committed is
/// no longer active, and a Database whose creation was committed has its file.
pub proof fn law_interrupted_changes_are_settled(
    root: Seq<char>,
    journal: OperationJournal,
    start: OperationWorld,
    events: Seq<OperationEvent>,
    moments: Seq<OperationMoment>,
    i: int,
)
    requires
        is_operation_run(root, journal, start, events, moments),
        0 <= i < moments.len(),
    ensures
        ({
            let moment = moments[i];
            let world = moment.world;
            &&& world.catalog == start.catalog
            &&& world.active != start.active ==> drop_committed(journal, start) && !world.active
                && world.trashed
            &&& world.active == start.active ==> world.trashed == start.trashed && world.file
                == start.file
            &&& moment.step !is Finished || moment.failed ==> world.journal == start.journal
            &&& moment.step is Finished && !moment.failed ==> {
                &&& !world.journal
                &&& drop_committed(journal, start) ==> !world.active
                &&& create_committed(journal, start) ==> world.file
            }
        }),
{
    lemma_operation_run(root, journal, start, events, moments, i);
}

/// A catalog change that never came about is forgotten: the catalog is the one before it, and only
/// the journal is removed.
pub proof fn law_uncommitted_changes_are_forgotten(
    journal: OperationJournal,
    catalog: CatalogView,
)
    requires
        journal.operation_version == OPERATION_VERSION,
        catalog == journal.before@,
    ensures
        journal_step(journal, catalog) is RemoveJournal,
        journal_error(journal, catalog) is None,
{
}

/// Each step of the settling of an interrupted change is reached only in one way. A journal counts
/// only where it is of version 1 and the catalog is one of its two sides. A change that was not made
/// is forgotten; a creation that was made must have its storage; a drop that was made moves the
/// storage that is still there to the trash, where it must be the only one; and the journal goes
/// last.
pub proof fn law_operation_steps_follow_their_cause(
    step: OperationStep,
    event: OperationEvent,
    catalog: CatalogView,
)
    requires
        operation_event_fits(step, event),
    ensures
        ({
            let journal = event->Journal_0;
            let known = journal.operation_version == 1;
            let before = catalog == journal.before@;
            let after = catalog == journal.after@;
            match operation_next(step, event, catalog) {
                OperationStep::ReadJournal => false,
                OperationStep::CheckCreated => step is ReadJournal && event is Journal && known && after && !before && journal.kind is Create,
                OperationStep::CheckActive => step is ReadJournal && event is Journal && known && after && !before && journal.kind is Drop,
                OperationStep::CheckTrash => step is CheckActive && event->Exists_0,
                OperationStep::MoveToTrash => step is CheckTrash && !event->Exists_0,
                OperationStep::RemoveJournal => {
                    ||| step is ReadJournal && event is Journal && known && (before || (after && journal.kind is Rename))
                    ||| step is CheckCreated && event->Exists_0
                    ||| step is CheckActive && !event->Exists_0
                    ||| step is MoveToTrash && event is Done
                },
                OperationStep::Finished => {
                    ||| step is ReadJournal && !(event is Journal && known && (before || after))
                    ||| step is CheckCreated && !event->Exists_0
                    ||| step is CheckTrash && event->Exists_0
                    ||| step is MoveToTrash && event !is Done
                    ||| step is RemoveJournal
                },
            }
        }),
{
}

/// The settling of an interrupted change fails exactly where it cannot go on, and says why: a journal
/// that cannot be read, is of another version or fits neither side of the catalog, a creation without
/// storage, a drop whose storage stands in both places, and an action that fails. A journal that is
/// gone already is none.
pub proof fn law_operation_failures_tell_their_cause(
    root: Seq<char>,
    step: OperationStep,
    event: OperationEvent,
    catalog: CatalogView,
)
    requires
        operation_event_fits(step, event),
    ensures
        ({
            let error = operation_error(root, step, event, catalog);
            &&& event is NoJournal || event is Done ==> error is None
            &&& event matches OperationEvent::Journal(journal) ==> {
                let known = journal.operation_version == 1;
                let fits = catalog == journal.before@ || catalog == journal.after@;
                &&& error is None <==> known && fits
                &&& !known ==> error == Some(
                    "unsupported lifecycle operation_version "@ + decimal_text(
                        journal.operation_version as nat,
                    ),
                )
                &&& known && !fits ==> error == Some(
                    "catalog matches neither side of the lifecycle journal; operator recovery is required"@,
                )
            }
            &&& event matches OperationEvent::Malformed(text) ==> error == Some(
                "invalid lifecycle journal: "@ + text@,
            )
            &&& event matches OperationEvent::Exists(exists) ==> {
                &&& step is CheckActive ==> error is None
                &&& step is CheckCreated ==> error == (if exists {
                    None
                } else {
                    Some("committed Database create has no storage; operator recovery is required"@)
                })
                &&& step is CheckTrash ==> error == (if exists {
                    Some("drop recovery found both active and trash storage"@)
                } else {
                    None
                })
            }
            &&& event matches OperationEvent::Failed { message, missing } ==> {
                &&& step is ReadJournal ==> error == Some(
                    "cannot read lifecycle journal: "@ + message@,
                )
                &&& step is MoveToTrash ==> error == Some(
                    "cannot finish interrupted Database drop: "@ + message@,
                )
                &&& step is RemoveJournal && missing ==> error is None
                &&& step is RemoveJournal && !missing ==> error == Some(
                    "cannot remove "@ + joined(root, "server-operation"@) + ": "@ + message@,
                )
            }
        }),
{
}

/// The storage that is told to be missing is the first that is, and there is none only where every
/// Database has its storage.
pub proof fn law_the_first_missing_storage_is_told(present: Seq<bool>, i: int)
    requires
        0 <= i <= present.len(),
    ensures
        match first_missing(present, i) {
            Some(k) => i <= k < present.len() && !present[k] && forall|j: int|
                i <= j < k ==> #[trigger] present[j],
            None => forall|j: int| i <= j < present.len() ==> #[trigger] present[j],
        },
    decreases present.len() - i,
{
    if i < present.len() && present[i] {
        law_the_first_missing_storage_is_told(present, i + 1);
    }
}

/// A Database lives in the directory of its identity below `databases`, and storage that no Database
/// owns is put aside under its own name below `recovery`.
pub proof fn law_storage_has_its_place(root: Seq<char>, id: Seq<char>)
    ensures
        database_directory_text(root, id) == joined(joined(root, "databases"@), id),
        orphan_target_text(root, id) == joined(joined(root, "recovery"@), "orphan-"@ + id),
{
}

/// Reading the journal reports what it holds, that there is none or why it could not be read, a look
/// whether something is there, a change that it was made or why not, and a finished recovery takes no
/// report.
pub proof fn law_operation_steps_report_their_outcome(step: OperationStep, event: OperationEvent)
    ensures
        operation_event_fits(step, event) <==> match event {
            OperationEvent::NoJournal => step is ReadJournal,
            OperationEvent::Journal(_) => step is ReadJournal,
            OperationEvent::Malformed(_) => step is ReadJournal,
            OperationEvent::Exists(_) => step is CheckCreated || step is CheckActive || step is CheckTrash,
            OperationEvent::Done => step is MoveToTrash || step is RemoveJournal,
            OperationEvent::Failed { message: _, missing: _ } => step is ReadJournal || step is MoveToTrash
                || step is RemoveJournal,
        },
{
}

} // verus!
