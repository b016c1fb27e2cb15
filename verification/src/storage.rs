//! Writing the catalog durably, and finding a whole catalog again after an interruption.
//!
//! A write goes through a pending file and keeps the previous catalog aside until the new one is
//! in place. Both the write and the recovery are machines: they name the next action on the data
//! directory, the caller performs it and reports what came of it.

use vstd::prelude::*;

use crate::failure::ServerError;
use crate::path::{join, joined};
use crate::text::{join2, join3};

verus! {

/// The name of the catalog in the data directory.
pub const STATE_FILE: &'static str = "server-state";

/// The name of a catalog that is being written.
pub const PENDING_FILE: &'static str = "server-state.pending";

/// The name of the catalog that a write replaces.
pub const PREVIOUS_FILE: &'static str = "server-state.previous";

/// The name of the lifecycle journal.
pub const OPERATION_FILE: &'static str = "server-operation";

/// The directory of what a recovery sets aside.
pub const RECOVERY_DIRECTORY: &'static str = "recovery";

/// The name under which an interrupted catalog is kept there.
pub const EVIDENCE_FILE: &'static str = "interrupted-catalog.pending";

/// The place at which an interrupted catalog is kept as evidence.
pub fn evidence_path(root: &str) -> (path: String)
    ensures
        path@ == joined(joined(root@, "recovery"@), "interrupted-catalog.pending"@),
{
    join(join(root, RECOVERY_DIRECTORY).as_str(), EVIDENCE_FILE)
}

/// One action on the data directory.
#[derive(Clone, Copy, Debug, PartialEq, Eq, Structural)]
pub enum WriteAction {
    /// Create the pending file with the new catalog and sync it.
    WritePending,
    /// Report whether the catalog file exists.
    InspectState,
    /// Remove the pending file.
    RemovePending,
    /// Remove the previous catalog.
    RemovePrevious,
    /// Rename the catalog to the previous catalog.
    PreserveState,
    /// Rename the pending file to the catalog.
    InstallPending,
    /// Rename the previous catalog to the catalog.
    RestorePrevious,
    /// Remove the catalog.
    RemoveState,
    /// Sync the data directory.
    SyncParent,
    /// Nothing is left to do.
    Finish,
}

/// What came of an action.
#[derive(Debug, PartialEq, Eq)]
pub enum WriteEvent {
    /// The action succeeded.
    Done,
    /// The action failed and changed nothing but a file it was writing.
    Failed {
        /// What went wrong.
        message: String,
        /// Whether the file to act on does not exist.
        missing: bool,
    },
    /// Whether the catalog file exists.
    Exists(bool),
}

/// Where a write stands.
#[derive(Clone, Copy, Debug, PartialEq, Eq, Structural)]
pub enum WriteStep {
    /// Write the new catalog beside the old one.
    WritePending,
    /// A first catalog must not replace one.
    CheckState,
    /// Give up on a first catalog where one exists.
    DropRefused,
    /// Make room for the previous catalog.
    RemovePrevious,
    /// Set the old catalog aside.
    Preserve,
    /// Put the new catalog in place.
    Install,
    /// Give up on a catalog that cannot be put in place.
    DropPending,
    /// Put the old catalog back.
    RestoreAfterInstall,
    /// Make the new catalog durable.
    Sync,
    /// Give up on a catalog that cannot be made durable.
    DropState,
    /// Put the old catalog back.
    RestoreAfterSync,
    /// Make that durable.
    SyncAgain,
    /// Forget the old catalog.
    ClearPrevious,
    /// The write is over.
    Finished,
}

/// The action that a step asks for.
pub open spec fn write_action(step: WriteStep) -> WriteAction {
    match step {
        WriteStep::WritePending => WriteAction::WritePending,
        WriteStep::CheckState => WriteAction::InspectState,
        WriteStep::DropRefused => WriteAction::RemovePending,
        WriteStep::RemovePrevious => WriteAction::RemovePrevious,
        WriteStep::Preserve => WriteAction::PreserveState,
        WriteStep::Install => WriteAction::InstallPending,
        WriteStep::DropPending => WriteAction::RemovePending,
        WriteStep::RestoreAfterInstall => WriteAction::RestorePrevious,
        WriteStep::Sync => WriteAction::SyncParent,
        WriteStep::DropState => WriteAction::RemoveState,
        WriteStep::RestoreAfterSync => WriteAction::RestorePrevious,
        WriteStep::SyncAgain => WriteAction::SyncParent,
        WriteStep::ClearPrevious => WriteAction::RemovePrevious,
        WriteStep::Finished => WriteAction::Finish,
    }
}

/// The reports that an action can have.
pub open spec fn write_event_fits(action: WriteAction, event: WriteEvent) -> bool {
    match action {
        WriteAction::InspectState => event is Exists,
        WriteAction::Finish => false,
        _ => event is Done || event is Failed,
    }
}

/// Whether the report lets a removal count as done.
pub open spec fn write_removed(event: WriteEvent) -> bool {
    event is Done || (event matches WriteEvent::Failed { missing, .. } && missing)
}

/// The step that follows `step` after `event`; `create` says whether this is the first catalog.
pub open spec fn write_next(create: bool, step: WriteStep, event: WriteEvent) -> WriteStep {
    let done = event is Done;
    match step {
        WriteStep::WritePending => if !done {
            WriteStep::Finished
        } else if create {
            WriteStep::CheckState
        } else {
            WriteStep::RemovePrevious
        },
        WriteStep::CheckState => if event == WriteEvent::Exists(true) {
            WriteStep::DropRefused
        } else {
            WriteStep::Install
        },
        WriteStep::RemovePrevious => if write_removed(event) {
            WriteStep::Preserve
        } else {
            WriteStep::Finished
        },
        WriteStep::Preserve => if done {
            WriteStep::Install
        } else {
            WriteStep::Finished
        },
        WriteStep::Install => if done {
            WriteStep::Sync
        } else {
            WriteStep::DropPending
        },
        WriteStep::DropPending => if create {
            WriteStep::Finished
        } else {
            WriteStep::RestoreAfterInstall
        },
        WriteStep::Sync => if done {
            WriteStep::ClearPrevious
        } else {
            WriteStep::DropState
        },
        WriteStep::DropState => if create {
            WriteStep::Finished
        } else {
            WriteStep::RestoreAfterSync
        },
        WriteStep::RestoreAfterSync => WriteStep::SyncAgain,
        _ => WriteStep::Finished,
    }
}

/// The text of a report.
pub open spec fn write_event_text(event: WriteEvent) -> Seq<char> {
    match event {
        WriteEvent::Failed { message, .. } => message@,
        _ => Seq::empty(),
    }
}

/// The failure that a write holds after `event` at `step`: it names no path. What fails after the write has failed
/// or succeeded changes nothing.
pub open spec fn write_error(
    step: WriteStep,
    event: WriteEvent,
    error: Option<Seq<char>>,
) -> Option<Seq<char>> {
    let text = write_event_text(event);
    match step {
        WriteStep::WritePending => if event is Done {
            error
        } else {
            Some(text)
        },
        WriteStep::CheckState => if event == WriteEvent::Exists(true) {
            Some("server-state already exists"@)
        } else {
            error
        },
        WriteStep::RemovePrevious => if write_removed(event) {
            error
        } else {
            Some("cannot remove "@ + PREVIOUS_FILE@ + ": "@ + text)
        },
        WriteStep::Preserve => if event is Done {
            error
        } else {
            Some("cannot preserve previous catalog: "@ + text)
        },
        WriteStep::Install => if event is Done {
            error
        } else {
            Some("cannot install catalog: "@ + text)
        },
        WriteStep::Sync => if event is Done {
            error
        } else {
            Some("cannot sync data directory: "@ + text)
        },
        _ => error,
    }
}

/// A running write of a catalog.
pub struct AtomicWrite {
    /// Whether this is the first catalog.
    pub create: bool,
    /// Where the write stands.
    pub step: WriteStep,
    /// The failure that it reports in the end, if any.
    pub error: Option<ServerError>,
}

/// What an optional failure says.
pub open spec fn server_error_view(error: Option<ServerError>) -> Option<Seq<char>> {
    match error {
        Some(error) => Some(error@),
        None => None,
    }
}

fn is_write_removed(event: &WriteEvent) -> (gone: bool)
    ensures
        gone == write_removed(*event),
{
    match event {
        WriteEvent::Done => true,
        WriteEvent::Failed { missing, .. } => *missing,
        WriteEvent::Exists(_) => false,
    }
}

fn write_text(event: WriteEvent) -> (text: String)
    ensures
        text@ == write_event_text(event),
{
    match event {
        WriteEvent::Failed { message, .. } => message,
        _ => String::new(),
    }
}

impl AtomicWrite {
    /// Starts writing a catalog.
    pub fn start(create: bool) -> (write: Self)
        ensures
            write.create == create,
            write.step is WritePending,
            write.error is None,
    {
        AtomicWrite { create, step: WriteStep::WritePending, error: None }
    }

    /// The action to perform next.
    pub fn action(&self) -> (action: WriteAction)
        ensures
            action == write_action(self.step),
    {
        match self.step {
            WriteStep::WritePending => WriteAction::WritePending,
            WriteStep::CheckState => WriteAction::InspectState,
            WriteStep::DropRefused => WriteAction::RemovePending,
            WriteStep::RemovePrevious => WriteAction::RemovePrevious,
            WriteStep::Preserve => WriteAction::PreserveState,
            WriteStep::Install => WriteAction::InstallPending,
            WriteStep::DropPending => WriteAction::RemovePending,
            WriteStep::RestoreAfterInstall => WriteAction::RestorePrevious,
            WriteStep::Sync => WriteAction::SyncParent,
            WriteStep::DropState => WriteAction::RemoveState,
            WriteStep::RestoreAfterSync => WriteAction::RestorePrevious,
            WriteStep::SyncAgain => WriteAction::SyncParent,
            WriteStep::ClearPrevious => WriteAction::RemovePrevious,
            WriteStep::Finished => WriteAction::Finish,
        }
    }

    fn following(&self, event: &WriteEvent) -> (next: WriteStep)
        ensures
            next == write_next(self.create, self.step, *event),
    {
        let done: bool = matches!(event, WriteEvent::Done);
        match self.step {
            WriteStep::WritePending => if !done {
                WriteStep::Finished
            } else if self.create {
                WriteStep::CheckState
            } else {
                WriteStep::RemovePrevious
            },
            WriteStep::CheckState => match event {
                WriteEvent::Exists(exists) => if *exists {
                    WriteStep::DropRefused
                } else {
                    WriteStep::Install
                },
                _ => WriteStep::Install,
            },
            WriteStep::RemovePrevious => if is_write_removed(event) {
                WriteStep::Preserve
            } else {
                WriteStep::Finished
            },
            WriteStep::Preserve => if done {
                WriteStep::Install
            } else {
                WriteStep::Finished
            },
            WriteStep::Install => if done {
                WriteStep::Sync
            } else {
                WriteStep::DropPending
            },
            WriteStep::DropPending => if self.create {
                WriteStep::Finished
            } else {
                WriteStep::RestoreAfterInstall
            },
            WriteStep::Sync => if done {
                WriteStep::ClearPrevious
            } else {
                WriteStep::DropState
            },
            WriteStep::DropState => if self.create {
                WriteStep::Finished
            } else {
                WriteStep::RestoreAfterSync
            },
            WriteStep::RestoreAfterSync => WriteStep::SyncAgain,
            _ => WriteStep::Finished,
        }
    }

    fn noted(&self, event: WriteEvent, error: Option<ServerError>) -> (next: Option<ServerError>)
        ensures
            server_error_view(next) == write_error(
                self.step,
                event,
                server_error_view(error),
            ),
    {
        let done: bool = matches!(event, WriteEvent::Done);
        match self.step {
            WriteStep::WritePending => {
                if done {
                    return error;
                }
                Some(ServerError(write_text(event)))
            },
            WriteStep::CheckState => match event {
                WriteEvent::Exists(exists) => if exists {
                    Some(ServerError::new("server-state already exists"))
                } else {
                    error
                },
                _ => error,
            },
            WriteStep::RemovePrevious => {
                if is_write_removed(&event) {
                    return error;
                }
                let prefix = join3("cannot remove ", PREVIOUS_FILE, ": ");
                Some(ServerError(join2(prefix.as_str(), write_text(event).as_str())))
            },
            WriteStep::Preserve => {
                if done {
                    return error;
                }
                Some(
                    ServerError(
                        join2("cannot preserve previous catalog: ", write_text(event).as_str()),
                    ),
                )
            },
            WriteStep::Install => {
                if done {
                    return error;
                }
                Some(ServerError(join2("cannot install catalog: ", write_text(event).as_str())))
            },
            WriteStep::Sync => {
                if done {
                    return error;
                }
                Some(
                    ServerError(join2("cannot sync data directory: ", write_text(event).as_str())),
                )
            },
            _ => error,
        }
    }

    /// Takes in what came of the action.
    pub fn advance(&mut self, event: WriteEvent)
        requires
            write_event_fits(write_action(old(self).step), event),
        ensures
            final(self).create == old(self).create,
            final(self).step == write_next(old(self).create, old(self).step, event),
            server_error_view(final(self).error) == write_error(
                old(self).step,
                event,
                server_error_view(old(self).error),
            ),
    {
        let next = self.following(&event);
        let error = self.error.take();
        self.error = self.noted(event, error);
        self.step = next;
    }

    /// What the write reports once it is over.
    pub fn result(self) -> (result: Result<(), ServerError>)
        requires
            self.step is Finished,
        ensures
            result == (match self.error {
                Some(error) => Err::<(), ServerError>(error),
                None => Ok::<(), ServerError>(()),
            }),
    {
        match self.error {
            Some(error) => Err(error),
            None => Ok(()),
        }
    }
}

/// One action of a catalog recovery.
#[derive(Clone, Copy, Debug, PartialEq, Eq, Structural)]
pub enum CatalogAction {
    /// Report which files exist.
    Inspect,
    /// Rename the previous catalog to the catalog.
    RestorePrevious,
    /// Rename the pending file to the evidence path.
    PreservePending,
    /// Read and decode the catalog.
    ReadState,
    /// Remove the previous catalog.
    RemovePrevious,
    /// Nothing is left to do.
    Finish,
}

/// The files a catalog recovery looks at.
#[derive(Clone, Copy, Debug, PartialEq, Eq, Structural)]
pub struct CatalogFiles {
    /// The catalog.
    pub state: bool,
    /// The previous catalog.
    pub previous: bool,
    /// A catalog that was being written.
    pub pending: bool,
    /// The evidence of an earlier interrupted write, at the evidence path.
    pub evidence: bool,
}

/// What came of an action of a catalog recovery.
#[derive(Debug, PartialEq, Eq)]
pub enum CatalogEvent {
    /// The action succeeded.
    Done,
    /// The action failed and changed nothing.
    Failed {
        /// What went wrong.
        message: String,
        /// Whether the file to act on does not exist.
        missing: bool,
    },
    /// The files that exist.
    Files(CatalogFiles),
}

/// Where a catalog recovery stands.
#[derive(Clone, Copy, Debug, PartialEq, Eq, Structural)]
pub enum CatalogStep {
    /// Look at the files.
    Inspect,
    /// Put the previous catalog back: the new one never came into its place.
    RestorePrevious,
    /// Keep the interrupted catalog as evidence.
    PreservePending,
    /// Read the catalog before the previous one goes.
    ReadState,
    /// Forget the previous catalog.
    RemovePrevious,
    /// The recovery is over.
    Finished,
}

/// The action that a step asks for.
pub open spec fn catalog_action(step: CatalogStep) -> CatalogAction {
    match step {
        CatalogStep::Inspect => CatalogAction::Inspect,
        CatalogStep::RestorePrevious => CatalogAction::RestorePrevious,
        CatalogStep::PreservePending => CatalogAction::PreservePending,
        CatalogStep::ReadState => CatalogAction::ReadState,
        CatalogStep::RemovePrevious => CatalogAction::RemovePrevious,
        CatalogStep::Finished => CatalogAction::Finish,
    }
}

/// The reports that an action can have.
pub open spec fn catalog_event_fits(action: CatalogAction, event: CatalogEvent) -> bool {
    match action {
        CatalogAction::Inspect => event is Files,
        CatalogAction::Finish => false,
        _ => event is Done || event is Failed,
    }
}

/// The step after the previous catalog was put back, where that was needed.
pub open spec fn after_state(files: CatalogFiles) -> CatalogStep {
    if files.pending {
        if files.evidence {
            CatalogStep::Finished
        } else {
            CatalogStep::PreservePending
        }
    } else {
        after_pending(files)
    }
}

/// The step after the interrupted catalog was kept, where there was one.
pub open spec fn after_pending(files: CatalogFiles) -> CatalogStep {
    if files.state && files.previous {
        CatalogStep::ReadState
    } else {
        CatalogStep::Finished
    }
}

/// The failure after the previous catalog was put back, where that was needed.
pub open spec fn after_state_error(files: CatalogFiles) -> Option<Seq<char>> {
    if files.pending {
        if files.evidence {
            Some("multiple interrupted catalog writes require operator recovery"@)
        } else {
            None
        }
    } else {
        after_pending_error(files)
    }
}

/// The failure after the interrupted catalog was kept, where there was one.
pub open spec fn after_pending_error(files: CatalogFiles) -> Option<Seq<char>> {
    if !files.state {
        Some(
            "data directory has no server-state catalog; run `nostd init` for a fresh directory"@,
        )
    } else {
        None
    }
}

/// The files once the previous catalog is the catalog.
pub open spec fn previous_restored(files: CatalogFiles) -> CatalogFiles {
    CatalogFiles { state: true, previous: false, ..files }
}

/// The files that are known after `event` at `step`.
pub open spec fn known_files(
    step: CatalogStep,
    event: CatalogEvent,
    files: CatalogFiles,
) -> CatalogFiles {
    match event {
        CatalogEvent::Files(found) => found,
        CatalogEvent::Done => if step is RestorePrevious {
            previous_restored(files)
        } else {
            files
        },
        CatalogEvent::Failed { .. } => files,
    }
}

/// The step that follows `step` after `event`.
pub open spec fn catalog_next(
    step: CatalogStep,
    event: CatalogEvent,
    files: CatalogFiles,
) -> CatalogStep {
    match step {
        CatalogStep::Inspect => match event {
            CatalogEvent::Files(found) => if !found.state && found.previous {
                CatalogStep::RestorePrevious
            } else {
                after_state(found)
            },
            _ => CatalogStep::Finished,
        },
        CatalogStep::RestorePrevious => if event is Done {
            after_state(previous_restored(files))
        } else {
            CatalogStep::Finished
        },
        CatalogStep::PreservePending => if event is Done {
            after_pending(files)
        } else {
            CatalogStep::Finished
        },
        CatalogStep::ReadState => if event is Done {
            CatalogStep::RemovePrevious
        } else {
            CatalogStep::Finished
        },
        _ => CatalogStep::Finished,
    }
}

/// What the recovery reports after `event` at `step`.
pub open spec fn catalog_recovery_error(
    root: Seq<char>,
    step: CatalogStep,
    event: CatalogEvent,
    files: CatalogFiles,
) -> Option<Seq<char>> {
    match event {
        CatalogEvent::Files(found) => if !found.state && found.previous {
            None
        } else {
            after_state_error(found)
        },
        CatalogEvent::Done => match step {
            CatalogStep::RestorePrevious => after_state_error(previous_restored(files)),
            CatalogStep::PreservePending => after_pending_error(files),
            _ => None,
        },
        CatalogEvent::Failed { message, missing } => match step {
            CatalogStep::RestorePrevious => Some(
                "cannot restore previous catalog: "@ + message@,
            ),
            CatalogStep::PreservePending => Some(
                "cannot preserve interrupted catalog: "@ + message@,
            ),
            CatalogStep::RemovePrevious => if missing {
                None
            } else {
                Some("cannot remove "@ + joined(root, PREVIOUS_FILE@) + ": "@ + message@)
            },
            _ => Some(message@),
        },
    }
}

/// A running catalog recovery.
pub struct CatalogRecovery {
    /// The data directory.
    pub root: String,
    /// Where the recovery stands.
    pub step: CatalogStep,
    /// The files as far as they are known.
    pub files: CatalogFiles,
    /// The failure that the recovery ended with, if any.
    pub error: Option<ServerError>,
}

fn step_after_state(files: CatalogFiles) -> (step: CatalogStep)
    ensures
        step == after_state(files),
{
    if files.pending {
        if files.evidence {
            CatalogStep::Finished
        } else {
            CatalogStep::PreservePending
        }
    } else {
        step_after_pending(files)
    }
}

fn step_after_pending(files: CatalogFiles) -> (step: CatalogStep)
    ensures
        step == after_pending(files),
{
    if files.state && files.previous {
        CatalogStep::ReadState
    } else {
        CatalogStep::Finished
    }
}

fn error_after_state(files: CatalogFiles) -> (error: Option<ServerError>)
    ensures
        server_error_view(error) == after_state_error(files),
{
    if files.pending {
        if files.evidence {
            Some(
                ServerError::new("multiple interrupted catalog writes require operator recovery"),
            )
        } else {
            None
        }
    } else {
        error_after_pending(files)
    }
}

fn error_after_pending(files: CatalogFiles) -> (error: Option<ServerError>)
    ensures
        server_error_view(error) == after_pending_error(files),
{
    if !files.state {
        Some(
            ServerError::new(
                "data directory has no server-state catalog; run `nostd init` for a fresh directory",
            ),
        )
    } else {
        None
    }
}

impl CatalogRecovery {
    /// Starts the recovery of a data directory's catalog.
    pub fn start(root: &str) -> (recovery: Self)
        ensures
            recovery.root@ == root@,
            recovery.step is Inspect,
            recovery.error is None,
    {
        CatalogRecovery {
            root: root.to_owned(),
            step: CatalogStep::Inspect,
            files: CatalogFiles { state: false, previous: false, pending: false, evidence: false },
            error: None,
        }
    }

    /// The action to perform next.
    pub fn action(&self) -> (action: CatalogAction)
        ensures
            action == catalog_action(self.step),
    {
        match self.step {
            CatalogStep::Inspect => CatalogAction::Inspect,
            CatalogStep::RestorePrevious => CatalogAction::RestorePrevious,
            CatalogStep::PreservePending => CatalogAction::PreservePending,
            CatalogStep::ReadState => CatalogAction::ReadState,
            CatalogStep::RemovePrevious => CatalogAction::RemovePrevious,
            CatalogStep::Finished => CatalogAction::Finish,
        }
    }

    /// Takes in what came of the action.
    pub fn advance(&mut self, event: CatalogEvent)
        requires
            catalog_event_fits(catalog_action(old(self).step), event),
        ensures
            final(self).root == old(self).root,
            final(self).files == known_files(old(self).step, event, old(self).files),
            final(self).step == catalog_next(old(self).step, event, old(self).files),
            server_error_view(final(self).error) == catalog_recovery_error(
                old(self).root@,
                old(self).step,
                event,
                old(self).files,
            ),
    {
        match event {
            CatalogEvent::Files(found) => {
                self.files = found;
                if !found.state && found.previous {
                    self.step = CatalogStep::RestorePrevious;
                    self.error = None;
                } else {
                    self.step = step_after_state(found);
                    self.error = error_after_state(found);
                }
            },
            CatalogEvent::Done => {
                self.error = None;
                match self.step {
                    CatalogStep::RestorePrevious => {
                        let files = CatalogFiles {
                            state: true,
                            previous: false,
                            pending: self.files.pending,
                            evidence: self.files.evidence,
                        };
                        self.files = files;
                        self.step = step_after_state(files);
                        self.error = error_after_state(files);
                    },
                    CatalogStep::PreservePending => {
                        self.step = step_after_pending(self.files);
                        self.error = error_after_pending(self.files);
                    },
                    CatalogStep::ReadState => {
                        self.step = CatalogStep::RemovePrevious;
                    },
                    _ => {
                        self.step = CatalogStep::Finished;
                    },
                }
            },
            CatalogEvent::Failed { message, missing } => {
                self.error = match self.step {
                    CatalogStep::RestorePrevious => Some(
                        ServerError(join2("cannot restore previous catalog: ", message.as_str())),
                    ),
                    CatalogStep::PreservePending => Some(
                        ServerError(
                            join2("cannot preserve interrupted catalog: ", message.as_str()),
                        ),
                    ),
                    CatalogStep::RemovePrevious => if missing {
                        None
                    } else {
                        let path = join(self.root.as_str(), PREVIOUS_FILE);
                        let prefix = join3("cannot remove ", path.as_str(), ": ");
                        Some(ServerError(join2(prefix.as_str(), message.as_str())))
                    },
                    _ => Some(ServerError(message)),
                };
                self.step = CatalogStep::Finished;
            },
        }
    }

    /// What the recovery reports once it is over.
    pub fn result(self) -> (result: Result<(), ServerError>)
        requires
            self.step is Finished,
        ensures
            result == (match self.error {
                Some(error) => Err::<(), ServerError>(error),
                None => Ok::<(), ServerError>(()),
            }),
    {
        match self.error {
            Some(error) => Err(error),
            None => Ok(()),
        }
    }
}

/// What a catalog file holds during a write.
pub enum Slot {
    /// The file does not exist.
    Absent,
    /// The catalog before the write.
    Before,
    /// The catalog that is being written.
    After,
    /// Any other bytes, such as a part of a catalog.
    Other(Seq<u8>),
}

/// The catalog files of a data directory.
pub struct CatalogWorld {
    /// The catalog.
    pub state: Slot,
    /// The pending file.
    pub pending: Slot,
    /// The previous catalog.
    pub previous: Slot,
    /// The file at the evidence path.
    pub evidence: Slot,
}

/// What a successful action of a write does. Renames replace their target as one step.
pub open spec fn write_performed(action: WriteAction, before: CatalogWorld) -> CatalogWorld {
    match action {
        WriteAction::WritePending => CatalogWorld { pending: Slot::After, ..before },
        WriteAction::RemovePending => CatalogWorld { pending: Slot::Absent, ..before },
        WriteAction::RemovePrevious => CatalogWorld { previous: Slot::Absent, ..before },
        WriteAction::PreserveState => CatalogWorld {
            previous: before.state,
            state: Slot::Absent,
            ..before
        },
        WriteAction::InstallPending => CatalogWorld {
            state: before.pending,
            pending: Slot::Absent,
            ..before
        },
        WriteAction::RestorePrevious => CatalogWorld {
            state: before.previous,
            previous: Slot::Absent,
            ..before
        },
        WriteAction::RemoveState => CatalogWorld { state: Slot::Absent, ..before },
        _ => before,
    }
}

/// Whether `event` and `after` can come of a write's action in `before`.
pub open spec fn write_outcome(
    action: WriteAction,
    event: WriteEvent,
    before: CatalogWorld,
    after: CatalogWorld,
) -> bool {
    match event {
        WriteEvent::Done => after == write_performed(action, before) && match action {
            WriteAction::PreserveState => before.state !is Absent,
            WriteAction::InstallPending => before.pending !is Absent,
            WriteAction::RestorePrevious => before.previous !is Absent,
            _ => true,
        },
        WriteEvent::Failed { missing, .. } => {
            ||| after == before && (missing && action is RemovePrevious
                ==> before.previous is Absent)
            ||| action is WritePending && after.pending is Other && after == (CatalogWorld {
                pending: after.pending,
                ..before
            })
        },
        WriteEvent::Exists(exists) => after == before && exists == (before.state !is Absent),
    }
}

/// A whole catalog is there: in its place, or set aside with nothing in its place.
pub open spec fn catalog_kept(world: CatalogWorld) -> bool {
    world.state is Before || world.state is After || (world.state is Absent
        && world.previous is Before)
}

/// What holds at each step of a write that replaces a catalog.
pub closed spec fn write_invariant(step: WriteStep, failed: bool, world: CatalogWorld) -> bool {
    match step {
        WriteStep::WritePending => !failed && world.state is Before,
        WriteStep::RemovePrevious => !failed && world.state is Before && world.pending is After,
        WriteStep::Preserve => !failed && world.state is Before && world.pending is After
            && world.previous is Absent,
        WriteStep::Install => !failed && world.state is Absent && world.pending is After
            && world.previous is Before,
        WriteStep::DropPending | WriteStep::RestoreAfterInstall => failed && world.state is Absent
            && world.previous is Before,
        WriteStep::Sync => !failed && world.state is After && world.previous is Before,
        WriteStep::DropState => failed && world.state is After && world.previous is Before,
        WriteStep::RestoreAfterSync => failed && (world.state is After || world.state is Absent)
            && world.previous is Before,
        WriteStep::SyncAgain => failed && catalog_kept(world),
        WriteStep::ClearPrevious => !failed && world.state is After,
        WriteStep::CheckState | WriteStep::DropRefused => false,
        WriteStep::Finished => if failed {
            catalog_kept(world)
        } else {
            world.state is After
        },
    }
}

/// A write begins with its invariant.
pub proof fn law_write_begins(world: CatalogWorld)
    requires
        world.state is Before,
    ensures
        write_invariant(WriteStep::WritePending, false, world),
{
}

/// Every action of a write, whether it succeeds or fails, keeps its invariant.
pub proof fn law_write_keeps_invariant(
    step: WriteStep,
    event: WriteEvent,
    error: Option<Seq<char>>,
    before: CatalogWorld,
    after: CatalogWorld,
)
    requires
        write_invariant(step, error is Some, before),
        write_event_fits(write_action(step), event),
        write_outcome(write_action(step), event, before, after),
    ensures
        write_invariant(
            write_next(false, step, event),
            write_error(step, event, error) is Some,
            after,
        ),
{
}

/// At every step of a write a whole catalog is there, the old one or the new one.
pub proof fn law_write_never_loses_the_catalog(step: WriteStep, failed: bool, world: CatalogWorld)
    requires
        write_invariant(step, failed, world),
    ensures
        catalog_kept(world),
{
}

/// A write that reports success has put the new catalog in place.
pub proof fn law_write_success_installs_the_catalog(world: CatalogWorld)
    requires
        write_invariant(WriteStep::Finished, false, world),
    ensures
        world.state is After,
{
}

/// What a look at the catalog files finds.
pub open spec fn catalog_presence(world: CatalogWorld) -> CatalogFiles {
    CatalogFiles {
        state: world.state !is Absent,
        previous: world.previous !is Absent,
        pending: world.pending !is Absent,
        evidence: world.evidence !is Absent,
    }
}

/// Whether `event` and `after` can come of a recovery's action in `before`.
pub open spec fn catalog_outcome(
    action: CatalogAction,
    event: CatalogEvent,
    before: CatalogWorld,
    after: CatalogWorld,
) -> bool {
    match event {
        CatalogEvent::Files(files) => after == before && files == catalog_presence(before),
        CatalogEvent::Done => match action {
            CatalogAction::RestorePrevious => after == (CatalogWorld {
                state: before.previous,
                previous: Slot::Absent,
                ..before
            }) && before.previous !is Absent,
            CatalogAction::PreservePending => after == (CatalogWorld {
                pending: Slot::Absent,
                evidence: before.pending,
                ..before
            }) && before.pending !is Absent,
            CatalogAction::RemovePrevious => after == (CatalogWorld {
                previous: Slot::Absent,
                ..before
            }),
            _ => after == before,
        },
        CatalogEvent::Failed { missing, .. } => after == before && (missing
            && action is RemovePrevious ==> before.previous is Absent),
    }
}

/// A whole catalog is in its place.
pub open spec fn catalog_in_place(world: CatalogWorld) -> bool {
    world.state is Before || world.state is After
}

/// What a recovery that starts in `start` has made of the interrupted catalog: it lies where it
/// was, with the evidence untouched, or it has become the evidence, where there was none.
pub open spec fn pending_kept(start: CatalogWorld, world: CatalogWorld) -> bool {
    ||| world.pending == start.pending && world.evidence == start.evidence
    ||| start.pending !is Absent && start.evidence is Absent && world.pending is Absent
        && world.evidence == start.pending
}

/// What holds at each step of a catalog recovery that starts in `start`.
pub closed spec fn catalog_recovery_invariant(
    step: CatalogStep,
    failed: bool,
    files: CatalogFiles,
    start: CatalogWorld,
    world: CatalogWorld,
) -> bool {
    &&& catalog_kept(world)
    &&& pending_kept(start, world)
    &&& failed ==> step is Finished
    &&& match step {
        CatalogStep::Inspect => world == start,
        CatalogStep::RestorePrevious => world.state is Absent && files == catalog_presence(world)
            && world == start,
        CatalogStep::PreservePending => catalog_in_place(world) && files == catalog_presence(world)
            && world.pending == start.pending && world.evidence == start.evidence
            && world.evidence is Absent,
        CatalogStep::ReadState | CatalogStep::RemovePrevious => catalog_in_place(world)
            && world.pending is Absent,
        CatalogStep::Finished => !failed ==> catalog_in_place(world) && world.pending is Absent
            && world.previous is Absent,
    }
}

/// A catalog recovery begins with its invariant wherever a write was interrupted.
pub proof fn law_catalog_recovery_begins(
    step: WriteStep,
    failed: bool,
    files: CatalogFiles,
    world: CatalogWorld,
)
    requires
        write_invariant(step, failed, world),
    ensures
        catalog_recovery_invariant(CatalogStep::Inspect, false, files, world, world),
{
}

/// Every action of a catalog recovery keeps its invariant.
pub proof fn law_catalog_recovery_keeps_invariant(
    root: Seq<char>,
    step: CatalogStep,
    event: CatalogEvent,
    files: CatalogFiles,
    start: CatalogWorld,
    before: CatalogWorld,
    after: CatalogWorld,
)
    requires
        catalog_recovery_invariant(step, false, files, start, before),
        catalog_event_fits(catalog_action(step), event),
        catalog_outcome(catalog_action(step), event, before, after),
    ensures
        catalog_recovery_invariant(
            catalog_next(step, event, files),
            catalog_recovery_error(root, step, event, files) is Some,
            known_files(step, event, files),
            start,
            after,
        ),
{
}

/// A catalog recovery that reports success leaves a whole catalog in its place: the one before the
/// interrupted write or the one after it. One that fails has lost neither.
pub proof fn law_catalog_recovery_finds_a_whole_catalog(
    failed: bool,
    files: CatalogFiles,
    start: CatalogWorld,
    world: CatalogWorld,
)
    requires
        catalog_recovery_invariant(CatalogStep::Finished, failed, files, start, world),
    ensures
        catalog_kept(world),
        !failed ==> catalog_in_place(world) && world.pending is Absent && world.previous is Absent,
{
}

/// One moment of a catalog write.
pub struct WriteMoment {
    /// The step that the write stands at.
    pub step: WriteStep,
    /// What it reports so far, if anything.
    pub error: Option<Seq<char>>,
    /// The catalog files.
    pub world: CatalogWorld,
}

/// Whether `event` leads from one moment of a replacing write to the next.
pub open spec fn write_moves(event: WriteEvent, before: WriteMoment, after: WriteMoment) -> bool {
    &&& write_event_fits(write_action(before.step), event)
    &&& write_outcome(write_action(before.step), event, before.world, after.world)
    &&& after.step == write_next(false, before.step, event)
    &&& after.error == write_error(before.step, event, before.error)
}

/// Whether `moments` is a write that replaces the catalog of `start` and meets these events.
pub open spec fn is_write_run(
    start: CatalogWorld,
    events: Seq<WriteEvent>,
    moments: Seq<WriteMoment>,
) -> bool {
    &&& moments.len() == events.len() + 1
    &&& moments[0] == WriteMoment { step: WriteStep::WritePending, error: None, world: start }
    &&& forall|i: int|
        0 <= i < events.len() ==> write_moves(#[trigger] events[i], moments[i], moments[i + 1])
}

proof fn lemma_write_run(
    start: CatalogWorld,
    events: Seq<WriteEvent>,
    moments: Seq<WriteMoment>,
    i: int,
)
    requires
        start.state is Before,
        is_write_run(start, events, moments),
        0 <= i < moments.len(),
    ensures
        write_invariant(moments[i].step, moments[i].error is Some, moments[i].world),
    decreases i,
{
    if i == 0 {
        law_write_begins(start);
    } else {
        lemma_write_run(start, events, moments, i - 1);
        let before = moments[i - 1];
        assert(write_moves(events[i - 1], before, moments[i]));
        law_write_keeps_invariant(
            before.step,
            events[i - 1],
            before.error,
            before.world,
            moments[i].world,
        );
    }
}

/// Whatever the events of a write are, a whole catalog is there at every moment, the old one or
/// the new one, and a write that ends with success has put the new one in place.
pub proof fn law_no_write_loses_the_catalog(
    start: CatalogWorld,
    events: Seq<WriteEvent>,
    moments: Seq<WriteMoment>,
    i: int,
)
    requires
        start.state is Before,
        is_write_run(start, events, moments),
        0 <= i < moments.len(),
    ensures
        catalog_kept(moments[i].world),
        moments[i].step is Finished && moments[i].error is None ==> moments[i].world.state is After,
{
    lemma_write_run(start, events, moments, i);
    law_write_never_loses_the_catalog(
        moments[i].step,
        moments[i].error is Some,
        moments[i].world,
    );
}

/// One moment of a catalog recovery.
pub struct CatalogMoment {
    /// The step that the recovery stands at.
    pub step: CatalogStep,
    /// Whether it ended with a failure.
    pub failed: bool,
    /// The files that it knows of.
    pub files: CatalogFiles,
    /// The catalog files.
    pub world: CatalogWorld,
}

/// Whether `event` leads from one moment of a catalog recovery to the next.
pub open spec fn catalog_moves(
    event: CatalogEvent,
    before: CatalogMoment,
    after: CatalogMoment,
) -> bool {
    &&& before.step !is Finished
    &&& catalog_event_fits(catalog_action(before.step), event)
    &&& catalog_outcome(catalog_action(before.step), event, before.world, after.world)
    &&& after.step == catalog_next(before.step, event, before.files)
    &&& after.failed == catalog_recovery_error(Seq::empty(), before.step, event, before.files)
        is Some
    &&& after.files == known_files(before.step, event, before.files)
}

/// Whether `moments` is a catalog recovery of `world` that meets these events.
pub open spec fn is_catalog_run(
    world: CatalogWorld,
    events: Seq<CatalogEvent>,
    moments: Seq<CatalogMoment>,
) -> bool {
    &&& moments.len() == events.len() + 1
    &&& moments[0].step is Inspect
    &&& !moments[0].failed
    &&& moments[0].world == world
    &&& forall|i: int|
        0 <= i < events.len() ==> catalog_moves(#[trigger] events[i], moments[i], moments[i + 1])
}

proof fn lemma_catalog_run(
    world: CatalogWorld,
    events: Seq<CatalogEvent>,
    moments: Seq<CatalogMoment>,
    i: int,
)
    requires
        catalog_kept(world),
        is_catalog_run(world, events, moments),
        0 <= i < moments.len(),
    ensures
        catalog_recovery_invariant(
            moments[i].step,
            moments[i].failed,
            moments[i].files,
            world,
            moments[i].world,
        ),
    decreases i,
{
    if i > 0 {
        lemma_catalog_run(world, events, moments, i - 1);
        let before = moments[i - 1];
        assert(catalog_moves(events[i - 1], before, moments[i]));
        law_catalog_recovery_keeps_invariant(
            Seq::empty(),
            before.step,
            events[i - 1],
            before.files,
            world,
            before.world,
            moments[i].world,
        );
    }
}

/// Whatever the events of a catalog recovery are, the interrupted catalog is never lost and no
/// earlier evidence replaced: at every moment it lies where it was, or at the evidence path with
/// every byte. A recovery that succeeds has kept it there, and kept earlier evidence where there
/// was no interrupted catalog.
pub proof fn law_interrupted_catalogs_are_kept_as_evidence(
    world: CatalogWorld,
    events: Seq<CatalogEvent>,
    moments: Seq<CatalogMoment>,
    i: int,
)
    requires
        catalog_kept(world),
        is_catalog_run(world, events, moments),
        0 <= i < moments.len(),
    ensures
        pending_kept(world, moments[i].world),
        moments[i].step is Finished && !moments[i].failed ==> {
            &&& moments[i].world.pending is Absent
            &&& moments[i].world.evidence == (if world.pending is Absent {
                world.evidence
            } else {
                world.pending
            })
        },
{
    lemma_catalog_run(world, events, moments, i);
}

/// The process may die at any moment of any catalog write. Whatever the events of the recovery at
/// the next start are, it loses no whole catalog, and one that succeeds leaves the catalog from
/// before the write or from after it in its place, and what the write left unfinished as evidence.
pub proof fn law_every_interrupted_write_is_recovered(
    start: CatalogWorld,
    events: Seq<WriteEvent>,
    moments: Seq<WriteMoment>,
    i: int,
    recovery_events: Seq<CatalogEvent>,
    recovery: Seq<CatalogMoment>,
)
    requires
        start.state is Before,
        is_write_run(start, events, moments),
        0 <= i < moments.len(),
        is_catalog_run(moments[i].world, recovery_events, recovery),
    ensures
        catalog_kept(recovery.last().world),
        pending_kept(moments[i].world, recovery.last().world),
        recovery.last().step is Finished && !recovery.last().failed ==> {
            &&& catalog_in_place(recovery.last().world)
            &&& moments[i].world.pending !is Absent ==> recovery.last().world.evidence
                == moments[i].world.pending
        },
{
    law_no_write_loses_the_catalog(start, events, moments, i);
    let last = recovery.len() - 1;
    lemma_catalog_run(moments[i].world, recovery_events, recovery, last);
}

/// Each step of a write is reached only in one way. The pending file is written first; the catalog
/// is replaced only once the one before stands aside, and a first catalog is installed only where
/// there is none; the directory is synced before the old catalog goes; and a write that cannot be
/// finished puts the old catalog back, where there was one.
pub proof fn law_write_steps_follow_their_cause(create: bool, step: WriteStep, event: WriteEvent)
    requires
        write_event_fits(write_action(step), event),
    ensures
        ({
            let gone = event is Done || (event is Failed && event->missing);
            match write_next(create, step, event) {
                WriteStep::WritePending => false,
                WriteStep::CheckState => step is WritePending && event is Done && create,
                WriteStep::DropRefused => step is CheckState && event->Exists_0,
                WriteStep::RemovePrevious => step is WritePending && event is Done && !create,
                WriteStep::Preserve => step is RemovePrevious && gone,
                WriteStep::Install => {
                    ||| step is CheckState && !event->Exists_0
                    ||| step is Preserve && event is Done
                },
                WriteStep::DropPending => step is Install && event !is Done,
                WriteStep::RestoreAfterInstall => step is DropPending && !create,
                WriteStep::Sync => step is Install && event is Done,
                WriteStep::DropState => step is Sync && event !is Done,
                WriteStep::RestoreAfterSync => step is DropState && !create,
                WriteStep::SyncAgain => step is RestoreAfterSync,
                WriteStep::ClearPrevious => step is Sync && event is Done,
                WriteStep::Finished => {
                    ||| (step is WritePending || step is Preserve) && event !is Done
                    ||| step is RemovePrevious && !gone
                    ||| (step is DropPending || step is DropState) && create
                    ||| step is DropRefused || step is RestoreAfterInstall || step is SyncAgain || step is ClearPrevious
                },
            }
        }),
{
}

/// Each action is that of the steps that are named for it.
pub proof fn law_write_actions_belong_to_their_steps(step: WriteStep)
    ensures
        match write_action(step) {
            WriteAction::WritePending => step is WritePending,
            WriteAction::InspectState => step is CheckState,
            WriteAction::RemovePending => step is DropRefused || step is DropPending,
            WriteAction::RemovePrevious => step is RemovePrevious || step is ClearPrevious,
            WriteAction::PreserveState => step is Preserve,
            WriteAction::InstallPending => step is Install,
            WriteAction::RestorePrevious => step is RestoreAfterInstall || step is RestoreAfterSync,
            WriteAction::RemoveState => step is DropState,
            WriteAction::SyncParent => step is Sync || step is SyncAgain,
            WriteAction::Finish => step is Finished,
        },
{
}

/// A write fails exactly where its own work fails, and says what could not be done. Putting things
/// back, and removing what is no longer needed, changes nothing of that.
pub proof fn law_write_failures_tell_their_cause(
    step: WriteStep,
    event: WriteEvent,
    error: Option<Seq<char>>,
)
    requires
        write_event_fits(write_action(step), event),
    ensures
        event is Done || event == WriteEvent::Exists(false) ==> write_error(step, event, error)
            == error,
        step is DropRefused || step is DropPending || step is RestoreAfterInstall || step
            is DropState || step is RestoreAfterSync || step is SyncAgain || step is ClearPrevious
            ==> write_error(step, event, error) == error,
        event == WriteEvent::Exists(true) ==> write_error(step, event, error) == Some(
            "server-state already exists"@,
        ),
        step is RemovePrevious && event is Failed && event->missing ==> write_error(
            step,
            event,
            error,
        ) == error,
        event matches WriteEvent::Failed { message, missing } ==> {
            &&& step is WritePending ==> write_error(step, event, error) == Some(message@)
            &&& step is RemovePrevious && !missing ==> write_error(step, event, error) == Some(
                "cannot remove "@ + "server-state.previous"@ + ": "@ + message@,
            )
            &&& step is Preserve ==> write_error(step, event, error) == Some(
                "cannot preserve previous catalog: "@ + message@,
            )
            &&& step is Install ==> write_error(step, event, error) == Some(
                "cannot install catalog: "@ + message@,
            )
            &&& step is Sync ==> write_error(step, event, error) == Some(
                "cannot sync data directory: "@ + message@,
            )
        },
{
}

/// A first catalog never replaces another: until the look at what is there, no catalog is touched,
/// and where one is there the write takes only its own pending file away.
pub proof fn law_first_catalogs_replace_nothing(
    step: WriteStep,
    event: WriteEvent,
    before: CatalogWorld,
    after: CatalogWorld,
)
    requires
        write_event_fits(write_action(step), event),
        write_outcome(write_action(step), event, before, after),
        step is WritePending || step is CheckState || step is DropRefused,
    ensures
        after.state == before.state,
        after.previous == before.previous,
        before.state !is Absent && step is CheckState ==> write_next(true, step, event)
            is DropRefused,
        before.state is Absent && step is CheckState ==> write_next(true, step, event) is Install,
        step is WritePending ==> (write_next(true, step, event) is CheckState <==> event is Done),
        step is DropRefused ==> write_next(true, step, event) is Finished,
{
}

/// Each step of a catalog's recovery is reached only in one way: the old catalog comes back only
/// where there is no other, an interrupted one is put aside only where nothing was put aside before,
/// and the old catalog is removed only once the one in place was read.
pub proof fn law_catalog_recovery_steps_follow_their_cause(
    step: CatalogStep,
    event: CatalogEvent,
    files: CatalogFiles,
)
    requires
        catalog_event_fits(catalog_action(step), event),
    ensures
        ({
            let found = event->Files_0;
            let ready = {
                ||| step is Inspect && (found.state || !found.previous)
                ||| step is RestorePrevious && event is Done
            };
            let pending = if step is Inspect {
                found.pending
            } else {
                files.pending
            };
            let evidence = if step is Inspect {
                found.evidence
            } else {
                files.evidence
            };
            match catalog_next(step, event, files) {
                CatalogStep::Inspect => false,
                CatalogStep::RestorePrevious => step is Inspect && !found.state && found.previous,
                CatalogStep::PreservePending => ready && pending && !evidence,
                CatalogStep::ReadState => {
                    ||| step is Inspect && !found.pending && found.state && found.previous
                    ||| step is PreservePending && event is Done && files.state && files.previous
                },
                CatalogStep::RemovePrevious => step is ReadState && event is Done,
                CatalogStep::Finished => {
                    ||| step is RemovePrevious
                    ||| event is Failed
                    ||| ready && pending && evidence
                    ||| step is RestorePrevious && !files.pending
                    ||| step is Inspect && !found.pending && !found.previous
                    ||| step is PreservePending && !(files.state && files.previous)
                },
            }
        }),
{
}

/// A catalog's recovery fails exactly where it cannot go on, and says why: no catalog at all, a
/// second interrupted one, or an action that failed. An old catalog that is gone already is none.
pub proof fn law_catalog_recovery_failures_tell_their_cause(
    root: Seq<char>,
    step: CatalogStep,
    event: CatalogEvent,
    files: CatalogFiles,
)
    requires
        catalog_event_fits(catalog_action(step), event),
    ensures
        event matches CatalogEvent::Files(found) ==> {
            let error = catalog_recovery_error(root, step, event, files);
            &&& error == Some("multiple interrupted catalog writes require operator recovery"@)
                || error is None || error == Some(
                "data directory has no server-state catalog; run `nostd init` for a fresh directory"@,
            )
            &&& error is Some <==> (found.state || !found.previous) && ((found.pending
                && found.evidence) || (!found.pending && !found.state))
            &&& error is Some && found.pending ==> error == Some(
                "multiple interrupted catalog writes require operator recovery"@,
            )
            &&& error is Some && !found.pending ==> error == Some(
                "data directory has no server-state catalog; run `nostd init` for a fresh directory"@,
            )
        },
        event is Done ==> {
            let error = catalog_recovery_error(root, step, event, files);
            &&& step is RestorePrevious ==> (error is Some <==> files.pending && files.evidence)
            &&& step is RestorePrevious && error is Some ==> error == Some(
                "multiple interrupted catalog writes require operator recovery"@,
            )
            &&& step is PreservePending ==> (error is Some <==> !files.state)
            &&& step is PreservePending && error is Some ==> error == Some(
                "data directory has no server-state catalog; run `nostd init` for a fresh directory"@,
            )
            &&& step is ReadState || step is RemovePrevious ==> error is None
        },
        event matches CatalogEvent::Failed { message, missing } ==> {
            let error = catalog_recovery_error(root, step, event, files);
            &&& step is RestorePrevious ==> error == Some(
                "cannot restore previous catalog: "@ + message@,
            )
            &&& step is PreservePending ==> error == Some(
                "cannot preserve interrupted catalog: "@ + message@,
            )
            &&& step is ReadState ==> error == Some(message@)
            &&& step is RemovePrevious && missing ==> error is None
            &&& step is RemovePrevious && !missing ==> error == Some(
                "cannot remove "@ + joined(root, "server-state.previous"@) + ": "@ + message@,
            )
        },
{
}

/// What a recovery knows of the files is what it found, and that an old catalog that came back is
/// the catalog now.
pub proof fn law_recoveries_know_what_they_found(
    step: CatalogStep,
    event: CatalogEvent,
    files: CatalogFiles,
)
    ensures
        ({
            let known = known_files(step, event, files);
            &&& event matches CatalogEvent::Files(found) ==> known == found
            &&& event is Failed ==> known == files
            &&& event is Done && step !is RestorePrevious ==> known == files
            &&& event is Done && step is RestorePrevious ==> known.state && !known.previous
                && known.pending == files.pending && known.evidence == files.evidence
        }),
        match catalog_action(step) {
            CatalogAction::Inspect => step is Inspect,
            CatalogAction::RestorePrevious => step is RestorePrevious,
            CatalogAction::PreservePending => step is PreservePending,
            CatalogAction::ReadState => step is ReadState,
            CatalogAction::RemovePrevious => step is RemovePrevious,
            CatalogAction::Finish => step is Finished,
        },
{
}

/// An error that is kept is seen as it is, and one that is not there is not seen.
pub proof fn law_kept_errors_are_seen(error: Option<ServerError>)
    ensures
        error is None <==> server_error_view(error) is None,
        error matches Some(kept) ==> server_error_view(error) == Some(kept@),
{
}

/// A look at the directory reports what is there, every other action of a catalog recovery that it
/// was done or why not, and a finished recovery takes no report.
pub proof fn law_catalog_actions_report_their_outcome(action: CatalogAction, event: CatalogEvent)
    ensures
        catalog_event_fits(action, event) <==> match event {
            CatalogEvent::Files(_) => action is Inspect,
            CatalogEvent::Done => action !is Inspect && action !is Finish,
            CatalogEvent::Failed { message: _, missing: _ } => action !is Inspect && action !is Finish,
        },
{
}

/// A look at the catalog reports whether it is there, every other action of a write that it was done
/// or why not, and a finished write takes no report.
pub proof fn law_write_actions_report_their_outcome(action: WriteAction, event: WriteEvent)
    ensures
        write_event_fits(action, event) <==> match event {
            WriteEvent::Exists(_) => action is InspectState,
            WriteEvent::Done => action !is InspectState && action !is Finish,
            WriteEvent::Failed { message: _, missing: _ } => action !is InspectState && action !is Finish,
        },
{
}

} // verus!
