//! Replacing a Database by a physical snapshot, and finishing a replacement that was interrupted.
//!
//! A replacement is a machine: it names the next action on the Database's directory, the caller
//! performs the action and reports what came of it. The directory holds the live Database, and
//! while a replacement runs also the candidate, the backup of the live Database, and a journal.

use vstd::prelude::*;

use crate::client::ErrorCode;
use crate::failure::{
    busy, busy_view, internal, internal_view, permanent, transient, FailureView, ProtocolFailure,
};
use crate::text::{join2, join3};

verus! {

/// One action on a Database's directory or on its open handle.
#[derive(Clone, Copy, Debug, PartialEq, Eq, Structural)]
pub enum RestoreAction {
    /// Report which of the four files exist.
    Inspect,
    /// Create the candidate from the uploaded bytes and sync it.
    WriteCandidate,
    /// Open the candidate with the storage engine.
    OpenCandidate,
    /// Run the candidate's integrity check.
    CheckCandidate,
    /// Give the candidate server authority.
    AdoptCandidate,
    /// Checkpoint the candidate and close it.
    CheckpointCandidate,
    /// Create the journal and sync it.
    WriteJournal,
    /// Sync the directory.
    SyncDirectory,
    /// Lock the handle and take the live Database out of it.
    TakeLive,
    /// Checkpoint the Database that was taken out of the handle.
    CheckpointLive,
    /// Put the Database that was taken out back into the handle.
    ReinstateLive,
    /// Close the Database that was taken out and rename the live file to the backup.
    MoveLiveToBackup,
    /// Rename the candidate to the live file.
    MoveCandidateToLive,
    /// Rename the backup to the live file.
    MoveBackupToLive,
    /// Open the live file into the handle.
    OpenLive,
    /// Open the live file and run its integrity check.
    ValidateLive,
    /// Remove the live file and then its lock sidecar.
    RemoveLive,
    /// Remove the candidate, where it exists, and then its lock sidecar.
    RemoveCandidate,
    /// Remove the backup, where it exists, and then its lock sidecar.
    RemoveBackup,
    /// Remove the journal.
    RemoveJournal,
    /// Remove the candidate's lock sidecar.
    RemoveCandidateSidecar,
    /// Read and decode the journal.
    ReadJournal,
    /// Nothing is left to do.
    Finish,
}

/// Which files of a replacement exist.
#[derive(Clone, Copy, Debug, PartialEq, Eq, Structural)]
pub struct Presence {
    /// The live Database.
    pub target: bool,
    /// The validated or partial snapshot.
    pub candidate: bool,
    /// The live Database, moved aside.
    pub backup: bool,
    /// The journal.
    pub journal: bool,
}

/// The journal of a replacement.
#[derive(Debug, PartialEq, Eq)]
pub struct RestoreJournal {
    /// Journal format version.
    pub operation_version: u32,
    /// Stable identity of the Database being replaced.
    pub database_id: String,
    /// How far the replacement had come.
    pub stage: String,
}

/// The name of the live Database in its directory.
pub const TARGET_FILE: &'static str = "database.ndb";

/// The name of the candidate in the Database's directory.
pub const CANDIDATE_FILE: &'static str = "database.ndb.restore-candidate";

/// The name of the backup in the Database's directory.
pub const BACKUP_FILE: &'static str = "database.ndb.restore-backup";

/// The name of the journal in the Database's directory.
pub const JOURNAL_FILE: &'static str = "restore-operation";

/// The journal written before the live Database is touched.
pub fn prepared_journal(database_id: &str) -> (journal: RestoreJournal)
    ensures
        journal.operation_version == 1,
        journal.database_id@ == database_id@,
        journal.stage@ == "prepared"@,
{
    RestoreJournal {
        operation_version: 1,
        database_id: database_id.to_owned(),
        stage: "prepared".to_owned(),
    }
}

/// What came of an action.
#[derive(Debug, PartialEq, Eq)]
pub enum RestoreEvent {
    /// The action succeeded.
    Done,
    /// The action failed and changed nothing.
    Failed {
        /// What went wrong.
        message: String,
        /// Whether the file to act on does not exist.
        missing: bool,
    },
    /// The storage engine refused the checkpoint of the live Database.
    Refused(ProtocolFailure),
    /// The integrity check ran and found damage.
    Invalid,
    /// Another operation holds the live Database.
    Unavailable,
    /// The handle's lock is poisoned.
    Poisoned,
    /// The files that exist.
    Files(Presence),
}

/// Where a replacement stands: the action to perform next.
#[derive(Clone, Copy, Debug, PartialEq, Eq, Structural)]
pub enum RestoreStep {
    /// Look for traces of an earlier replacement.
    Preflight,
    /// Remove a candidate that no journal speaks of.
    RemoveStale,
    /// Make that removal durable.
    SyncStale,
    /// Look again: nothing may be left.
    Recheck,
    /// Write the uploaded bytes.
    WriteCandidate,
    /// Open the candidate.
    OpenCandidate,
    /// Check the candidate.
    CheckCandidate,
    /// Adopt the candidate.
    AdoptCandidate,
    /// Checkpoint the candidate.
    CheckpointCandidate,
    /// Announce the replacement.
    WriteJournal,
    /// Make the announcement durable.
    SyncPrepared,
    /// Take the live Database.
    TakeLive,
    /// Checkpoint the live Database.
    CheckpointLive,
    /// Give the live Database back after a failed checkpoint.
    ReinstateLive,
    /// Move the live Database aside.
    MoveLive,
    /// Reopen the live Database that could not be moved.
    ReopenUnmoved,
    /// Make the move durable.
    SyncMoved,
    /// Put the candidate in its place.
    InstallCandidate,
    /// Put the live Database back after a failed installation.
    RestoreAfterInstall,
    /// Make the installation durable.
    SyncInstalled,
    /// Open the installed snapshot.
    OpenInstalled,
    /// Remove an installed snapshot that does not open.
    RemoveInstalled,
    /// Make that removal durable.
    SyncRemoved,
    /// Put the live Database back after a failed open.
    RestoreAfterOpen,
    /// Make the return of the live Database durable.
    SyncRestored,
    /// Reopen the live Database that was put back.
    ReopenRestored,
    /// Discard the candidate of an abandoned replacement.
    DiscardCandidate,
    /// Make that durable before the journal goes.
    SyncDiscarded,
    /// Discard the journal of an abandoned replacement.
    DiscardJournal,
    /// Make that durable.
    SyncForgotten,
    /// Remove the backup of a committed replacement.
    RemoveBackup,
    /// Make that durable before the journal goes.
    SyncBackupRemoval,
    /// Remove the journal of a committed replacement.
    RemoveJournal,
    /// Make that durable.
    SyncJournalRemoval,
    /// Remove the candidate's sidecar.
    RemoveSidecar,
    /// After a failure, look whether a candidate without a journal is left.
    Sweep,
    /// Remove it.
    SweepCandidate,
    /// Make that durable.
    SyncSweep,
    /// The replacement is over.
    Finished,
}

/// The action that a step asks for.
pub open spec fn step_action(step: RestoreStep) -> RestoreAction {
    match step {
        RestoreStep::Preflight => RestoreAction::Inspect,
        RestoreStep::RemoveStale => RestoreAction::RemoveCandidate,
        RestoreStep::SyncStale => RestoreAction::SyncDirectory,
        RestoreStep::Recheck => RestoreAction::Inspect,
        RestoreStep::WriteCandidate => RestoreAction::WriteCandidate,
        RestoreStep::OpenCandidate => RestoreAction::OpenCandidate,
        RestoreStep::CheckCandidate => RestoreAction::CheckCandidate,
        RestoreStep::AdoptCandidate => RestoreAction::AdoptCandidate,
        RestoreStep::CheckpointCandidate => RestoreAction::CheckpointCandidate,
        RestoreStep::WriteJournal => RestoreAction::WriteJournal,
        RestoreStep::SyncPrepared => RestoreAction::SyncDirectory,
        RestoreStep::TakeLive => RestoreAction::TakeLive,
        RestoreStep::CheckpointLive => RestoreAction::CheckpointLive,
        RestoreStep::ReinstateLive => RestoreAction::ReinstateLive,
        RestoreStep::MoveLive => RestoreAction::MoveLiveToBackup,
        RestoreStep::ReopenUnmoved => RestoreAction::OpenLive,
        RestoreStep::SyncMoved => RestoreAction::SyncDirectory,
        RestoreStep::InstallCandidate => RestoreAction::MoveCandidateToLive,
        RestoreStep::RestoreAfterInstall => RestoreAction::MoveBackupToLive,
        RestoreStep::SyncInstalled => RestoreAction::SyncDirectory,
        RestoreStep::OpenInstalled => RestoreAction::OpenLive,
        RestoreStep::RemoveInstalled => RestoreAction::RemoveLive,
        RestoreStep::SyncRemoved => RestoreAction::SyncDirectory,
        RestoreStep::RestoreAfterOpen => RestoreAction::MoveBackupToLive,
        RestoreStep::SyncRestored => RestoreAction::SyncDirectory,
        RestoreStep::ReopenRestored => RestoreAction::OpenLive,
        RestoreStep::DiscardCandidate => RestoreAction::RemoveCandidate,
        RestoreStep::SyncDiscarded => RestoreAction::SyncDirectory,
        RestoreStep::DiscardJournal => RestoreAction::RemoveJournal,
        RestoreStep::SyncForgotten => RestoreAction::SyncDirectory,
        RestoreStep::RemoveBackup => RestoreAction::RemoveBackup,
        RestoreStep::SyncBackupRemoval => RestoreAction::SyncDirectory,
        RestoreStep::RemoveJournal => RestoreAction::RemoveJournal,
        RestoreStep::SyncJournalRemoval => RestoreAction::SyncDirectory,
        RestoreStep::RemoveSidecar => RestoreAction::RemoveCandidateSidecar,
        RestoreStep::Sweep => RestoreAction::Inspect,
        RestoreStep::SweepCandidate => RestoreAction::RemoveCandidate,
        RestoreStep::SyncSweep => RestoreAction::SyncDirectory,
        RestoreStep::Finished => RestoreAction::Finish,
    }
}

/// The reports that an action can have.
pub open spec fn event_fits(action: RestoreAction, event: RestoreEvent) -> bool {
    match action {
        RestoreAction::Inspect => event is Files,
        RestoreAction::CheckCandidate => event is Done || event is Failed || event is Invalid,
        RestoreAction::TakeLive => event is Done || event is Unavailable || event is Poisoned,
        RestoreAction::CheckpointLive => event is Done || event is Refused,
        RestoreAction::ReinstateLive => event is Done,
        RestoreAction::RemoveCandidateSidecar => event is Done,
        RestoreAction::ReadJournal => false,
        RestoreAction::Finish => false,
        _ => event is Done || event is Failed,
    }
}

/// Whether the report lets a removal count as done: the file is gone either way.
pub open spec fn removed(event: RestoreEvent) -> bool {
    event is Done || (event matches RestoreEvent::Failed { missing, .. } && missing)
}

/// What stale files without a journal ask for.
pub enum StaleFiles {
    /// Nothing: there are none, or a journal speaks of them.
    Nothing,
    /// Remove the candidate: the live Database was never touched.
    RemoveCandidate,
    /// An operator must look.
    Operator,
}

/// The decision on files that no journal speaks of.
pub open spec fn stale_files(files: Presence) -> StaleFiles {
    if files.journal || (!files.candidate && !files.backup) {
        StaleFiles::Nothing
    } else if files.target && files.candidate && !files.backup {
        StaleFiles::RemoveCandidate
    } else {
        StaleFiles::Operator
    }
}

/// Decides what stale files ask for.
pub fn judge_stale_files(files: Presence) -> (decision: StaleFiles)
    ensures
        decision == stale_files(files),
{
    if files.journal || (!files.candidate && !files.backup) {
        StaleFiles::Nothing
    } else if files.target && files.candidate && !files.backup {
        StaleFiles::RemoveCandidate
    } else {
        StaleFiles::Operator
    }
}

/// The step that follows `step` after `event`.
pub open spec fn next_step(step: RestoreStep, event: RestoreEvent) -> RestoreStep {
    let done = event is Done;
    match step {
        RestoreStep::Preflight => match event {
            RestoreEvent::Files(files) => match stale_files(files) {
                StaleFiles::Nothing => RestoreStep::Recheck,
                StaleFiles::RemoveCandidate => RestoreStep::RemoveStale,
                StaleFiles::Operator => RestoreStep::Finished,
            },
            _ => RestoreStep::Finished,
        },
        RestoreStep::RemoveStale => if done {
            RestoreStep::SyncStale
        } else {
            RestoreStep::Finished
        },
        RestoreStep::SyncStale => if done {
            RestoreStep::Recheck
        } else {
            RestoreStep::Finished
        },
        RestoreStep::Recheck => match event {
            RestoreEvent::Files(files) => if files.candidate || files.backup || files.journal {
                RestoreStep::Finished
            } else {
                RestoreStep::WriteCandidate
            },
            _ => RestoreStep::Finished,
        },
        RestoreStep::WriteCandidate => if done {
            RestoreStep::OpenCandidate
        } else {
            RestoreStep::Sweep
        },
        RestoreStep::OpenCandidate => if done {
            RestoreStep::CheckCandidate
        } else {
            RestoreStep::Sweep
        },
        RestoreStep::CheckCandidate => if done {
            RestoreStep::AdoptCandidate
        } else {
            RestoreStep::Sweep
        },
        RestoreStep::AdoptCandidate => if done {
            RestoreStep::CheckpointCandidate
        } else {
            RestoreStep::Sweep
        },
        RestoreStep::CheckpointCandidate => if done {
            RestoreStep::WriteJournal
        } else {
            RestoreStep::Sweep
        },
        RestoreStep::WriteJournal => if done {
            RestoreStep::SyncPrepared
        } else {
            RestoreStep::Sweep
        },
        RestoreStep::SyncPrepared => if done {
            RestoreStep::TakeLive
        } else {
            RestoreStep::Sweep
        },
        RestoreStep::TakeLive => if done {
            RestoreStep::CheckpointLive
        } else {
            RestoreStep::Sweep
        },
        RestoreStep::CheckpointLive => if done {
            RestoreStep::MoveLive
        } else {
            RestoreStep::ReinstateLive
        },
        RestoreStep::ReinstateLive => RestoreStep::DiscardCandidate,
        RestoreStep::MoveLive => if done {
            RestoreStep::SyncMoved
        } else {
            RestoreStep::ReopenUnmoved
        },
        RestoreStep::ReopenUnmoved => if done {
            RestoreStep::DiscardCandidate
        } else {
            RestoreStep::Sweep
        },
        RestoreStep::SyncMoved => if done {
            RestoreStep::InstallCandidate
        } else {
            RestoreStep::Sweep
        },
        RestoreStep::InstallCandidate => if done {
            RestoreStep::SyncInstalled
        } else {
            RestoreStep::RestoreAfterInstall
        },
        RestoreStep::RestoreAfterInstall => if done {
            RestoreStep::SyncRestored
        } else {
            RestoreStep::Sweep
        },
        RestoreStep::SyncInstalled => if done {
            RestoreStep::OpenInstalled
        } else {
            RestoreStep::Sweep
        },
        RestoreStep::OpenInstalled => if done {
            RestoreStep::RemoveBackup
        } else {
            RestoreStep::RemoveInstalled
        },
        RestoreStep::RemoveInstalled => if done {
            RestoreStep::SyncRemoved
        } else {
            RestoreStep::Sweep
        },
        RestoreStep::SyncRemoved => if done {
            RestoreStep::RestoreAfterOpen
        } else {
            RestoreStep::Sweep
        },
        RestoreStep::RestoreAfterOpen => if done {
            RestoreStep::SyncRestored
        } else {
            RestoreStep::Sweep
        },
        RestoreStep::SyncRestored => if done {
            RestoreStep::ReopenRestored
        } else {
            RestoreStep::Sweep
        },
        RestoreStep::ReopenRestored => if done {
            RestoreStep::DiscardCandidate
        } else {
            RestoreStep::Sweep
        },
        RestoreStep::DiscardCandidate => if removed(event) {
            RestoreStep::SyncDiscarded
        } else {
            RestoreStep::Sweep
        },
        RestoreStep::SyncDiscarded => if done {
            RestoreStep::DiscardJournal
        } else {
            RestoreStep::Sweep
        },
        RestoreStep::DiscardJournal => if removed(event) {
            RestoreStep::SyncForgotten
        } else {
            RestoreStep::Sweep
        },
        RestoreStep::SyncForgotten => RestoreStep::Sweep,
        RestoreStep::RemoveBackup => if removed(event) {
            RestoreStep::SyncBackupRemoval
        } else {
            RestoreStep::Finished
        },
        RestoreStep::SyncBackupRemoval => if done {
            RestoreStep::RemoveJournal
        } else {
            RestoreStep::Finished
        },
        RestoreStep::RemoveJournal => if removed(event) {
            RestoreStep::SyncJournalRemoval
        } else {
            RestoreStep::RemoveSidecar
        },
        RestoreStep::SyncJournalRemoval => RestoreStep::RemoveSidecar,
        RestoreStep::RemoveSidecar => RestoreStep::Finished,
        RestoreStep::Sweep => match event {
            RestoreEvent::Files(files) => if files.candidate && !files.journal {
                RestoreStep::SweepCandidate
            } else {
                RestoreStep::Finished
            },
            _ => RestoreStep::Finished,
        },
        RestoreStep::SweepCandidate => if done {
            RestoreStep::SyncSweep
        } else {
            RestoreStep::Finished
        },
        RestoreStep::SyncSweep => RestoreStep::Finished,
        RestoreStep::Finished => RestoreStep::Finished,
    }
}

/// The text of a report.
pub open spec fn event_text(event: RestoreEvent) -> Seq<char> {
    match event {
        RestoreEvent::Failed { message, .. } => message@,
        _ => Seq::empty(),
    }
}

/// The text for a directory that could not be synced.
pub open spec fn sync_failure_text(directory: Seq<char>, error: Seq<char>) -> Seq<char> {
    "cannot sync restore directory "@ + directory + ": "@ + error
}

/// The text that a client gets for a directory that could not be synced: it names no path.
pub open spec fn unsynced_text(error: Seq<char>) -> Seq<char> {
    "cannot sync restore directory: "@ + error
}

/// The text that a client gets for a file that could not be removed: it names no path.
pub open spec fn unremoved_text(file: Seq<char>, error: Seq<char>) -> Seq<char> {
    "cannot remove "@ + file + ": "@ + error
}

/// A failure after which the daemon's next start finishes the work.
pub open spec fn recovery_view(message: Seq<char>) -> FailureView {
    transient(ErrorCode::RecoveryRequired, message)
}

/// The failure of an abandoned replacement whose files could not be removed.
pub open spec fn unclean_view(reason: Seq<char>, cleanup: Seq<char>) -> FailureView {
    recovery_view(reason + "; restore cleanup requires restart: "@ + cleanup)
}

/// The message of the failure that a replacement holds so far.
pub open spec fn reason(failure: Option<FailureView>) -> Seq<char> {
    match failure {
        Some(failure) => failure.message,
        None => Seq::empty(),
    }
}

/// The failure that a replacement holds after `event` at `step`: the one that it reports in the
/// end. A failure of the cleanup after a committed replacement is none.
pub open spec fn next_failure(
    step: RestoreStep,
    event: RestoreEvent,
    failure: Option<FailureView>,
) -> Option<FailureView> {
    let text = event_text(event);
    let sync = unsynced_text(text);
    match step {
        RestoreStep::Preflight => if event matches RestoreEvent::Files(files) && stale_files(files)
            is Operator {
            Some(
                internal_view(
                    "snapshot restore files exist without a journal; operator recovery is required"@,
                ),
            )
        } else {
            failure
        },
        RestoreStep::RemoveStale => if event is Done {
            failure
        } else {
            Some(internal_view(text))
        },
        RestoreStep::Recheck => if event matches RestoreEvent::Files(files) && (files.candidate
            || files.backup || files.journal) {
            Some(
                recovery_view("a previous snapshot restore requires daemon restart recovery"@),
            )
        } else {
            failure
        },
        RestoreStep::WriteCandidate | RestoreStep::WriteJournal => if event is Done {
            failure
        } else {
            Some(internal_view(text))
        },
        RestoreStep::OpenCandidate
        | RestoreStep::AdoptCandidate
        | RestoreStep::CheckpointCandidate => if event is Done {
            failure
        } else {
            Some(permanent(ErrorCode::SnapshotIncompatible, text))
        },
        RestoreStep::CheckCandidate => match event {
            RestoreEvent::Done => failure,
            RestoreEvent::Invalid => Some(
                permanent(ErrorCode::SnapshotIncompatible, "snapshot integrity check failed"@),
            ),
            _ => Some(permanent(ErrorCode::SnapshotIncompatible, text)),
        },
        RestoreStep::SyncStale
        | RestoreStep::SyncPrepared
        | RestoreStep::SyncMoved
        | RestoreStep::SyncInstalled
        | RestoreStep::SyncRemoved
        | RestoreStep::SyncRestored => if event is Done {
            failure
        } else {
            Some(internal_view(sync))
        },
        RestoreStep::TakeLive => match event {
            RestoreEvent::Unavailable => Some(busy_view()),
            RestoreEvent::Poisoned => Some(internal_view("managed Database lock is poisoned"@)),
            _ => failure,
        },
        RestoreStep::CheckpointLive => match event {
            RestoreEvent::Refused(refusal) => Some(refusal@),
            _ => failure,
        },
        RestoreStep::MoveLive => if event is Done {
            failure
        } else {
            Some(
                internal_view(
                    "cannot move the live Database for snapshot installation: "@ + text,
                ),
            )
        },
        RestoreStep::ReopenUnmoved => if event is Done {
            failure
        } else {
            Some(
                recovery_view(
                    reason(failure) + "; the live Database could not reopen: "@ + text,
                ),
            )
        },
        RestoreStep::InstallCandidate => if event is Done {
            failure
        } else {
            Some(internal_view("cannot install snapshot: "@ + text))
        },
        RestoreStep::RestoreAfterInstall => if event is Done {
            failure
        } else {
            Some(
                recovery_view(
                    reason(failure) + "; cannot restore the live Database: "@ + text
                        + "; restart recovery is required"@,
                ),
            )
        },
        RestoreStep::OpenInstalled => if event is Done {
            failure
        } else {
            Some(internal_view("installed snapshot could not reopen: "@ + text))
        },
        RestoreStep::RemoveInstalled => if event is Done {
            failure
        } else {
            Some(
                recovery_view(reason(failure) + "; cannot remove it for rollback: "@ + text),
            )
        },
        RestoreStep::RestoreAfterOpen => if event is Done {
            failure
        } else {
            Some(
                recovery_view(reason(failure) + "; cannot restore the live Database: "@ + text),
            )
        },
        RestoreStep::ReopenRestored => if event is Done {
            failure
        } else {
            Some(
                recovery_view(
                    reason(failure) + "; restored live Database could not reopen: "@ + text,
                ),
            )
        },
        RestoreStep::DiscardCandidate => if removed(event) {
            failure
        } else {
            Some(
                unclean_view(
                    reason(failure),
                    unremoved_text("restore candidate"@, text),
                ),
            )
        },
        RestoreStep::DiscardJournal => if removed(event) {
            failure
        } else {
            Some(
                unclean_view(
                    reason(failure),
                    unremoved_text("restore journal"@, text),
                ),
            )
        },
        RestoreStep::SyncDiscarded | RestoreStep::SyncForgotten => if event is Done {
            failure
        } else {
            Some(unclean_view(reason(failure), sync))
        },
        _ => failure,
    }
}

/// A running replacement.
pub struct RestoreMachine {
    /// Where the replacement stands.
    pub step: RestoreStep,
    /// The failure that it reports in the end, if any.
    pub failure: Option<ProtocolFailure>,
}

/// What an optional failure says.
pub open spec fn failure_view(failure: Option<ProtocolFailure>) -> Option<FailureView> {
    match failure {
        Some(failure) => Some(failure@),
        None => None,
    }
}

fn removal_failure(file: &str, error: &str) -> (message: String)
    ensures
        message@ == unremoved_text(file@, error@),
{
    join2(join3("cannot remove ", file, ": ").as_str(), error)
}

fn sync_failure(error: &str) -> (message: String)
    ensures
        message@ == unsynced_text(error@),
{
    join2("cannot sync restore directory: ", error)
}

fn recovery(message: &str) -> (failure: ProtocolFailure)
    ensures
        failure@ == recovery_view(message@),
{
    ProtocolFailure::retryable(ErrorCode::RecoveryRequired, message)
}

fn unclean(reason: &str, cleanup: &str) -> (failure: ProtocolFailure)
    ensures
        failure@ == unclean_view(reason@, cleanup@),
{
    recovery(join3(reason, "; restore cleanup requires restart: ", cleanup).as_str())
}

fn is_removed(event: &RestoreEvent) -> (gone: bool)
    ensures
        gone == removed(*event),
{
    match event {
        RestoreEvent::Done => true,
        RestoreEvent::Failed { missing, .. } => *missing,
        _ => false,
    }
}

fn following(step: RestoreStep, event: &RestoreEvent) -> (next: RestoreStep)
    ensures
        next == next_step(step, *event),
{
    let done: bool = matches!(event, RestoreEvent::Done);
    let gone: bool = is_removed(event);
    match step {
        RestoreStep::Preflight => match event {
            RestoreEvent::Files(files) => match judge_stale_files(*files) {
                StaleFiles::Nothing => RestoreStep::Recheck,
                StaleFiles::RemoveCandidate => RestoreStep::RemoveStale,
                StaleFiles::Operator => RestoreStep::Finished,
            },
            _ => RestoreStep::Finished,
        },
        RestoreStep::RemoveStale => if done {
            RestoreStep::SyncStale
        } else {
            RestoreStep::Finished
        },
        RestoreStep::SyncStale => if done {
            RestoreStep::Recheck
        } else {
            RestoreStep::Finished
        },
        RestoreStep::Recheck => match event {
            RestoreEvent::Files(files) => if files.candidate || files.backup || files.journal {
                RestoreStep::Finished
            } else {
                RestoreStep::WriteCandidate
            },
            _ => RestoreStep::Finished,
        },
        RestoreStep::WriteCandidate => if done {
            RestoreStep::OpenCandidate
        } else {
            RestoreStep::Sweep
        },
        RestoreStep::OpenCandidate => if done {
            RestoreStep::CheckCandidate
        } else {
            RestoreStep::Sweep
        },
        RestoreStep::CheckCandidate => if done {
            RestoreStep::AdoptCandidate
        } else {
            RestoreStep::Sweep
        },
        RestoreStep::AdoptCandidate => if done {
            RestoreStep::CheckpointCandidate
        } else {
            RestoreStep::Sweep
        },
        RestoreStep::CheckpointCandidate => if done {
            RestoreStep::WriteJournal
        } else {
            RestoreStep::Sweep
        },
        RestoreStep::WriteJournal => if done {
            RestoreStep::SyncPrepared
        } else {
            RestoreStep::Sweep
        },
        RestoreStep::SyncPrepared => if done {
            RestoreStep::TakeLive
        } else {
            RestoreStep::Sweep
        },
        RestoreStep::TakeLive => if done {
            RestoreStep::CheckpointLive
        } else {
            RestoreStep::Sweep
        },
        RestoreStep::CheckpointLive => if done {
            RestoreStep::MoveLive
        } else {
            RestoreStep::ReinstateLive
        },
        RestoreStep::ReinstateLive => RestoreStep::DiscardCandidate,
        RestoreStep::MoveLive => if done {
            RestoreStep::SyncMoved
        } else {
            RestoreStep::ReopenUnmoved
        },
        RestoreStep::ReopenUnmoved => if done {
            RestoreStep::DiscardCandidate
        } else {
            RestoreStep::Sweep
        },
        RestoreStep::SyncMoved => if done {
            RestoreStep::InstallCandidate
        } else {
            RestoreStep::Sweep
        },
        RestoreStep::InstallCandidate => if done {
            RestoreStep::SyncInstalled
        } else {
            RestoreStep::RestoreAfterInstall
        },
        RestoreStep::RestoreAfterInstall => if done {
            RestoreStep::SyncRestored
        } else {
            RestoreStep::Sweep
        },
        RestoreStep::SyncInstalled => if done {
            RestoreStep::OpenInstalled
        } else {
            RestoreStep::Sweep
        },
        RestoreStep::OpenInstalled => if done {
            RestoreStep::RemoveBackup
        } else {
            RestoreStep::RemoveInstalled
        },
        RestoreStep::RemoveInstalled => if done {
            RestoreStep::SyncRemoved
        } else {
            RestoreStep::Sweep
        },
        RestoreStep::SyncRemoved => if done {
            RestoreStep::RestoreAfterOpen
        } else {
            RestoreStep::Sweep
        },
        RestoreStep::RestoreAfterOpen => if done {
            RestoreStep::SyncRestored
        } else {
            RestoreStep::Sweep
        },
        RestoreStep::SyncRestored => if done {
            RestoreStep::ReopenRestored
        } else {
            RestoreStep::Sweep
        },
        RestoreStep::ReopenRestored => if done {
            RestoreStep::DiscardCandidate
        } else {
            RestoreStep::Sweep
        },
        RestoreStep::DiscardCandidate => if gone {
            RestoreStep::SyncDiscarded
        } else {
            RestoreStep::Sweep
        },
        RestoreStep::SyncDiscarded => if done {
            RestoreStep::DiscardJournal
        } else {
            RestoreStep::Sweep
        },
        RestoreStep::DiscardJournal => if gone {
            RestoreStep::SyncForgotten
        } else {
            RestoreStep::Sweep
        },
        RestoreStep::SyncForgotten => RestoreStep::Sweep,
        RestoreStep::RemoveBackup => if gone {
            RestoreStep::SyncBackupRemoval
        } else {
            RestoreStep::Finished
        },
        RestoreStep::SyncBackupRemoval => if done {
            RestoreStep::RemoveJournal
        } else {
            RestoreStep::Finished
        },
        RestoreStep::RemoveJournal => if gone {
            RestoreStep::SyncJournalRemoval
        } else {
            RestoreStep::RemoveSidecar
        },
        RestoreStep::SyncJournalRemoval => RestoreStep::RemoveSidecar,
        RestoreStep::RemoveSidecar => RestoreStep::Finished,
        RestoreStep::Sweep => match event {
            RestoreEvent::Files(files) => if files.candidate && !files.journal {
                RestoreStep::SweepCandidate
            } else {
                RestoreStep::Finished
            },
            _ => RestoreStep::Finished,
        },
        RestoreStep::SweepCandidate => if done {
            RestoreStep::SyncSweep
        } else {
            RestoreStep::Finished
        },
        RestoreStep::SyncSweep => RestoreStep::Finished,
        RestoreStep::Finished => RestoreStep::Finished,
    }
}

fn report_text(event: RestoreEvent) -> (text: String)
    ensures
        text@ == event_text(event),
{
    match event {
        RestoreEvent::Failed { message, .. } => message,
        _ => String::new(),
    }
}

fn reason_text(failure: &Option<ProtocolFailure>) -> (text: String)
    ensures
        text@ == reason(failure_view(*failure)),
{
    match failure {
        Some(failure) => failure.message.clone(),
        None => String::new(),
    }
}

fn noted(
    step: RestoreStep,
    event: RestoreEvent,
    failure: Option<ProtocolFailure>,
) -> (next: Option<ProtocolFailure>)
    ensures
        failure_view(next) == next_failure(step, event, failure_view(failure)),
{
    let done: bool = matches!(event, RestoreEvent::Done);
    let gone: bool = is_removed(&event);
    match step {
        RestoreStep::Preflight => {
            if let RestoreEvent::Files(files) = event {
                if let StaleFiles::Operator = judge_stale_files(files) {
                    return Some(
                        internal(
                            "snapshot restore files exist without a journal; operator recovery is required",
                        ),
                    );
                }
            }
            failure
        },
        RestoreStep::Recheck => {
            if let RestoreEvent::Files(files) = event {
                if files.candidate || files.backup || files.journal {
                    return Some(
                        recovery("a previous snapshot restore requires daemon restart recovery"),
                    );
                }
            }
            failure
        },
        RestoreStep::RemoveStale | RestoreStep::WriteCandidate | RestoreStep::WriteJournal => {
            if done {
                return failure;
            }
            Some(internal(report_text(event).as_str()))
        },
        RestoreStep::OpenCandidate
        | RestoreStep::AdoptCandidate
        | RestoreStep::CheckpointCandidate => {
            if done {
                return failure;
            }
            Some(
                ProtocolFailure::new(
                    ErrorCode::SnapshotIncompatible,
                    report_text(event).as_str(),
                ),
            )
        },
        RestoreStep::CheckCandidate => {
            if done {
                return failure;
            }
            if let RestoreEvent::Invalid = event {
                return Some(
                    ProtocolFailure::new(
                        ErrorCode::SnapshotIncompatible,
                        "snapshot integrity check failed",
                    ),
                );
            }
            Some(
                ProtocolFailure::new(
                    ErrorCode::SnapshotIncompatible,
                    report_text(event).as_str(),
                ),
            )
        },
        RestoreStep::SyncStale
        | RestoreStep::SyncPrepared
        | RestoreStep::SyncMoved
        | RestoreStep::SyncInstalled
        | RestoreStep::SyncRemoved
        | RestoreStep::SyncRestored => {
            if done {
                return failure;
            }
            Some(internal(sync_failure(report_text(event).as_str()).as_str()))
        },
        RestoreStep::TakeLive => match event {
            RestoreEvent::Unavailable => Some(busy()),
            RestoreEvent::Poisoned => Some(internal("managed Database lock is poisoned")),
            _ => failure,
        },
        RestoreStep::CheckpointLive => match event {
            RestoreEvent::Refused(refusal) => Some(refusal),
            _ => failure,
        },
        RestoreStep::MoveLive => {
            if done {
                return failure;
            }
            let text = report_text(event);
            Some(
                internal(
                    join2(
                        "cannot move the live Database for snapshot installation: ",
                        text.as_str(),
                    ).as_str(),
                ),
            )
        },
        RestoreStep::ReopenUnmoved => {
            if done {
                return failure;
            }
            let text = report_text(event);
            let cause = reason_text(&failure);
            Some(
                recovery(
                    join3(
                        cause.as_str(),
                        "; the live Database could not reopen: ",
                        text.as_str(),
                    ).as_str(),
                ),
            )
        },
        RestoreStep::InstallCandidate => {
            if done {
                return failure;
            }
            let text = report_text(event);
            Some(internal(join2("cannot install snapshot: ", text.as_str()).as_str()))
        },
        RestoreStep::RestoreAfterInstall => {
            if done {
                return failure;
            }
            let text = report_text(event);
            let cause = reason_text(&failure);
            let message = join3(
                cause.as_str(),
                "; cannot restore the live Database: ",
                text.as_str(),
            );
            Some(recovery(join2(message.as_str(), "; restart recovery is required").as_str()))
        },
        RestoreStep::OpenInstalled => {
            if done {
                return failure;
            }
            let text = report_text(event);
            Some(internal(join2("installed snapshot could not reopen: ", text.as_str()).as_str()))
        },
        RestoreStep::RemoveInstalled => {
            if done {
                return failure;
            }
            let text = report_text(event);
            let cause = reason_text(&failure);
            Some(
                recovery(
                    join3(
                        cause.as_str(),
                        "; cannot remove it for rollback: ",
                        text.as_str(),
                    ).as_str(),
                ),
            )
        },
        RestoreStep::RestoreAfterOpen => {
            if done {
                return failure;
            }
            let text = report_text(event);
            let cause = reason_text(&failure);
            Some(
                recovery(
                    join3(
                        cause.as_str(),
                        "; cannot restore the live Database: ",
                        text.as_str(),
                    ).as_str(),
                ),
            )
        },
        RestoreStep::ReopenRestored => {
            if done {
                return failure;
            }
            let text = report_text(event);
            let cause = reason_text(&failure);
            Some(
                recovery(
                    join3(
                        cause.as_str(),
                        "; restored live Database could not reopen: ",
                        text.as_str(),
                    ).as_str(),
                ),
            )
        },
        RestoreStep::DiscardCandidate => {
            if gone {
                return failure;
            }
            let text = report_text(event);
            let cause = reason_text(&failure);
            Some(
                unclean(
                    cause.as_str(),
                    removal_failure("restore candidate", text.as_str()).as_str(),
                ),
            )
        },
        RestoreStep::DiscardJournal => {
            if gone {
                return failure;
            }
            let text = report_text(event);
            let cause = reason_text(&failure);
            Some(
                unclean(
                    cause.as_str(),
                    removal_failure("restore journal", text.as_str()).as_str(),
                ),
            )
        },
        RestoreStep::SyncDiscarded | RestoreStep::SyncForgotten => {
            if done {
                return failure;
            }
            let text = report_text(event);
            let cause = reason_text(&failure);
            Some(unclean(cause.as_str(), sync_failure(text.as_str()).as_str()))
        },
        _ => failure,
    }
}

/// Where a replacement starts, or the failure that refuses it at once.
pub open spec fn start_failure(snapshot: Seq<u8>, has_parent: bool) -> Option<FailureView> {
    if snapshot.len() == 0 {
        Some(permanent(ErrorCode::SnapshotIncompatible, "snapshot is empty"@))
    } else if !has_parent {
        Some(internal_view("managed Database path has no parent"@))
    } else {
        None
    }
}

impl RestoreMachine {
    /// Starts the replacement of a Database by `snapshot`; `has_parent` says whether the Database's
    /// path has a directory.
    pub fn start(has_parent: bool, snapshot: &[u8]) -> (machine: Self)
        ensures
            failure_view(machine.failure) == start_failure(snapshot@, has_parent),
            machine.step == (if machine.failure is Some {
                RestoreStep::Finished
            } else {
                RestoreStep::Preflight
            }),
    {
        if snapshot.len() == 0 {
            let failure = ProtocolFailure::new(
                ErrorCode::SnapshotIncompatible,
                "snapshot is empty",
            );
            return RestoreMachine { step: RestoreStep::Finished, failure: Some(failure) };
        }
        if !has_parent {
            let failure = internal("managed Database path has no parent");
            return RestoreMachine { step: RestoreStep::Finished, failure: Some(failure) };
        }
        RestoreMachine { step: RestoreStep::Preflight, failure: None }
    }

    /// The action to perform next.
    pub fn action(&self) -> (action: RestoreAction)
        ensures
            action == step_action(self.step),
    {
        match self.step {
            RestoreStep::Preflight => RestoreAction::Inspect,
            RestoreStep::RemoveStale => RestoreAction::RemoveCandidate,
            RestoreStep::SyncStale => RestoreAction::SyncDirectory,
            RestoreStep::Recheck => RestoreAction::Inspect,
            RestoreStep::WriteCandidate => RestoreAction::WriteCandidate,
            RestoreStep::OpenCandidate => RestoreAction::OpenCandidate,
            RestoreStep::CheckCandidate => RestoreAction::CheckCandidate,
            RestoreStep::AdoptCandidate => RestoreAction::AdoptCandidate,
            RestoreStep::CheckpointCandidate => RestoreAction::CheckpointCandidate,
            RestoreStep::WriteJournal => RestoreAction::WriteJournal,
            RestoreStep::SyncPrepared => RestoreAction::SyncDirectory,
            RestoreStep::TakeLive => RestoreAction::TakeLive,
            RestoreStep::CheckpointLive => RestoreAction::CheckpointLive,
            RestoreStep::ReinstateLive => RestoreAction::ReinstateLive,
            RestoreStep::MoveLive => RestoreAction::MoveLiveToBackup,
            RestoreStep::ReopenUnmoved => RestoreAction::OpenLive,
            RestoreStep::SyncMoved => RestoreAction::SyncDirectory,
            RestoreStep::InstallCandidate => RestoreAction::MoveCandidateToLive,
            RestoreStep::RestoreAfterInstall => RestoreAction::MoveBackupToLive,
            RestoreStep::SyncInstalled => RestoreAction::SyncDirectory,
            RestoreStep::OpenInstalled => RestoreAction::OpenLive,
            RestoreStep::RemoveInstalled => RestoreAction::RemoveLive,
            RestoreStep::SyncRemoved => RestoreAction::SyncDirectory,
            RestoreStep::RestoreAfterOpen => RestoreAction::MoveBackupToLive,
            RestoreStep::SyncRestored => RestoreAction::SyncDirectory,
            RestoreStep::ReopenRestored => RestoreAction::OpenLive,
            RestoreStep::DiscardCandidate => RestoreAction::RemoveCandidate,
            RestoreStep::SyncDiscarded => RestoreAction::SyncDirectory,
            RestoreStep::DiscardJournal => RestoreAction::RemoveJournal,
            RestoreStep::SyncForgotten => RestoreAction::SyncDirectory,
            RestoreStep::RemoveBackup => RestoreAction::RemoveBackup,
            RestoreStep::SyncBackupRemoval => RestoreAction::SyncDirectory,
            RestoreStep::RemoveJournal => RestoreAction::RemoveJournal,
            RestoreStep::SyncJournalRemoval => RestoreAction::SyncDirectory,
            RestoreStep::RemoveSidecar => RestoreAction::RemoveCandidateSidecar,
            RestoreStep::Sweep => RestoreAction::Inspect,
            RestoreStep::SweepCandidate => RestoreAction::RemoveCandidate,
            RestoreStep::SyncSweep => RestoreAction::SyncDirectory,
            RestoreStep::Finished => RestoreAction::Finish,
        }
    }

    /// Takes in what came of the action.
    pub fn advance(&mut self, event: RestoreEvent)
        requires
            event_fits(step_action(old(self).step), event),
        ensures
            final(self).step == next_step(old(self).step, event),
            failure_view(final(self).failure) == next_failure(
                old(self).step,
                event,
                failure_view(old(self).failure),
            ),
    {
        let step = self.step;
        let next = following(step, &event);
        let failure = self.failure.take();
        self.failure = noted(step, event, failure);
        self.step = next;
    }

    /// What the replacement reports once it is over.
    pub fn result(self) -> (result: Result<(), ProtocolFailure>)
        requires
            self.step is Finished,
        ensures
            result == (match self.failure {
                Some(failure) => Err::<(), ProtocolFailure>(failure),
                None => Ok::<(), ProtocolFailure>(()),
            }),
    {
        match self.failure {
            Some(failure) => Err(failure),
            None => Ok(()),
        }
    }
}

/// Each step of a replacement is reached only in one way: after the steps before it have succeeded,
/// or after the one failure that it answers. So the live Database is moved only once the candidate
/// was written, opened, checked, adopted and checkpointed, the journal was written and synced, and
/// the live Database was taken and checkpointed; and nothing is removed or renamed before the
/// directory was synced.
pub proof fn law_restore_steps_follow_their_cause(step: RestoreStep, event: RestoreEvent)
    requires
        step !is Finished,
        event_fits(step_action(step), event),
    ensures
        ({
            let files = event->Files_0;
            let gone = event is Done || (event is Failed && event->missing);
            match next_step(step, event) {
                RestoreStep::Preflight => false,
                RestoreStep::RemoveStale => step is Preflight && !files.journal && files.target && files.candidate && !files.backup,
                RestoreStep::SyncStale => step is RemoveStale && event is Done,
                RestoreStep::Recheck => {
                    ||| step is Preflight && (files.journal || (!files.candidate && !files.backup))
                    ||| step is SyncStale && event is Done
                },
                RestoreStep::WriteCandidate => step is Recheck && !files.candidate && !files.backup && !files.journal,
                RestoreStep::OpenCandidate => step is WriteCandidate && event is Done,
                RestoreStep::CheckCandidate => step is OpenCandidate && event is Done,
                RestoreStep::AdoptCandidate => step is CheckCandidate && event is Done,
                RestoreStep::CheckpointCandidate => step is AdoptCandidate && event is Done,
                RestoreStep::WriteJournal => step is CheckpointCandidate && event is Done,
                RestoreStep::SyncPrepared => step is WriteJournal && event is Done,
                RestoreStep::TakeLive => step is SyncPrepared && event is Done,
                RestoreStep::CheckpointLive => step is TakeLive && event is Done,
                RestoreStep::ReinstateLive => step is CheckpointLive && event !is Done,
                RestoreStep::MoveLive => step is CheckpointLive && event is Done,
                RestoreStep::ReopenUnmoved => step is MoveLive && event !is Done,
                RestoreStep::SyncMoved => step is MoveLive && event is Done,
                RestoreStep::InstallCandidate => step is SyncMoved && event is Done,
                RestoreStep::RestoreAfterInstall => step is InstallCandidate && event !is Done,
                RestoreStep::SyncInstalled => step is InstallCandidate && event is Done,
                RestoreStep::OpenInstalled => step is SyncInstalled && event is Done,
                RestoreStep::RemoveInstalled => step is OpenInstalled && event !is Done,
                RestoreStep::SyncRemoved => step is RemoveInstalled && event is Done,
                RestoreStep::RestoreAfterOpen => step is SyncRemoved && event is Done,
                RestoreStep::SyncRestored => (step is RestoreAfterInstall || step is RestoreAfterOpen) && event is Done,
                RestoreStep::ReopenRestored => step is SyncRestored && event is Done,
                RestoreStep::DiscardCandidate => {
                    ||| step is ReinstateLive
                    ||| (step is ReopenUnmoved || step is ReopenRestored) && event is Done
                },
                RestoreStep::SyncDiscarded => step is DiscardCandidate && gone,
                RestoreStep::DiscardJournal => step is SyncDiscarded && event is Done,
                RestoreStep::SyncForgotten => step is DiscardJournal && gone,
                RestoreStep::RemoveBackup => step is OpenInstalled && event is Done,
                RestoreStep::SyncBackupRemoval => step is RemoveBackup && gone,
                RestoreStep::RemoveJournal => step is SyncBackupRemoval && event is Done,
                RestoreStep::SyncJournalRemoval => step is RemoveJournal && gone,
                RestoreStep::RemoveSidecar => {
                    ||| step is RemoveJournal && !gone
                    ||| step is SyncJournalRemoval
                },
                RestoreStep::Sweep => {
                    ||| (step is WriteCandidate || step is OpenCandidate || step is CheckCandidate || step is AdoptCandidate || step is CheckpointCandidate || step is WriteJournal || step is SyncPrepared || step is TakeLive || step is ReopenUnmoved || step is SyncMoved || step is RestoreAfterInstall || step is SyncInstalled || step is RemoveInstalled || step is SyncRemoved || step is RestoreAfterOpen || step is SyncRestored || step is ReopenRestored || step is SyncDiscarded) && event !is Done
                    ||| (step is DiscardCandidate || step is DiscardJournal) && !gone
                    ||| step is SyncForgotten
                },
                RestoreStep::SweepCandidate => step is Sweep && files.candidate && !files.journal,
                RestoreStep::SyncSweep => step is SweepCandidate && event is Done,
                RestoreStep::Finished => {
                    ||| step is Preflight && !files.journal && (files.backup || (files.candidate && !files.target))
                    ||| (step is RemoveStale || step is SyncStale || step is SyncBackupRemoval || step is SweepCandidate) && event !is Done
                    ||| step is Recheck && (files.candidate || files.backup || files.journal)
                    ||| step is RemoveBackup && !gone
                    ||| step is RemoveSidecar || step is SyncSweep
                    ||| step is Sweep && !(files.candidate && !files.journal)
                },
            }
        }),
{
}

/// Each action is that of the steps that are named for it: what is read, written, moved or removed
/// follows from where the replacement stands.
pub proof fn law_restore_actions_belong_to_their_steps(step: RestoreStep)
    ensures
        match step_action(step) {
            RestoreAction::Inspect => step is Preflight || step is Recheck || step is Sweep,
            RestoreAction::RemoveCandidate => step is RemoveStale || step is DiscardCandidate || step is SweepCandidate,
            RestoreAction::SyncDirectory => step is SyncStale || step is SyncPrepared || step is SyncMoved || step is SyncInstalled || step is SyncRemoved || step is SyncRestored || step is SyncDiscarded || step is SyncForgotten || step is SyncBackupRemoval || step is SyncJournalRemoval || step is SyncSweep,
            RestoreAction::WriteCandidate => step is WriteCandidate,
            RestoreAction::OpenCandidate => step is OpenCandidate,
            RestoreAction::CheckCandidate => step is CheckCandidate,
            RestoreAction::AdoptCandidate => step is AdoptCandidate,
            RestoreAction::CheckpointCandidate => step is CheckpointCandidate,
            RestoreAction::WriteJournal => step is WriteJournal,
            RestoreAction::TakeLive => step is TakeLive,
            RestoreAction::CheckpointLive => step is CheckpointLive,
            RestoreAction::ReinstateLive => step is ReinstateLive,
            RestoreAction::MoveLiveToBackup => step is MoveLive,
            RestoreAction::MoveCandidateToLive => step is InstallCandidate,
            RestoreAction::MoveBackupToLive => step is RestoreAfterInstall || step is RestoreAfterOpen,
            RestoreAction::OpenLive => step is ReopenUnmoved || step is OpenInstalled || step is ReopenRestored,
            RestoreAction::RemoveLive => step is RemoveInstalled,
            RestoreAction::RemoveBackup => step is RemoveBackup,
            RestoreAction::RemoveJournal => step is DiscardJournal || step is RemoveJournal,
            RestoreAction::RemoveCandidateSidecar => step is RemoveSidecar,
            RestoreAction::Finish => step is Finished,
            _ => false,
        },
{
}

/// What a failed replacement says is what could not be done, in the system's words; where the
/// Database could not be put back, or the files could not be cleared away, it stands behind what
/// failed first.
pub proof fn law_restore_failures_say_what_failed(
    step: RestoreStep,
    event: RestoreEvent,
    failure: Option<FailureView>,
)
    requires
        event_fits(step_action(step), event),
        event is Failed,
        next_failure(step, event, failure) != failure,
    ensures
        ({
            let text = event->message@;
            let first = match failure {
                Some(failure) => failure.message,
                None => Seq::empty(),
            };
            let told = next_failure(step, event, failure)->0.message;
            &&& step is MoveLive ==> told
                == "cannot move the live Database for snapshot installation: "@ + text
            &&& step is ReopenUnmoved ==> told == first + "; the live Database could not reopen: "@
                + text
            &&& step is InstallCandidate ==> told == "cannot install snapshot: "@ + text
            &&& step is RestoreAfterInstall ==> told == first
                + "; cannot restore the live Database: "@ + text
                + "; restart recovery is required"@
            &&& step is OpenInstalled ==> told == "installed snapshot could not reopen: "@ + text
            &&& step is RemoveInstalled ==> told == first + "; cannot remove it for rollback: "@
                + text
            &&& step is RestoreAfterOpen ==> told == first
                + "; cannot restore the live Database: "@ + text
            &&& step is ReopenRestored ==> told == first
                + "; restored live Database could not reopen: "@ + text
            &&& step is DiscardCandidate ==> told == first
                + "; restore cleanup requires restart: "@ + ("cannot remove "@
                + "restore candidate"@ + ": "@ + text)
            &&& step is DiscardJournal ==> told == first + "; restore cleanup requires restart: "@
                + ("cannot remove "@ + "restore journal"@ + ": "@ + text)
            &&& step is SyncDiscarded || step is SyncForgotten ==> told == first
                + "; restore cleanup requires restart: "@ + ("cannot sync restore directory: "@
                + text)
            &&& step is SyncStale || step is SyncPrepared || step is SyncMoved || step
                is SyncInstalled || step is SyncRemoved || step is SyncRestored ==> told
                == "cannot sync restore directory: "@ + text
            &&& step is RemoveStale || step is WriteCandidate || step is WriteJournal ==> told
                == text
        }),
{
}

/// A replacement can begin exactly with a snapshot that is not empty, for a Database whose directory
/// is known; what stops it before its first look, or at one of its looks, has words of its own.
pub proof fn law_restores_begin_with_a_snapshot(
    snapshot: Seq<u8>,
    has_parent: bool,
    files: Presence,
)
    ensures
        start_failure(snapshot, has_parent) is None <==> snapshot.len() > 0 && has_parent,
        start_failure(snapshot, has_parent) matches Some(told) ==> !told.retryable
            && if snapshot.len() == 0 {
            told.code is SnapshotIncompatible && told.message == "snapshot is empty"@
        } else {
            told.code is InternalError && told.message == "managed Database path has no parent"@
        },
        next_failure(RestoreStep::Preflight, RestoreEvent::Files(files), None) matches Some(told)
            ==> told.message
            == "snapshot restore files exist without a journal; operator recovery is required"@,
        next_failure(RestoreStep::Recheck, RestoreEvent::Files(files), None) matches Some(told)
            ==> told.message == "a previous snapshot restore requires daemon restart recovery"@,
        next_failure(RestoreStep::CheckCandidate, RestoreEvent::Invalid, None) matches Some(told)
            && told.message == "snapshot integrity check failed"@,
        next_failure(RestoreStep::TakeLive, RestoreEvent::Poisoned, None) matches Some(told)
            && told.message == "managed Database lock is poisoned"@,
        next_failure(RestoreStep::TakeLive, RestoreEvent::Unavailable, None) matches Some(told)
            && told.message == "Database is unavailable"@,
{
}

/// A look at the directory before a replacement tells what to do with files of an earlier one:
/// nothing where there are none or a journal stands, the removal of a candidate that stands alone
/// beside the live Database, and else the operator.
pub proof fn law_stale_files_are_judged(files: Presence)
    ensures
        stale_files(files) is Nothing <==> files.journal || (!files.candidate && !files.backup),
        stale_files(files) is RemoveCandidate <==> !files.journal && !files.backup
            && files.candidate && files.target,
        stale_files(files) is Operator <==> !files.journal && (files.backup || (files.candidate
            && !files.target)),
{
}

/// A failure of a replacement is told by its kind: a bad candidate is an incompatible snapshot, a
/// live Database that is closed is busy, a refused checkpoint is told as it is, what needs a restart
/// says so and may be tried again then, and all else is internal. What the system said is told, and
/// what went wrong before stays in front of it. What succeeds changes no failure.
pub proof fn law_restore_failures_tell_their_kind(
    step: RestoreStep,
    event: RestoreEvent,
    failure: Option<FailureView>,
)
    requires
        event_fits(step_action(step), event),
    ensures
        event is Done ==> next_failure(step, event, failure) == failure,
        step is RemoveBackup || step is SyncBackupRemoval || step is RemoveJournal || step
            is SyncJournalRemoval || step is SweepCandidate || step is SyncSweep || step is Sweep
            ==> next_failure(step, event, failure) == failure,
        step is DiscardCandidate || step is DiscardJournal ==> (event matches RestoreEvent::Failed {
            missing,
            ..
        } && missing ==> next_failure(step, event, failure) == failure),
        event matches RestoreEvent::Refused(refusal) ==> next_failure(step, event, failure) == Some(
            refusal@,
        ),
        event is Unavailable ==> (next_failure(step, event, failure) matches Some(told) && told.code
            is DatabaseBusy && told.retryable),
        event is Poisoned || event is Invalid ==> (next_failure(step, event, failure) matches Some(
            told,
        ) && (told.code is InternalError <==> event is Poisoned) && (told.code
            is SnapshotIncompatible <==> event is Invalid) && !told.retryable),
        event matches RestoreEvent::Failed { message, missing } ==> (!(step is RemoveBackup || step
            is SyncBackupRemoval || step is RemoveJournal || step is SyncJournalRemoval || step
            is SweepCandidate || step is SyncSweep || (missing && (step is DiscardCandidate || step
            is DiscardJournal))) ==> (next_failure(step, event, failure) matches Some(told) && {
            let rolling = step is ReopenUnmoved || step is RestoreAfterInstall || step
                is RemoveInstalled || step is RestoreAfterOpen || step is ReopenRestored || step
                is DiscardCandidate || step is DiscardJournal || step is SyncDiscarded || step
                is SyncForgotten;
            let judging = step is OpenCandidate || step is CheckCandidate || step is AdoptCandidate
                || step is CheckpointCandidate;
            &&& told.code is RecoveryRequired <==> rolling
            &&& told.retryable <==> rolling
            &&& told.code is SnapshotIncompatible <==> judging
            &&& told.code is InternalError <==> !rolling && !judging
            &&& judging ==> told.message == message@
            &&& rolling && failure is Some ==> failure->0.message.is_prefix_of(told.message)
            &&& exists|before: Seq<char>, behind: Seq<char>| #[trigger]
                (before + message@ + behind) == told.message
        })),
        step is Preflight || step is Recheck ==> (event matches RestoreEvent::Files(files) && ((step
            is Preflight && !files.journal && (files.backup || (files.candidate && !files.target)))
            || (step is Recheck && (files.journal || files.backup || files.candidate))) ==> (
        next_failure(step, event, failure) matches Some(told) && (told.code is RecoveryRequired
            <==> step is Recheck) && (told.code is InternalError <==> step is Preflight) && (
        told.retryable <==> step is Recheck))),
{
    if let RestoreEvent::Failed { message, missing } = event {
        if next_failure(step, event, failure) is Some {
            let told = next_failure(step, event, failure)->0.message;
            let text = message@;
            let cause = reason(failure);
            let none = Seq::<char>::empty();
            lemma_whole(text);
            match step {
                RestoreStep::SyncStale
                | RestoreStep::SyncPrepared
                | RestoreStep::SyncMoved
                | RestoreStep::SyncInstalled
                | RestoreStep::SyncRemoved
                | RestoreStep::SyncRestored => {
                    assert("cannot sync restore directory: "@ + text + none =~= told);
                },
                RestoreStep::MoveLive => {
                    assert("cannot move the live Database for snapshot installation: "@ + text + none
                        =~= told);
                },
                RestoreStep::ReopenUnmoved => {
                    assert((cause + "; the live Database could not reopen: "@) + text + none
                        =~= told);
                },
                RestoreStep::InstallCandidate => {
                    assert("cannot install snapshot: "@ + text + none =~= told);
                },
                RestoreStep::RestoreAfterInstall => {
                    assert((cause + "; cannot restore the live Database: "@) + text
                        + "; restart recovery is required"@ =~= told);
                },
                RestoreStep::OpenInstalled => {
                    assert("installed snapshot could not reopen: "@ + text + none =~= told);
                },
                RestoreStep::RemoveInstalled => {
                    assert((cause + "; cannot remove it for rollback: "@) + text + none =~= told);
                },
                RestoreStep::RestoreAfterOpen => {
                    assert((cause + "; cannot restore the live Database: "@) + text + none =~= told);
                },
                RestoreStep::ReopenRestored => {
                    assert((cause + "; restored live Database could not reopen: "@) + text + none
                        =~= told);
                },
                RestoreStep::DiscardCandidate => {
                    if !missing {
                        assert((cause + "; restore cleanup requires restart: "@ + ("cannot remove "@
                            + "restore candidate"@ + ": "@)) + text + none =~= told);
                    }
                },
                RestoreStep::DiscardJournal => {
                    if !missing {
                        assert((cause + "; restore cleanup requires restart: "@ + ("cannot remove "@
                            + "restore journal"@ + ": "@)) + text + none =~= told);
                    }
                },
                RestoreStep::SyncDiscarded | RestoreStep::SyncForgotten => {
                    assert((cause + "; restore cleanup requires restart: "@
                        + "cannot sync restore directory: "@) + text + none =~= told);
                },
                _ => {},
            }
            if failure is Some {
                lemma_prefix(cause, told);
            }
        }
    }
}

proof fn lemma_whole(text: Seq<char>)
    ensures
        exists|before: Seq<char>, behind: Seq<char>| #[trigger] (before + text + behind) == text,
{
    let none = Seq::<char>::empty();
    assert(none + text + none =~= text);
}

proof fn lemma_prefix(prefix: Seq<char>, text: Seq<char>)
    ensures
        prefix.is_prefix_of(text) <==> text.len() >= prefix.len() && text.take(prefix.len() as int)
            =~= prefix,
{
}

/// A failure that is kept is seen as it is, and one that is not there is not seen.
pub proof fn law_kept_failures_are_seen(failure: Option<ProtocolFailure>)
    ensures
        failure is None <==> failure_view(failure) is None,
        failure matches Some(kept) ==> failure_view(failure) == Some(kept@),
{
}

/// Each action of a replacement reports that it was done or what stopped it, in the ways that it can
/// be stopped; a replacement reads no journal, and a finished one takes no report.
pub proof fn law_restore_actions_report_their_outcome(action: RestoreAction, event: RestoreEvent)
    ensures
        event_fits(action, event) <==> match event {
            RestoreEvent::Files(_) => action is Inspect,
            RestoreEvent::Done => action !is Inspect && action !is ReadJournal && action !is Finish,
            RestoreEvent::Invalid => action is CheckCandidate,
            RestoreEvent::Unavailable => action is TakeLive,
            RestoreEvent::Poisoned => action is TakeLive,
            RestoreEvent::Refused(_) => action is CheckpointLive,
            RestoreEvent::Failed { message: _, missing: _ } => action !is Inspect && action !is TakeLive
                && action !is CheckpointLive && action !is ReinstateLive && action
                !is RemoveCandidateSidecar && action !is ReadJournal && action !is Finish,
        },
{
}

} // verus!
