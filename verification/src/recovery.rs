//! Finishing, at start-up, a snapshot replacement that was interrupted.
//!
//! The machine runs once for each Database directory and always ends with either Database in
//! place, or with a failure that leaves every file for an operator.

use vstd::prelude::*;

use crate::failure::ServerError;
use crate::restore::{
    judge_stale_files, stale_files, sync_failure_text, Presence, RestoreAction, RestoreJournal,
    StaleFiles,
};
use crate::text::{join2, join3, text_eq};

verus! {

/// What came of an action of a recovery.
#[derive(Debug, PartialEq, Eq)]
pub enum RecoveryEvent {
    /// The action succeeded.
    Done,
    /// The action failed and changed nothing.
    Failed(String),
    /// The files that exist.
    Files(Presence),
    /// The decoded journal.
    Journal(RestoreJournal),
    /// The journal was read but is no journal.
    Malformed(String),
}

/// Where a recovery stands.
#[derive(Clone, Copy, Debug, PartialEq, Eq, Structural)]
pub enum RecoveryStep {
    /// Look for files of a replacement.
    Preflight,
    /// Remove a candidate that no journal speaks of.
    RemoveStale,
    /// Make that removal durable.
    SyncStale,
    /// Read the journal.
    ReadJournal,
    /// Look how far the replacement had come.
    Classify,
    /// The live Database was never moved: drop the candidate.
    DropCandidate,
    /// The live Database was moved but nothing was put in its place: finish the installation.
    FinishInstall,
    /// Make that durable.
    SyncFinished,
    /// Judge the installed snapshot.
    Judge,
    /// Remove an invalid installed snapshot.
    EvictInvalid,
    /// Make that durable.
    SyncEvicted,
    /// Put the original Database back.
    ReinstateBackup,
    /// Make that durable.
    SyncReinstated,
    /// Judge the original Database.
    JudgeOriginal,
    /// Only the backup is left: put it back.
    RollBack,
    /// Make that durable.
    SyncRolledBack,
    /// Remove what is left of the candidate.
    ClearCandidate,
    /// Remove what is left of the backup.
    ClearBackup,
    /// Make that durable before the journal goes.
    SyncCleared,
    /// Remove the journal.
    ClearJournal,
    /// Make that durable.
    SyncForgotten,
    /// The recovery is over.
    Finished,
}

/// The action that a step asks for.
pub open spec fn recovery_action(step: RecoveryStep) -> RestoreAction {
    match step {
        RecoveryStep::Preflight => RestoreAction::Inspect,
        RecoveryStep::RemoveStale => RestoreAction::RemoveCandidate,
        RecoveryStep::SyncStale => RestoreAction::SyncDirectory,
        RecoveryStep::ReadJournal => RestoreAction::ReadJournal,
        RecoveryStep::Classify => RestoreAction::Inspect,
        RecoveryStep::DropCandidate => RestoreAction::RemoveCandidate,
        RecoveryStep::FinishInstall => RestoreAction::MoveCandidateToLive,
        RecoveryStep::SyncFinished => RestoreAction::SyncDirectory,
        RecoveryStep::Judge => RestoreAction::ValidateLive,
        RecoveryStep::EvictInvalid => RestoreAction::RemoveLive,
        RecoveryStep::SyncEvicted => RestoreAction::SyncDirectory,
        RecoveryStep::ReinstateBackup => RestoreAction::MoveBackupToLive,
        RecoveryStep::SyncReinstated => RestoreAction::SyncDirectory,
        RecoveryStep::JudgeOriginal => RestoreAction::ValidateLive,
        RecoveryStep::RollBack => RestoreAction::MoveBackupToLive,
        RecoveryStep::SyncRolledBack => RestoreAction::SyncDirectory,
        RecoveryStep::ClearCandidate => RestoreAction::RemoveCandidate,
        RecoveryStep::ClearBackup => RestoreAction::RemoveBackup,
        RecoveryStep::SyncCleared => RestoreAction::SyncDirectory,
        RecoveryStep::ClearJournal => RestoreAction::RemoveJournal,
        RecoveryStep::SyncForgotten => RestoreAction::SyncDirectory,
        RecoveryStep::Finished => RestoreAction::Finish,
    }
}

/// The reports that an action of a recovery can have.
pub open spec fn recovery_event_fits(action: RestoreAction, event: RecoveryEvent) -> bool {
    match action {
        RestoreAction::Inspect => event is Files,
        RestoreAction::ReadJournal => event is Journal || event is Malformed || event is Failed,
        RestoreAction::Finish => false,
        _ => event is Done || event is Failed,
    }
}

/// Whether a journal speaks of the Database `directory_name` in a version that this code knows.
pub open spec fn journal_identified(journal: RestoreJournal, directory_name: Seq<char>) -> bool {
    journal.operation_version == 1 && journal.database_id@ == directory_name
}

/// Whether a journal was written before the live Database was touched.
pub open spec fn journal_prepared(journal: RestoreJournal) -> bool {
    journal.stage@ == "prepared"@
}

/// The step that follows the look at the files of a journaled replacement.
pub open spec fn classified(files: Presence) -> RecoveryStep {
    if files.target && files.candidate && !files.backup {
        RecoveryStep::DropCandidate
    } else if !files.target && files.candidate && files.backup {
        RecoveryStep::FinishInstall
    } else if files.target && !files.candidate && files.backup {
        RecoveryStep::Judge
    } else if files.target && !files.candidate && !files.backup {
        RecoveryStep::ClearCandidate
    } else if !files.target && !files.candidate && files.backup {
        RecoveryStep::RollBack
    } else {
        RecoveryStep::Finished
    }
}

/// The step that a successful action leads to.
pub open spec fn recovery_successor(step: RecoveryStep) -> RecoveryStep {
    match step {
        RecoveryStep::RemoveStale => RecoveryStep::SyncStale,
        RecoveryStep::SyncStale => RecoveryStep::Finished,
        RecoveryStep::DropCandidate => RecoveryStep::ClearCandidate,
        RecoveryStep::FinishInstall => RecoveryStep::SyncFinished,
        RecoveryStep::SyncFinished => RecoveryStep::Judge,
        RecoveryStep::Judge => RecoveryStep::ClearCandidate,
        RecoveryStep::EvictInvalid => RecoveryStep::SyncEvicted,
        RecoveryStep::SyncEvicted => RecoveryStep::ReinstateBackup,
        RecoveryStep::ReinstateBackup => RecoveryStep::SyncReinstated,
        RecoveryStep::SyncReinstated => RecoveryStep::JudgeOriginal,
        RecoveryStep::JudgeOriginal => RecoveryStep::ClearCandidate,
        RecoveryStep::RollBack => RecoveryStep::SyncRolledBack,
        RecoveryStep::SyncRolledBack => RecoveryStep::ClearCandidate,
        RecoveryStep::ClearCandidate => RecoveryStep::ClearBackup,
        RecoveryStep::ClearBackup => RecoveryStep::SyncCleared,
        RecoveryStep::SyncCleared => RecoveryStep::ClearJournal,
        RecoveryStep::ClearJournal => RecoveryStep::SyncForgotten,
        _ => RecoveryStep::Finished,
    }
}

/// The step that follows `step` after `event`.
pub open spec fn recovery_next(
    step: RecoveryStep,
    event: RecoveryEvent,
    directory_name: Seq<char>,
) -> RecoveryStep {
    match event {
        RecoveryEvent::Files(files) => if step is Preflight {
            match stale_files(files) {
                StaleFiles::Nothing => if files.journal {
                    RecoveryStep::ReadJournal
                } else {
                    RecoveryStep::Finished
                },
                StaleFiles::RemoveCandidate => RecoveryStep::RemoveStale,
                StaleFiles::Operator => RecoveryStep::Finished,
            }
        } else {
            classified(files)
        },
        RecoveryEvent::Journal(journal) => if journal_identified(journal, directory_name)
            && journal_prepared(journal) {
            RecoveryStep::Classify
        } else {
            RecoveryStep::Finished
        },
        RecoveryEvent::Failed(_) => if step is Judge {
            RecoveryStep::EvictInvalid
        } else {
            RecoveryStep::Finished
        },
        RecoveryEvent::Malformed(_) => RecoveryStep::Finished,
        RecoveryEvent::Done => recovery_successor(step),
    }
}

/// What a recovery reports when the action of `step` fails with `error`: nothing where the step
/// judges the installed snapshot, whose verdict only decides how the recovery goes on.
pub open spec fn failed_action_text(
    step: RecoveryStep,
    directory: Seq<char>,
    verdict: Seq<char>,
    error: Seq<char>,
) -> Option<Seq<char>> {
    match step {
        RecoveryStep::SyncStale
        | RecoveryStep::SyncFinished
        | RecoveryStep::SyncEvicted
        | RecoveryStep::SyncReinstated
        | RecoveryStep::SyncRolledBack
        | RecoveryStep::SyncCleared
        | RecoveryStep::SyncForgotten => Some(sync_failure_text(directory, error)),
        RecoveryStep::FinishInstall => Some(
            "cannot finish snapshot installation: "@ + error,
        ),
        RecoveryStep::RollBack => Some("cannot roll back snapshot restore: "@ + error),
        RecoveryStep::Judge => None,
        RecoveryStep::EvictInvalid => Some(
            "installed snapshot is invalid ("@ + verdict + ") and cannot be removed: "@ + error
                + "; original backup and recovery journal were retained"@,
        ),
        RecoveryStep::ReinstateBackup => Some(
            "installed snapshot is invalid ("@ + verdict
                + ") and the original backup could not be restored: "@ + error,
        ),
        RecoveryStep::JudgeOriginal => Some(
            "the installed snapshot was invalid ("@ + verdict
                + ") and the restored original Database is also invalid: "@ + error,
        ),
        _ => Some(error),
    }
}

/// What the recovery of `directory` reports after `event` at `step`. `verdict` is what the
/// validation of the installed snapshot said.
pub open spec fn recovery_error(
    step: RecoveryStep,
    event: RecoveryEvent,
    directory: Seq<char>,
    directory_name: Seq<char>,
    verdict: Seq<char>,
) -> Option<Seq<char>> {
    match event {
        RecoveryEvent::Files(files) => if step is Preflight {
            if stale_files(files) is Operator {
                Some(
                    "snapshot restore files exist without a journal; operator recovery is required"@,
                )
            } else {
                None
            }
        } else if classified(files) is Finished {
            Some("snapshot restore files are inconsistent; operator recovery is required"@)
        } else {
            None
        },
        RecoveryEvent::Journal(journal) => if !journal_identified(journal, directory_name) {
            Some(
                "restore journal identity or version is invalid; operator recovery is required"@,
            )
        } else if !journal_prepared(journal) {
            Some("restore journal stage is invalid; operator recovery is required"@)
        } else {
            None
        },
        RecoveryEvent::Malformed(error) => Some("invalid restore journal: "@ + error@),
        RecoveryEvent::Done => None,
        RecoveryEvent::Failed(error) => failed_action_text(step, directory, verdict, error@),
    }
}

/// A running recovery.
pub struct RecoveryMachine {
    /// The Database's directory.
    pub directory: String,
    /// The last component of that directory: the Database's stable identity.
    pub directory_name: String,
    /// Where the recovery stands.
    pub step: RecoveryStep,
    /// What the validation of the installed snapshot said.
    pub verdict: String,
    /// The failure that the recovery ended with, if any.
    pub error: Option<ServerError>,
}

/// What an optional start-up failure says.
pub open spec fn error_view(error: Option<ServerError>) -> Option<Seq<char>> {
    match error {
        Some(error) => Some(error@),
        None => None,
    }
}

fn classify(files: Presence) -> (step: RecoveryStep)
    ensures
        step == classified(files),
{
    if files.target && files.candidate && !files.backup {
        RecoveryStep::DropCandidate
    } else if !files.target && files.candidate && files.backup {
        RecoveryStep::FinishInstall
    } else if files.target && !files.candidate && files.backup {
        RecoveryStep::Judge
    } else if files.target && !files.candidate && !files.backup {
        RecoveryStep::ClearCandidate
    } else if !files.target && !files.candidate && files.backup {
        RecoveryStep::RollBack
    } else {
        RecoveryStep::Finished
    }
}

fn successor(step: RecoveryStep) -> (next: RecoveryStep)
    ensures
        next == recovery_successor(step),
{
    match step {
        RecoveryStep::RemoveStale => RecoveryStep::SyncStale,
        RecoveryStep::SyncStale => RecoveryStep::Finished,
        RecoveryStep::DropCandidate => RecoveryStep::ClearCandidate,
        RecoveryStep::FinishInstall => RecoveryStep::SyncFinished,
        RecoveryStep::SyncFinished => RecoveryStep::Judge,
        RecoveryStep::Judge => RecoveryStep::ClearCandidate,
        RecoveryStep::EvictInvalid => RecoveryStep::SyncEvicted,
        RecoveryStep::SyncEvicted => RecoveryStep::ReinstateBackup,
        RecoveryStep::ReinstateBackup => RecoveryStep::SyncReinstated,
        RecoveryStep::SyncReinstated => RecoveryStep::JudgeOriginal,
        RecoveryStep::JudgeOriginal => RecoveryStep::ClearCandidate,
        RecoveryStep::RollBack => RecoveryStep::SyncRolledBack,
        RecoveryStep::SyncRolledBack => RecoveryStep::ClearCandidate,
        RecoveryStep::ClearCandidate => RecoveryStep::ClearBackup,
        RecoveryStep::ClearBackup => RecoveryStep::SyncCleared,
        RecoveryStep::SyncCleared => RecoveryStep::ClearJournal,
        RecoveryStep::ClearJournal => RecoveryStep::SyncForgotten,
        _ => RecoveryStep::Finished,
    }
}

impl RecoveryMachine {
    /// Starts the recovery of one Database directory.
    pub fn start(directory: &str, directory_name: &str) -> (machine: Self)
        ensures
            machine.directory@ == directory@,
            machine.directory_name@ == directory_name@,
            machine.step is Preflight,
            machine.verdict@ == Seq::<char>::empty(),
            machine.error is None,
    {
        RecoveryMachine {
            directory: directory.to_owned(),
            directory_name: directory_name.to_owned(),
            step: RecoveryStep::Preflight,
            verdict: String::new(),
            error: None,
        }
    }

    /// The action to perform next.
    pub fn action(&self) -> (action: RestoreAction)
        ensures
            action == recovery_action(self.step),
    {
        match self.step {
            RecoveryStep::Preflight => RestoreAction::Inspect,
            RecoveryStep::RemoveStale => RestoreAction::RemoveCandidate,
            RecoveryStep::SyncStale => RestoreAction::SyncDirectory,
            RecoveryStep::ReadJournal => RestoreAction::ReadJournal,
            RecoveryStep::Classify => RestoreAction::Inspect,
            RecoveryStep::DropCandidate => RestoreAction::RemoveCandidate,
            RecoveryStep::FinishInstall => RestoreAction::MoveCandidateToLive,
            RecoveryStep::SyncFinished => RestoreAction::SyncDirectory,
            RecoveryStep::Judge => RestoreAction::ValidateLive,
            RecoveryStep::EvictInvalid => RestoreAction::RemoveLive,
            RecoveryStep::SyncEvicted => RestoreAction::SyncDirectory,
            RecoveryStep::ReinstateBackup => RestoreAction::MoveBackupToLive,
            RecoveryStep::SyncReinstated => RestoreAction::SyncDirectory,
            RecoveryStep::JudgeOriginal => RestoreAction::ValidateLive,
            RecoveryStep::RollBack => RestoreAction::MoveBackupToLive,
            RecoveryStep::SyncRolledBack => RestoreAction::SyncDirectory,
            RecoveryStep::ClearCandidate => RestoreAction::RemoveCandidate,
            RecoveryStep::ClearBackup => RestoreAction::RemoveBackup,
            RecoveryStep::SyncCleared => RestoreAction::SyncDirectory,
            RecoveryStep::ClearJournal => RestoreAction::RemoveJournal,
            RecoveryStep::SyncForgotten => RestoreAction::SyncDirectory,
            RecoveryStep::Finished => RestoreAction::Finish,
        }
    }

    fn failure_text(&self, error: &str) -> (text: Option<String>)
        ensures
            failed_action_text(self.step, self.directory@, self.verdict@, error@) == (match text {
                Some(text) => Some(text@),
                None => None,
            }),
    {
        match self.step {
            RecoveryStep::SyncStale
            | RecoveryStep::SyncFinished
            | RecoveryStep::SyncEvicted
            | RecoveryStep::SyncReinstated
            | RecoveryStep::SyncRolledBack
            | RecoveryStep::SyncCleared
            | RecoveryStep::SyncForgotten => {
                let prefix = join3(
                    "cannot sync restore directory ",
                    self.directory.as_str(),
                    ": ",
                );
                Some(join2(prefix.as_str(), error))
            },
            RecoveryStep::FinishInstall => Some(
                join2("cannot finish snapshot installation: ", error),
            ),
            RecoveryStep::RollBack => Some(join2("cannot roll back snapshot restore: ", error)),
            RecoveryStep::Judge => None,
            RecoveryStep::EvictInvalid => {
                let prefix = join3(
                    "installed snapshot is invalid (",
                    self.verdict.as_str(),
                    ") and cannot be removed: ",
                );
                Some(
                    join3(
                        prefix.as_str(),
                        error,
                        "; original backup and recovery journal were retained",
                    ),
                )
            },
            RecoveryStep::ReinstateBackup => {
                let prefix = join3(
                    "installed snapshot is invalid (",
                    self.verdict.as_str(),
                    ") and the original backup could not be restored: ",
                );
                Some(join2(prefix.as_str(), error))
            },
            RecoveryStep::JudgeOriginal => {
                let prefix = join3(
                    "the installed snapshot was invalid (",
                    self.verdict.as_str(),
                    ") and the restored original Database is also invalid: ",
                );
                Some(join2(prefix.as_str(), error))
            },
            _ => Some(error.to_owned()),
        }
    }

    /// Takes in what came of the action.
    pub fn advance(&mut self, event: RecoveryEvent)
        requires
            recovery_event_fits(recovery_action(old(self).step), event),
        ensures
            final(self).directory == old(self).directory,
            final(self).directory_name == old(self).directory_name,
            final(self).step == recovery_next(old(self).step, event, old(self).directory_name@),
            error_view(final(self).error) == recovery_error(
                old(self).step,
                event,
                old(self).directory@,
                old(self).directory_name@,
                old(self).verdict@,
            ),
            final(self).verdict@ == (if old(self).step is Judge && event is Failed {
                event->Failed_0@
            } else {
                old(self).verdict@
            }),
    {
        match event {
            RecoveryEvent::Files(files) => {
                if let RecoveryStep::Preflight = self.step {
                    self.error = None;
                    match judge_stale_files(files) {
                        StaleFiles::Nothing => {
                            if files.journal {
                                self.step = RecoveryStep::ReadJournal;
                            } else {
                                self.step = RecoveryStep::Finished;
                            }
                        },
                        StaleFiles::RemoveCandidate => {
                            self.step = RecoveryStep::RemoveStale;
                        },
                        StaleFiles::Operator => {
                            self.error = Some(
                                ServerError::new(
                                    "snapshot restore files exist without a journal; operator recovery is required",
                                ),
                            );
                            self.step = RecoveryStep::Finished;
                        },
                    }
                } else {
                    let next = classify(files);
                    self.error = None;
                    if let RecoveryStep::Finished = next {
                        self.error = Some(
                            ServerError::new(
                                "snapshot restore files are inconsistent; operator recovery is required",
                            ),
                        );
                    }
                    self.step = next;
                }
            },
            RecoveryEvent::Journal(journal) => {
                if journal.operation_version != 1 || !text_eq(
                    journal.database_id.as_str(),
                    self.directory_name.as_str(),
                ) {
                    self.error = Some(
                        ServerError::new(
                            "restore journal identity or version is invalid; operator recovery is required",
                        ),
                    );
                    self.step = RecoveryStep::Finished;
                } else if !text_eq(journal.stage.as_str(), "prepared") {
                    self.error = Some(
                        ServerError::new(
                            "restore journal stage is invalid; operator recovery is required",
                        ),
                    );
                    self.step = RecoveryStep::Finished;
                } else {
                    self.error = None;
                    self.step = RecoveryStep::Classify;
                }
            },
            RecoveryEvent::Malformed(error) => {
                self.error = Some(
                    ServerError(join2("invalid restore journal: ", error.as_str())),
                );
                self.step = RecoveryStep::Finished;
            },
            RecoveryEvent::Failed(error) => {
                let text = self.failure_text(error.as_str());
                if let RecoveryStep::Judge = self.step {
                    self.verdict = error;
                    self.error = None;
                    self.step = RecoveryStep::EvictInvalid;
                } else {
                    self.error = match text {
                        Some(text) => Some(ServerError(text)),
                        None => None,
                    };
                    self.step = RecoveryStep::Finished;
                }
            },
            RecoveryEvent::Done => {
                self.error = None;
                self.step = successor(self.step);
            },
        }
    }

    /// What the recovery reports once it is over.
    pub fn result(self) -> (result: Result<(), ServerError>)
        requires
            self.step is Finished,
        ensures
            result == (match self.error {
                Some(error) => Err::<(), ServerError>(error),
                None => Ok::<(), ServerError>(()),
            }),
    {
        match self.error {
            Some(error) => Err(error),
            None => Ok(()),
        }
    }
}

/// What the storage engine finds of a restored Database.
#[derive(Debug, PartialEq, Eq)]
pub enum Validation {
    /// It opens and is whole.
    Valid,
    /// It does not open.
    Unopened(String),
    /// It opens but cannot be checked.
    Unchecked(String),
    /// It is damaged.
    Damaged,
}

/// Judges a restored Database.
pub fn validate_recovered_snapshot(path: &str, found: Validation) -> (result: Result<
    (),
    ServerError,
>)
    ensures
        match found {
            Validation::Valid => result is Ok,
            Validation::Unopened(error) => result is Err && result->Err_0@
                == "cannot open restored Database "@ + path@ + ": "@ + error@,
            Validation::Unchecked(error) => result is Err && result->Err_0@
                == "cannot check restored Database "@ + path@ + ": "@ + error@,
            Validation::Damaged => result is Err && result->Err_0@ == "restored Database "@ + path@
                + " failed integrity validation"@,
        },
{
    match found {
        Validation::Valid => Ok(()),
        Validation::Unopened(error) => {
            let prefix = join3("cannot open restored Database ", path, ": ");
            Err(ServerError(join2(prefix.as_str(), error.as_str())))
        },
        Validation::Unchecked(error) => {
            let prefix = join3("cannot check restored Database ", path, ": ");
            Err(ServerError(join2(prefix.as_str(), error.as_str())))
        },
        Validation::Damaged => Err(
            ServerError(join3("restored Database ", path, " failed integrity validation")),
        ),
    }
}

/// Each step of a recovery is reached only in one way. The journal decides first, and must be of
/// version 1, of this directory and prepared; then the files that are there decide which Database is
/// put in place. An installed snapshot is validated before anything of the original is removed; one
/// that is invalid gives way to the original, which is validated too; and the backup goes before the
/// journal, each removal synced before the next.
pub proof fn law_recovery_steps_follow_their_cause(
    step: RecoveryStep,
    event: RecoveryEvent,
    directory_name: Seq<char>,
)
    requires
        step !is Finished,
        recovery_event_fits(recovery_action(step), event),
    ensures
        ({
            let files = event->Files_0;
            let journal = event->Journal_0;
            let good = journal.operation_version == 1 && journal.database_id@ == directory_name
                && journal.stage@ == "prepared"@;
            match recovery_next(step, event, directory_name) {
                RecoveryStep::Preflight => false,
                RecoveryStep::RemoveStale => step is Preflight && !files.journal && files.candidate && !files.backup && files.target,
                RecoveryStep::SyncStale => step is RemoveStale && event is Done,
                RecoveryStep::ReadJournal => step is Preflight && files.journal,
                RecoveryStep::Classify => step is ReadJournal && event is Journal && good,
                RecoveryStep::DropCandidate => step is Classify && files.target && files.candidate && !files.backup,
                RecoveryStep::FinishInstall => step is Classify && !files.target && files.candidate && files.backup,
                RecoveryStep::SyncFinished => step is FinishInstall && event is Done,
                RecoveryStep::Judge => {
                    ||| step is Classify && files.target && !files.candidate && files.backup
                    ||| step is SyncFinished && event is Done
                },
                RecoveryStep::EvictInvalid => step is Judge && event is Failed,
                RecoveryStep::SyncEvicted => step is EvictInvalid && event is Done,
                RecoveryStep::ReinstateBackup => step is SyncEvicted && event is Done,
                RecoveryStep::SyncReinstated => step is ReinstateBackup && event is Done,
                RecoveryStep::JudgeOriginal => step is SyncReinstated && event is Done,
                RecoveryStep::RollBack => step is Classify && !files.target && !files.candidate && files.backup,
                RecoveryStep::SyncRolledBack => step is RollBack && event is Done,
                RecoveryStep::ClearCandidate => {
                    ||| step is Classify && files.target && !files.candidate && !files.backup
                    ||| (step is DropCandidate || step is Judge || step is JudgeOriginal || step is SyncRolledBack) && event is Done
                },
                RecoveryStep::ClearBackup => step is ClearCandidate && event is Done,
                RecoveryStep::SyncCleared => step is ClearBackup && event is Done,
                RecoveryStep::ClearJournal => step is SyncCleared && event is Done,
                RecoveryStep::SyncForgotten => step is ClearJournal && event is Done,
                RecoveryStep::Finished => {
                    ||| step is Preflight && !files.journal && !(files.candidate && !files.backup && files.target)
                    ||| (step is RemoveStale || step is DropCandidate || step is FinishInstall || step is SyncFinished || step is EvictInvalid || step is SyncEvicted || step is ReinstateBackup || step is SyncReinstated || step is JudgeOriginal || step is RollBack || step is SyncRolledBack || step is ClearCandidate || step is ClearBackup || step is SyncCleared || step is ClearJournal) && event is Failed
                    ||| step is ReadJournal && !(event is Journal && good)
                    ||| step is Classify && ((files.target && files.candidate && files.backup) || (!files.target && !files.backup))
                    ||| step is SyncForgotten || step is SyncStale
                },
            }
        }),
{
}

/// Each action is that of the steps that are named for it.
pub proof fn law_recovery_actions_belong_to_their_steps(step: RecoveryStep)
    ensures
        match recovery_action(step) {
            RestoreAction::Inspect => step is Preflight || step is Classify,
            RestoreAction::RemoveCandidate => step is RemoveStale || step is DropCandidate || step is ClearCandidate,
            RestoreAction::SyncDirectory => step is SyncStale || step is SyncFinished || step is SyncEvicted || step is SyncReinstated || step is SyncRolledBack || step is SyncCleared || step is SyncForgotten,
            RestoreAction::ReadJournal => step is ReadJournal,
            RestoreAction::MoveCandidateToLive => step is FinishInstall,
            RestoreAction::ValidateLive => step is Judge || step is JudgeOriginal,
            RestoreAction::RemoveLive => step is EvictInvalid,
            RestoreAction::MoveBackupToLive => step is ReinstateBackup || step is RollBack,
            RestoreAction::RemoveBackup => step is ClearBackup,
            RestoreAction::RemoveJournal => step is ClearJournal,
            RestoreAction::Finish => step is Finished,
            _ => false,
        },
{
}

/// A recovery fails exactly where it cannot go on: files without a journal or in no order that a
/// replacement leaves, a journal that is not this directory's or not prepared, and every action
/// that fails, but for the validation of an installed snapshot, which is answered by the original.
/// What the system said is told, and what was wrong with the snapshot too.
pub proof fn law_recovery_failures_tell_their_cause(
    step: RecoveryStep,
    event: RecoveryEvent,
    directory: Seq<char>,
    directory_name: Seq<char>,
    verdict: Seq<char>,
)
    requires
        step !is Finished,
        recovery_event_fits(recovery_action(step), event),
    ensures
        ({
            let error = recovery_error(step, event, directory, directory_name, verdict);
            let files = event->Files_0;
            let journal = event->Journal_0;
            &&& error is Some <==> {
                ||| step is Preflight && !files.journal && (files.backup || (files.candidate
                    && !files.target))
                ||| step is Classify && ((files.target && files.candidate && files.backup) || (
                !files.target && !files.backup))
                ||| event is Journal && !(journal.operation_version == 1 && journal.database_id@
                    == directory_name && journal.stage@ == "prepared"@)
                ||| event is Malformed
                ||| event is Failed && step !is Judge
            }
            &&& error is Some ==> recovery_next(step, event, directory_name) is Finished
            &&& event matches RecoveryEvent::Malformed(text) ==> error == Some(
                "invalid restore journal: "@ + text@,
            )
            &&& event matches RecoveryEvent::Failed(text) ==> error is Some ==> exists|
                before: Seq<char>,
                behind: Seq<char>,
            | #[trigger] (before + text@ + behind) == error->0
            &&& event is Failed && (step is EvictInvalid || step is ReinstateBackup || step
                is JudgeOriginal) ==> error is Some && exists|
                before: Seq<char>,
                behind: Seq<char>,
            | #[trigger] (before + verdict + behind) == error->0
            &&& event is Failed && recovery_action(step) is SyncDirectory ==> error is Some
                && exists|before: Seq<char>, behind: Seq<char>| #[trigger]
                (before + directory + behind) == error->0
        }),
{
    if let RecoveryEvent::Failed(failed) = event {
        let error = recovery_error(step, event, directory, directory_name, verdict);
        let text = failed@;
        let none = Seq::<char>::empty();
        match step {
            RecoveryStep::SyncStale
            | RecoveryStep::SyncFinished
            | RecoveryStep::SyncEvicted
            | RecoveryStep::SyncReinstated
            | RecoveryStep::SyncRolledBack
            | RecoveryStep::SyncCleared
            | RecoveryStep::SyncForgotten => {
                assert(("cannot sync restore directory "@ + directory + ": "@) + text + none
                    =~= error->0);
                assert("cannot sync restore directory "@ + directory + (": "@ + text)
                    =~= error->0);
            },
            RecoveryStep::FinishInstall => {
                assert("cannot finish snapshot installation: "@ + text + none =~= error->0);
            },
            RecoveryStep::RollBack => {
                assert("cannot roll back snapshot restore: "@ + text + none =~= error->0);
            },
            RecoveryStep::Judge => {},
            RecoveryStep::EvictInvalid => {
                let head = "installed snapshot is invalid ("@;
                let middle = ") and cannot be removed: "@;
                let end = "; original backup and recovery journal were retained"@;
                assert((head + verdict + middle) + text + end =~= error->0);
                assert(head + verdict + (middle + text + end) =~= error->0);
            },
            RecoveryStep::ReinstateBackup => {
                let head = "installed snapshot is invalid ("@;
                let middle = ") and the original backup could not be restored: "@;
                assert((head + verdict + middle) + text + none =~= error->0);
                assert(head + verdict + (middle + text) =~= error->0);
            },
            RecoveryStep::JudgeOriginal => {
                let head = "the installed snapshot was invalid ("@;
                let middle = ") and the restored original Database is also invalid: "@;
                assert((head + verdict + middle) + text + none =~= error->0);
                assert(head + verdict + (middle + text) =~= error->0);
            },
            _ => {
                assert(none + text + none =~= error->0);
            },
        }
    }
}

/// What a failed recovery says is what could not be done, in the system's words, with what was wrong
/// with the snapshot where the original takes its place.
pub proof fn law_recovery_failures_say_what_failed(
    step: RecoveryStep,
    event: RecoveryEvent,
    directory: Seq<char>,
    directory_name: Seq<char>,
    verdict: Seq<char>,
)
    requires
        step !is Finished,
        recovery_event_fits(recovery_action(step), event),
        recovery_error(step, event, directory, directory_name, verdict) is Some,
    ensures
        ({
            let told = recovery_error(step, event, directory, directory_name, verdict)->0;
            &&& event matches RecoveryEvent::Failed(error) ==> {
                &&& recovery_action(step) is SyncDirectory ==> told
                    == "cannot sync restore directory "@ + directory + ": "@ + error@
                &&& step is FinishInstall ==> told == "cannot finish snapshot installation: "@
                    + error@
                &&& step is RollBack ==> told == "cannot roll back snapshot restore: "@ + error@
                &&& step is EvictInvalid ==> told == "installed snapshot is invalid ("@ + verdict
                    + ") and cannot be removed: "@ + error@
                    + "; original backup and recovery journal were retained"@
                &&& step is ReinstateBackup ==> told == "installed snapshot is invalid ("@ + verdict
                    + ") and the original backup could not be restored: "@ + error@
                &&& step is JudgeOriginal ==> told == "the installed snapshot was invalid ("@
                    + verdict + ") and the restored original Database is also invalid: "@ + error@
                &&& step is RemoveStale || step is ReadJournal || step is DropCandidate || step
                    is ClearCandidate || step is ClearBackup || step is ClearJournal ==> told
                    == error@
            }
            &&& event is Files ==> told == (if step is Preflight {
                "snapshot restore files exist without a journal; operator recovery is required"@
            } else {
                "snapshot restore files are inconsistent; operator recovery is required"@
            })
            &&& event matches RecoveryEvent::Journal(journal) ==> told == (
            if journal.operation_version == 1 && journal.database_id@ == directory_name {
                "restore journal stage is invalid; operator recovery is required"@
            } else {
                "restore journal identity or version is invalid; operator recovery is required"@
            })
        }),
{
}

/// An error that is kept is seen as it is, and one that is not there is not seen.
pub proof fn law_kept_recovery_errors_are_seen(error: Option<ServerError>)
    ensures
        error is None <==> error_view(error) is None,
        error matches Some(kept) ==> error_view(error) == Some(kept@),
{
}

/// A look reports what is there, reading the journal what it holds or why it could not be read, every
/// other action of a recovery that it was done or why not, and a finished recovery takes no report.
pub proof fn law_recovery_actions_report_their_outcome(action: RestoreAction, event: RecoveryEvent)
    ensures
        recovery_event_fits(action, event) <==> match event {
            RecoveryEvent::Files(_) => action is Inspect,
            RecoveryEvent::Journal(_) => action is ReadJournal,
            RecoveryEvent::Malformed(_) => action is ReadJournal,
            RecoveryEvent::Done => action !is Inspect && action !is ReadJournal && action !is Finish,
            RecoveryEvent::Failed(_) => action !is Inspect && action !is Finish,
        },
{
}

} // verus!
