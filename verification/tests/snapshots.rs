//! Replacing a Database by a snapshot, and recovering from an interrupted replacement, on a
//! directory that is kept in memory.

use nostdb_server::client::ErrorCode;
use nostdb_server::failure::{ProtocolFailure, ServerError};
use nostdb_server::http::ApiError;
use nostdb_server::recovery::{
    validate_recovered_snapshot, RecoveryEvent, RecoveryMachine, RecoveryStep, Validation,
};
use nostdb_server::restore::{
    judge_stale_files, prepared_journal, Presence, RestoreAction, RestoreEvent, RestoreJournal,
    RestoreMachine, RestoreStep, StaleFiles,
};
use nostdb_server::swap::{check_upload, swap_extensions, SwapMachine, SwapStep};

const DIRECTORY: &str = "/data/databases/database-id";
const IDENTITY: &str = "database-id";

/// What a Database's directory and its handle hold.
#[derive(Clone, Debug, Default, PartialEq, Eq)]
struct Disk {
    target: Option<&'static str>,
    candidate: Option<&'static str>,
    candidate_sidecar: bool,
    backup: Option<&'static str>,
    journal: Option<String>,
    handle: Option<&'static str>,
    taken: Option<&'static str>,
}

/// What an action on a `Disk` comes to.
enum Outcome {
    Done,
    Failed(String, bool),
    Files(Presence),
}

fn missing() -> Outcome {
    Outcome::Failed("no such file".to_owned(), true)
}

impl Disk {
    fn live(content: &'static str) -> Disk {
        Disk { target: Some(content), handle: Some(content), ..Disk::default() }
    }

    fn presence(&self) -> Presence {
        Presence {
            target: self.target.is_some(),
            candidate: self.candidate.is_some(),
            backup: self.backup.is_some(),
            journal: self.journal.is_some(),
        }
    }

    fn perform(&mut self, action: RestoreAction, snapshot: &'static str) -> Outcome {
        match action {
            RestoreAction::Inspect => return Outcome::Files(self.presence()),
            RestoreAction::WriteCandidate => {
                self.candidate = Some(snapshot);
                self.candidate_sidecar = true;
            }
            RestoreAction::WriteJournal => self.journal = Some("prepared".to_owned()),
            RestoreAction::TakeLive => self.taken = self.handle.take(),
            RestoreAction::ReinstateLive => self.handle = self.taken.take(),
            RestoreAction::MoveLiveToBackup => {
                self.taken = None;
                self.backup = self.target.take();
            }
            RestoreAction::MoveCandidateToLive => self.target = self.candidate.take(),
            RestoreAction::MoveBackupToLive => self.target = self.backup.take(),
            RestoreAction::OpenLive => match self.target {
                Some(content) => self.handle = Some(content),
                None => return missing(),
            },
            RestoreAction::ValidateLive => {
                if self.target == Some("invalid") {
                    return Outcome::Failed("damaged".to_owned(), false);
                }
            }
            RestoreAction::RemoveLive => self.target = None,
            RestoreAction::RemoveCandidate => {
                self.candidate = None;
                self.candidate_sidecar = false;
            }
            RestoreAction::RemoveBackup => self.backup = None,
            RestoreAction::RemoveJournal => {
                if self.journal.take().is_none() {
                    return missing();
                }
            }
            RestoreAction::RemoveCandidateSidecar => self.candidate_sidecar = false,
            RestoreAction::OpenCandidate
            | RestoreAction::CheckCandidate
            | RestoreAction::AdoptCandidate
            | RestoreAction::CheckpointCandidate
            | RestoreAction::SyncDirectory
            | RestoreAction::CheckpointLive
            | RestoreAction::ReadJournal
            | RestoreAction::Finish => {}
        }
        Outcome::Done
    }
}

fn failed(message: &str) -> RestoreEvent {
    RestoreEvent::Failed { message: message.to_owned(), missing: false }
}

/// Replaces the Database, with `inject` deciding at each step whether its action fails instead.
fn restore(
    disk: &mut Disk,
    inject: impl Fn(RestoreStep) -> Option<RestoreEvent>,
) -> Result<(), ProtocolFailure> {
    let mut machine = RestoreMachine::start(true, b"snapshot");
    while machine.step != RestoreStep::Finished {
        let event = match inject(machine.step) {
            Some(event) => event,
            None => match disk.perform(machine.action(), "snapshot") {
                Outcome::Done => RestoreEvent::Done,
                Outcome::Failed(message, missing) => RestoreEvent::Failed { message, missing },
                Outcome::Files(files) => RestoreEvent::Files(files),
            },
        };
        machine.advance(event);
    }
    assert_eq!(machine.action(), RestoreAction::Finish);
    machine.result()
}

fn recover(
    disk: &mut Disk,
    journal: RestoreJournal,
    inject: impl Fn(RecoveryStep) -> Option<RecoveryEvent>,
) -> Result<(), ServerError> {
    let mut journal = Some(journal);
    let mut machine = RecoveryMachine::start(DIRECTORY, IDENTITY);
    while machine.step != RecoveryStep::Finished {
        let event = match inject(machine.step) {
            Some(event) => event,
            None if machine.action() == RestoreAction::ReadJournal => {
                RecoveryEvent::Journal(journal.take().expect("the journal is read once"))
            }
            None => match disk.perform(machine.action(), "snapshot") {
                Outcome::Done => RecoveryEvent::Done,
                Outcome::Failed(message, _) => RecoveryEvent::Failed(message),
                Outcome::Files(files) => RecoveryEvent::Files(files),
            },
        };
        machine.advance(event);
    }
    machine.result()
}

fn swap(
    disk: &mut Disk,
    inject: impl Fn(SwapStep) -> Option<RestoreEvent>,
) -> Result<(), ApiError> {
    let mut machine = SwapMachine::start();
    while machine.step != SwapStep::Finished {
        let event = match inject(machine.step) {
            Some(event) => event,
            None => match disk.perform(machine.action(), "snapshot") {
                Outcome::Failed(message, missing) => RestoreEvent::Failed { message, missing },
                _ => RestoreEvent::Done,
            },
        };
        machine.advance(event);
    }
    machine.result()
}

const RESTORE_STEPS: [RestoreStep; 38] = [
    RestoreStep::Preflight,
    RestoreStep::RemoveStale,
    RestoreStep::SyncStale,
    RestoreStep::Recheck,
    RestoreStep::WriteCandidate,
    RestoreStep::OpenCandidate,
    RestoreStep::CheckCandidate,
    RestoreStep::AdoptCandidate,
    RestoreStep::CheckpointCandidate,
    RestoreStep::WriteJournal,
    RestoreStep::SyncPrepared,
    RestoreStep::TakeLive,
    RestoreStep::CheckpointLive,
    RestoreStep::ReinstateLive,
    RestoreStep::MoveLive,
    RestoreStep::ReopenUnmoved,
    RestoreStep::SyncMoved,
    RestoreStep::InstallCandidate,
    RestoreStep::RestoreAfterInstall,
    RestoreStep::SyncInstalled,
    RestoreStep::OpenInstalled,
    RestoreStep::RemoveInstalled,
    RestoreStep::SyncRemoved,
    RestoreStep::RestoreAfterOpen,
    RestoreStep::SyncRestored,
    RestoreStep::ReopenRestored,
    RestoreStep::DiscardCandidate,
    RestoreStep::SyncDiscarded,
    RestoreStep::DiscardJournal,
    RestoreStep::SyncForgotten,
    RestoreStep::RemoveBackup,
    RestoreStep::SyncBackupRemoval,
    RestoreStep::RemoveJournal,
    RestoreStep::SyncJournalRemoval,
    RestoreStep::RemoveSidecar,
    RestoreStep::Sweep,
    RestoreStep::SweepCandidate,
    RestoreStep::SyncSweep,
];

/// A failing report that fits the action of `step`, if it has one.
fn failing_report(step: RestoreStep) -> Option<RestoreEvent> {
    match step {
        RestoreStep::Preflight | RestoreStep::Recheck | RestoreStep::Sweep => None,
        RestoreStep::ReinstateLive | RestoreStep::RemoveSidecar => None,
        RestoreStep::TakeLive => Some(RestoreEvent::Unavailable),
        RestoreStep::CheckpointLive => {
            Some(RestoreEvent::Refused(ProtocolFailure::new(ErrorCode::InternalError, "refused")))
        }
        _ => Some(failed("injected")),
    }
}

#[test]
fn a_restore_serves_the_snapshot_and_leaves_no_trace() {
    let mut disk = Disk::live("original");
    assert_eq!(restore(&mut disk, |_| None), Ok(()));
    assert_eq!(disk, Disk::live("snapshot"));
}

#[test]
fn a_stale_candidate_is_removed_before_a_restore() {
    let mut disk = Disk::live("original");
    disk.candidate = Some("partial");
    disk.candidate_sidecar = true;
    assert_eq!(restore(&mut disk, |_| None), Ok(()));
    assert_eq!(disk, Disk::live("snapshot"));
}

#[test]
fn restore_checkpoint_failure_restores_handle_and_removes_prepared_state() {
    let mut disk = Disk::live("original");
    let injected =
        ProtocolFailure::retryable(ErrorCode::DatabaseBusy, "injected live checkpoint failure");
    let error = restore(&mut disk, |step| {
        (step == RestoreStep::CheckpointLive).then_some(RestoreEvent::Refused(injected.copy()))
    })
    .expect_err("checkpoint failure rejects restore");
    assert_eq!(error, injected);
    assert!(disk.handle.is_some(), "live Database is immediately restored to the handle");
    assert!(disk.candidate.is_none());
    assert!(disk.journal.is_none());
    assert_eq!(disk, Disk::live("original"));
}

#[test]
fn committed_restore_cleanup_failure_preserves_success_and_recovery_evidence() {
    let mut disk = Disk::live("original");
    let result = restore(&mut disk, |step| {
        (step == RestoreStep::RemoveBackup)
            .then_some(failed("injected committed cleanup failure"))
    });
    assert_eq!(result, Ok(()), "committed restore remains successful");
    assert!(disk.backup.is_some());
    assert!(disk.journal.is_some(), "journal is retained with the backup");
    assert_eq!(disk.handle, Some("snapshot"));
    recover(&mut disk, prepared_journal(IDENTITY), |_| None)
        .expect("startup cleanup can finish committed restore");
    assert!(disk.backup.is_none());
    assert!(disk.journal.is_none());
    assert_eq!(disk.target, Some("snapshot"));
}

#[test]
fn failed_snapshot_install_and_rollback_retain_the_recovery_journal() {
    let mut disk = Disk::live("original");
    let error = restore(&mut disk, |step| {
        matches!(step, RestoreStep::InstallCandidate | RestoreStep::RestoreAfterInstall)
            .then_some(failed("injected rename failure"))
    })
    .expect_err("install and rollback failure rejects restore");
    assert_eq!(error.code, ErrorCode::RecoveryRequired);
    assert!(error.retryable);
    assert_eq!(
        error.message,
        "cannot install snapshot: injected rename failure; cannot restore the live Database: \
         injected rename failure; restart recovery is required"
    );
    assert!(disk.target.is_none());
    assert!(disk.candidate.is_some());
    assert!(disk.backup.is_some());
    assert!(disk.journal.is_some(), "journal must survive until restart recovery");
}

#[test]
fn startup_recovery_removes_an_unjournaled_restore_candidate() {
    let mut disk = Disk {
        target: Some("live Database"),
        candidate: Some("partial candidate"),
        candidate_sidecar: true,
        ..Disk::default()
    };
    recover(&mut disk, prepared_journal(IDENTITY), |_| None).expect("startup recovery succeeds");
    assert_eq!(disk.target, Some("live Database"));
    assert!(disk.candidate.is_none());
    assert!(!disk.candidate_sidecar);
}

#[test]
fn startup_recovery_rolls_an_invalid_installed_snapshot_back_to_the_backup() {
    let mut disk = Disk {
        target: Some("invalid"),
        backup: Some("original"),
        journal: Some("prepared".to_owned()),
        ..Disk::default()
    };
    recover(&mut disk, prepared_journal(IDENTITY), |_| None).expect("invalid target rolls back");
    assert_eq!(disk.target, Some("original"));
    assert!(disk.backup.is_none());
    assert!(disk.journal.is_none());
}

#[test]
fn startup_recovery_retains_backup_when_an_invalid_target_cannot_be_removed() {
    let mut disk = Disk {
        target: Some("invalid"),
        backup: Some("original"),
        journal: Some("prepared".to_owned()),
        ..Disk::default()
    };
    let error = recover(&mut disk, prepared_journal(IDENTITY), |step| {
        (step == RecoveryStep::EvictInvalid)
            .then_some(RecoveryEvent::Failed("is a directory".to_owned()))
    })
    .expect_err("unremovable invalid target requires recovery");
    assert!(error.text().contains("original backup"));
    assert_eq!(
        error.text(),
        "installed snapshot is invalid (damaged) and cannot be removed: is a directory; \
         original backup and recovery journal were retained"
    );
    assert!(disk.target.is_some());
    assert!(disk.backup.is_some(), "original backup must be retained");
    assert!(disk.journal.is_some(), "recovery journal must be retained");
}

#[test]
fn every_single_failure_leaves_a_whole_database() {
    for step in RESTORE_STEPS {
        let mut disk = Disk::live("original");
        let result = restore(&mut disk, |at| {
            if at == step { failing_report(step) } else { None }
        });
        let contents = [disk.target, disk.backup, disk.candidate];
        match result {
            Ok(()) => {
                assert_eq!(disk.target, Some("snapshot"));
                assert_eq!(disk.handle, Some("snapshot"));
            }
            Err(_) => {
                assert!(contents.contains(&Some("original")), "{step:?}");
            }
        }
        if disk.journal.is_some() {
            recover(&mut disk, prepared_journal(IDENTITY), |_| None).expect("recovery succeeds");
            assert!(disk.target == Some("original") || disk.target == Some("snapshot"));
            assert!(disk.journal.is_none() && disk.backup.is_none() && disk.candidate.is_none());
        }
    }
}

#[test]
fn every_interruption_of_a_restore_is_recovered() {
    let mut steps = 0;
    loop {
        let mut disk = Disk::live("original");
        let mut machine = RestoreMachine::start(true, b"snapshot");
        let mut performed = 0;
        while machine.step != RestoreStep::Finished && performed < steps {
            let event = match disk.perform(machine.action(), "snapshot") {
                Outcome::Files(files) => RestoreEvent::Files(files),
                _ => RestoreEvent::Done,
            };
            machine.advance(event);
            performed += 1;
        }
        let finished = machine.step == RestoreStep::Finished;
        disk.handle = None;
        recover(&mut disk, prepared_journal(IDENTITY), |_| None).expect("recovery succeeds");
        assert!(disk.target == Some("original") || disk.target == Some("snapshot"));
        assert!(disk.journal.is_none() && disk.backup.is_none() && disk.candidate.is_none());
        if finished {
            assert_eq!(disk.target, Some("snapshot"));
            break;
        }
        steps += 1;
    }
    assert!(steps > 15);
}

#[test]
fn refusals_of_a_restore_are_named() {
    let refusal = |at: RestoreStep, event: fn() -> RestoreEvent| {
        let mut disk = Disk::live("original");
        let error = restore(&mut disk, |step| if step == at { Some(event()) } else { None })
            .expect_err("the step fails");
        (error.code, error.message, error.retryable)
    };
    let message = |text: &str| text.to_owned();
    assert_eq!(
        refusal(RestoreStep::CheckCandidate, || RestoreEvent::Invalid),
        (ErrorCode::SnapshotIncompatible, message("snapshot integrity check failed"), false)
    );
    assert_eq!(
        refusal(RestoreStep::OpenCandidate, || failed("bad magic")),
        (ErrorCode::SnapshotIncompatible, message("bad magic"), false)
    );
    assert_eq!(refusal(RestoreStep::TakeLive, || RestoreEvent::Unavailable).0, ErrorCode::DatabaseBusy);
    assert_eq!(
        refusal(RestoreStep::TakeLive, || RestoreEvent::Poisoned),
        (ErrorCode::InternalError, message("managed Database lock is poisoned"), false)
    );
    assert_eq!(
        refusal(RestoreStep::SyncPrepared, || failed("disk full")),
        (ErrorCode::InternalError, message("cannot sync restore directory: disk full"), false)
    );
    let mut empty = RestoreMachine::start(true, b"");
    assert_eq!(empty.action(), RestoreAction::Finish);
    assert_eq!(
        empty.failure.take().expect("an empty snapshot is refused").code,
        ErrorCode::SnapshotIncompatible
    );
}

#[test]
fn files_without_a_journal_need_an_operator() {
    let look = |target, candidate, backup, journal| {
        judge_stale_files(Presence { target, candidate, backup, journal })
    };
    assert!(matches!(look(true, false, false, false), StaleFiles::Nothing));
    assert!(matches!(look(false, true, true, true), StaleFiles::Nothing));
    assert!(matches!(look(true, true, false, false), StaleFiles::RemoveCandidate));
    assert!(matches!(look(false, true, false, false), StaleFiles::Operator));
    assert!(matches!(look(true, false, true, false), StaleFiles::Operator));

    let mut disk = Disk { backup: Some("original"), ..Disk::default() };
    let before = disk.clone();
    let text = "snapshot restore files exist without a journal; operator recovery is required";
    let error = recover(&mut disk, prepared_journal(IDENTITY), |_| None)
        .expect_err("nobody knows what the backup is");
    assert_eq!(error.text(), text);
    let error = restore(&mut disk, |_| None).expect_err("nobody knows what the backup is");
    assert_eq!((error.code, error.message.as_str()), (ErrorCode::InternalError, text));
    assert_eq!(disk, before);

    let mut journaled = Disk::live("original");
    journaled.journal = Some("prepared".to_owned());
    let error = restore(&mut journaled, |_| None).expect_err("an earlier restore is unfinished");
    assert_eq!(error.code, ErrorCode::RecoveryRequired);
}

#[test]
fn journals_of_a_recovery_are_checked() {
    let interrupted = || Disk {
        candidate: Some("snapshot"),
        backup: Some("original"),
        journal: Some("prepared".to_owned()),
        ..Disk::default()
    };
    let refusal = |journal: RestoreJournal| {
        let mut disk = interrupted();
        let error = recover(&mut disk, journal, |_| None).expect_err("the journal is refused");
        assert_eq!(disk, interrupted());
        error.text().to_owned()
    };
    let identity = "restore journal identity or version is invalid; operator recovery is required";
    assert_eq!(refusal(prepared_journal("another-id")), identity);
    let mut journal = prepared_journal(IDENTITY);
    journal.operation_version = 2;
    assert_eq!(refusal(journal), identity);
    let mut journal = prepared_journal(IDENTITY);
    journal.stage = "committed".to_owned();
    assert_eq!(
        refusal(journal),
        "restore journal stage is invalid; operator recovery is required"
    );
    let mut disk = interrupted();
    let error = recover(&mut disk, prepared_journal(IDENTITY), |step| {
        (step == RecoveryStep::ReadJournal)
            .then_some(RecoveryEvent::Malformed("expected value".to_owned()))
    })
    .expect_err("the journal is no journal");
    assert_eq!(error.text(), "invalid restore journal: expected value");
    recover(&mut disk, prepared_journal(IDENTITY), |_| None).expect("the journal is fine");
    assert_eq!(disk.target, Some("snapshot"));
}

#[test]
fn recovery_failures_are_named() {
    let invalid = || Disk {
        target: Some("invalid"),
        backup: Some("original"),
        journal: Some("prepared".to_owned()),
        ..Disk::default()
    };
    let error = |disk: Disk, at: RecoveryStep| {
        let mut disk = disk;
        recover(&mut disk, prepared_journal(IDENTITY), |step| {
            (step == at).then_some(RecoveryEvent::Failed("injected".to_owned()))
        })
        .expect_err("the step fails")
        .text()
        .to_owned()
    };
    assert_eq!(
        error(invalid(), RecoveryStep::ReinstateBackup),
        "installed snapshot is invalid (damaged) and the original backup could not be restored: \
         injected"
    );
    assert_eq!(
        error(invalid(), RecoveryStep::JudgeOriginal),
        "the installed snapshot was invalid (damaged) and the restored original Database is also \
         invalid: injected"
    );
    assert!(error(invalid(), RecoveryStep::SyncEvicted).contains(DIRECTORY));
    let only_backup = Disk {
        backup: Some("original"),
        journal: Some("prepared".to_owned()),
        ..Disk::default()
    };
    assert_eq!(
        error(only_backup, RecoveryStep::RollBack),
        "cannot roll back snapshot restore: injected"
    );
    let unfinished = Disk {
        candidate: Some("snapshot"),
        backup: Some("original"),
        journal: Some("prepared".to_owned()),
        ..Disk::default()
    };
    assert_eq!(
        error(unfinished, RecoveryStep::FinishInstall),
        "cannot finish snapshot installation: injected"
    );
    let mut inconsistent = Disk { journal: Some("prepared".to_owned()), ..Disk::default() };
    assert_eq!(
        recover(&mut inconsistent, prepared_journal(IDENTITY), |_| None)
            .expect_err("no Database is left")
            .text(),
        "snapshot restore files are inconsistent; operator recovery is required"
    );
}

#[test]
fn restored_databases_are_judged() {
    let judge = |found| validate_recovered_snapshot("/d.ndb", found);
    assert_eq!(judge(Validation::Valid), Ok(()));
    let text = |found| judge(found).expect_err("the Database is refused").text().to_owned();
    assert_eq!(
        text(Validation::Unopened("locked".to_owned())),
        "cannot open restored Database /d.ndb: locked"
    );
    assert_eq!(
        text(Validation::Unchecked("busy".to_owned())),
        "cannot check restored Database /d.ndb: busy"
    );
    assert_eq!(
        text(Validation::Damaged),
        "restored Database /d.ndb failed integrity validation"
    );
}

#[test]
fn an_uploaded_snapshot_replaces_the_database() {
    let mut disk = Disk::live("original");
    assert_eq!(swap(&mut disk, |_| None), Ok(()));
    assert_eq!(disk, Disk::live("snapshot"));
    assert_eq!(check_upload(1), Ok(()));
    let empty = check_upload(0).expect_err("an empty body is refused");
    assert_eq!((empty.status, empty.code.as_str()), (400, "bad_request"));
    assert_eq!(empty.message, "snapshot body is empty");
}

#[test]
fn an_incompatible_upload_leaves_the_database_alone() {
    for step in [
        SwapStep::WriteCandidate,
        SwapStep::OpenCandidate,
        SwapStep::CheckCandidate,
        SwapStep::AdoptCandidate,
        SwapStep::CheckpointCandidate,
    ] {
        let mut disk = Disk::live("original");
        let error = swap(&mut disk, |at| (at == step).then_some(failed("not an ndb")))
            .expect_err("the upload is refused");
        assert_eq!(error.message, "not an ndb");
        if step == SwapStep::WriteCandidate {
            assert_eq!((error.status, error.code.as_str()), (500, "internal_error"));
        } else {
            assert_eq!((error.status, error.code.as_str()), (422, "incompatible_snapshot"));
        }
        assert_eq!(disk, Disk::live("original"));
    }
    let mut disk = Disk::live("original");
    let error = swap(&mut disk, |at| {
        (at == SwapStep::CheckCandidate).then_some(RestoreEvent::Invalid)
    })
    .expect_err("the upload is damaged");
    assert_eq!(error.message, "snapshot integrity check failed");
}

#[test]
fn a_failed_installation_puts_the_database_back() {
    for (step, text) in [
        (SwapStep::PreserveLive, "cannot preserve current snapshot: injected"),
        (SwapStep::Install, "cannot install compatible snapshot: injected"),
        (SwapStep::OpenInstalled, "restored snapshot could not reopen: injected"),
    ] {
        let mut disk = Disk::live("original");
        let error = swap(&mut disk, |at| (at == step).then_some(failed("injected")))
            .expect_err("the installation fails");
        assert_eq!((error.status, error.message.as_str()), (500, text));
        disk.taken = None;
        assert_eq!(disk, Disk::live("original"), "{step:?}");
    }
    let mut disk = Disk::live("original");
    let error = swap(&mut disk, |at| {
        (at == SwapStep::RemoveBackup).then_some(failed("injected"))
    })
    .expect_err("the backup stays");
    assert_eq!(error.message, "snapshot restored but backup cleanup failed: injected");
    assert_eq!(disk.handle, Some("snapshot"));
    let mut disk = Disk::live("original");
    let error = swap(&mut disk, |at| {
        (at == SwapStep::TakeLive).then_some(RestoreEvent::Unavailable)
    })
    .expect_err("another operation holds the Database");
    assert_eq!(error.message, "database is temporarily unavailable");
    let error = swap(&mut disk, |at| {
        (at == SwapStep::TakeLive).then_some(RestoreEvent::Poisoned)
    })
    .expect_err("the lock is poisoned");
    assert_eq!(error.message, "database lock is poisoned");
}

#[test]
fn upload_files_share_one_random_mark() {
    let (import, backup) = swap_extensions();
    let (other, _) = swap_extensions();
    assert_ne!(import, other);
    let mark = import.strip_prefix("ndb.import-").expect("the prefix is fixed");
    assert_eq!(backup, format!("ndb.backup-{mark}"));
    assert_eq!(uuid::Uuid::parse_str(mark).expect("the mark is a UUID").to_string(), mark);
}
