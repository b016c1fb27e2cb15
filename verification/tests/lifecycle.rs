//! The durable catalog, the lifecycle of Databases, start-up and first-time setup.

use nostdb_server::catalog::{validate_catalog, Catalog, CatalogDatabase};
use nostdb_server::client::{ErrorCode, IoFailure};
use nostdb_server::execution::DatabaseError;
use nostdb_server::failure::{ProtocolFailure, ServerError};
use nostdb_server::lifecycle::{plan_drop, plan_rename, CatalogChange};
use nostdb_server::manage::{
    failed_create_directory, finish_rename, preserve_committed_lifecycle_result,
    preserve_protocol_result_after_cleanup, CreateMachine, CreateStep, DropMachine, DropStep,
    LifecycleEvent, OperationJournal, OperationKind, Transition, TransitionStep,
};
use nostdb_server::path::NativePath;
use nostdb_server::setup::{
    absolute, ensure_new_path, layout_directory, removal_report, rollback_created_directories,
    rollback_initialization, CatalogSetup, InitEvent, InitStep, Initialization, PathLook, Removal,
    RemovalOutcome, RootLook, SetupEvent, SetupStep,
};
use nostdb_server::startup::{
    admit_opened, database_directory, database_path, judge_orphan, missing_root, orphan_failure,
    trash_directory, validate_storage, OpenOutcome, OperationEvent, OperationRecovery,
    OperationStep, Orphan,
};
use nostdb_server::storage::{
    evidence_path, AtomicWrite, CatalogAction, CatalogEvent, CatalogFiles, CatalogRecovery,
    CatalogStep, WriteAction, WriteEvent, WriteStep,
};

const FIRST: &str = "0f3b1c6e-9f0a-4a7e-8f25-3d2a60b3a111";
const SECOND: &str = "1c9d7f52-6f0c-4d1b-9a57-0c8e7d10b222";

fn catalog(entries: &[(&str, &str)]) -> Catalog {
    Catalog {
        catalog_version: 1,
        databases: entries
            .iter()
            .map(|(id, name)| CatalogDatabase {
                id: (*id).to_owned(),
                name: (*name).to_owned(),
                state: "ready".to_owned(),
            })
            .collect(),
    }
}

fn done() -> WriteEvent {
    WriteEvent::Done
}

fn failed(message: &str) -> WriteEvent {
    WriteEvent::Failed { message: message.to_owned(), missing: false }
}

/// The catalog files of a data directory, by what they hold.
#[derive(Clone, Debug, PartialEq, Eq)]
struct Store {
    state: Option<&'static str>,
    pending: Option<&'static str>,
    previous: Option<&'static str>,
    evidence: Option<&'static str>,
}

impl Store {
    fn of(state: Option<&'static str>) -> Self {
        Store { state, pending: None, previous: None, evidence: None }
    }
}

fn write(
    store: &mut Store,
    create: bool,
    inject: impl Fn(WriteStep) -> bool,
) -> Result<(), ServerError> {
    let mut machine = AtomicWrite::start(create);
    while machine.step != WriteStep::Finished {
        if inject(machine.step) {
            machine.advance(failed("injected"));
            continue;
        }
        let event = match machine.action() {
            WriteAction::InspectState => WriteEvent::Exists(store.state.is_some()),
            WriteAction::WritePending => {
                store.pending = Some("new");
                done()
            }
            WriteAction::RemovePending => {
                store.pending = None;
                done()
            }
            WriteAction::RemovePrevious => {
                if store.previous.take().is_some() {
                    done()
                } else {
                    WriteEvent::Failed { message: "no such file".to_owned(), missing: true }
                }
            }
            WriteAction::PreserveState => {
                store.previous = store.state.take();
                done()
            }
            WriteAction::InstallPending => {
                store.state = store.pending.take();
                done()
            }
            WriteAction::RestorePrevious => {
                store.state = store.previous.take();
                done()
            }
            WriteAction::RemoveState => {
                store.state = None;
                done()
            }
            WriteAction::SyncParent => done(),
            WriteAction::Finish => unreachable!(),
        };
        machine.advance(event);
    }
    machine.result()
}

#[test]
fn a_catalog_write_replaces_the_old_catalog() {
    let mut store = Store::of(Some("old"));
    assert_eq!(write(&mut store, false, |_| false), Ok(()));
    assert_eq!(store, Store::of(Some("new")));
    let mut fresh = Store::of(None);
    assert_eq!(write(&mut fresh, true, |_| false), Ok(()));
    assert_eq!(fresh, Store::of(Some("new")));
    let error = write(&mut fresh, true, |_| false).expect_err("a catalog exists");
    assert_eq!(error.text(), "server-state already exists");
    assert_eq!(fresh, Store::of(Some("new")));
}

#[test]
fn a_failed_catalog_write_keeps_the_old_catalog() {
    for (step, text) in [
        (WriteStep::WritePending, "injected"),
        (WriteStep::RemovePrevious, "cannot remove server-state.previous: injected"),
        (WriteStep::Preserve, "cannot preserve previous catalog: injected"),
        (WriteStep::Install, "cannot install catalog: injected"),
        (WriteStep::Sync, "cannot sync data directory: injected"),
    ] {
        let mut store = Store::of(Some("old"));
        let error = write(&mut store, false, |at| at == step).expect_err("the step fails");
        assert_eq!(error.text(), text);
        assert_eq!(store.state, Some("old"));
    }
    let mut store = Store::of(Some("old"));
    assert_eq!(write(&mut store, false, |at| at == WriteStep::ClearPrevious), Ok(()));
    assert_eq!(store.state, Some("new"));
}

fn recover_catalog(
    files: CatalogFiles,
    inject: Option<CatalogStep>,
) -> (Vec<CatalogAction>, Result<(), ServerError>) {
    let mut machine = CatalogRecovery::start("/data");
    let mut actions = Vec::new();
    while machine.step != CatalogStep::Finished {
        let action = machine.action();
        if action == CatalogAction::Inspect {
            machine.advance(CatalogEvent::Files(files));
        } else if inject == Some(machine.step) {
            machine.advance(CatalogEvent::Failed {
                message: "injected".to_owned(),
                missing: false,
            });
        } else {
            machine.advance(CatalogEvent::Done);
        }
        actions.push(action);
    }
    (actions, machine.result())
}

fn recover_store(store: &mut Store) -> Result<(), ServerError> {
    let mut machine = CatalogRecovery::start("/data");
    while machine.step != CatalogStep::Finished {
        let event = match machine.action() {
            CatalogAction::Inspect => CatalogEvent::Files(CatalogFiles {
                state: store.state.is_some(),
                previous: store.previous.is_some(),
                pending: store.pending.is_some(),
                evidence: store.evidence.is_some(),
            }),
            CatalogAction::RestorePrevious => {
                store.state = store.previous.take();
                CatalogEvent::Done
            }
            CatalogAction::PreservePending => {
                store.evidence = store.pending.take();
                CatalogEvent::Done
            }
            CatalogAction::RemovePrevious => {
                store.previous = None;
                CatalogEvent::Done
            }
            CatalogAction::ReadState | CatalogAction::Finish => CatalogEvent::Done,
        };
        machine.advance(event);
    }
    machine.result()
}

#[test]
fn every_interruption_of_a_catalog_write_is_recovered() {
    for (state, pending, previous, expected) in [
        (Some("old"), None, None, "old"),
        (Some("old"), Some("part"), None, "old"),
        (Some("old"), Some("new"), Some("older"), "old"),
        (None, Some("new"), Some("old"), "old"),
        (Some("new"), None, Some("old"), "new"),
        (Some("new"), None, None, "new"),
    ] {
        let mut store = Store { state, pending, previous, evidence: None };
        assert_eq!(recover_store(&mut store), Ok(()));
        assert_eq!(store, Store { evidence: pending, ..Store::of(Some(expected)) });
    }
}

#[test]
fn interrupted_catalog_write_preserves_pending_evidence() {
    let files = CatalogFiles { state: true, previous: false, pending: true, evidence: false };
    let (actions, result) = recover_catalog(files, None);
    assert_eq!(result, Ok(()), "catalog recovers");
    assert_eq!(actions, vec![CatalogAction::Inspect, CatalogAction::PreservePending]);
    let mut store = Store { pending: Some("partial"), ..Store::of(Some("empty")) };
    assert_eq!(recover_store(&mut store), Ok(()), "catalog recovers");
    assert_eq!(store, Store { evidence: Some("partial"), ..Store::of(Some("empty")) });
    assert_eq!(evidence_path("/data"), "/data/recovery/interrupted-catalog.pending");
    let mut again = Store { pending: Some("other"), ..store };
    assert!(recover_store(&mut again).is_err());
    assert_eq!((again.pending, again.evidence), (Some("other"), Some("partial")));
}

#[test]
fn catalog_recovery_restores_the_previous_catalog() {
    let files = CatalogFiles { state: false, previous: true, pending: true, evidence: false };
    let (actions, result) = recover_catalog(files, None);
    assert_eq!(result, Ok(()));
    assert_eq!(
        actions,
        vec![
            CatalogAction::Inspect,
            CatalogAction::RestorePrevious,
            CatalogAction::PreservePending
        ]
    );
    let both = CatalogFiles { state: true, previous: true, pending: false, evidence: false };
    let (actions, result) = recover_catalog(both, None);
    assert_eq!(result, Ok(()));
    assert_eq!(
        actions,
        vec![CatalogAction::Inspect, CatalogAction::ReadState, CatalogAction::RemovePrevious]
    );
}

#[test]
fn catalog_recovery_failures_are_named() {
    let text = |files, inject| {
        recover_catalog(files, inject).1.expect_err("the recovery fails").text().to_owned()
    };
    let files = |state, previous, pending, evidence| CatalogFiles {
        state,
        previous,
        pending,
        evidence,
    };
    assert_eq!(
        text(files(false, false, false, false), None),
        "data directory has no server-state catalog; run `nostd init` for a fresh directory"
    );
    assert_eq!(
        text(files(true, false, true, true), None),
        "multiple interrupted catalog writes require operator recovery"
    );
    assert_eq!(
        text(files(false, true, false, false), Some(CatalogStep::RestorePrevious)),
        "cannot restore previous catalog: injected"
    );
    assert_eq!(
        text(files(true, false, true, false), Some(CatalogStep::PreservePending)),
        "cannot preserve interrupted catalog: injected"
    );
    assert_eq!(
        text(files(true, true, false, false), Some(CatalogStep::RemovePrevious)),
        "cannot remove /data/server-state.previous: injected"
    );
    assert_eq!(text(files(true, true, false, false), Some(CatalogStep::ReadState)), "injected");
}

#[test]
fn lifecycle_cleanup_failure_does_not_turn_committed_success_into_failure() {
    let result = preserve_committed_lifecycle_result(
        7_u8,
        "injected",
        Err(ServerError::new("injected journal cleanup failure")),
    );

    assert_eq!(result, 7);
}

#[test]
fn post_commit_cleanup_failure_does_not_turn_success_into_failure() {
    let result: Result<u8, ProtocolFailure> = preserve_protocol_result_after_cleanup(
        Ok(7),
        "injected-logical-import-directory",
        Err(IoFailure {
            message: "injected cleanup failure".to_owned(),
        }),
    );

    assert_eq!(result.expect("operation result is preserved"), 7);
}

#[test]
fn a_transition_journals_before_it_changes_the_catalog() {
    let before = catalog(&[(FIRST, "alpha")]);
    let after = catalog(&[(FIRST, "beta")]);
    let mut transition = Transition::start(&before, &after, OperationKind::Rename, FIRST)
        .ok()
        .expect("the catalog is valid");
    assert_eq!(transition.journal.operation_version, 1);
    assert_eq!(transition.journal.database_id, FIRST);
    assert!(transition.journal.before.same(&before) && transition.journal.after.same(&after));
    assert_eq!(transition.step, TransitionStep::WriteJournal);
    transition.advance(Ok(()));
    assert_eq!(transition.step, TransitionStep::WriteCatalog);
    transition.advance(Ok(()));
    assert_eq!(transition.result(), Ok(after));

    let after = catalog(&[(FIRST, "beta")]);
    let mut transition = Transition::start(&before, &after, OperationKind::Rename, FIRST)
        .ok()
        .expect("the catalog is valid");
    transition.advance(Ok(()));
    transition.advance(Err(ServerError::new("cannot install catalog: injected")));
    assert_eq!(transition.step, TransitionStep::RemoveJournal);
    transition.advance(Err(ServerError::new("ignored")));
    assert_eq!(
        transition.result(),
        Err(ServerError::new("cannot install catalog: injected"))
    );
    let invalid = catalog(&[("no-uuid", "beta")]);
    assert!(Transition::start(&before, &invalid, OperationKind::Create, "no-uuid").is_err());
}

fn create(
    start: &Catalog,
    inject: Option<(CreateStep, LifecycleEvent)>,
) -> (Vec<CreateStep>, Result<String, ProtocolFailure>) {
    let mut machine = CreateMachine::start(start, "knowledge").ok().expect("the name is free");
    assert_eq!(validate_catalog(&machine.change.catalog), Ok(()));
    let mut inject = inject;
    let mut steps = Vec::new();
    while machine.step != CreateStep::Finished {
        steps.push(machine.step);
        let event = match inject.take() {
            Some((step, event)) if step == machine.step => event,
            other => {
                inject = other;
                LifecycleEvent::Done
            }
        };
        machine.advance(event);
    }
    (steps, machine.result().map(|summary| summary.name))
}

#[test]
fn a_created_database_is_registered_before_its_journal_goes() {
    let empty = catalog(&[]);
    let (steps, result) = create(&empty, None);
    assert_eq!(result, Ok("knowledge".to_owned()));
    assert_eq!(
        steps,
        vec![
            CreateStep::MakeDirectory,
            CreateStep::CreateDatabase,
            CreateStep::ChangeCatalog,
            CreateStep::Register,
            CreateStep::ForgetJournal
        ]
    );
    let taken = catalog(&[(FIRST, "knowledge")]);
    let refusal = CreateMachine::start(&taken, "knowledge").err().expect("the name is taken");
    assert_eq!(refusal.code, ErrorCode::DatabaseAlreadyExists);
    let first = CreateMachine::start(&empty, "a").ok().expect("the name is free");
    let second = CreateMachine::start(&empty, "a").ok().expect("the name is free");
    assert_ne!(first.change.entry.id, second.change.entry.id);
}

#[test]
fn a_failed_creation_is_undone_or_set_aside() {
    let empty = catalog(&[]);
    let refused = DatabaseError::Storage { busy: false, message: "disk full".to_owned() };
    let (steps, result) =
        create(&empty, Some((CreateStep::CreateDatabase, LifecycleEvent::Refused(refused))));
    assert_eq!(steps.last(), Some(&CreateStep::RemoveDirectory));
    assert_eq!(result.expect_err("the engine refuses").message, "disk full");
    let (steps, result) = create(
        &empty,
        Some((CreateStep::ChangeCatalog, LifecycleEvent::Failed("injected".to_owned()))),
    );
    assert_eq!(steps.last(), Some(&CreateStep::Quarantine));
    assert_eq!(result.expect_err("the catalog stays").code, ErrorCode::InternalError);
    let (_, result) = create(&empty, Some((CreateStep::Register, LifecycleEvent::MapPoisoned)));
    assert_eq!(
        result.expect_err("the map is poisoned").message,
        "managed Database map is poisoned"
    );
    assert_eq!(failed_create_directory("/data", FIRST), format!("/data/recovery/failed-create-{FIRST}"));
}

fn drop_plan() -> CatalogChange {
    plan_drop(&catalog(&[(FIRST, "knowledge")]), "knowledge", "knowledge")
        .ok()
        .expect("the Database exists")
}

fn run_drop(
    trash: bool,
    inject: Vec<(DropStep, LifecycleEvent)>,
) -> (Vec<DropStep>, Result<String, ProtocolFailure>) {
    let mut machine = DropMachine::start(drop_plan());
    let mut inject = inject;
    let mut steps = Vec::new();
    while machine.step != DropStep::Finished {
        steps.push(machine.step);
        let event = if machine.step == DropStep::CheckTrash {
            LifecycleEvent::Exists(trash)
        } else {
            match inject.iter().position(|(step, _)| *step == machine.step) {
                Some(i) => inject.remove(i).1,
                None => LifecycleEvent::Done,
            }
        };
        machine.advance(event);
    }
    (steps, machine.result().map(|summary| summary.name))
}

#[test]
fn failed_drop_checkpoint_restores_the_live_database_handle() {
    let refused = DatabaseError::Storage {
        busy: true,
        message: "injected checkpoint failure".to_owned(),
    };
    let (steps, result) =
        run_drop(false, vec![(DropStep::Checkpoint, LifecycleEvent::Refused(refused))]);
    let error = result.expect_err("checkpoint failure rejects drop");
    let injected =
        ProtocolFailure::retryable(ErrorCode::DatabaseBusy, "injected checkpoint failure");
    assert_eq!(error, injected);
    assert_eq!(
        steps,
        vec![DropStep::CheckTrash, DropStep::Take, DropStep::Checkpoint, DropStep::Reinstate]
    );
    assert_eq!(run_drop(false, vec![]).1, Ok("knowledge".to_owned()));
}

#[test]
fn drop_preflights_a_conflicting_trash_target_before_closing_the_database() {
    let (steps, result) = run_drop(true, vec![]);
    assert_eq!(
        result.expect_err("conflicting trash target rejects drop").message,
        "Database trash target already exists"
    );
    assert_eq!(steps, vec![DropStep::CheckTrash]);
    let (steps, result) = run_drop(false, vec![]);
    assert_eq!(result, Ok("knowledge".to_owned()), "drop succeeds after conflict is removed");
    assert_eq!(
        steps,
        vec![
            DropStep::CheckTrash,
            DropStep::Take,
            DropStep::Checkpoint,
            DropStep::Close,
            DropStep::ChangeCatalog,
            DropStep::MoveToTrash,
            DropStep::ForgetJournal
        ]
    );
}

#[test]
fn a_drop_that_the_catalog_refuses_reopens_the_database() {
    let refused = || (DropStep::ChangeCatalog, LifecycleEvent::Failed("full".to_owned()));
    let (steps, result) = run_drop(false, vec![refused()]);
    assert_eq!(steps.last(), Some(&DropStep::PutBack));
    assert_eq!(result.expect_err("the catalog stays").message, "full");
    let lost = (DropStep::Reopen, LifecycleEvent::Failed("damaged".to_owned()));
    let (_, result) = run_drop(false, vec![refused(), lost]);
    assert_eq!(
        result.expect_err("the Database is closed").message,
        "catalog drop failed (full) and Database could not reopen: damaged"
    );
    for (event, text) in [
        (LifecycleEvent::MapPoisoned, "managed Database map is poisoned"),
        (LifecycleEvent::Missing, "managed Database handle is missing"),
        (LifecycleEvent::LockPoisoned, "managed Database lock is poisoned"),
    ] {
        let (_, result) = run_drop(false, vec![(DropStep::Take, event)]);
        assert_eq!(result.expect_err("the handle is not there").message, text);
    }
    let (_, result) = run_drop(false, vec![(DropStep::Take, LifecycleEvent::Unavailable)]);
    assert_eq!(result.expect_err("the handle is taken").code, ErrorCode::DatabaseBusy);
}

#[test]
fn a_rename_reports_its_new_name() {
    let start = catalog(&[(FIRST, "alpha")]);
    let change = plan_rename(&start, "alpha", "beta").ok().expect("alpha exists");
    let summary = finish_rename(change, Ok(())).expect("the catalog changed");
    assert_eq!((summary.id.as_str(), summary.name.as_str()), (FIRST, "beta"));
    let change = plan_rename(&start, "alpha", "beta").ok().expect("alpha exists");
    let failure = finish_rename(change, Err(ServerError::new("full"))).expect_err("it did not");
    assert_eq!((failure.code, failure.message.as_str()), (ErrorCode::InternalError, "full"));
}

fn journal(kind: OperationKind, before: Catalog, after: Catalog) -> OperationJournal {
    OperationJournal { operation_version: 1, kind, database_id: FIRST.to_owned(), before, after }
}

fn recover_operation(
    catalog: &Catalog,
    events: Vec<OperationEvent>,
) -> (Vec<OperationStep>, Result<(), ServerError>) {
    let mut machine = OperationRecovery::start("/data", catalog);
    let mut steps = Vec::new();
    for event in events {
        steps.push(machine.step);
        machine.advance(event);
    }
    assert_eq!(machine.step, OperationStep::Finished);
    (steps, machine.result())
}

#[test]
fn an_interrupted_drop_is_finished_at_startup() {
    let before = catalog(&[(FIRST, "alpha")]);
    let after = catalog(&[]);
    let (steps, result) = recover_operation(
        &after,
        vec![
            OperationEvent::Journal(journal(OperationKind::Drop, before.copy(), after.copy())),
            OperationEvent::Exists(true),
            OperationEvent::Exists(false),
            OperationEvent::Done,
            OperationEvent::Done,
        ],
    );
    assert_eq!(result, Ok(()));
    assert_eq!(
        steps,
        vec![
            OperationStep::ReadJournal,
            OperationStep::CheckActive,
            OperationStep::CheckTrash,
            OperationStep::MoveToTrash,
            OperationStep::RemoveJournal
        ]
    );
    let (steps, result) = recover_operation(
        &before,
        vec![
            OperationEvent::Journal(journal(OperationKind::Drop, before.copy(), after.copy())),
            OperationEvent::Failed { message: "gone".to_owned(), missing: true },
        ],
    );
    assert_eq!(result, Ok(()));
    assert_eq!(steps, vec![OperationStep::ReadJournal, OperationStep::RemoveJournal]);
    assert_eq!(recover_operation(&before, vec![OperationEvent::NoJournal]).1, Ok(()));
}

#[test]
fn unclear_lifecycle_journals_need_an_operator() {
    let before = catalog(&[]);
    let after = catalog(&[(FIRST, "alpha")]);
    let other = catalog(&[(SECOND, "beta")]);
    let text = |catalog: &Catalog, events| {
        recover_operation(catalog, events).1.expect_err("the recovery fails").text().to_owned()
    };
    let created = || OperationEvent::Journal(journal(OperationKind::Create, before.copy(), after.copy()));
    assert_eq!(
        text(&other, vec![created()]),
        "catalog matches neither side of the lifecycle journal; operator recovery is required"
    );
    assert_eq!(
        text(&after, vec![created(), OperationEvent::Exists(false)]),
        "committed Database create has no storage; operator recovery is required"
    );
    let mut unknown = journal(OperationKind::Create, before.copy(), after.copy());
    unknown.operation_version = 3;
    assert_eq!(
        text(&after, vec![OperationEvent::Journal(unknown)]),
        "unsupported lifecycle operation_version 3"
    );
    assert_eq!(
        text(&after, vec![OperationEvent::Malformed("eof".to_owned())]),
        "invalid lifecycle journal: eof"
    );
    let refused = || OperationEvent::Failed { message: "denied".to_owned(), missing: false };
    assert_eq!(text(&after, vec![refused()]), "cannot read lifecycle journal: denied");
    assert_eq!(
        text(&after, vec![created(), OperationEvent::Exists(true), refused()]),
        "cannot remove /data/server-operation: denied"
    );
    let dropped = || OperationEvent::Journal(journal(OperationKind::Drop, after.copy(), before.copy()));
    assert_eq!(
        text(&before, vec![dropped(), OperationEvent::Exists(true), OperationEvent::Exists(true)]),
        "drop recovery found both active and trash storage"
    );
    assert_eq!(
        text(
            &before,
            vec![dropped(), OperationEvent::Exists(true), OperationEvent::Exists(false), refused()]
        ),
        "cannot finish interrupted Database drop: denied"
    );
}

#[test]
fn startup_accounts_for_every_storage_directory() {
    let listed = catalog(&[(FIRST, "alpha"), (SECOND, "beta")]);
    assert_eq!(validate_storage(&listed, &vec![true, true]), Ok(()));
    let error = validate_storage(&listed, &vec![true, false]).expect_err("beta has no storage");
    assert!(error.text().contains("beta"));
    assert!(matches!(judge_orphan("/data", &listed, FIRST, false), Ok(Orphan::Listed)));
    match judge_orphan("/data", &listed, "stray", false) {
        Ok(Orphan::Quarantine(path)) => assert_eq!(path, "/data/recovery/orphan-stray"),
        _ => panic!("the directory is set aside"),
    }
    assert!(judge_orphan("/data", &listed, "stray", true).is_err());
    assert!(orphan_failure("stray", "denied").text().ends_with("denied"));
    assert_eq!(admit_opened("alpha", OpenOutcome::Opened(false)), Ok(()));
    assert!(admit_opened("alpha", OpenOutcome::Opened(true)).is_err());
    assert!(admit_opened("alpha", OpenOutcome::Failed("locked".to_owned()))
        .expect_err("the engine refuses")
        .text()
        .contains("locked"));
    assert!(admit_opened("alpha", OpenOutcome::Uninspected("torn".to_owned())).is_err());
}

#[test]
fn storage_stands_below_the_data_directory() {
    assert_eq!(database_directory("/data", FIRST), format!("/data/databases/{FIRST}"));
    assert_eq!(database_path("/data", FIRST), format!("/data/databases/{FIRST}/database.ndb"));
    assert_eq!(trash_directory("/data/", FIRST), format!("/data/trash/{FIRST}"));
    assert_eq!(
        missing_root("/data").text(),
        "data directory /data does not exist or is not a directory; run `nostd init` first"
    );
}

fn setup(look: RootLook, fail_at: Option<(SetupStep, usize)>) -> (Vec<Removal>, Result<(), ServerError>) {
    let mut machine = CatalogSetup::start("/data");
    let mut look = Some(look);
    let mut removals = Vec::new();
    while machine.step != SetupStep::Finished {
        let event = match machine.step {
            SetupStep::Look => SetupEvent::Found(look.take().expect("the root is looked at once")),
            SetupStep::RollBack => {
                removals = machine.removals();
                SetupEvent::RolledBack(Ok(()))
            }
            step if fail_at == Some((step, machine.created)) => {
                SetupEvent::Failed("injected".to_owned())
            }
            _ => SetupEvent::Done,
        };
        machine.advance(event);
    }
    (removals, machine.result())
}

fn paths(removals: &[Removal]) -> Vec<&str> {
    removals.iter().map(|removal| removal.path.as_str()).collect()
}

#[test]
fn a_data_directory_must_be_fresh() {
    assert_eq!(setup(RootLook::Missing, None).1, Ok(()));
    assert_eq!(setup(RootLook::Empty, None).1, Ok(()));
    assert!(setup(RootLook::Occupied, None).1.is_err());
    assert_eq!(
        setup(RootLook::Unreadable("denied".to_owned()), None)
            .1
            .expect_err("nobody can look")
            .text(),
        "cannot inspect data directory /data: denied"
    );
    let names: Vec<&str> = (0..5).map(layout_directory).collect();
    assert_eq!(names, vec!["databases", "snapshots", "locks", "recovery", "trash"]);
}

#[test]
fn a_failed_setup_removes_what_it_made() {
    let (removals, result) = setup(RootLook::Missing, Some((SetupStep::MakeDirectory, 2)));
    assert_eq!(
        result.expect_err("a directory is refused").text(),
        "cannot create data layout: injected"
    );
    assert_eq!(paths(&removals), vec!["/data/snapshots", "/data/databases", "/data"]);
    assert!(removals.iter().all(|removal| removal.directory));
    let (removals, result) = setup(RootLook::Empty, Some((SetupStep::WriteCatalog, 5)));
    assert!(result.is_err());
    assert!(!paths(&removals).contains(&"/data"));
    assert!(paths(&removals).contains(&"/data/trash"));
    let (_, result) = setup(RootLook::Missing, Some((SetupStep::MakeRoot, 0)));
    assert_eq!(
        result.expect_err("the root is refused").text(),
        "cannot create data directory /data: injected"
    );
    assert_eq!(
        paths(&rollback_created_directories("/data", true, 1)),
        vec!["/data/databases"]
    );
}

fn removal(path: &str) -> Removal {
    Removal { path: path.to_owned(), directory: false }
}

#[test]
fn an_incomplete_rollback_is_reported() {
    let removals = vec![removal("/a"), removal("/b"), removal("/c")];
    let left = |text: &str| RemovalOutcome::Left(text.to_owned());
    assert_eq!(
        removal_report(
            &removals,
            &vec![RemovalOutcome::Gone, RemovalOutcome::Gone, RemovalOutcome::Gone]
        ),
        Ok(())
    );
    assert_eq!(
        removal_report(&removals, &vec![left("busy"), RemovalOutcome::Gone, left("denied")])
            .expect_err("two files are left")
            .text(),
        "cannot remove /a: busy; cannot remove /c: denied"
    );
}

fn initialization() -> Initialization {
    Initialization::start(
        "/etc/server.toml".to_owned(),
        "/data".to_owned(),
        "127.0.0.1:0",
        &Ok("127.0.0.1:0".to_owned()),
    )
    .ok()
    .expect("the configuration is valid")
}

#[test]
fn initialization_checks_the_config_before_mutating_an_empty_data_directory() {
    let mut machine = initialization();
    assert_eq!(machine.step, InitStep::LookAtConfig);
    machine.advance(InitEvent::Found(PathLook::Taken));
    assert_eq!(machine.step, InitStep::Finished, "nothing is created");
    let error = machine.result().expect_err("existing config rejects initialization");
    assert!(error.text().contains("already exists"));
    assert_eq!(error.text(), "configuration path /etc/server.toml already exists");

    let mut machine = initialization();
    machine.advance(InitEvent::Found(PathLook::Free));
    for step in [
        InitStep::SetUpData,
        InitStep::WriteQueryCredential,
        InitStep::WriteAdminCredential,
        InitStep::WriteConfig,
    ] {
        assert_eq!(machine.step, step);
        machine.advance(InitEvent::Done);
    }
    let report = machine.result().expect("same data directory can be retried");
    assert_eq!(report.config_path, "/etc/server.toml");
    assert_eq!(report.data_directory, "/data");
    assert_eq!(report.query_credential_file, "/data/credentials/client.token");
    assert_eq!(report.admin_credential_file, "/data/credentials/admin.token");
}

#[test]
fn initialization_rolls_back_its_layout_after_a_late_config_failure() {
    let mut machine = initialization();
    assert_ne!(machine.query_credential, machine.admin_credential);
    machine.advance(InitEvent::Found(PathLook::Free));
    machine.advance(InitEvent::Done);
    machine.advance(InitEvent::Done);
    machine.advance(InitEvent::Done);
    machine.advance(InitEvent::Failed(ServerError::new("cannot create /etc/server.toml: exists")));
    assert_eq!(machine.step, InitStep::RollBack);
    let removals = rollback_initialization(
        &machine.config,
        false,
        machine.query_created,
        machine.admin_created,
    );
    assert_eq!(
        paths(&removals),
        vec![
            "/data/credentials/admin.token",
            "/data/credentials/client.token",
            "/data/credentials",
            "/data/server-state.pending",
            "/data/server-state.previous",
            "/data/server-operation",
            "/data/server-state",
            "/data/trash",
            "/data/recovery",
            "/data/locks",
            "/data/snapshots",
            "/data/databases",
            "/data",
        ]
    );
    machine.advance(InitEvent::RolledBack(Ok(())));
    let error = machine.result().expect_err("the configuration is refused");
    assert!(error.text().contains("cannot create"));

    let mut machine = initialization();
    machine.advance(InitEvent::Found(PathLook::Free));
    machine.advance(InitEvent::Done);
    machine.advance(InitEvent::Failed(ServerError::new("full")));
    assert!(!machine.query_created && !machine.admin_created);
    machine.advance(InitEvent::RolledBack(Err(ServerError::new("busy"))));
    assert_eq!(
        machine.result().expect_err("the credential is refused").text(),
        "full; initialization rollback was incomplete: busy"
    );
}

#[test]
fn new_paths_and_relative_paths_are_resolved() {
    assert_eq!(ensure_new_path("/c", "configuration", PathLook::Free), Ok(()));
    assert_eq!(
        ensure_new_path("/c", "configuration", PathLook::Unreadable("denied".to_owned()))
            .expect_err("nobody can look")
            .text(),
        "cannot inspect configuration path /c: denied"
    );
    assert_eq!(absolute("/data", Err("gone".to_owned()), &None), Ok("/data".to_owned()));
    assert_eq!(absolute("data", Ok("/home/me".to_owned()), &None), Ok("/home/me/data".to_owned()));
    assert_eq!(
        absolute("data", Err("gone".to_owned()), &None).expect_err("there is no directory").text(),
        "cannot resolve current directory: gone"
    );
    let invalid = Initialization::start(
        "/c".to_owned(),
        "/data".to_owned(),
        "localhost",
        &Err("invalid socket address syntax".to_owned()),
    );
    assert!(invalid.is_err());
}

/// Runs a set-up among paths in memory; the work of number `fail_at` fails.
fn setup_among(existing: &[&str], fail_at: Option<usize>) -> (Vec<String>, Result<(), ServerError>) {
    let mut world: Vec<String> = existing.iter().map(|path| (*path).to_owned()).collect();
    let mut machine = CatalogSetup::start("/data");
    let mut work = 0;
    while machine.step != SetupStep::Finished {
        let made = match machine.step {
            SetupStep::MakeRoot => Some("/data".to_owned()),
            SetupStep::MakeDirectory => Some(format!("/data/{}", layout_directory(machine.created))),
            SetupStep::WriteCatalog => Some("/data/server-state".to_owned()),
            _ => None,
        };
        let event = match (machine.step, made) {
            (SetupStep::Look, _) => SetupEvent::Found(if existing.contains(&"/data") {
                RootLook::Empty
            } else {
                RootLook::Missing
            }),
            (_, Some(path)) => {
                work += 1;
                if fail_at == Some(work) {
                    SetupEvent::Failed("injected".to_owned())
                } else {
                    world.push(path);
                    SetupEvent::Done
                }
            }
            (_, None) => {
                for removal in machine.removals() {
                    world.retain(|path| *path != removal.path);
                }
                SetupEvent::RolledBack(Ok(()))
            }
        };
        machine.advance(event);
    }
    (world, machine.result())
}

#[test]
fn every_failed_setup_leaves_what_it_found() {
    for existing in [vec!["/other"], vec!["/other", "/data"]] {
        let steps = if existing.contains(&"/data") { 6 } else { 7 };
        for fail_at in 1..=steps {
            let (world, result) = setup_among(&existing, Some(fail_at));
            assert!(result.is_err());
            assert_eq!(world, existing);
        }
        let (world, result) = setup_among(&existing, None);
        assert_eq!(result, Ok(()));
        assert_eq!(world.len(), existing.len() + steps);
        assert!(world.contains(&"/data/server-state".to_owned()));
    }
}

/// Runs an initialization among paths in memory; the work of number `fail_at` fails.
fn initialize_among(existing: &[&str], fail_at: Option<usize>) -> (Vec<String>, bool) {
    let root_existed = existing.contains(&"/data");
    let mut world: Vec<String> = existing.iter().map(|path| (*path).to_owned()).collect();
    let mut machine = initialization();
    let mut work = 0;
    while machine.step != InitStep::Finished {
        if machine.step == InitStep::LookAtConfig {
            machine.advance(InitEvent::Found(PathLook::Free));
            continue;
        }
        if machine.step == InitStep::RollBack {
            let removals = rollback_initialization(
                &machine.config,
                root_existed,
                machine.query_created,
                machine.admin_created,
            );
            for removal in removals {
                world.retain(|path| *path != removal.path);
            }
            machine.advance(InitEvent::RolledBack(Ok(())));
            continue;
        }
        work += 1;
        let fails = fail_at == Some(work);
        let credentials = "/data/credentials".to_owned();
        let file = match machine.step {
            InitStep::SetUpData => {
                let (after, result) = setup_among(existing, if fails { Some(3) } else { None });
                world = after;
                machine.advance(match result {
                    Ok(()) => InitEvent::Done,
                    Err(error) => InitEvent::Failed(error),
                });
                continue;
            }
            InitStep::WriteQueryCredential => {
                world.push(credentials);
                machine.config.authentication.query_credential_file.clone()
            }
            InitStep::WriteAdminCredential => {
                machine.config.authentication.admin_credential_file.clone()
            }
            _ => machine.config_path.clone(),
        };
        machine.advance(if fails {
            InitEvent::Failed(ServerError::new("injected"))
        } else {
            world.push(file);
            InitEvent::Done
        });
    }
    (world, machine.result().is_ok())
}

#[test]
fn every_failed_initialization_leaves_what_it_found() {
    for existing in [vec!["/other"], vec!["/other", "/data"]] {
        for fail_at in 1..=4 {
            let (world, succeeded) = initialize_among(&existing, Some(fail_at));
            assert!(!succeeded);
            assert_eq!(world, existing);
        }
        let (world, succeeded) = initialize_among(&existing, None);
        assert!(succeeded);
        for path in [
            "/other",
            "/data",
            "/data/server-state",
            "/data/credentials/client.token",
            "/data/credentials/admin.token",
            "/etc/server.toml",
        ] {
            assert!(world.contains(&path.to_owned()));
        }
    }
}

#[test]
fn every_interrupted_change_is_settled_at_startup() {
    let before = catalog(&[(FIRST, "alpha")]);
    let after = catalog(&[]);
    for (active, trashed) in [(true, false), (false, true), (false, false)] {
        let (mut active, mut trashed, mut kept) = (active, trashed, true);
        let was_somewhere = active || trashed;
        let mut machine = OperationRecovery::start("/data", &after);
        while machine.step != OperationStep::Finished {
            let event = match machine.step {
                OperationStep::ReadJournal => OperationEvent::Journal(journal(
                    OperationKind::Drop,
                    before.copy(),
                    after.copy(),
                )),
                OperationStep::CheckActive => OperationEvent::Exists(active),
                OperationStep::CheckTrash => OperationEvent::Exists(trashed),
                OperationStep::MoveToTrash => {
                    active = false;
                    trashed = true;
                    OperationEvent::Done
                }
                OperationStep::RemoveJournal => {
                    kept = false;
                    OperationEvent::Done
                }
                step => panic!("a drop does not reach {step:?}"),
            };
            machine.advance(event);
        }
        assert_eq!(machine.result(), Ok(()));
        assert!(!active && !kept);
        assert_eq!(trashed, was_somewhere);
    }
}

/// Runs a set-up whose catalog write fails and cannot remove its pending file.
fn setup_with_stray(root_existed: bool) -> (Vec<String>, String) {
    let mut world: Vec<String> = Vec::new();
    if root_existed {
        world.push("/data".to_owned());
    }
    let mut machine = CatalogSetup::start("/data");
    while machine.step != SetupStep::Finished {
        let event = match machine.step {
            SetupStep::Look if root_existed => SetupEvent::Found(RootLook::Empty),
            SetupStep::Look => SetupEvent::Found(RootLook::Missing),
            SetupStep::MakeRoot => {
                world.push("/data".to_owned());
                SetupEvent::Done
            }
            SetupStep::MakeDirectory => {
                world.push(format!("/data/{}", layout_directory(machine.created)));
                SetupEvent::Done
            }
            SetupStep::WriteCatalog => {
                world.push("/data/server-state.pending".to_owned());
                SetupEvent::Failed("full".to_owned())
            }
            _ => {
                let removals = machine.removals();
                let mut outcomes = Vec::new();
                for removal in &removals {
                    let prefix = format!("{}/", removal.path);
                    if world.iter().any(|path| path.starts_with(&prefix)) {
                        outcomes.push(RemovalOutcome::Left("not empty".to_owned()));
                    } else {
                        world.retain(|path| *path != removal.path);
                        outcomes.push(RemovalOutcome::Gone);
                    }
                }
                SetupEvent::RolledBack(removal_report(&removals, &outcomes))
            }
        };
        machine.advance(event);
    }
    let error = machine.result().expect_err("the catalog is refused");
    (world, error.text().to_owned())
}

#[test]
fn a_file_that_a_failed_write_left_stays_or_is_reported() {
    let (world, error) = setup_with_stray(true);
    assert_eq!(world, vec!["/data".to_owned(), "/data/server-state.pending".to_owned()]);
    assert_eq!(error, "full");
    let (world, error) = setup_with_stray(false);
    assert_eq!(world, vec!["/data".to_owned(), "/data/server-state.pending".to_owned()]);
    assert_eq!(
        error,
        "full; catalog initialization rollback was incomplete: cannot remove /data: not empty"
    );
}

#[test]
fn the_platform_decides_what_is_absolute() {
    let drive = Some(NativePath { absolute: true, below: "C:\\data".to_owned() });
    assert_eq!(absolute("C:\\data", Err("gone".to_owned()), &drive), Ok("C:\\data".to_owned()));
    let relative = Some(NativePath { absolute: false, below: "D:\\home\\data".to_owned() });
    assert_eq!(
        absolute("data", Ok("D:\\home".to_owned()), &relative),
        Ok("D:\\home\\data".to_owned())
    );
    assert_eq!(
        absolute("data", Err("gone".to_owned()), &relative).expect_err("no directory").text(),
        "cannot resolve current directory: gone"
    );
}
