//! What a snapshot replacement and its recovery do to a Database's directory, and what they keep.
//!
//! The model says what each file holds and what each action does to it. The laws say that neither
//! a failure nor an interruption at any point loses the live Database.

use vstd::prelude::*;

use crate::recovery::{
    journal_identified, journal_prepared, recovery_action, recovery_error, recovery_event_fits,
    recovery_next, RecoveryEvent, RecoveryStep,
};
use crate::restore::{
    event_fits, next_step, stale_files, step_action, Presence, RestoreAction, RestoreEvent,
    RestoreStep,
};

verus! {

/// What a file of the directory holds.
#[derive(Clone, Copy, PartialEq, Eq, Structural)]
pub enum Content {
    /// The file does not exist.
    Absent,
    /// The Database that was live when the replacement began.
    Original,
    /// Bytes of the upload that were not validated.
    Upload,
    /// The validated snapshot.
    Snapshot,
}

/// What the journal holds.
#[derive(Clone, Copy, PartialEq, Eq, Structural)]
pub enum JournalContent {
    /// The file does not exist.
    Absent,
    /// The announcement of the replacement.
    Prepared,
    /// A part of it.
    Partial,
}

/// Which Database the open handle serves.
#[derive(Clone, Copy, PartialEq, Eq, Structural)]
pub enum HandleContent {
    /// None.
    Closed,
    /// The Database that was live when the replacement began.
    Original,
    /// The validated snapshot.
    Snapshot,
}

/// A Database's directory and handle.
pub struct World {
    /// The live Database.
    pub target: Content,
    /// The candidate.
    pub candidate: Content,
    /// The backup.
    pub backup: Content,
    /// The journal.
    pub journal: JournalContent,
    /// The handle.
    pub handle: HandleContent,
}

/// What a look at the directory finds.
pub open spec fn presence(world: World) -> Presence {
    Presence {
        target: world.target !is Absent,
        candidate: world.candidate !is Absent,
        backup: world.backup !is Absent,
        journal: world.journal !is Absent,
    }
}

/// The handle that an open Database file gives.
pub open spec fn opened(content: Content) -> HandleContent {
    if content is Original {
        HandleContent::Original
    } else if content is Snapshot {
        HandleContent::Snapshot
    } else {
        HandleContent::Closed
    }
}

/// Whether a file holds a Database that the storage engine can open.
pub open spec fn is_database(content: Content) -> bool {
    content is Original || content is Snapshot
}

/// What a successful action does. Renames replace their target as one step.
pub open spec fn performed(action: RestoreAction, before: World) -> World {
    match action {
        RestoreAction::WriteCandidate => World { candidate: Content::Upload, ..before },
        RestoreAction::CheckpointCandidate => World { candidate: Content::Snapshot, ..before },
        RestoreAction::WriteJournal => World { journal: JournalContent::Prepared, ..before },
        RestoreAction::TakeLive => World { handle: HandleContent::Closed, ..before },
        RestoreAction::ReinstateLive => World { handle: opened(before.target), ..before },
        RestoreAction::MoveLiveToBackup => World {
            backup: before.target,
            target: Content::Absent,
            ..before
        },
        RestoreAction::MoveCandidateToLive => World {
            target: before.candidate,
            candidate: Content::Absent,
            ..before
        },
        RestoreAction::MoveBackupToLive => World {
            target: before.backup,
            backup: Content::Absent,
            ..before
        },
        RestoreAction::OpenLive => World { handle: opened(before.target), ..before },
        RestoreAction::RemoveLive => World { target: Content::Absent, ..before },
        RestoreAction::RemoveCandidate => World { candidate: Content::Absent, ..before },
        RestoreAction::RemoveBackup => World { backup: Content::Absent, ..before },
        RestoreAction::RemoveJournal => World { journal: JournalContent::Absent, ..before },
        _ => before,
    }
}

/// Whether an action can succeed: what it reads must be there.
pub open spec fn can_succeed(action: RestoreAction, before: World) -> bool {
    match action {
        RestoreAction::TakeLive => before.handle !is Closed,
        RestoreAction::MoveLiveToBackup => before.target !is Absent,
        RestoreAction::MoveCandidateToLive => before.candidate !is Absent,
        RestoreAction::MoveBackupToLive => before.backup !is Absent,
        RestoreAction::OpenLive => is_database(before.target),
        RestoreAction::ValidateLive => is_database(before.target),
        _ => true,
    }
}

/// What a failed action may leave: everything as it was, or a part of the file it was writing.
pub open spec fn interrupted(action: RestoreAction, before: World, after: World) -> bool {
    ||| after == before
    ||| action is WriteCandidate && after == World { candidate: Content::Upload, ..before }
    ||| action is WriteJournal && after == World { journal: JournalContent::Partial, ..before }
}

/// Whether `event` and `after` can come of the action in `before`.
pub open spec fn outcome(
    action: RestoreAction,
    event: RestoreEvent,
    before: World,
    after: World,
) -> bool {
    match event {
        RestoreEvent::Done => can_succeed(action, before) && after == performed(action, before),
        RestoreEvent::Files(files) => files == presence(before) && after == before,
        RestoreEvent::Failed { missing, .. } => if missing {
            after == before && match action {
                RestoreAction::RemoveCandidate => before.candidate is Absent,
                RestoreAction::RemoveBackup => before.backup is Absent,
                RestoreAction::RemoveJournal => before.journal is Absent,
                _ => true,
            }
        } else {
            interrupted(action, before, after)
        },
        RestoreEvent::Unavailable => before.handle is Closed && after == before,
        _ => after == before,
    }
}

/// Whether the handle, when it is open, serves the original Database from its place.
pub open spec fn handle_serves_original(world: World) -> bool {
    world.handle is Closed || (world.handle is Original && world.target is Original)
}

/// The original Database stands in the live file or in the backup, and the journal says so where
/// the live file is not the original.
pub open spec fn original_kept(world: World) -> bool {
    &&& handle_serves_original(world)
    &&& world.journal is Prepared ==> {
        ||| world.target is Original && world.backup is Absent
        ||| world.target is Absent && world.backup is Original && world.candidate is Snapshot
        ||| world.target is Absent && world.backup is Original && world.candidate is Absent
        ||| world.target is Snapshot && world.backup is Original && world.candidate is Absent
    }
    &&& world.journal !is Prepared ==> world.target is Original && world.backup is Absent
}

/// The snapshot is installed and served; the original may still stand in the backup, and then the
/// journal says so.
pub open spec fn committed(world: World) -> bool {
    &&& world.target is Snapshot
    &&& world.handle is Snapshot
    &&& world.candidate is Absent
    &&& world.backup is Absent || (world.backup is Original && world.journal is Prepared)
    &&& world.journal !is Partial
}

/// The worlds a replacement may start in: whatever an earlier one left, where no trace of one is
/// left the live file holds the original Database.
pub open spec fn may_start(world: World) -> bool {
    world.journal is Absent && world.backup is Absent ==> world.target is Original
        && handle_serves_original(world)
}

/// Nothing but a stale candidate has changed.
pub open spec fn untouched(start: World, world: World) -> bool {
    &&& world.target == start.target
    &&& world.backup == start.backup
    &&& world.journal == start.journal
    &&& world.handle == start.handle
}

spec fn prepared(world: World) -> bool {
    &&& world.target is Original
    &&& world.candidate is Snapshot
    &&& world.backup is Absent
    &&& world.journal is Prepared
    &&& handle_serves_original(world)
}

spec fn clear_start(world: World) -> bool {
    &&& world.target is Original
    &&& world.backup is Absent
    &&& world.journal is Absent
    &&& handle_serves_original(world)
}

spec fn rolled_back(world: World) -> bool {
    &&& world.target is Original
    &&& world.backup is Absent
    &&& world.candidate is Absent || world.candidate is Snapshot
}

/// What holds at each step of a replacement that started in `start`; `failed` says whether it
/// already holds a failure.
pub closed spec fn restore_invariant(
    step: RestoreStep,
    failed: bool,
    start: World,
    world: World,
) -> bool {
    match step {
        RestoreStep::Preflight | RestoreStep::Recheck => !failed && untouched(start, world),
        RestoreStep::RemoveStale | RestoreStep::SyncStale => !failed && untouched(start, world)
            && world.journal is Absent && world.backup is Absent,
        RestoreStep::WriteCandidate => !failed && clear_start(world) && world.candidate is Absent,
        RestoreStep::OpenCandidate
        | RestoreStep::CheckCandidate
        | RestoreStep::AdoptCandidate
        | RestoreStep::CheckpointCandidate => !failed && clear_start(world)
            && world.candidate is Upload,
        RestoreStep::WriteJournal => !failed && clear_start(world) && world.candidate is Snapshot,
        RestoreStep::SyncPrepared | RestoreStep::TakeLive => !failed && prepared(world),
        RestoreStep::CheckpointLive | RestoreStep::MoveLive => !failed && prepared(world)
            && world.handle is Closed,
        RestoreStep::ReinstateLive | RestoreStep::ReopenUnmoved => failed && prepared(world)
            && world.handle is Closed,
        RestoreStep::SyncMoved | RestoreStep::InstallCandidate => !failed && world.target is Absent
            && world.candidate is Snapshot && world.backup is Original && world.journal is Prepared
            && world.handle is Closed,
        RestoreStep::RestoreAfterInstall => failed && world.target is Absent
            && world.candidate is Snapshot && world.backup is Original && world.journal is Prepared
            && world.handle is Closed,
        RestoreStep::SyncInstalled | RestoreStep::OpenInstalled => !failed
            && world.target is Snapshot && world.candidate is Absent && world.backup is Original
            && world.journal is Prepared && world.handle is Closed,
        RestoreStep::RemoveInstalled => failed && world.target is Snapshot
            && world.candidate is Absent && world.backup is Original && world.journal is Prepared
            && world.handle is Closed,
        RestoreStep::SyncRemoved | RestoreStep::RestoreAfterOpen => failed && world.target is Absent
            && world.candidate is Absent && world.backup is Original && world.journal is Prepared
            && world.handle is Closed,
        RestoreStep::SyncRestored | RestoreStep::ReopenRestored => failed && rolled_back(world)
            && world.journal is Prepared && world.handle is Closed,
        RestoreStep::DiscardCandidate => failed && rolled_back(world) && world.journal is Prepared
            && world.handle is Original,
        RestoreStep::SyncDiscarded | RestoreStep::DiscardJournal => failed && rolled_back(world)
            && world.candidate is Absent && world.journal is Prepared && world.handle is Original,
        RestoreStep::SyncForgotten => failed && rolled_back(world) && world.candidate is Absent
            && world.journal is Absent && world.handle is Original,
        RestoreStep::RemoveBackup => !failed && committed(world) && world.journal is Prepared
            && world.backup is Original,
        RestoreStep::SyncBackupRemoval | RestoreStep::RemoveJournal => !failed && committed(world)
            && world.backup is Absent && world.journal is Prepared,
        RestoreStep::SyncJournalRemoval => !failed && committed(world) && world.backup is Absent
            && world.journal is Absent,
        RestoreStep::RemoveSidecar => !failed && committed(world),
        RestoreStep::Sweep | RestoreStep::SyncSweep => failed && original_kept(world),
        RestoreStep::SweepCandidate => failed && original_kept(world) && world.journal is Absent,
        RestoreStep::Finished => if failed {
            untouched(start, world) || original_kept(world)
        } else {
            committed(world)
        },
    }
}

/// Whether the replacement holds a failure after `event` at `step`.
pub open spec fn fails(step: RestoreStep, event: RestoreEvent, failed: bool) -> bool {
    match step {
        RestoreStep::Preflight => event matches RestoreEvent::Files(files) && stale_files(files)
            is Operator,
        RestoreStep::Recheck => event matches RestoreEvent::Files(files) && (files.candidate
            || files.backup || files.journal),
        RestoreStep::ReinstateLive
        | RestoreStep::RemoveBackup
        | RestoreStep::SyncBackupRemoval
        | RestoreStep::RemoveJournal
        | RestoreStep::SyncJournalRemoval
        | RestoreStep::RemoveSidecar
        | RestoreStep::Sweep
        | RestoreStep::SweepCandidate
        | RestoreStep::SyncSweep
        | RestoreStep::Finished => failed,
        _ => failed || event !is Done,
    }
}

/// `fails` is exactly when the machine holds a failure.
pub proof fn law_failures_are_held(
    step: RestoreStep,
    event: RestoreEvent,
    failure: Option<crate::failure::FailureView>,
)
    requires
        event_fits(step_action(step), event),
        step is Preflight || step is Recheck ==> failure is None,
        step is DiscardCandidate || step is DiscardJournal ==> failure is Some,
    ensures
        crate::restore::next_failure(step, event, failure) is Some == fails(
            step,
            event,
            failure is Some,
        ),
{
}

/// A replacement that may start begins with its invariant.
pub proof fn law_restore_begins(start: World)
    ensures
        restore_invariant(RestoreStep::Preflight, false, start, start),
{
}

/// Every action, whether it succeeds or fails, keeps the invariant of a replacement.
pub proof fn law_restore_keeps_invariant(
    step: RestoreStep,
    event: RestoreEvent,
    failed: bool,
    start: World,
    before: World,
    after: World,
)
    requires
        may_start(start),
        restore_invariant(step, failed, start, before),
        event_fits(step_action(step), event),
        outcome(step_action(step), event, before, after),
    ensures
        restore_invariant(next_step(step, event), fails(step, event, failed), start, after),
{
}

/// At every step of a replacement, and whatever an action that is cut short leaves, the live
/// Database is as it was, or stands in the live file or the backup with a journal that says so,
/// or the snapshot has taken its place and is served.
pub proof fn law_restore_never_loses_the_original(
    step: RestoreStep,
    failed: bool,
    start: World,
    world: World,
    cut: World,
)
    requires
        may_start(start),
        restore_invariant(step, failed, start, world),
        interrupted(step_action(step), world, cut),
    ensures
        untouched(start, cut) || original_kept(cut) || committed(cut),
{
}

/// A replacement that reports success has installed the snapshot and serves it.
pub proof fn law_restore_success_serves_the_snapshot(start: World, world: World)
    requires
        restore_invariant(RestoreStep::Finished, false, start, world),
    ensures
        world.target is Snapshot,
        world.handle is Snapshot,
{
}

/// A replacement that reports a failure leaves the Database as it was, or keeps the original and
/// serves nothing else.
pub proof fn law_restore_failure_serves_the_original(start: World, world: World)
    requires
        restore_invariant(RestoreStep::Finished, true, start, world),
    ensures
        untouched(start, world) || (original_kept(world) && handle_serves_original(world)),
{
}

/// The directory after the process has died: the handle is gone.
pub open spec fn crashed(world: World) -> World {
    World { handle: HandleContent::Closed, ..world }
}

/// The directories from which a recovery puts a Database in place.
pub open spec fn recoverable(world: World) -> bool {
    &&& world.journal !is Partial
    &&& world.journal is Prepared ==> {
        ||| world.target is Original && world.backup is Absent
        ||| world.target is Absent && world.backup is Original && world.candidate is Snapshot
        ||| world.target is Absent && world.backup is Original && world.candidate is Absent
        ||| world.target is Snapshot && world.backup is Original && world.candidate is Absent
        ||| world.target is Snapshot && world.backup is Absent && world.candidate is Absent
    }
    &&& world.journal is Absent ==> is_database(world.target) && world.backup is Absent
}

/// A Database is in place and no trace of a replacement is left.
pub open spec fn recovered(world: World) -> bool {
    &&& is_database(world.target)
    &&& world.candidate is Absent
    &&& world.backup is Absent
    &&& world.journal is Absent
}

/// Whether `event` and `after` can come of a recovery's action in `before`.
pub open spec fn recovery_outcome(
    action: RestoreAction,
    event: RecoveryEvent,
    directory_name: Seq<char>,
    before: World,
    after: World,
) -> bool {
    match event {
        RecoveryEvent::Done => can_succeed(action, before) && after == performed(action, before),
        RecoveryEvent::Files(files) => files == presence(before) && after == before,
        RecoveryEvent::Journal(journal) => {
            &&& after == before
            &&& before.journal is Prepared
            &&& journal_identified(journal, directory_name)
            &&& journal_prepared(journal)
        },
        RecoveryEvent::Malformed(_) => before.journal is Partial && after == before,
        RecoveryEvent::Failed(_) => after == before,
    }
}

spec fn evicted(world: World) -> bool {
    world.target is Absent && world.candidate is Absent && world.backup is Original
        && world.journal is Prepared
}

spec fn installed(world: World) -> bool {
    world.target is Snapshot && world.candidate is Absent && world.backup is Original
        && world.journal is Prepared
}

spec fn in_place(world: World) -> bool {
    is_database(world.target) && world.backup is Absent && world.journal is Prepared
}

/// What holds at each step of a recovery; `failed` says whether it ended with a failure.
pub closed spec fn recovery_invariant(step: RecoveryStep, failed: bool, world: World) -> bool {
    &&& failed ==> step is Finished
    &&& match step {
        RecoveryStep::Preflight => recoverable(world),
        RecoveryStep::RemoveStale => is_database(world.target) && world.backup is Absent
            && world.journal is Absent,
        RecoveryStep::SyncStale => is_database(world.target) && world.backup is Absent
            && world.journal is Absent && world.candidate is Absent,
        RecoveryStep::ReadJournal | RecoveryStep::Classify => recoverable(world)
            && world.journal is Prepared,
        RecoveryStep::DropCandidate => in_place(world) && world.target is Original,
        RecoveryStep::FinishInstall => world.target is Absent && world.candidate is Snapshot
            && world.backup is Original && world.journal is Prepared,
        RecoveryStep::SyncFinished | RecoveryStep::Judge | RecoveryStep::EvictInvalid => installed(
            world,
        ),
        RecoveryStep::SyncEvicted | RecoveryStep::ReinstateBackup | RecoveryStep::RollBack =>
            evicted(world),
        RecoveryStep::SyncReinstated
        | RecoveryStep::JudgeOriginal
        | RecoveryStep::SyncRolledBack => in_place(world) && world.target is Original
            && world.candidate is Absent,
        RecoveryStep::ClearCandidate | RecoveryStep::ClearBackup => (in_place(world) || installed(
            world,
        )) && world.candidate is Absent,
        RecoveryStep::SyncCleared | RecoveryStep::ClearJournal => in_place(world)
            && world.candidate is Absent,
        RecoveryStep::SyncForgotten => recovered(world),
        RecoveryStep::Finished => if failed {
            recoverable(world)
        } else {
            recovered(world)
        },
    }
}

/// Wherever a replacement is interrupted, the next start finds a directory it can recover, unless
/// the journal itself was cut short, and then the live file still holds the original Database.
pub proof fn law_interrupted_restore_is_recoverable(world: World)
    requires
        original_kept(world) || committed(world),
    ensures
        world.journal is Partial ==> world.target is Original,
        world.journal !is Partial ==> recoverable(crashed(world)),
{
}

/// A recovery begins with its invariant.
pub proof fn law_recovery_begins(world: World)
    requires
        recoverable(world),
    ensures
        recovery_invariant(RecoveryStep::Preflight, false, world),
{
}

/// Every action of a recovery, whether it succeeds or fails, keeps its invariant.
pub proof fn law_recovery_keeps_invariant(
    step: RecoveryStep,
    event: RecoveryEvent,
    directory: Seq<char>,
    directory_name: Seq<char>,
    verdict: Seq<char>,
    before: World,
    after: World,
)
    requires
        recovery_invariant(step, false, before),
        recovery_event_fits(recovery_action(step), event),
        recovery_outcome(recovery_action(step), event, directory_name, before, after),
    ensures
        recovery_invariant(
            recovery_next(step, event, directory_name),
            recovery_error(
                step,
                event,
                directory,
                directory_name,
                verdict,
            ) is Some,
            after,
        ),
{
}

/// A recovery that is itself interrupted can be run again.
pub proof fn law_recovery_can_be_repeated(step: RecoveryStep, failed: bool, world: World)
    requires
        recovery_invariant(step, failed, world),
    ensures
        recoverable(world),
{
}

/// A recovery that reports success has put a Database in place and left no trace of the
/// replacement; one that fails has removed nothing that a later recovery needs.
pub proof fn law_recovery_puts_a_database_in_place(failed: bool, world: World)
    requires
        recovery_invariant(RecoveryStep::Finished, failed, world),
    ensures
        !failed ==> recovered(world),
        failed ==> recoverable(world),
{
}

/// Recovery always ends: no step comes twice, for each leads to a later one.
pub open spec fn recovery_rank(step: RecoveryStep) -> nat {
    match step {
        RecoveryStep::Preflight => 21,
        RecoveryStep::RemoveStale => 20,
        RecoveryStep::SyncStale => 19,
        RecoveryStep::ReadJournal => 18,
        RecoveryStep::Classify => 17,
        RecoveryStep::DropCandidate => 16,
        RecoveryStep::FinishInstall => 15,
        RecoveryStep::SyncFinished => 14,
        RecoveryStep::Judge => 13,
        RecoveryStep::EvictInvalid => 12,
        RecoveryStep::SyncEvicted => 11,
        RecoveryStep::ReinstateBackup => 10,
        RecoveryStep::SyncReinstated => 9,
        RecoveryStep::JudgeOriginal => 8,
        RecoveryStep::RollBack => 7,
        RecoveryStep::SyncRolledBack => 6,
        RecoveryStep::ClearCandidate => 5,
        RecoveryStep::ClearBackup => 4,
        RecoveryStep::SyncCleared => 3,
        RecoveryStep::ClearJournal => 2,
        RecoveryStep::SyncForgotten => 1,
        RecoveryStep::Finished => 0,
    }
}

/// A recovery ends after at most as many actions as its first step's rank says.
pub proof fn law_recovery_ends(
    step: RecoveryStep,
    event: RecoveryEvent,
    directory_name: Seq<char>,
)
    requires
        step !is Finished,
        recovery_event_fits(recovery_action(step), event),
    ensures
        recovery_rank(recovery_next(step, event, directory_name)) < recovery_rank(step),
{
}

/// How many actions a replacement can still take.
pub open spec fn restore_rank(step: RestoreStep) -> nat {
    match step {
        RestoreStep::Preflight => 38,
        RestoreStep::RemoveStale => 37,
        RestoreStep::SyncStale => 36,
        RestoreStep::Recheck => 35,
        RestoreStep::WriteCandidate => 34,
        RestoreStep::OpenCandidate => 33,
        RestoreStep::CheckCandidate => 32,
        RestoreStep::AdoptCandidate => 31,
        RestoreStep::CheckpointCandidate => 30,
        RestoreStep::WriteJournal => 29,
        RestoreStep::SyncPrepared => 28,
        RestoreStep::TakeLive => 27,
        RestoreStep::CheckpointLive => 26,
        RestoreStep::ReinstateLive => 25,
        RestoreStep::MoveLive => 24,
        RestoreStep::ReopenUnmoved => 23,
        RestoreStep::SyncMoved => 22,
        RestoreStep::InstallCandidate => 21,
        RestoreStep::SyncInstalled => 20,
        RestoreStep::OpenInstalled => 19,
        RestoreStep::RemoveInstalled => 18,
        RestoreStep::SyncRemoved => 17,
        RestoreStep::RestoreAfterOpen => 16,
        RestoreStep::RestoreAfterInstall => 15,
        RestoreStep::SyncRestored => 14,
        RestoreStep::ReopenRestored => 13,
        RestoreStep::DiscardCandidate => 12,
        RestoreStep::SyncDiscarded => 11,
        RestoreStep::DiscardJournal => 10,
        RestoreStep::SyncForgotten => 9,
        RestoreStep::RemoveBackup => 8,
        RestoreStep::SyncBackupRemoval => 7,
        RestoreStep::RemoveJournal => 6,
        RestoreStep::SyncJournalRemoval => 5,
        RestoreStep::RemoveSidecar => 4,
        RestoreStep::Sweep => 3,
        RestoreStep::SweepCandidate => 2,
        RestoreStep::SyncSweep => 1,
        RestoreStep::Finished => 0,
    }
}

/// A replacement ends: each action leads to a step of lower rank.
pub proof fn law_restore_ends(step: RestoreStep, event: RestoreEvent)
    requires
        step !is Finished,
        event_fits(step_action(step), event),
    ensures
        restore_rank(next_step(step, event)) < restore_rank(step),
{
}

/// One moment of a replacement.
pub struct RestoreMoment {
    /// The step that the replacement stands at.
    pub step: RestoreStep,
    /// Whether it holds a failure.
    pub failed: bool,
    /// The directory and the handle.
    pub world: World,
}

/// Whether `event` leads from one moment of a replacement to the next.
pub open spec fn restore_moves(
    event: RestoreEvent,
    before: RestoreMoment,
    after: RestoreMoment,
) -> bool {
    &&& before.step !is Finished
    &&& event_fits(step_action(before.step), event)
    &&& outcome(step_action(before.step), event, before.world, after.world)
    &&& after.step == next_step(before.step, event)
    &&& after.failed == fails(before.step, event, before.failed)
}

/// Whether `moments` is a replacement that starts in `start` and meets these events.
pub open spec fn is_restore_run(
    start: World,
    events: Seq<RestoreEvent>,
    moments: Seq<RestoreMoment>,
) -> bool {
    &&& moments.len() == events.len() + 1
    &&& moments[0] == RestoreMoment { step: RestoreStep::Preflight, failed: false, world: start }
    &&& forall|i: int|
        0 <= i < events.len() ==> restore_moves(#[trigger] events[i], moments[i], moments[i + 1])
}

proof fn lemma_restore_run(
    start: World,
    events: Seq<RestoreEvent>,
    moments: Seq<RestoreMoment>,
    i: int,
)
    requires
        may_start(start),
        is_restore_run(start, events, moments),
        0 <= i < moments.len(),
    ensures
        restore_invariant(moments[i].step, moments[i].failed, start, moments[i].world),
    decreases i,
{
    if i == 0 {
        law_restore_begins(start);
    } else {
        lemma_restore_run(start, events, moments, i - 1);
        let before = moments[i - 1];
        assert(restore_moves(events[i - 1], before, moments[i]));
        law_restore_keeps_invariant(
            before.step,
            events[i - 1],
            before.failed,
            start,
            before.world,
            moments[i].world,
        );
    }
}

/// Whatever the events of a replacement are, and wherever its action is cut short: the live
/// Database is as it was, or it is kept, or the snapshot has taken its place. A replacement that
/// ends with success serves the snapshot; one that ends with a failure serves nothing but the
/// original.
pub proof fn law_no_restore_loses_the_database(
    start: World,
    events: Seq<RestoreEvent>,
    moments: Seq<RestoreMoment>,
    i: int,
    cut: World,
)
    requires
        may_start(start),
        is_restore_run(start, events, moments),
        0 <= i < moments.len(),
        interrupted(step_action(moments[i].step), moments[i].world, cut),
    ensures
        untouched(start, cut) || original_kept(cut) || committed(cut),
        moments[i].step is Finished && !moments[i].failed ==> moments[i].world.target is Snapshot
            && moments[i].world.handle is Snapshot,
        moments[i].step is Finished && moments[i].failed ==> untouched(start, moments[i].world) || (
        original_kept(moments[i].world) && handle_serves_original(moments[i].world)),
{
    lemma_restore_run(start, events, moments, i);
    law_restore_never_loses_the_original(
        moments[i].step,
        moments[i].failed,
        start,
        moments[i].world,
        cut,
    );
}

/// One moment of a recovery.
pub struct RecoveryMoment {
    /// The step that the recovery stands at.
    pub step: RecoveryStep,
    /// Whether it ended with a failure.
    pub failed: bool,
    /// The directory.
    pub world: World,
}

/// Whether `event` leads from one moment of a recovery to the next.
pub open spec fn recovery_moves(
    event: RecoveryEvent,
    directory_name: Seq<char>,
    before: RecoveryMoment,
    after: RecoveryMoment,
) -> bool {
    &&& before.step !is Finished
    &&& recovery_event_fits(recovery_action(before.step), event)
    &&& recovery_outcome(
        recovery_action(before.step),
        event,
        directory_name,
        before.world,
        after.world,
    )
    &&& after.step == recovery_next(before.step, event, directory_name)
    &&& after.failed == recovery_error(
        before.step,
        event,
        Seq::empty(),
        directory_name,
        Seq::empty(),
    ) is Some
}

/// Whether `moments` is a recovery of `world` that meets these events.
pub open spec fn is_recovery_run(
    world: World,
    directory_name: Seq<char>,
    events: Seq<RecoveryEvent>,
    moments: Seq<RecoveryMoment>,
) -> bool {
    &&& moments.len() == events.len() + 1
    &&& moments[0] == RecoveryMoment { step: RecoveryStep::Preflight, failed: false, world }
    &&& forall|i: int|
        0 <= i < events.len() ==> recovery_moves(
            #[trigger] events[i],
            directory_name,
            moments[i],
            moments[i + 1],
        )
}

proof fn lemma_recovery_run(
    world: World,
    directory_name: Seq<char>,
    events: Seq<RecoveryEvent>,
    moments: Seq<RecoveryMoment>,
    i: int,
)
    requires
        recoverable(world),
        is_recovery_run(world, directory_name, events, moments),
        0 <= i < moments.len(),
    ensures
        recovery_invariant(moments[i].step, moments[i].failed, moments[i].world),
    decreases i,
{
    if i == 0 {
        law_recovery_begins(world);
    } else {
        lemma_recovery_run(world, directory_name, events, moments, i - 1);
        let before = moments[i - 1];
        assert(recovery_moves(events[i - 1], directory_name, before, moments[i]));
        law_recovery_keeps_invariant(
            before.step,
            events[i - 1],
            Seq::empty(),
            directory_name,
            Seq::empty(),
            before.world,
            moments[i].world,
        );
    }
}

/// The process may die at any moment of any replacement of a Database that no earlier replacement
/// left a trace in. Unless the journal itself was cut short, and then the live file is the
/// original Database, whatever the events of the recovery at the next start are: one that succeeds
/// puts a whole Database in place and leaves no trace, and one that fails can be run again.
pub proof fn law_every_interrupted_restore_is_recovered(
    start: World,
    events: Seq<RestoreEvent>,
    moments: Seq<RestoreMoment>,
    i: int,
    cut: World,
    directory_name: Seq<char>,
    recovery_events: Seq<RecoveryEvent>,
    recovery: Seq<RecoveryMoment>,
)
    requires
        start.target is Original,
        start.backup is Absent,
        start.journal is Absent,
        handle_serves_original(start),
        is_restore_run(start, events, moments),
        0 <= i < moments.len(),
        interrupted(step_action(moments[i].step), moments[i].world, cut),
        is_recovery_run(crashed(cut), directory_name, recovery_events, recovery),
    ensures
        cut.journal is Partial ==> cut.target is Original,
        cut.journal !is Partial && recovery.last().step is Finished && !recovery.last().failed
            ==> recovered(recovery.last().world),
        cut.journal !is Partial ==> recoverable(recovery.last().world),
{
    law_no_restore_loses_the_database(start, events, moments, i, cut);
    if untouched(start, cut) {
        assert(recoverable(crashed(cut)));
    } else {
        law_interrupted_restore_is_recoverable(cut);
    }
    if cut.journal !is Partial {
        let last = recovery.len() - 1;
        lemma_recovery_run(crashed(cut), directory_name, recovery_events, recovery, last);
        law_recovery_can_be_repeated(
            recovery.last().step,
            recovery.last().failed,
            recovery.last().world,
        );
        if recovery.last().step is Finished {
            law_recovery_puts_a_database_in_place(recovery.last().failed, recovery.last().world);
        }
    }
}

} // verus!
