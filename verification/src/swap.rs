//! Replacing the HTTP server's database by a snapshot.
//!
//! The replacement is a machine: it names the next action, the caller performs it and reports what
//! came of it. The candidate is validated before the live database is touched, and the live
//! database stands aside as a backup until the candidate is served.

use vstd::prelude::*;

use crate::catalog::{is_hyphenated_uuid, random_identity};
use crate::durability::{outcome, World};
use crate::http::{api_view, bad_request_view, internal_error_view, ApiError, ApiView};
use crate::restore::{event_text, RestoreAction, RestoreEvent};
use crate::text::join2;

verus! {

/// Where a replacement stands.
#[derive(Clone, Copy, Debug, PartialEq, Eq, Structural)]
pub enum SwapStep {
    /// Write the uploaded bytes.
    WriteCandidate,
    /// Open the candidate.
    OpenCandidate,
    /// Check it.
    CheckCandidate,
    /// Give it server authority.
    AdoptCandidate,
    /// Checkpoint it and close it.
    CheckpointCandidate,
    /// Take the live database.
    TakeLive,
    /// Checkpoint it and close it.
    CheckpointLive,
    /// Set it aside.
    PreserveLive,
    /// Put the candidate in its place.
    Install,
    /// Open the candidate there.
    OpenInstalled,
    /// Remove a candidate that does not open there.
    RemoveInstalled,
    /// Put the live database back.
    PutBack,
    /// Open the live database again.
    Reopen,
    /// Forget the live database that was replaced.
    RemoveBackup,
    /// Remove what is left of the candidate.
    Sweep,
    /// The replacement is over.
    Finished,
}

/// The action that a step asks for.
pub open spec fn swap_action(step: SwapStep) -> RestoreAction {
    match step {
        SwapStep::WriteCandidate => RestoreAction::WriteCandidate,
        SwapStep::OpenCandidate => RestoreAction::OpenCandidate,
        SwapStep::CheckCandidate => RestoreAction::CheckCandidate,
        SwapStep::AdoptCandidate => RestoreAction::AdoptCandidate,
        SwapStep::CheckpointCandidate => RestoreAction::CheckpointCandidate,
        SwapStep::TakeLive => RestoreAction::TakeLive,
        SwapStep::CheckpointLive => RestoreAction::CheckpointLive,
        SwapStep::PreserveLive => RestoreAction::MoveLiveToBackup,
        SwapStep::Install => RestoreAction::MoveCandidateToLive,
        SwapStep::OpenInstalled => RestoreAction::OpenLive,
        SwapStep::RemoveInstalled => RestoreAction::RemoveLive,
        SwapStep::PutBack => RestoreAction::MoveBackupToLive,
        SwapStep::Reopen => RestoreAction::OpenLive,
        SwapStep::RemoveBackup => RestoreAction::RemoveBackup,
        SwapStep::Sweep => RestoreAction::RemoveCandidate,
        SwapStep::Finished => RestoreAction::Finish,
    }
}

/// The reports that a step can have.
pub open spec fn swap_event_fits(step: SwapStep, event: RestoreEvent) -> bool {
    match step {
        SwapStep::CheckCandidate => event is Done || event is Failed || event is Invalid,
        SwapStep::TakeLive => event is Done || event is Unavailable || event is Poisoned,
        SwapStep::Finished => false,
        _ => event is Done || event is Failed,
    }
}

/// The step that follows `step` after `event`.
pub open spec fn swap_next(step: SwapStep, event: RestoreEvent) -> SwapStep {
    let done = event is Done;
    match step {
        SwapStep::WriteCandidate => if done {
            SwapStep::OpenCandidate
        } else {
            SwapStep::Sweep
        },
        SwapStep::OpenCandidate => if done {
            SwapStep::CheckCandidate
        } else {
            SwapStep::Sweep
        },
        SwapStep::CheckCandidate => if done {
            SwapStep::AdoptCandidate
        } else {
            SwapStep::Sweep
        },
        SwapStep::AdoptCandidate => if done {
            SwapStep::CheckpointCandidate
        } else {
            SwapStep::Sweep
        },
        SwapStep::CheckpointCandidate => if done {
            SwapStep::TakeLive
        } else {
            SwapStep::Sweep
        },
        SwapStep::TakeLive => if done {
            SwapStep::CheckpointLive
        } else {
            SwapStep::Sweep
        },
        SwapStep::CheckpointLive => if done {
            SwapStep::PreserveLive
        } else {
            SwapStep::Sweep
        },
        SwapStep::PreserveLive => if done {
            SwapStep::Install
        } else {
            SwapStep::Reopen
        },
        SwapStep::Install => if done {
            SwapStep::OpenInstalled
        } else {
            SwapStep::PutBack
        },
        SwapStep::OpenInstalled => if done {
            SwapStep::RemoveBackup
        } else {
            SwapStep::RemoveInstalled
        },
        SwapStep::RemoveInstalled => SwapStep::PutBack,
        SwapStep::PutBack => SwapStep::Reopen,
        SwapStep::Reopen => SwapStep::Sweep,
        SwapStep::RemoveBackup => SwapStep::Sweep,
        _ => SwapStep::Finished,
    }
}

/// The failure of a snapshot that cannot be served.
pub open spec fn incompatible_view(message: Seq<char>) -> ApiView {
    api_view(422, "incompatible_snapshot"@, message)
}

/// The failure that a replacement holds after `event` at `step`.
pub open spec fn swap_failure(
    step: SwapStep,
    event: RestoreEvent,
    failure: Option<ApiView>,
) -> Option<ApiView> {
    let text = event_text(event);
    if event is Done {
        failure
    } else {
        match step {
            SwapStep::WriteCandidate => Some(internal_error_view(text)),
            SwapStep::CheckCandidate => if event is Invalid {
                Some(incompatible_view("snapshot integrity check failed"@))
            } else {
                Some(incompatible_view(text))
            },
            SwapStep::OpenCandidate
            | SwapStep::AdoptCandidate
            | SwapStep::CheckpointCandidate
            | SwapStep::CheckpointLive => Some(incompatible_view(text)),
            SwapStep::TakeLive => if event is Poisoned {
                Some(internal_error_view("database lock is poisoned"@))
            } else {
                Some(internal_error_view("database is temporarily unavailable"@))
            },
            SwapStep::PreserveLive => Some(
                internal_error_view("cannot preserve current snapshot: "@ + text),
            ),
            SwapStep::Install => Some(
                internal_error_view("cannot install compatible snapshot: "@ + text),
            ),
            SwapStep::OpenInstalled => Some(
                internal_error_view("restored snapshot could not reopen: "@ + text),
            ),
            SwapStep::RemoveBackup => Some(
                internal_error_view("snapshot restored but backup cleanup failed: "@ + text),
            ),
            _ => failure,
        }
    }
}

/// What an optional failure says.
pub open spec fn api_failure_view(failure: Option<ApiError>) -> Option<ApiView> {
    match failure {
        Some(failure) => Some(failure@),
        None => None,
    }
}

/// A running replacement.
pub struct SwapMachine {
    /// Where it stands.
    pub step: SwapStep,
    /// The failure that it reports in the end, if any.
    pub failure: Option<ApiError>,
}

/// The endings under which the candidate and the backup stand beside the live database: both carry
/// the same fresh random mark.
pub fn swap_extensions() -> (extensions: (String, String))
    ensures
        exists|mark: Seq<char>| #[trigger]
            is_hyphenated_uuid(mark) && extensions.0@ == "ndb.import-"@ + mark && extensions.1@
                == "ndb.backup-"@ + mark,
{
    let mark = random_identity();
    assert(is_hyphenated_uuid(mark@));
    (join2("ndb.import-", mark.as_str()), join2("ndb.backup-", mark.as_str()))
}

fn report(event: RestoreEvent) -> (text: String)
    ensures
        text@ == event_text(event),
{
    match event {
        RestoreEvent::Failed { message, .. } => message,
        _ => String::new(),
    }
}

fn incompatible(message: &str) -> (error: ApiError)
    ensures
        error@ == incompatible_view(message@),
{
    ApiError::new(422, "incompatible_snapshot", message)
}

/// Admits an upload of `length` bytes.
pub fn check_upload(length: usize) -> (result: Result<(), ApiError>)
    ensures
        result is Ok <==> length > 0,
        result is Err ==> result->Err_0@ == bad_request_view("snapshot body is empty"@),
{
    if length == 0 {
        return Err(ApiError::bad_request("snapshot body is empty"));
    }
    Ok(())
}

impl SwapMachine {
    /// Starts a replacement.
    pub fn start() -> (machine: Self)
        ensures
            machine.step is WriteCandidate,
            machine.failure is None,
    {
        SwapMachine { step: SwapStep::WriteCandidate, failure: None }
    }

    /// The action to perform next.
    pub fn action(&self) -> (action: RestoreAction)
        ensures
            action == swap_action(self.step),
    {
        match self.step {
            SwapStep::WriteCandidate => RestoreAction::WriteCandidate,
            SwapStep::OpenCandidate => RestoreAction::OpenCandidate,
            SwapStep::CheckCandidate => RestoreAction::CheckCandidate,
            SwapStep::AdoptCandidate => RestoreAction::AdoptCandidate,
            SwapStep::CheckpointCandidate => RestoreAction::CheckpointCandidate,
            SwapStep::TakeLive => RestoreAction::TakeLive,
            SwapStep::CheckpointLive => RestoreAction::CheckpointLive,
            SwapStep::PreserveLive => RestoreAction::MoveLiveToBackup,
            SwapStep::Install => RestoreAction::MoveCandidateToLive,
            SwapStep::OpenInstalled => RestoreAction::OpenLive,
            SwapStep::RemoveInstalled => RestoreAction::RemoveLive,
            SwapStep::PutBack => RestoreAction::MoveBackupToLive,
            SwapStep::Reopen => RestoreAction::OpenLive,
            SwapStep::RemoveBackup => RestoreAction::RemoveBackup,
            SwapStep::Sweep => RestoreAction::RemoveCandidate,
            SwapStep::Finished => RestoreAction::Finish,
        }
    }

    fn following(step: SwapStep, done: bool) -> (next: SwapStep)
        ensures
            forall|event: RestoreEvent|
                (event is Done) == done ==> #[trigger] swap_next(step, event) == next,
    {
        match step {
            SwapStep::WriteCandidate => if done {
                SwapStep::OpenCandidate
            } else {
                SwapStep::Sweep
            },
            SwapStep::OpenCandidate => if done {
                SwapStep::CheckCandidate
            } else {
                SwapStep::Sweep
            },
            SwapStep::CheckCandidate => if done {
                SwapStep::AdoptCandidate
            } else {
                SwapStep::Sweep
            },
            SwapStep::AdoptCandidate => if done {
                SwapStep::CheckpointCandidate
            } else {
                SwapStep::Sweep
            },
            SwapStep::CheckpointCandidate => if done {
                SwapStep::TakeLive
            } else {
                SwapStep::Sweep
            },
            SwapStep::TakeLive => if done {
                SwapStep::CheckpointLive
            } else {
                SwapStep::Sweep
            },
            SwapStep::CheckpointLive => if done {
                SwapStep::PreserveLive
            } else {
                SwapStep::Sweep
            },
            SwapStep::PreserveLive => if done {
                SwapStep::Install
            } else {
                SwapStep::Reopen
            },
            SwapStep::Install => if done {
                SwapStep::OpenInstalled
            } else {
                SwapStep::PutBack
            },
            SwapStep::OpenInstalled => if done {
                SwapStep::RemoveBackup
            } else {
                SwapStep::RemoveInstalled
            },
            SwapStep::RemoveInstalled => SwapStep::PutBack,
            SwapStep::PutBack => SwapStep::Reopen,
            SwapStep::Reopen => SwapStep::Sweep,
            SwapStep::RemoveBackup => SwapStep::Sweep,
            _ => SwapStep::Finished,
        }
    }

    fn noted(step: SwapStep, event: RestoreEvent, failure: Option<ApiError>) -> (next: Option<
        ApiError,
    >)
        ensures
            api_failure_view(next) == swap_failure(step, event, api_failure_view(failure)),
    {
        if let RestoreEvent::Done = event {
            return failure;
        }
        match step {
            SwapStep::WriteCandidate => Some(ApiError::internal(report(event).as_str())),
            SwapStep::CheckCandidate => {
                if let RestoreEvent::Invalid = event {
                    return Some(incompatible("snapshot integrity check failed"));
                }
                Some(incompatible(report(event).as_str()))
            },
            SwapStep::OpenCandidate
            | SwapStep::AdoptCandidate
            | SwapStep::CheckpointCandidate
            | SwapStep::CheckpointLive => Some(incompatible(report(event).as_str())),
            SwapStep::TakeLive => {
                if let RestoreEvent::Poisoned = event {
                    return Some(ApiError::internal("database lock is poisoned"));
                }
                Some(ApiError::internal("database is temporarily unavailable"))
            },
            SwapStep::PreserveLive => Some(
                ApiError::internal(
                    join2("cannot preserve current snapshot: ", report(event).as_str()).as_str(),
                ),
            ),
            SwapStep::Install => Some(
                ApiError::internal(
                    join2("cannot install compatible snapshot: ", report(event).as_str()).as_str(),
                ),
            ),
            SwapStep::OpenInstalled => Some(
                ApiError::internal(
                    join2("restored snapshot could not reopen: ", report(event).as_str()).as_str(),
                ),
            ),
            SwapStep::RemoveBackup => Some(
                ApiError::internal(
                    join2(
                        "snapshot restored but backup cleanup failed: ",
                        report(event).as_str(),
                    ).as_str(),
                ),
            ),
            _ => failure,
        }
    }

    /// Takes in what came of the action.
    pub fn advance(&mut self, event: RestoreEvent)
        requires
            swap_event_fits(old(self).step, event),
        ensures
            final(self).step == swap_next(old(self).step, event),
            api_failure_view(final(self).failure) == swap_failure(
                old(self).step,
                event,
                api_failure_view(old(self).failure),
            ),
    {
        let step = self.step;
        let done: bool = matches!(event, RestoreEvent::Done);
        let next = Self::following(step, done);
        proof {
            assert(swap_next(step, event) == next);
        }
        let failure = self.failure.take();
        self.failure = Self::noted(step, event, failure);
        self.step = next;
    }

    /// What the replacement reports once it is over.
    pub fn result(self) -> (result: Result<(), ApiError>)
        requires
            self.step is Finished,
        ensures
            result == (match self.failure {
                Some(failure) => Err::<(), ApiError>(failure),
                None => Ok::<(), ApiError>(()),
            }),
    {
        match self.failure {
            Some(failure) => Err(failure),
            None => Ok(()),
        }
    }
}

/// The database as it was, served or held by whoever held it.
spec fn unchanged(start: World, world: World) -> bool {
    &&& world.target == start.target
    &&& world.backup == start.backup
    &&& world.handle == start.handle
}

spec fn aside(world: World) -> bool {
    world.backup is Original && world.handle is Closed
}

spec fn at_home(world: World) -> bool {
    world.target is Original && (world.handle is Closed || world.handle is Original)
}

spec fn replaced(world: World) -> bool {
    world.target is Snapshot && world.handle is Snapshot
}

/// What holds at each step of a replacement that started in `start`.
pub closed spec fn swap_invariant(
    step: SwapStep,
    failed: bool,
    start: World,
    world: World,
) -> bool {
    match step {
        SwapStep::WriteCandidate => !failed && unchanged(start, world),
        SwapStep::OpenCandidate
        | SwapStep::CheckCandidate
        | SwapStep::AdoptCandidate
        | SwapStep::CheckpointCandidate => !failed && unchanged(start, world)
            && world.candidate is Upload,
        SwapStep::TakeLive => !failed && unchanged(start, world) && world.candidate is Snapshot,
        SwapStep::CheckpointLive | SwapStep::PreserveLive => !failed && world.target is Original
            && world.handle is Closed && world.candidate is Snapshot,
        SwapStep::Install => !failed && aside(world) && world.target is Absent
            && world.candidate is Snapshot,
        SwapStep::OpenInstalled => !failed && aside(world) && world.target is Snapshot,
        SwapStep::RemoveInstalled => failed && aside(world),
        SwapStep::PutBack => failed && aside(world),
        SwapStep::Reopen => failed && world.handle is Closed && (world.target is Original
            || world.backup is Original),
        SwapStep::RemoveBackup => !failed && replaced(world),
        SwapStep::Sweep | SwapStep::Finished => if failed {
            unchanged(start, world) || at_home(world) || world.backup is Original || replaced(world)
        } else {
            replaced(world)
        },
    }
}

/// A replacement starts with its invariant.
pub proof fn law_swap_begins(start: World)
    ensures
        swap_invariant(SwapStep::WriteCandidate, false, start, start),
{
}

/// Every action, whether it succeeds or fails, keeps the invariant of a replacement.
pub proof fn law_swap_keeps_invariant(
    step: SwapStep,
    event: RestoreEvent,
    failure: Option<ApiView>,
    start: World,
    before: World,
    after: World,
)
    requires
        start.target is Original,
        start.handle is Original || start.handle is Closed,
        swap_invariant(step, failure is Some, start, before),
        swap_event_fits(step, event),
        outcome(swap_action(step), event, before, after),
    ensures
        swap_invariant(
            swap_next(step, event),
            swap_failure(step, event, failure) is Some,
            start,
            after,
        ),
{
}

/// A replacement that reports success serves the snapshot; one that fails has not lost the
/// database: it is as it was, in its place, set aside as the backup, or replaced by the snapshot
/// that is served.
pub proof fn law_swap_never_loses_the_database(failed: bool, start: World, world: World)
    requires
        start.target is Original,
        swap_invariant(SwapStep::Finished, failed, start, world),
    ensures
        !failed ==> world.target is Snapshot && world.handle is Snapshot,
        failed ==> world.target is Original || world.backup is Original || (world.target is Snapshot
            && world.handle is Snapshot),
{
}

/// Whether the live database has not been touched at a step.
pub open spec fn before_take(step: SwapStep) -> bool {
    match step {
        SwapStep::WriteCandidate
        | SwapStep::OpenCandidate
        | SwapStep::CheckCandidate
        | SwapStep::AdoptCandidate
        | SwapStep::CheckpointCandidate => true,
        _ => false,
    }
}

/// An incompatible or corrupt upload leaves the live database untouched: until the candidate has
/// passed every check no action changes the live file, its backup or its handle, and a failure
/// leads straight to the removal of the candidate.
pub proof fn law_bad_uploads_leave_the_database_untouched(
    step: SwapStep,
    event: RestoreEvent,
    before: World,
    after: World,
)
    requires
        before_take(step),
        swap_event_fits(step, event),
        outcome(swap_action(step), event, before, after),
    ensures
        after.target == before.target,
        after.backup == before.backup,
        after.handle == before.handle,
        !(event is Done) ==> swap_next(step, event) is Sweep,
{
}

/// One moment of a replacement.
pub struct SwapMoment {
    /// The step that the replacement stands at.
    pub step: SwapStep,
    /// The failure that it holds, if any.
    pub failure: Option<ApiView>,
    /// The files and the handle.
    pub world: World,
}

/// Whether `event` leads from one moment of a replacement to the next.
pub open spec fn swap_moves(event: RestoreEvent, before: SwapMoment, after: SwapMoment) -> bool {
    &&& swap_event_fits(before.step, event)
    &&& outcome(swap_action(before.step), event, before.world, after.world)
    &&& after.step == swap_next(before.step, event)
    &&& after.failure == swap_failure(before.step, event, before.failure)
}

/// Whether `moments` is a replacement that starts in `start` and meets these events.
pub open spec fn is_swap_run(
    start: World,
    events: Seq<RestoreEvent>,
    moments: Seq<SwapMoment>,
) -> bool {
    &&& moments.len() == events.len() + 1
    &&& moments[0] == SwapMoment { step: SwapStep::WriteCandidate, failure: None, world: start }
    &&& forall|i: int|
        0 <= i < events.len() ==> swap_moves(#[trigger] events[i], moments[i], moments[i + 1])
}

proof fn lemma_swap_run(
    start: World,
    events: Seq<RestoreEvent>,
    moments: Seq<SwapMoment>,
    i: int,
)
    requires
        start.target is Original,
        start.handle is Original || start.handle is Closed,
        is_swap_run(start, events, moments),
        0 <= i < moments.len(),
    ensures
        swap_invariant(moments[i].step, moments[i].failure is Some, start, moments[i].world),
    decreases i,
{
    if i == 0 {
        law_swap_begins(start);
    } else {
        lemma_swap_run(start, events, moments, i - 1);
        let before = moments[i - 1];
        assert(swap_moves(events[i - 1], before, moments[i]));
        law_swap_keeps_invariant(
            before.step,
            events[i - 1],
            before.failure,
            start,
            before.world,
            moments[i].world,
        );
    }
}

/// Whatever the events of a replacement are, at every moment the original database stands in its
/// place or in the backup, or the snapshot has taken its place and is served.
pub proof fn law_no_swap_loses_the_database(
    start: World,
    events: Seq<RestoreEvent>,
    moments: Seq<SwapMoment>,
    i: int,
)
    requires
        start.target is Original,
        start.handle is Original || start.handle is Closed,
        is_swap_run(start, events, moments),
        0 <= i < moments.len(),
    ensures
        moments[i].world.target is Original || moments[i].world.backup is Original || (
        moments[i].world.target is Snapshot && moments[i].world.handle is Snapshot),
        moments[i].step is Finished && moments[i].failure is None ==> moments[i].world.handle
            is Snapshot,
{
    lemma_swap_run(start, events, moments, i);
}

/// Each step of a replacement is reached only in one way: the live database is taken only once the
/// candidate was written, opened, checked, adopted and checkpointed, it is moved only once it was
/// checkpointed itself, its backup goes only once the installed candidate was opened, and every
/// other end puts back what was moved and opens it. The candidate is swept away in every case.
pub proof fn law_swap_steps_follow_their_cause(step: SwapStep, event: RestoreEvent)
    requires
        step !is Finished,
        swap_event_fits(step, event),
    ensures
        match swap_next(step, event) {
            SwapStep::WriteCandidate => false,
            SwapStep::OpenCandidate => step is WriteCandidate && event is Done,
            SwapStep::CheckCandidate => step is OpenCandidate && event is Done,
            SwapStep::AdoptCandidate => step is CheckCandidate && event is Done,
            SwapStep::CheckpointCandidate => step is AdoptCandidate && event is Done,
            SwapStep::TakeLive => step is CheckpointCandidate && event is Done,
            SwapStep::CheckpointLive => step is TakeLive && event is Done,
            SwapStep::PreserveLive => step is CheckpointLive && event is Done,
            SwapStep::Install => step is PreserveLive && event is Done,
            SwapStep::OpenInstalled => step is Install && event is Done,
            SwapStep::RemoveInstalled => step is OpenInstalled && event !is Done,
            SwapStep::PutBack => {
                ||| step is Install && event !is Done
                ||| step is RemoveInstalled
            },
            SwapStep::Reopen => {
                ||| step is PreserveLive && event !is Done
                ||| step is PutBack
            },
            SwapStep::RemoveBackup => step is OpenInstalled && event is Done,
            SwapStep::Sweep => {
                ||| (step is WriteCandidate || step is OpenCandidate || step is CheckCandidate || step is AdoptCandidate || step is CheckpointCandidate || step is TakeLive || step is CheckpointLive) && event !is Done
                ||| step is Reopen || step is RemoveBackup
            },
            SwapStep::Finished => step is Sweep,
        },
{
}

/// Each action is that of the step that is named for it.
pub proof fn law_swap_actions_belong_to_their_steps(step: SwapStep)
    ensures
        match swap_action(step) {
            RestoreAction::WriteCandidate => step is WriteCandidate,
            RestoreAction::OpenCandidate => step is OpenCandidate,
            RestoreAction::CheckCandidate => step is CheckCandidate,
            RestoreAction::AdoptCandidate => step is AdoptCandidate,
            RestoreAction::CheckpointCandidate => step is CheckpointCandidate,
            RestoreAction::TakeLive => step is TakeLive,
            RestoreAction::CheckpointLive => step is CheckpointLive,
            RestoreAction::MoveLiveToBackup => step is PreserveLive,
            RestoreAction::MoveCandidateToLive => step is Install,
            RestoreAction::OpenLive => step is OpenInstalled || step is Reopen,
            RestoreAction::RemoveLive => step is RemoveInstalled,
            RestoreAction::MoveBackupToLive => step is PutBack,
            RestoreAction::RemoveBackup => step is RemoveBackup,
            RestoreAction::RemoveCandidate => step is Sweep,
            RestoreAction::Finish => step is Finished,
            _ => false,
        },
{
}

/// A replacement that fails says why: a candidate, or a live database, that the engine refuses is
/// unprocessable, all else is the server's failure. What the system said is told. What fails while
/// the live database is put back changes nothing of it.
pub proof fn law_swap_failures_tell_their_cause(
    step: SwapStep,
    event: RestoreEvent,
    failure: Option<ApiView>,
)
    requires
        step !is Finished,
        swap_event_fits(step, event),
    ensures
        event is Done ==> swap_failure(step, event, failure) == failure,
        step is RemoveInstalled || step is PutBack || step is Reopen || step is Sweep
            ==> swap_failure(step, event, failure) == failure,
        !(event is Done || step is RemoveInstalled || step is PutBack || step is Reopen || step
            is Sweep) ==> (swap_failure(step, event, failure) matches Some(told) && {
            let refused = step is OpenCandidate || step is CheckCandidate || step is AdoptCandidate
                || step is CheckpointCandidate || step is CheckpointLive;
            &&& refused ==> told.status == 422 && told.code == "incompatible_snapshot"@
            &&& !refused ==> told.status == 500 && told.code == "internal_error"@
            &&& event matches RestoreEvent::Failed { message, .. } ==> message@.is_suffix_of(
                told.message,
            )
            &&& event matches RestoreEvent::Failed { message, .. } ==> (refused || step
                is WriteCandidate ==> told.message == message@)
            &&& event is Invalid ==> told.message == "snapshot integrity check failed"@
            &&& event is Poisoned ==> told.message == "database lock is poisoned"@
            &&& event is Unavailable ==> told.message == "database is temporarily unavailable"@
        }),
{
}

/// What a failed replacement says is what could not be done, in the system's words.
pub proof fn law_swap_failures_say_what_failed(
    step: SwapStep,
    event: RestoreEvent,
    failure: Option<ApiView>,
)
    requires
        swap_event_fits(step, event),
        event is Failed,
    ensures
        step is PreserveLive ==> (swap_failure(step, event, failure) matches Some(told)
            && told.message == "cannot preserve current snapshot: "@ + event->message@),
        step is Install ==> (swap_failure(step, event, failure) matches Some(told) && told.message
            == "cannot install compatible snapshot: "@ + event->message@),
        step is OpenInstalled ==> (swap_failure(step, event, failure) matches Some(told)
            && told.message == "restored snapshot could not reopen: "@ + event->message@),
        step is RemoveBackup ==> (swap_failure(step, event, failure) matches Some(told)
            && told.message == "snapshot restored but backup cleanup failed: "@ + event->message@),
{
}

/// A failure that is kept is seen as it is, and one that is not there is not seen.
pub proof fn law_kept_swap_failures_are_seen(failure: Option<ApiError>)
    ensures
        failure is None <==> api_failure_view(failure) is None,
        failure matches Some(kept) ==> api_failure_view(failure) == Some(kept@),
{
}

/// Each step of a swap reports that it was done or what stopped it, in the ways that it can be
/// stopped, and a finished swap takes no report.
pub proof fn law_swap_steps_report_their_outcome(step: SwapStep, event: RestoreEvent)
    ensures
        swap_event_fits(step, event) <==> match event {
            RestoreEvent::Done => step !is Finished,
            RestoreEvent::Invalid => step is CheckCandidate,
            RestoreEvent::Unavailable => step is TakeLive,
            RestoreEvent::Poisoned => step is TakeLive,
            RestoreEvent::Failed { message: _, missing: _ } => step !is TakeLive && step !is Finished,
            RestoreEvent::Refused(_) => false,
            RestoreEvent::Files(_) => false,
        },
{
}

} // verus!
