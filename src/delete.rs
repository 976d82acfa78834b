use crate::netns::{net_outcome, NetWorld, ParsedRecord, lemma_join_failure};
use vstd::prelude::*;

verus! {

/// Lifecycle status of a container, as far as deletion is concerned.
#[derive(Clone, Copy, PartialEq, Eq, Debug)]
pub enum Status {
    /// The container has not finished creation.
    Creating,
    /// The container is stopped.
    Stopped,
    /// Any other status: the container may still run.
    Running,
}

/// The status that a persisted status string stands for.
pub open spec fn status_of(s: Seq<char>) -> Status {
    if s == "stopped"@ {
        Status::Stopped
    } else if s == "creating"@ {
        Status::Creating
    } else {
        Status::Running
    }
}

impl Status {
    /// Reads a persisted status string: `"stopped"`, `"creating"`, and
    /// anything else as running.
    pub fn from_status_str(s: &str) -> (r: Status)
        ensures
            r == status_of(s@),
    {
        let given = s.to_owned();
        if given == "stopped".to_owned() {
            Status::Stopped
        } else if given == "creating".to_owned() {
            Status::Creating
        } else {
            Status::Running
        }
    }
}

/// What reading `container.json` found.
#[derive(Clone, Copy, PartialEq, Eq, Debug)]
pub enum RecordCheck {
    /// The file is absent or cannot be opened.
    Missing,
    /// The file opens but does not hold a valid container descriptor.
    Malformed,
    /// The file holds a valid container descriptor.
    Valid,
}

/// Why the teardown of a network namespace failed.
#[derive(Clone, Copy, PartialEq, Eq, Debug)]
pub enum NetworkFault {
    /// `hermit_network.json` could not be read or parsed.
    UnreadableRecord,
    /// The network record names no namespace.
    NoNamespace,
    /// The namespace could not be opened or joined.
    JoinFailed,
    /// Removing the virtual devices failed.
    UndoFailed,
}

/// A fatal failure of a deletion.
#[derive(Clone, Copy, PartialEq, Eq, Debug)]
pub enum DeletionError {
    /// The container is not stopped and deletion was not forced.
    NotStopped,
    /// The overlay root filesystem could not be unmounted.
    UnmountFailed,
    /// The container directory could not be removed.
    RemovalFailed,
}

/// How a deletion ended.
#[derive(Clone, Copy, PartialEq, Eq, Debug)]
pub enum Outcome {
    /// The container's directory was removed.
    Deleted,
    /// There is no `container.json`: nothing was touched.
    NotFound,
    /// `container.json` is not a valid descriptor: nothing was touched.
    Unreadable,
    /// The deletion failed.
    Failed(DeletionError),
}

/// A warning for the operator.
#[derive(Clone, Copy, PartialEq, Eq, Debug)]
pub enum Notice {
    /// The container still runs and is killed before deletion.
    ForceDeletingRunning,
    /// The container has not finished creation and is deleted anyway.
    ForceDeletingCreating,
    /// Network teardown failed; deletion goes on.
    NetworkResetFailed(NetworkFault),
}

/// Where a deletion stands.
#[derive(Clone, Copy, PartialEq, Eq, Debug)]
pub enum Stage {
    /// Waiting for the kill of the process tree to return.
    Killing,
    /// Waiting for `container.json` to be read.
    ReadingRecord,
    /// Waiting to learn whether `rootfs/merged` exists.
    ProbingOverlay,
    /// Waiting for the lazy unmount of `rootfs/merged`.
    Unmounting,
    /// Waiting for the network namespace teardown.
    ResettingNetwork,
    /// Waiting for the container directory to be removed.
    Removing,
    /// The deletion is over.
    Done(Outcome),
}

/// What the deletion asks of its caller next.
#[derive(Clone, Copy, PartialEq, Eq, Debug)]
pub enum Action {
    /// Send `SIGKILL` to the container's process tree.
    Kill,
    /// Open and parse `container.json`.
    ReadRecord,
    /// Tell whether `rootfs/merged` exists.
    ProbeOverlay,
    /// Unmount `rootfs/merged`, detaching it if busy.
    Unmount,
    /// Tear down the container's network namespace.
    ResetNetwork,
    /// Remove the container directory and everything under it.
    RemoveDir,
    /// Stop: the deletion ended with this outcome.
    Finish(Outcome),
}

/// What the caller reports back after an action.
#[derive(Clone, Copy, PartialEq, Eq, Debug)]
pub enum Event {
    /// The kill returned, successfully or not.
    Killed(bool),
    /// `container.json` was read.
    Record(RecordCheck),
    /// Whether `rootfs/merged` exists.
    Overlay(bool),
    /// Whether the unmount succeeded.
    Unmounted(bool),
    /// The result of the network teardown: `None` on success.
    NetworkReset(Option<NetworkFault>),
    /// Whether the directory removal succeeded.
    Removed(bool),
}

/// One step of a deletion: the stage reached, the action to perform, and a
/// warning to emit, if any.
#[derive(Clone, Copy, PartialEq, Eq, Debug)]
pub struct Transition {
    pub stage: Stage,
    pub action: Action,
    pub notice: Option<Notice>,
}

pub open spec fn move_to(stage: Stage, action: Action) -> Transition {
    Transition { stage, action, notice: None }
}

pub open spec fn finish(outcome: Outcome) -> Transition {
    move_to(Stage::Done(outcome), Action::Finish(outcome))
}

/// The action a stage waits on.
pub open spec fn pending(stage: Stage) -> Action {
    match stage {
        Stage::Killing => Action::Kill,
        Stage::ReadingRecord => Action::ReadRecord,
        Stage::ProbingOverlay => Action::ProbeOverlay,
        Stage::Unmounting => Action::Unmount,
        Stage::ResettingNetwork => Action::ResetNetwork,
        Stage::Removing => Action::RemoveDir,
        Stage::Done(o) => Action::Finish(o),
    }
}

/// The decision taken at entry from the declared status and the force flag.
pub open spec fn begin_spec(status: Status, force: bool) -> Transition {
    match status {
        Status::Stopped => move_to(Stage::ReadingRecord, Action::ReadRecord),
        Status::Running => if force {
            Transition {
                stage: Stage::Killing,
                action: Action::Kill,
                notice: Some(Notice::ForceDeletingRunning),
            }
        } else {
            finish(Outcome::Failed(DeletionError::NotStopped))
        },
        Status::Creating => if force {
            Transition {
                stage: Stage::ReadingRecord,
                action: Action::ReadRecord,
                notice: Some(Notice::ForceDeletingCreating),
            }
        } else {
            finish(Outcome::Failed(DeletionError::NotStopped))
        },
    }
}

/// The step taken on an event. An event that does not answer the stage's
/// pending action leaves the stage as it is and asks for that action again.
pub open spec fn advance_spec(stage: Stage, event: Event) -> Transition {
    match (stage, event) {
        (Stage::Killing, Event::Killed(_)) => move_to(Stage::ReadingRecord, Action::ReadRecord),
        (Stage::ReadingRecord, Event::Record(RecordCheck::Missing)) => finish(Outcome::NotFound),
        (Stage::ReadingRecord, Event::Record(RecordCheck::Malformed)) => finish(
            Outcome::Unreadable,
        ),
        (Stage::ReadingRecord, Event::Record(RecordCheck::Valid)) => move_to(
            Stage::ProbingOverlay,
            Action::ProbeOverlay,
        ),
        (Stage::ProbingOverlay, Event::Overlay(present)) => if present {
            move_to(Stage::Unmounting, Action::Unmount)
        } else {
            move_to(Stage::ResettingNetwork, Action::ResetNetwork)
        },
        (Stage::Unmounting, Event::Unmounted(ok)) => if ok {
            move_to(Stage::ResettingNetwork, Action::ResetNetwork)
        } else {
            finish(Outcome::Failed(DeletionError::UnmountFailed))
        },
        (Stage::ResettingNetwork, Event::NetworkReset(fault)) => Transition {
            stage: Stage::Removing,
            action: Action::RemoveDir,
            notice: match fault {
                Some(f) => Some(Notice::NetworkResetFailed(f)),
                None => None,
            },
        },
        (Stage::Removing, Event::Removed(ok)) => if ok {
            finish(Outcome::Deleted)
        } else {
            finish(Outcome::Failed(DeletionError::RemovalFailed))
        },
        _ => move_to(stage, pending(stage)),
    }
}

/// Starts a deletion: decides from the declared status and the force flag
/// whether it may proceed, and whether the process tree is killed first.
pub fn begin_deletion(status: Status, force: bool) -> (t: Transition)
    ensures
        t == begin_spec(status, force),
{
    match status {
        Status::Stopped => Transition {
            stage: Stage::ReadingRecord,
            action: Action::ReadRecord,
            notice: None,
        },
        Status::Running => {
            if force {
                Transition {
                    stage: Stage::Killing,
                    action: Action::Kill,
                    notice: Some(Notice::ForceDeletingRunning),
                }
            } else {
                let o = Outcome::Failed(DeletionError::NotStopped);
                Transition { stage: Stage::Done(o), action: Action::Finish(o), notice: None }
            }
        },
        Status::Creating => {
            if force {
                Transition {
                    stage: Stage::ReadingRecord,
                    action: Action::ReadRecord,
                    notice: Some(Notice::ForceDeletingCreating),
                }
            } else {
                let o = Outcome::Failed(DeletionError::NotStopped);
                Transition { stage: Stage::Done(o), action: Action::Finish(o), notice: None }
            }
        },
    }
}

fn step_to(stage: Stage, action: Action) -> (t: Transition)
    ensures
        t == move_to(stage, action),
{
    Transition { stage, action, notice: None }
}

fn end_with(outcome: Outcome) -> (t: Transition)
    ensures
        t == finish(outcome),
{
    step_to(Stage::Done(outcome), Action::Finish(outcome))
}

fn pending_action(stage: Stage) -> (a: Action)
    ensures
        a == pending(stage),
{
    match stage {
        Stage::Killing => Action::Kill,
        Stage::ReadingRecord => Action::ReadRecord,
        Stage::ProbingOverlay => Action::ProbeOverlay,
        Stage::Unmounting => Action::Unmount,
        Stage::ResettingNetwork => Action::ResetNetwork,
        Stage::Removing => Action::RemoveDir,
        Stage::Done(o) => Action::Finish(o),
    }
}

/// Moves a deletion on by the event that answers its pending action.
pub fn advance_deletion(stage: Stage, event: Event) -> (t: Transition)
    ensures
        t == advance_spec(stage, event),
{
    match (stage, event) {
        (Stage::Killing, Event::Killed(_)) => step_to(Stage::ReadingRecord, Action::ReadRecord),
        (Stage::ReadingRecord, Event::Record(RecordCheck::Missing)) => end_with(Outcome::NotFound),
        (Stage::ReadingRecord, Event::Record(RecordCheck::Malformed)) => end_with(
            Outcome::Unreadable,
        ),
        (Stage::ReadingRecord, Event::Record(RecordCheck::Valid)) => step_to(
            Stage::ProbingOverlay,
            Action::ProbeOverlay,
        ),
        (Stage::ProbingOverlay, Event::Overlay(present)) => {
            if present {
                step_to(Stage::Unmounting, Action::Unmount)
            } else {
                step_to(Stage::ResettingNetwork, Action::ResetNetwork)
            }
        },
        (Stage::Unmounting, Event::Unmounted(ok)) => {
            if ok {
                step_to(Stage::ResettingNetwork, Action::ResetNetwork)
            } else {
                end_with(Outcome::Failed(DeletionError::UnmountFailed))
            }
        },
        (Stage::ResettingNetwork, Event::NetworkReset(fault)) => {
            let notice = match fault {
                Some(f) => Some(Notice::NetworkResetFailed(f)),
                None => None,
            };
            Transition { stage: Stage::Removing, action: Action::RemoveDir, notice }
        },
        (Stage::Removing, Event::Removed(ok)) => {
            if ok {
                end_with(Outcome::Deleted)
            } else {
                end_with(Outcome::Failed(DeletionError::RemovalFailed))
            }
        },
        _ => step_to(stage, pending_action(stage)),
    }
}

/// What the system would answer to each action of a deletion.
pub struct World {
    /// Whether the kill of the process tree succeeds.
    pub kill_ok: bool,
    /// What reading `container.json` finds.
    pub record: RecordCheck,
    /// Whether `rootfs/merged` exists.
    pub overlay: bool,
    /// Whether unmounting it succeeds.
    pub unmount_ok: bool,
    /// The result of the network teardown: `None` on success.
    pub network: Option<NetworkFault>,
    /// Whether removing the container directory succeeds.
    pub remove_ok: bool,
}

/// The event with which `w` answers `a`.
pub open spec fn respond(w: World, a: Action) -> Event {
    match a {
        Action::Kill => Event::Killed(w.kill_ok),
        Action::ReadRecord => Event::Record(w.record),
        Action::ProbeOverlay => Event::Overlay(w.overlay),
        Action::Unmount => Event::Unmounted(w.unmount_ok),
        Action::ResetNetwork => Event::NetworkReset(w.network),
        _ => Event::Removed(w.remove_ok),
    }
}

/// The actions issued from `t` on, each answered by `w`, up to `Finish` (or
/// until `fuel` runs out).
pub open spec fn actions_after(t: Transition, w: World, fuel: nat) -> Seq<Action>
    decreases fuel,
{
    if t.action is Finish || fuel == 0 {
        seq![t.action]
    } else {
        seq![t.action] + actions_after(advance_spec(t.stage, respond(w, t.action)), w, (fuel - 1) as nat)
    }
}

/// The actions of a whole deletion of a container with the given status and
/// force flag, against `w`.
pub open spec fn trace(status: Status, force: bool, w: World) -> Seq<Action> {
    actions_after(begin_spec(status, force), w, 8)
}

/// Whether an action changes mounts, namespaces or files.
pub open spec fn mutates(a: Action) -> bool {
    a == Action::Unmount || a == Action::ResetNetwork || a == Action::RemoveDir
}

/// Whether a deletion is allowed to go past the entry decision.
pub open spec fn may_proceed(status: Status, force: bool) -> bool {
    status == Status::Stopped || force
}

/// The last steps of a cleanup: network teardown, whatever its result, then
/// removal of the directory.
pub open spec fn removal_steps(w: World) -> Seq<Action> {
    seq![
        Action::ResetNetwork,
        Action::RemoveDir,
        Action::Finish(
            if w.remove_ok {
                Outcome::Deleted
            } else {
                Outcome::Failed(DeletionError::RemovalFailed)
            },
        ),
    ]
}

/// The cleanup sequence: read the record and stop unless it is valid;
/// unmount the overlay if it exists, stopping if that fails; tear down the
/// network; remove the directory.
pub open spec fn cleanup_trace(w: World) -> Seq<Action> {
    match w.record {
        RecordCheck::Missing => seq![Action::ReadRecord, Action::Finish(Outcome::NotFound)],
        RecordCheck::Malformed => seq![Action::ReadRecord, Action::Finish(Outcome::Unreadable)],
        RecordCheck::Valid => if !w.overlay {
            seq![Action::ReadRecord, Action::ProbeOverlay] + removal_steps(w)
        } else if w.unmount_ok {
            seq![Action::ReadRecord, Action::ProbeOverlay, Action::Unmount] + removal_steps(w)
        } else {
            seq![
                Action::ReadRecord,
                Action::ProbeOverlay,
                Action::Unmount,
                Action::Finish(Outcome::Failed(DeletionError::UnmountFailed)),
            ]
        },
    }
}

proof fn lemma_cleanup_runs(w: World)
    ensures
        actions_after(move_to(Stage::ReadingRecord, Action::ReadRecord), w, 7) == cleanup_trace(
            w,
        ),
        actions_after(
            Transition {
                stage: Stage::ReadingRecord,
                action: Action::ReadRecord,
                notice: Some(Notice::ForceDeletingCreating),
            },
            w,
            8,
        ) == cleanup_trace(w),
        actions_after(move_to(Stage::ReadingRecord, Action::ReadRecord), w, 8) == cleanup_trace(
            w,
        ),
{
    reveal_with_fuel(actions_after, 9);
    assert(actions_after(move_to(Stage::ReadingRecord, Action::ReadRecord), w, 7)
        =~= cleanup_trace(w));
    assert(actions_after(move_to(Stage::ReadingRecord, Action::ReadRecord), w, 8)
        =~= cleanup_trace(w));
    assert(actions_after(
        Transition {
            stage: Stage::ReadingRecord,
            action: Action::ReadRecord,
            notice: Some(Notice::ForceDeletingCreating),
        },
        w,
        8,
    ) =~= cleanup_trace(w));
}

/// A deletion runs through the entry decision and then the cleanup: a
/// stopped container is cleaned up directly; a container that is not
/// stopped is refused without force; with force, a running one is killed
/// once first and one still being created is not.
pub proof fn lemma_deletion_runs(status: Status, force: bool, w: World)
    ensures
        status == Status::Stopped ==> trace(status, force, w) == cleanup_trace(w),
        status != Status::Stopped && !force ==> trace(status, force, w) == seq![
            Action::Finish(Outcome::Failed(DeletionError::NotStopped)),
        ],
        status == Status::Running && force ==> trace(status, force, w) == seq![Action::Kill]
            + cleanup_trace(w),
        status == Status::Creating && force ==> trace(status, force, w) == cleanup_trace(w),
{
    lemma_cleanup_runs(w);
    reveal_with_fuel(actions_after, 2);
    if status == Status::Running && force {
        assert(trace(status, force, w) =~= seq![Action::Kill] + cleanup_trace(w));
    }
}

/// Deleting a stopped container performs the cleanup sequence, whatever
/// the force flag, and never kills.
pub proof fn lemma_stopped_never_killed(force: bool, w: World)
    ensures
        trace(Status::Stopped, force, w) == cleanup_trace(w),
        !trace(Status::Stopped, force, w).contains(Action::Kill),
{
    lemma_deletion_runs(Status::Stopped, force, w);
    lemma_cleanup_never_kills(w);
}

proof fn lemma_cleanup_never_kills(w: World)
    ensures
        !cleanup_trace(w).contains(Action::Kill),
{
    let c = cleanup_trace(w);
    assert forall|i: int| 0 <= i < c.len() implies c[i] != Action::Kill by {}
}

/// Without force, a container that is not stopped is refused with
/// `NotStopped`, and nothing is killed, unmounted, torn down or removed.
pub proof fn lemma_refused_without_force(status: Status, w: World)
    requires
        status != Status::Stopped,
    ensures
        trace(status, false, w) == seq![Action::Finish(Outcome::Failed(DeletionError::NotStopped))],
        forall|i: int|
            0 <= i < trace(status, false, w).len() ==> !mutates(#[trigger] trace(status, false, w)[i])
                && trace(status, false, w)[i] != Action::Kill,
{
    lemma_deletion_runs(status, false, w);
}

/// Force-deleting a running container kills its process tree exactly once,
/// first, and then performs the whole cleanup, whether the kill succeeded
/// or not.
pub proof fn lemma_force_running_kills_once(w: World)
    ensures
        trace(Status::Running, true, w) == seq![Action::Kill] + cleanup_trace(w),
        !cleanup_trace(w).contains(Action::Kill),
        trace(Status::Running, true, w) == trace(Status::Running, true, World { kill_ok: !w.kill_ok, ..w }),
{
    lemma_deletion_runs(Status::Running, true, w);
    lemma_deletion_runs(Status::Running, true, World { kill_ok: !w.kill_ok, ..w });
    lemma_cleanup_never_kills(w);
}

/// Force-deleting a container still being created performs the cleanup
/// sequence without killing.
pub proof fn lemma_force_creating_not_killed(w: World)
    ensures
        trace(Status::Creating, true, w) == cleanup_trace(w),
        !trace(Status::Creating, true, w).contains(Action::Kill),
{
    lemma_deletion_runs(Status::Creating, true, w);
    lemma_cleanup_never_kills(w);
}

/// Without `container.json`, a deletion that may proceed reports that the
/// container was not found, and neither unmounts, tears down nor removes
/// anything.
pub proof fn lemma_missing_record_touches_nothing(status: Status, force: bool, w: World)
    requires
        w.record == RecordCheck::Missing,
        may_proceed(status, force),
    ensures
        trace(status, force, w).last() == Action::Finish(Outcome::NotFound),
        forall|i: int|
            0 <= i < trace(status, force, w).len() ==> !mutates(#[trigger] trace(status, force, w)[i]),
{
    lemma_deletion_runs(status, force, w);
}

/// When `rootfs/merged` does not exist, no unmount is attempted and the
/// deletion cannot fail on one.
pub proof fn lemma_no_overlay_no_unmount(status: Status, force: bool, w: World)
    requires
        !w.overlay,
    ensures
        !trace(status, force, w).contains(Action::Unmount),
        trace(status, force, w).last() != Action::Finish(Outcome::Failed(DeletionError::UnmountFailed)),
{
    lemma_deletion_runs(status, force, w);
    let t = trace(status, force, w);
    assert forall|i: int| 0 <= i < t.len() implies t[i] != Action::Unmount by {}
}

/// A failed network teardown does not stop a deletion: once the record is
/// valid and the overlay is out of the way, the directory is removed and
/// the deletion ends as that removal does.
pub proof fn lemma_network_failure_still_removes(status: Status, force: bool, w: World)
    requires
        may_proceed(status, force),
        w.record == RecordCheck::Valid,
        w.network is Some,
        !w.overlay || w.unmount_ok,
    ensures
        trace(status, force, w).contains(Action::RemoveDir),
        trace(status, force, w).last() == Action::Finish(
            if w.remove_ok {
                Outcome::Deleted
            } else {
                Outcome::Failed(DeletionError::RemovalFailed)
            },
        ),
{
    lemma_deletion_runs(status, force, w);
    let t = trace(status, force, w);
    assert(t[t.len() - 2] == Action::RemoveDir);
}

/// In particular, when the network namespace cannot be joined, the
/// directory is still removed.
pub proof fn lemma_join_failure_still_removes(status: Status, force: bool, w: World, n: NetWorld)
    requires
        may_proceed(status, force),
        w.record == RecordCheck::Valid,
        !w.overlay || w.unmount_ok,
        n.present,
        n.parsed == ParsedRecord::WithNamespace,
        !n.join_ok,
        w.network == net_outcome(n),
    ensures
        trace(status, force, w).contains(Action::RemoveDir),
{
    lemma_join_failure(n);
    lemma_network_failure_still_removes(status, force, w);
}

/// When the unmount fails, the deletion fails with `UnmountFailed` and the
/// directory is neither torn down nor removed.
pub proof fn lemma_unmount_failure_aborts(status: Status, force: bool, w: World)
    requires
        may_proceed(status, force),
        w.record == RecordCheck::Valid,
        w.overlay,
        !w.unmount_ok,
    ensures
        trace(status, force, w).last() == Action::Finish(Outcome::Failed(DeletionError::UnmountFailed)),
        !trace(status, force, w).contains(Action::RemoveDir),
        !trace(status, force, w).contains(Action::ResetNetwork),
{
    lemma_deletion_runs(status, force, w);
    let t = trace(status, force, w);
    assert forall|i: int| 0 <= i < t.len() implies t[i] != Action::RemoveDir && t[i] != Action::ResetNetwork by {}
}

} // verus!
