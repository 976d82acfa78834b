use runh_delete::delete::{
    advance_deletion, begin_deletion, Action, DeletionError, Event, NetworkFault, Notice,
    Outcome, RecordCheck, Stage, Status,
};
use runh_delete::netns::{
    advance_network_reset, begin_network_reset, NetAction, NetEvent, NetStage, ParsedRecord,
};

struct Env {
    kill_ok: bool,
    record: RecordCheck,
    overlay: bool,
    unmount_ok: bool,
    network: Option<NetworkFault>,
    remove_ok: bool,
}

fn healthy() -> Env {
    Env {
        kill_ok: true,
        record: RecordCheck::Valid,
        overlay: true,
        unmount_ok: true,
        network: None,
        remove_ok: true,
    }
}

fn answer(env: &Env, action: Action) -> Event {
    match action {
        Action::Kill => Event::Killed(env.kill_ok),
        Action::ReadRecord => Event::Record(env.record),
        Action::ProbeOverlay => Event::Overlay(env.overlay),
        Action::Unmount => Event::Unmounted(env.unmount_ok),
        Action::ResetNetwork => Event::NetworkReset(env.network),
        Action::RemoveDir => Event::Removed(env.remove_ok),
        Action::Finish(_) => panic!("a finished deletion takes no event"),
    }
}

fn drive(status: Status, force: bool, env: &Env) -> (Vec<Action>, Vec<Notice>) {
    let mut actions = Vec::new();
    let mut notices = Vec::new();
    let mut t = begin_deletion(status, force);
    loop {
        actions.push(t.action);
        if let Some(n) = t.notice {
            notices.push(n);
        }
        if let Action::Finish(_) = t.action {
            return (actions, notices);
        }
        t = advance_deletion(t.stage, answer(env, t.action));
    }
}

fn full_cleanup() -> Vec<Action> {
    vec![
        Action::ReadRecord,
        Action::ProbeOverlay,
        Action::Unmount,
        Action::ResetNetwork,
        Action::RemoveDir,
        Action::Finish(Outcome::Deleted),
    ]
}

#[test]
fn status_strings_are_read() {
    assert_eq!(Status::from_status_str("stopped"), Status::Stopped);
    assert_eq!(Status::from_status_str("creating"), Status::Creating);
    assert_eq!(Status::from_status_str("running"), Status::Running);
    assert_eq!(Status::from_status_str("paused"), Status::Running);
    assert_eq!(Status::from_status_str(""), Status::Running);
    assert_eq!(Status::from_status_str("Stopped"), Status::Running);
    assert_eq!(Status::from_status_str("stopped "), Status::Running);
}

#[test]
fn stopped_container_is_cleaned_up_without_kill() {
    let (actions, notices) = drive(Status::Stopped, false, &healthy());
    assert_eq!(actions, full_cleanup());
    assert!(notices.is_empty());
    let (forced, _) = drive(Status::Stopped, true, &healthy());
    assert_eq!(forced, full_cleanup());
}

#[test]
fn running_container_without_force_is_refused() {
    let (actions, notices) = drive(Status::Running, false, &healthy());
    assert_eq!(actions, vec![Action::Finish(Outcome::Failed(DeletionError::NotStopped))]);
    assert!(notices.is_empty());
}

#[test]
fn creating_container_without_force_is_refused() {
    let (actions, _) = drive(Status::Creating, false, &healthy());
    assert_eq!(actions, vec![Action::Finish(Outcome::Failed(DeletionError::NotStopped))]);
}

#[test]
fn forced_running_container_is_killed_once_then_cleaned_up() {
    for kill_ok in [true, false] {
        let env = Env { kill_ok, ..healthy() };
        let (actions, notices) = drive(Status::Running, true, &env);
        let mut expected = vec![Action::Kill];
        expected.extend(full_cleanup());
        assert_eq!(actions, expected);
        assert_eq!(actions.iter().filter(|a| **a == Action::Kill).count(), 1);
        assert_eq!(notices, vec![Notice::ForceDeletingRunning]);
    }
}

#[test]
fn forced_creating_container_is_cleaned_up_without_kill() {
    let (actions, notices) = drive(Status::Creating, true, &healthy());
    assert_eq!(actions, full_cleanup());
    assert_eq!(notices, vec![Notice::ForceDeletingCreating]);
}

#[test]
fn missing_record_touches_nothing() {
    let env = Env { record: RecordCheck::Missing, ..healthy() };
    let (actions, _) = drive(Status::Stopped, false, &env);
    assert_eq!(actions, vec![Action::ReadRecord, Action::Finish(Outcome::NotFound)]);
    let (forced, _) = drive(Status::Running, true, &env);
    assert_eq!(forced, vec![Action::Kill, Action::ReadRecord, Action::Finish(Outcome::NotFound)]);
}

#[test]
fn malformed_record_touches_nothing() {
    let env = Env { record: RecordCheck::Malformed, ..healthy() };
    let (actions, _) = drive(Status::Stopped, false, &env);
    assert_eq!(actions, vec![Action::ReadRecord, Action::Finish(Outcome::Unreadable)]);
}

#[test]
fn absent_overlay_skips_unmount() {
    let env = Env { overlay: false, unmount_ok: false, ..healthy() };
    let (actions, _) = drive(Status::Stopped, false, &env);
    assert_eq!(
        actions,
        vec![
            Action::ReadRecord,
            Action::ProbeOverlay,
            Action::ResetNetwork,
            Action::RemoveDir,
            Action::Finish(Outcome::Deleted),
        ]
    );
}

#[test]
fn network_failure_still_removes_directory() {
    let env = Env { network: Some(NetworkFault::JoinFailed), ..healthy() };
    let (actions, notices) = drive(Status::Stopped, false, &env);
    assert_eq!(actions, full_cleanup());
    assert_eq!(notices, vec![Notice::NetworkResetFailed(NetworkFault::JoinFailed)]);
}

#[test]
fn unmount_failure_aborts_before_removal() {
    let env = Env { unmount_ok: false, ..healthy() };
    let (actions, _) = drive(Status::Stopped, false, &env);
    assert_eq!(
        actions,
        vec![
            Action::ReadRecord,
            Action::ProbeOverlay,
            Action::Unmount,
            Action::Finish(Outcome::Failed(DeletionError::UnmountFailed)),
        ]
    );
    assert!(!actions.contains(&Action::RemoveDir));
}

#[test]
fn removal_failure_is_fatal() {
    let env = Env { remove_ok: false, ..healthy() };
    let (actions, _) = drive(Status::Stopped, false, &env);
    assert_eq!(actions.last(), Some(&Action::Finish(Outcome::Failed(DeletionError::RemovalFailed))));
}

#[test]
fn unexpected_event_repeats_pending_action() {
    let t = advance_deletion(Stage::Unmounting, Event::Removed(true));
    assert_eq!(t.stage, Stage::Unmounting);
    assert_eq!(t.action, Action::Unmount);
    assert_eq!(t.notice, None);
    let done = Stage::Done(Outcome::Deleted);
    let t = advance_deletion(done, Event::Killed(true));
    assert_eq!(t.stage, done);
    assert_eq!(t.action, Action::Finish(Outcome::Deleted));
}

struct NetEnv {
    present: bool,
    parsed: ParsedRecord,
    join_ok: bool,
    undo_ok: bool,
}

fn net_drive(env: &NetEnv) -> Vec<NetAction> {
    let mut actions = Vec::new();
    let mut t = begin_network_reset();
    loop {
        actions.push(t.action);
        let event = match t.action {
            NetAction::ProbeRecord => NetEvent::Probed(env.present),
            NetAction::ReadRecord => NetEvent::Parsed(env.parsed),
            NetAction::Join => NetEvent::Joined(env.join_ok),
            NetAction::UndoTap => NetEvent::Undone(env.undo_ok),
            NetAction::Finish(_) => return actions,
        };
        t = advance_network_reset(t.stage, event);
    }
}

fn net_ok() -> NetEnv {
    NetEnv { present: true, parsed: ParsedRecord::WithNamespace, join_ok: true, undo_ok: true }
}

#[test]
fn absent_network_record_is_noop() {
    let env = NetEnv { present: false, join_ok: false, undo_ok: false, ..net_ok() };
    assert_eq!(net_drive(&env), vec![NetAction::ProbeRecord, NetAction::Finish(None)]);
}

#[test]
fn network_teardown_joins_then_undoes() {
    assert_eq!(
        net_drive(&net_ok()),
        vec![NetAction::ProbeRecord, NetAction::ReadRecord, NetAction::Join, NetAction::UndoTap, NetAction::Finish(None)]
    );
}

#[test]
fn join_failure_stops_network_teardown() {
    let env = NetEnv { join_ok: false, ..net_ok() };
    assert_eq!(
        net_drive(&env),
        vec![
            NetAction::ProbeRecord,
            NetAction::ReadRecord,
            NetAction::Join,
            NetAction::Finish(Some(NetworkFault::JoinFailed)),
        ]
    );
}

#[test]
fn unreadable_network_record_is_a_fault() {
    let env = NetEnv { parsed: ParsedRecord::Invalid, ..net_ok() };
    assert_eq!(
        net_drive(&env),
        vec![NetAction::ProbeRecord, NetAction::ReadRecord, NetAction::Finish(Some(NetworkFault::UnreadableRecord))]
    );
    let env = NetEnv { parsed: ParsedRecord::NoNamespace, ..net_ok() };
    assert_eq!(net_drive(&env).last(), Some(&NetAction::Finish(Some(NetworkFault::NoNamespace))));
}

#[test]
fn undo_failure_is_a_fault() {
    let env = NetEnv { undo_ok: false, ..net_ok() };
    assert_eq!(net_drive(&env).last(), Some(&NetAction::Finish(Some(NetworkFault::UndoFailed))));
}

#[test]
fn unexpected_network_event_repeats_pending_action() {
    let t = advance_network_reset(NetStage::Joining, NetEvent::Probed(true));
    assert_eq!(t.stage, NetStage::Joining);
    assert_eq!(t.action, NetAction::Join);
}
