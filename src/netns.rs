use crate::delete::NetworkFault;
use vstd::prelude::*;

verus! {

/// What parsing `hermit_network.json` gave.
#[derive(Clone, Copy, PartialEq, Eq, Debug)]
pub enum ParsedRecord {
    /// The file could not be read or is not a network record.
    Invalid,
    /// A network record that names no namespace.
    NoNamespace,
    /// A network record that names the namespace to join.
    WithNamespace,
}

/// Where a network namespace teardown stands.
#[derive(Clone, Copy, PartialEq, Eq, Debug)]
pub enum NetStage {
    /// Waiting to learn whether `hermit_network.json` exists.
    Probing,
    /// Waiting for the network record to be read and parsed.
    Reading,
    /// Waiting for the namespace to be joined.
    Joining,
    /// Waiting for the virtual devices to be removed.
    Undoing,
    /// The teardown is over: `None` on success.
    Done(Option<NetworkFault>),
}

/// What the teardown asks of its caller next.
#[derive(Clone, Copy, PartialEq, Eq, Debug)]
pub enum NetAction {
    /// Tell whether `hermit_network.json` exists.
    ProbeRecord,
    /// Read and parse `hermit_network.json`.
    ReadRecord,
    /// Open the namespace the record names and join it.
    Join,
    /// Remove the virtual devices the record describes.
    UndoTap,
    /// Stop: the teardown ended, with a fault or with `None`.
    Finish(Option<NetworkFault>),
}

/// What the caller reports back after an action.
#[derive(Clone, Copy, PartialEq, Eq, Debug)]
pub enum NetEvent {
    /// Whether `hermit_network.json` exists.
    Probed(bool),
    /// What parsing the record gave.
    Parsed(ParsedRecord),
    /// Whether the namespace was joined.
    Joined(bool),
    /// Whether the devices were removed.
    Undone(bool),
}

/// One step of a teardown: the stage reached and the action to perform.
#[derive(Clone, Copy, PartialEq, Eq, Debug)]
pub struct NetTransition {
    pub stage: NetStage,
    pub action: NetAction,
}

pub open spec fn net_move(stage: NetStage, action: NetAction) -> NetTransition {
    NetTransition { stage, action }
}

pub open spec fn net_finish(fault: Option<NetworkFault>) -> NetTransition {
    net_move(NetStage::Done(fault), NetAction::Finish(fault))
}

/// The action a stage waits on.
pub open spec fn net_pending(stage: NetStage) -> NetAction {
    match stage {
        NetStage::Probing => NetAction::ProbeRecord,
        NetStage::Reading => NetAction::ReadRecord,
        NetStage::Joining => NetAction::Join,
        NetStage::Undoing => NetAction::UndoTap,
        NetStage::Done(f) => NetAction::Finish(f),
    }
}

/// The first step of a teardown.
pub open spec fn net_begin_spec() -> NetTransition {
    net_move(NetStage::Probing, NetAction::ProbeRecord)
}

/// The step taken on an event. An event that does not answer the stage's
/// pending action leaves the stage as it is and asks for that action again.
pub open spec fn net_advance_spec(stage: NetStage, event: NetEvent) -> NetTransition {
    match (stage, event) {
        (NetStage::Probing, NetEvent::Probed(present)) => if present {
            net_move(NetStage::Reading, NetAction::ReadRecord)
        } else {
            net_finish(None)
        },
        (NetStage::Reading, NetEvent::Parsed(parsed)) => match parsed {
            ParsedRecord::Invalid => net_finish(Some(NetworkFault::UnreadableRecord)),
            ParsedRecord::NoNamespace => net_finish(Some(NetworkFault::NoNamespace)),
            ParsedRecord::WithNamespace => net_move(NetStage::Joining, NetAction::Join),
        },
        (NetStage::Joining, NetEvent::Joined(ok)) => if ok {
            net_move(NetStage::Undoing, NetAction::UndoTap)
        } else {
            net_finish(Some(NetworkFault::JoinFailed))
        },
        (NetStage::Undoing, NetEvent::Undone(ok)) => if ok {
            net_finish(None)
        } else {
            net_finish(Some(NetworkFault::UndoFailed))
        },
        _ => net_move(stage, net_pending(stage)),
    }
}

/// Starts a network namespace teardown: first look for the network record.
pub fn begin_network_reset() -> (t: NetTransition)
    ensures
        t == net_begin_spec(),
{
    NetTransition { stage: NetStage::Probing, action: NetAction::ProbeRecord }
}

fn net_end_with(fault: Option<NetworkFault>) -> (t: NetTransition)
    ensures
        t == net_finish(fault),
{
    NetTransition { stage: NetStage::Done(fault), action: NetAction::Finish(fault) }
}

/// Moves a teardown on by the event that answers its pending action.
pub fn advance_network_reset(stage: NetStage, event: NetEvent) -> (t: NetTransition)
    ensures
        t == net_advance_spec(stage, event),
{
    match (stage, event) {
        (NetStage::Probing, NetEvent::Probed(present)) => {
            if present {
                NetTransition { stage: NetStage::Reading, action: NetAction::ReadRecord }
            } else {
                net_end_with(None)
            }
        },
        (NetStage::Reading, NetEvent::Parsed(parsed)) => match parsed {
            ParsedRecord::Invalid => net_end_with(Some(NetworkFault::UnreadableRecord)),
            ParsedRecord::NoNamespace => net_end_with(Some(NetworkFault::NoNamespace)),
            ParsedRecord::WithNamespace => NetTransition {
                stage: NetStage::Joining,
                action: NetAction::Join,
            },
        },
        (NetStage::Joining, NetEvent::Joined(ok)) => {
            if ok {
                NetTransition { stage: NetStage::Undoing, action: NetAction::UndoTap }
            } else {
                net_end_with(Some(NetworkFault::JoinFailed))
            }
        },
        (NetStage::Undoing, NetEvent::Undone(ok)) => {
            if ok {
                net_end_with(None)
            } else {
                net_end_with(Some(NetworkFault::UndoFailed))
            }
        },
        _ => {
            let action = match stage {
                NetStage::Probing => NetAction::ProbeRecord,
                NetStage::Reading => NetAction::ReadRecord,
                NetStage::Joining => NetAction::Join,
                NetStage::Undoing => NetAction::UndoTap,
                NetStage::Done(f) => NetAction::Finish(f),
            };
            NetTransition { stage, action }
        },
    }
}

/// What the system would answer to each action of a teardown.
pub struct NetWorld {
    /// Whether `hermit_network.json` exists.
    pub present: bool,
    /// What parsing it gives.
    pub parsed: ParsedRecord,
    /// Whether joining the namespace succeeds.
    pub join_ok: bool,
    /// Whether removing the devices succeeds.
    pub undo_ok: bool,
}

/// The event with which `w` answers `a`.
pub open spec fn net_respond(w: NetWorld, a: NetAction) -> NetEvent {
    match a {
        NetAction::ProbeRecord => NetEvent::Probed(w.present),
        NetAction::ReadRecord => NetEvent::Parsed(w.parsed),
        NetAction::Join => NetEvent::Joined(w.join_ok),
        _ => NetEvent::Undone(w.undo_ok),
    }
}

/// The actions issued from `t` on, each answered by `w`, up to `Finish` (or
/// until `fuel` runs out).
pub open spec fn net_actions_after(t: NetTransition, w: NetWorld, fuel: nat) -> Seq<NetAction>
    decreases fuel,
{
    if t.action is Finish || fuel == 0 {
        seq![t.action]
    } else {
        seq![t.action] + net_actions_after(
            net_advance_spec(t.stage, net_respond(w, t.action)),
            w,
            (fuel - 1) as nat,
        )
    }
}

/// The actions of a whole teardown against `w`.
pub open spec fn net_trace(w: NetWorld) -> Seq<NetAction> {
    net_actions_after(net_begin_spec(), w, 5)
}

/// How a teardown against `w` ends: `None` on success.
pub open spec fn net_outcome(w: NetWorld) -> Option<NetworkFault> {
    if !w.present {
        None
    } else {
        match w.parsed {
            ParsedRecord::Invalid => Some(NetworkFault::UnreadableRecord),
            ParsedRecord::NoNamespace => Some(NetworkFault::NoNamespace),
            ParsedRecord::WithNamespace => if !w.join_ok {
                Some(NetworkFault::JoinFailed)
            } else if !w.undo_ok {
                Some(NetworkFault::UndoFailed)
            } else {
                None
            },
        }
    }
}

/// The sequence of a teardown, step by step: look for the record; without
/// one, stop; else parse it, join its namespace and remove the devices,
/// stopping at the first failure.
pub open spec fn net_expected(w: NetWorld) -> Seq<NetAction> {
    let f = NetAction::Finish(net_outcome(w));
    if !w.present {
        seq![NetAction::ProbeRecord, f]
    } else if w.parsed != ParsedRecord::WithNamespace {
        seq![NetAction::ProbeRecord, NetAction::ReadRecord, f]
    } else if !w.join_ok {
        seq![NetAction::ProbeRecord, NetAction::ReadRecord, NetAction::Join, f]
    } else {
        seq![NetAction::ProbeRecord, NetAction::ReadRecord, NetAction::Join, NetAction::UndoTap, f]
    }
}

/// Driven step by step, a teardown performs exactly the expected sequence
/// of actions and ends with the expected outcome.
pub proof fn lemma_network_reset_runs(w: NetWorld)
    ensures
        net_trace(w) == net_expected(w),
        net_trace(w).last() == NetAction::Finish(net_outcome(w)),
{
    reveal_with_fuel(net_actions_after, 6);
    assert(net_trace(w) =~= net_expected(w));
}

/// Without a network record, the teardown succeeds and does nothing but
/// look for the record.
pub proof fn lemma_no_record_is_noop(w: NetWorld)
    requires
        !w.present,
    ensures
        net_trace(w) == seq![NetAction::ProbeRecord, NetAction::Finish(None)],
        net_outcome(w) is None,
{
    lemma_network_reset_runs(w);
}

/// When the namespace cannot be joined, the teardown fails with that fault
/// and removes no device.
pub proof fn lemma_join_failure(w: NetWorld)
    requires
        w.present,
        w.parsed == ParsedRecord::WithNamespace,
        !w.join_ok,
    ensures
        net_outcome(w) == Some(NetworkFault::JoinFailed),
        !net_trace(w).contains(NetAction::UndoTap),
{
    lemma_network_reset_runs(w);
    assert(net_trace(w)[0] != NetAction::UndoTap);
    assert(net_trace(w)[1] != NetAction::UndoTap);
    assert(net_trace(w)[2] != NetAction::UndoTap);
    assert(net_trace(w)[3] != NetAction::UndoTap);
}

} // verus!
