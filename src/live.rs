use vstd::prelude::*;
use crate::bus::RecvOutcome;
use crate::types::{Profile, WsEvent};

verus! {

/// Where a live connection stands.
#[derive(Debug, PartialEq, Eq, Structural, Clone, Copy)]
pub enum SyncPhase {
    /// Upgraded; the bus subscription is being made.
    Connecting,
    /// Subscribed; the snapshot of all profiles is being fetched.
    AwaitingSnapshot,
    /// The snapshot went out; live events are forwarded.
    Streaming,
    /// Torn down; nothing more happens.
    Closed,
}

/// What happened on the connection. Bus outcomes are only read while
/// streaming.
pub enum SyncInput {
    /// The connection was upgraded.
    Opened,
    /// The bus subscription is in place.
    Subscribed,
    /// The snapshot of all profiles, as the repository listed them.
    Snapshot(Vec<Profile>),
    /// The snapshot could not be read.
    SnapshotFailed,
    /// What a receive on the subscription gave.
    Bus(RecvOutcome),
    /// One outbound message could not be encoded.
    EncodeFailed,
    /// The client could not be reached.
    SendFailed,
    /// The client asked to close.
    ClientClosed,
    /// Reading from the client failed.
    ClientError,
    /// Any other inbound frame; the protocol ignores it.
    ClientFrame,
}

/// What the connection's driver has to do next.
#[derive(Debug)]
pub enum SyncAction {
    /// Subscribe to the event bus.
    Subscribe,
    /// Fetch the snapshot of all profiles.
    FetchSnapshot,
    /// Send these messages to the client, in order, one frame each.
    Send(Vec<WsEvent>),
    /// Events were dropped for this connection: note it and go on.
    ReportLag(u64),
    /// Nothing to do until the next input.
    Wait,
    /// Tear the connection down.
    Close,
}

/// The messages that carry a snapshot: one per profile, in the snapshot's
/// order, in the form of a live event.
pub open spec fn snapshot_messages(ps: Seq<Profile>) -> Seq<WsEvent> {
    Seq::new(ps.len(), |i: int| WsEvent::ProfileCreated(ps[i]))
}

/// Inputs that end a connection in any phase but `Closed`.
pub open spec fn is_fatal(x: SyncInput) -> bool {
    x is SendFailed || x is ClientClosed || x is ClientError
}

/// The phase after input `x` arrives in phase `p`.
pub open spec fn next_phase(p: SyncPhase, x: SyncInput) -> SyncPhase {
    if p is Closed || is_fatal(x) {
        SyncPhase::Closed
    } else {
        match p {
            SyncPhase::Connecting => if x is Subscribed { SyncPhase::AwaitingSnapshot } else { p },
            SyncPhase::AwaitingSnapshot => if x is Snapshot || x is SnapshotFailed {
                SyncPhase::Streaming
            } else {
                p
            },
            _ => if x matches SyncInput::Bus(RecvOutcome::Closed) { SyncPhase::Closed } else { p },
        }
    }
}

/// Whether `a` is the action owed when input `x` arrives in phase `p`.
pub open spec fn action_for(p: SyncPhase, x: SyncInput, a: SyncAction) -> bool {
    if p is Closed {
        a is Wait
    } else if is_fatal(x) {
        a is Close
    } else {
        match p {
            SyncPhase::Connecting => match x {
                SyncInput::Opened => a is Subscribe,
                SyncInput::Subscribed => a is FetchSnapshot,
                _ => a is Wait,
            },
            SyncPhase::AwaitingSnapshot => match x {
                SyncInput::Snapshot(ps) => a matches SyncAction::Send(v) && v@ == snapshot_messages(ps@),
                SyncInput::SnapshotFailed => a matches SyncAction::Send(v) && v@.len() == 0,
                _ => a is Wait,
            },
            _ => match x {
                SyncInput::Bus(RecvOutcome::Event(e)) => a matches SyncAction::Send(v) && v@ == seq![e],
                SyncInput::Bus(RecvOutcome::Lagged(n)) => a == SyncAction::ReportLag(n),
                SyncInput::Bus(RecvOutcome::Closed) => a is Close,
                _ => a is Wait,
            },
        }
    }
}

/// The protocol driver of one live connection: subscribe, then fetch and
/// send the snapshot, then forward live events until the connection ends.
pub struct LiveSync {
    phase: SyncPhase,
}

/// The snapshot in the form of live events.
pub fn snapshot_events(ps: Vec<Profile>) -> (r: Vec<WsEvent>)
    ensures
        r@ == snapshot_messages(ps@),
{
    let mut out: Vec<WsEvent> = Vec::new();
    let n = ps.len();
    let mut i: usize = 0;
    while i < n
        invariant
            n == ps@.len(),
            0 <= i <= n,
            out@ == snapshot_messages(ps@.take(i as int)),
        decreases n - i,
    {
        out.push(WsEvent::ProfileCreated(ps[i].duplicate()));
        i = i + 1;
        assert(out@ =~= snapshot_messages(ps@.take(i as int)));
    }
    assert(ps@.take(n as int) =~= ps@);
    out
}

impl LiveSync {
    pub closed spec fn spec_phase(&self) -> SyncPhase {
        self.phase
    }

    /// A connection that has just been upgraded.
    pub fn new() -> (r: LiveSync)
        ensures
            r.spec_phase() == SyncPhase::Connecting,
    {
        LiveSync { phase: SyncPhase::Connecting }
    }

    pub fn phase(&self) -> (r: SyncPhase)
        ensures
            r == self.spec_phase(),
    {
        self.phase
    }

    /// Takes one input and says what to do next.
    pub fn step(&mut self, x: SyncInput) -> (a: SyncAction)
        ensures
            final(self).spec_phase() == next_phase(old(self).spec_phase(), x),
            action_for(old(self).spec_phase(), x, a),
    {
        let p = self.phase;
        if p == SyncPhase::Closed {
            return SyncAction::Wait;
        }
        match x {
            SyncInput::SendFailed | SyncInput::ClientClosed | SyncInput::ClientError => {
                self.phase = SyncPhase::Closed;
                SyncAction::Close
            },
            SyncInput::Opened => {
                if p == SyncPhase::Connecting { SyncAction::Subscribe } else { SyncAction::Wait }
            },
            SyncInput::Subscribed => {
                if p == SyncPhase::Connecting {
                    self.phase = SyncPhase::AwaitingSnapshot;
                    SyncAction::FetchSnapshot
                } else {
                    SyncAction::Wait
                }
            },
            SyncInput::Snapshot(ps) => {
                if p == SyncPhase::AwaitingSnapshot {
                    self.phase = SyncPhase::Streaming;
                    SyncAction::Send(snapshot_events(ps))
                } else {
                    SyncAction::Wait
                }
            },
            SyncInput::SnapshotFailed => {
                if p == SyncPhase::AwaitingSnapshot {
                    self.phase = SyncPhase::Streaming;
                    SyncAction::Send(Vec::new())
                } else {
                    SyncAction::Wait
                }
            },
            SyncInput::Bus(o) => {
                if p == SyncPhase::Streaming {
                    match o {
                        RecvOutcome::Event(e) => {
                            let ghost ge = e;
                            let v = vec![e];
                            assert(v@ =~= seq![ge]);
                            SyncAction::Send(v)
                        },
                        RecvOutcome::Lagged(n) => SyncAction::ReportLag(n),
                        RecvOutcome::Empty => SyncAction::Wait,
                        RecvOutcome::Closed => {
                            self.phase = SyncPhase::Closed;
                            SyncAction::Close
                        },
                    }
                } else {
                    SyncAction::Wait
                }
            },
            SyncInput::EncodeFailed | SyncInput::ClientFrame => SyncAction::Wait,
        }
    }
}

} // verus!
