use profile_sync::bus::RecvOutcome;
use profile_sync::live::{snapshot_events, LiveSync, SyncAction, SyncInput, SyncPhase};
use profile_sync::types::{Profile, WsEvent};

fn profile(id: i64) -> Profile {
    Profile { id, user_id: id, display_name: format!("u{}", id), bio: None, updated_at: "t".to_string() }
}

#[test]
fn subscribes_before_fetching_the_snapshot() {
    let mut s = LiveSync::new();
    assert_eq!(s.phase(), SyncPhase::Connecting);
    assert!(matches!(s.step(SyncInput::Opened), SyncAction::Subscribe));
    assert!(matches!(s.step(SyncInput::Snapshot(vec![profile(1)])), SyncAction::Wait));
    assert_eq!(s.phase(), SyncPhase::Connecting);
    assert!(matches!(s.step(SyncInput::Subscribed), SyncAction::FetchSnapshot));
    assert_eq!(s.phase(), SyncPhase::AwaitingSnapshot);
    match s.step(SyncInput::Snapshot(vec![profile(2), profile(1)])) {
        SyncAction::Send(v) => {
            assert_eq!(v.len(), 2);
            assert!(v.iter().all(|e| e.is_created()));
            assert_eq!(v[0].profile().id, 2);
            assert_eq!(v[1].profile().id, 1);
        }
        other => panic!("expected the snapshot, got {:?}", other),
    }
    assert_eq!(s.phase(), SyncPhase::Streaming);
}

#[test]
fn streams_events_and_survives_lag_and_encoding_errors() {
    let mut s = LiveSync::new();
    s.step(SyncInput::Opened);
    s.step(SyncInput::Subscribed);
    s.step(SyncInput::SnapshotFailed);
    assert_eq!(s.phase(), SyncPhase::Streaming);
    match s.step(SyncInput::Bus(RecvOutcome::Event(WsEvent::ProfileUpdated(profile(3))))) {
        SyncAction::Send(v) => assert_eq!(v[0].profile().id, 3),
        other => panic!("expected a send, got {:?}", other),
    }
    assert!(matches!(s.step(SyncInput::Bus(RecvOutcome::Lagged(4))), SyncAction::ReportLag(4)));
    assert!(matches!(s.step(SyncInput::EncodeFailed), SyncAction::Wait));
    assert!(matches!(s.step(SyncInput::ClientFrame), SyncAction::Wait));
    assert!(matches!(s.step(SyncInput::Bus(RecvOutcome::Empty)), SyncAction::Wait));
    assert_eq!(s.phase(), SyncPhase::Streaming);
}

#[test]
fn failures_close_the_connection() {
    for fatal in [SyncInput::SendFailed, SyncInput::ClientClosed, SyncInput::ClientError] {
        let mut s = LiveSync::new();
        s.step(SyncInput::Opened);
        s.step(SyncInput::Subscribed);
        s.step(SyncInput::Snapshot(vec![]));
        assert!(matches!(s.step(fatal), SyncAction::Close));
        assert_eq!(s.phase(), SyncPhase::Closed);
        assert!(matches!(s.step(SyncInput::Subscribed), SyncAction::Wait));
        assert_eq!(s.phase(), SyncPhase::Closed);
    }
    let mut s = LiveSync::new();
    s.step(SyncInput::Opened);
    s.step(SyncInput::Subscribed);
    s.step(SyncInput::Snapshot(vec![]));
    assert!(matches!(s.step(SyncInput::Bus(RecvOutcome::Closed)), SyncAction::Close));
    assert_eq!(s.phase(), SyncPhase::Closed);
}

#[test]
fn snapshot_messages_keep_order() {
    let v = snapshot_events(vec![profile(5), profile(6), profile(7)]);
    let ids: Vec<i64> = v.iter().map(|e| e.profile().id).collect();
    assert_eq!(ids, vec![5, 6, 7]);
    assert!(snapshot_events(vec![]).is_empty());
}
