use profile_sync::bus::RecvOutcome;
use profile_sync::service::{ProfileService, RepoError, ServiceError};
use profile_sync::types::{Profile, UpdateProfileRequest, WsEvent};

fn record(id: i64, user_id: i64, name: &str, bio: Option<&str>, at: &str) -> Profile {
    Profile {
        id,
        user_id,
        display_name: name.to_string(),
        bio: bio.map(|b| b.to_string()),
        updated_at: at.to_string(),
    }
}

fn expect_event(o: RecvOutcome) -> WsEvent {
    match o {
        RecvOutcome::Event(e) => e,
        other => panic!("expected an event, got {:?}", other),
    }
}

#[test]
fn register_then_update_bio_reaches_connected_client() {
    let mut svc = ProfileService::new();
    let client = svc.subscribe_events().unwrap();

    let created = svc
        .create_profile(1, "Alice", Ok(record(1, 1, "Alice", None, "2024-05-01 10:00:00")))
        .unwrap();
    assert_eq!(created.id, 1);
    let first = expect_event(svc.next_event(client));
    assert!(first.is_created());
    assert_eq!(first.wire_type(), "Profile");
    assert_eq!(first.profile().display_name, "Alice");

    let patch = UpdateProfileRequest { display_name: None, bio: Some("hi".to_string()) };
    let written = Ok(Some(record(1, 1, "Alice", Some("hi"), "2024-05-01 10:00:05")));
    let updated = svc.update_profile(1, &patch, written).unwrap().unwrap();
    assert_eq!(updated.bio.as_deref(), Some("hi"));
    let second = expect_event(svc.next_event(client));
    assert!(!second.is_created());
    assert_eq!(second.profile().bio.as_deref(), Some("hi"));
    assert!(second.profile().updated_at > first.profile().updated_at);
    assert!(matches!(svc.next_event(client), RecvOutcome::Empty));
}

#[test]
fn duplicate_profile_is_conflict_and_silent() {
    let mut svc = ProfileService::new();
    let client = svc.subscribe_events().unwrap();
    let r = svc.create_profile(5, "Bob", Err(RepoError::UniqueViolation));
    assert_eq!(r.unwrap_err(), ServiceError::Conflict);
    assert!(matches!(svc.next_event(client), RecvOutcome::Empty));
}

#[test]
fn storage_failure_on_create_is_reported_and_silent() {
    let mut svc = ProfileService::new();
    let client = svc.subscribe_events().unwrap();
    let r = svc.create_profile(5, "Bob", Err(RepoError::Storage));
    assert_eq!(r.unwrap_err(), ServiceError::StorageFailure);
    let wrong_owner = svc.create_profile(5, "Bob", Ok(record(1, 6, "Bob", None, "t")));
    assert_eq!(wrong_owner.unwrap_err(), ServiceError::StorageFailure);
    assert!(matches!(svc.next_event(client), RecvOutcome::Empty));
}

#[test]
fn empty_display_name_is_refused() {
    assert_eq!(ProfileService::validate_create("").unwrap_err(), ServiceError::InvalidInput);
    assert!(ProfileService::validate_create("Carol").is_ok());
    let mut svc = ProfileService::new();
    let r = svc.create_profile(2, "", Ok(record(1, 2, "", None, "t")));
    assert_eq!(r.unwrap_err(), ServiceError::InvalidInput);
}

#[test]
fn empty_patch_changes_nothing_and_is_silent() {
    let mut svc = ProfileService::new();
    let client = svc.subscribe_events().unwrap();
    let patch = UpdateProfileRequest { display_name: None, bio: None };
    assert!(patch.is_empty());
    let current = record(3, 3, "Dan", None, "2024-05-01 09:00:00");
    let r = svc.update_profile(3, &patch, Ok(Some(current))).unwrap().unwrap();
    assert_eq!(r.updated_at, "2024-05-01 09:00:00");
    assert!(matches!(svc.next_event(client), RecvOutcome::Empty));
}

#[test]
fn update_of_missing_profile_is_absent() {
    let mut svc = ProfileService::new();
    let client = svc.subscribe_events().unwrap();
    let patch = UpdateProfileRequest { display_name: Some("Eve".to_string()), bio: None };
    assert!(svc.update_profile(9, &patch, Ok(None)).unwrap().is_none());
    assert_eq!(svc.update_profile(9, &patch, Err(RepoError::Storage)).unwrap_err(), ServiceError::StorageFailure);
    assert!(matches!(svc.next_event(client), RecvOutcome::Empty));
}

#[test]
fn update_overtaken_by_a_concurrent_write_is_still_announced() {
    let mut svc = ProfileService::new();
    let client = svc.subscribe_events().unwrap();
    let patch = UpdateProfileRequest { display_name: Some("New".to_string()), bio: None };
    let last_write_won = Ok(Some(record(4, 4, "Other", None, "t")));
    let r = svc.update_profile(4, &patch, last_write_won).unwrap().unwrap();
    assert_eq!(r.display_name, "Other");
    let e = expect_event(svc.next_event(client));
    assert!(!e.is_created());
    assert_eq!(e.profile().display_name, "Other");
    let other_record = Ok(Some(record(5, 4, "New", None, "t")));
    assert_eq!(svc.update_profile(4, &patch, other_record).unwrap_err(), ServiceError::StorageFailure);
    assert!(matches!(svc.next_event(client), RecvOutcome::Empty));
}

#[test]
fn ending_one_subscription_keeps_the_others() {
    let mut svc = ProfileService::new();
    let a = svc.subscribe_events().unwrap();
    let b = svc.subscribe_events().unwrap();
    svc.create_profile(1, "A", Ok(record(1, 1, "A", None, "t1"))).unwrap();
    svc.unsubscribe_events(a);
    assert!(matches!(svc.next_event(a), RecvOutcome::Closed));
    assert_eq!(expect_event(svc.next_event(b)).profile().id, 1);
}

#[test]
fn every_committed_write_is_one_event() {
    let mut svc = ProfileService::new();
    let client = svc.subscribe_events().unwrap();
    svc.create_profile(1, "A", Ok(record(1, 1, "A", None, "t1"))).unwrap();
    svc.create_profile(2, "B", Ok(record(2, 2, "B", None, "t2"))).unwrap();
    let patch = UpdateProfileRequest { display_name: Some("AA".to_string()), bio: None };
    svc.update_profile(1, &patch, Ok(Some(record(1, 1, "AA", None, "t3")))).unwrap();
    let _ = svc.create_profile(1, "A", Err(RepoError::UniqueViolation));
    let mut seen = 0;
    while let RecvOutcome::Event(_) = svc.next_event(client) {
        seen += 1;
    }
    assert_eq!(seen, 3);
}

#[test]
fn reads_check_the_key() {
    let svc = ProfileService::new();
    let p = svc.get_profile_by_id(1, Ok(Some(record(1, 8, "A", None, "t")))).unwrap().unwrap();
    assert_eq!(p.user_id, 8);
    assert_eq!(svc.get_profile_by_id(2, Ok(Some(record(1, 8, "A", None, "t")))).unwrap_err(), ServiceError::StorageFailure);
    assert!(svc.get_profile_by_user_id(8, Ok(None)).unwrap().is_none());
    assert_eq!(svc.get_profile_by_user_id(8, Ok(Some(record(1, 8, "A", None, "t")))).unwrap().unwrap().id, 1);
    assert_eq!(svc.list_profiles(Ok(vec![record(1, 8, "A", None, "t")])).unwrap().len(), 1);
    assert_eq!(svc.list_profiles(Err(RepoError::Storage)).unwrap_err(), ServiceError::StorageFailure);
}
