use vstd::prelude::*;
use crate::bus::{BusView, EventBus, RecvOutcome};
use crate::types::{Profile, UpdateProfileRequest, WsEvent};

verus! {

/// How many events each subscriber may have pending before the oldest drop.
pub const EVENT_CAPACITY: usize = 100;

/// What the profile repository reported for a failed operation.
#[derive(Debug)]
pub enum RepoError {
    /// A uniqueness constraint refused the write.
    UniqueViolation,
    /// Any other storage failure.
    Storage,
}

/// Why a profile operation was refused.
#[derive(Debug, PartialEq, Eq, Structural)]
pub enum ServiceError {
    /// The request breaks a precondition (an empty display name).
    InvalidInput,
    /// The user already owns a profile.
    Conflict,
    /// The repository failed, or answered with a record of another profile
    /// than the one asked for.
    StorageFailure,
}

/// The answer to a creation, given what the repository did.
pub open spec fn create_outcome(
    user_id: i64,
    display_name: Seq<char>,
    written: Result<Profile, RepoError>,
) -> Result<Profile, ServiceError> {
    if display_name.len() == 0 {
        Err(ServiceError::InvalidInput)
    } else {
        match written {
            Err(RepoError::UniqueViolation) => Err(ServiceError::Conflict),
            Err(RepoError::Storage) => Err(ServiceError::StorageFailure),
            Ok(p) => if p.user_id == user_id {
                Ok(p)
            } else {
                Err(ServiceError::StorageFailure)
            },
        }
    }
}

/// The answer to an update, given what the repository did: for an empty
/// patch the repository only read the record. A record read back after the
/// write may carry other values than the patch when a concurrent update of
/// the same profile committed last; it is still the committed state.
pub open spec fn update_outcome(
    id: i64,
    patch: UpdateProfileRequest,
    written: Result<Option<Profile>, RepoError>,
) -> Result<Option<Profile>, ServiceError> {
    match written {
        Err(_) => Err(ServiceError::StorageFailure),
        Ok(None) => Ok(None),
        Ok(Some(p)) => if p.id == id {
            Ok(Some(p))
        } else {
            Err(ServiceError::StorageFailure)
        },
    }
}

/// Whether an update outcome is a committed change, which is announced.
pub open spec fn update_publishes(
    patch: UpdateProfileRequest,
    r: Result<Option<Profile>, ServiceError>,
) -> bool {
    !patch.spec_is_empty() && r matches Ok(Some(_))
}

/// The answer to a read of one record, given what the repository returned:
/// a record that does not carry the key asked for is a storage failure.
pub open spec fn read_outcome(
    key_matches: spec_fn(Profile) -> bool,
    fetched: Result<Option<Profile>, RepoError>,
) -> Result<Option<Profile>, ServiceError> {
    match fetched {
        Err(_) => Err(ServiceError::StorageFailure),
        Ok(None) => Ok(None),
        Ok(Some(p)) => if key_matches(p) { Ok(Some(p)) } else { Err(ServiceError::StorageFailure) },
    }
}

/// The single path through which profiles are created and updated, and the
/// only publisher of change events: an event goes out after its write has
/// committed, and never for a failed write.
pub struct ProfileService {
    bus: EventBus,
}

impl ProfileService {
    /// The state of the event bus that the service publishes on.
    pub closed spec fn events(&self) -> BusView {
        self.bus@
    }

    pub open spec fn wf(&self) -> bool {
        &&& self.events().valid()
        &&& self.events().capacity == EVENT_CAPACITY
    }

    /// A service whose bus holds up to `EVENT_CAPACITY` pending events per
    /// subscriber, and has no subscribers yet.
    pub fn new() -> (r: ProfileService)
        ensures
            r.wf(),
            r.events().capacity == EVENT_CAPACITY,
            r.events().next_id == 0,
            r.events().queues.len() == 0,
    {
        ProfileService { bus: EventBus::new(EVENT_CAPACITY) }
    }

    /// Registers a live subscriber that sees every event published from now
    /// on; see `EventBus::subscribe`.
    pub fn subscribe_events(&mut self) -> (r: Option<u64>)
        requires
            old(self).wf(),
        ensures
            final(self).wf(),
            old(self).events().next_id == crate::bus::MAX_SKIPPED ==> r is None && final(self).events() == old(self).events(),
            old(self).events().next_id < crate::bus::MAX_SKIPPED ==> {
                &&& r == Some(old(self).events().next_id)
                &&& final(self).events() == (BusView {
                    capacity: old(self).events().capacity,
                    next_id: (old(self).events().next_id + 1) as u64,
                    queues: old(self).events().queues.push(
                        crate::bus::QueueView { id: old(self).events().next_id, pending: Seq::empty(), skipped: 0 },
                    ),
                })
            },
    {
        self.bus.subscribe()
    }

    /// Takes what is next for subscriber `id`; see `EventBus::try_recv`.
    pub fn next_event(&mut self, id: u64) -> (r: RecvOutcome)
        requires
            old(self).wf(),
        ensures
            final(self).wf(),
            final(self).events().capacity == old(self).events().capacity,
            final(self).events().next_id == old(self).events().next_id,
            final(self).events().queues.len() == old(self).events().queues.len(),
            !old(self).events().has(id) ==> r is Closed && final(self).events() == old(self).events(),
            forall|i: int|
                0 <= i < old(self).events().queues.len() && old(self).events().queues[i].id != id
                    ==> final(self).events().queues[i] == old(self).events().queues[i],
            forall|i: int|
                #![trigger old(self).events().queues[i]]
                0 <= i < old(self).events().queues.len() && old(self).events().queues[i].id == id ==> {
                    let q = old(self).events().queues[i];
                    if q.skipped > 0 {
                        &&& r == RecvOutcome::Lagged(q.skipped as u64)
                        &&& final(self).events().queues[i] == crate::bus::QueueView { id, pending: q.pending, skipped: 0 }
                    } else if q.pending.len() == 0 {
                        &&& r is Empty
                        &&& final(self).events().queues[i] == q
                    } else {
                        &&& r == RecvOutcome::Event(q.pending[0])
                        &&& final(self).events().queues[i] == crate::bus::QueueView { id, pending: q.pending.drop_first(), skipped: 0 }
                    }
                },
    {
        self.bus.try_recv(id)
    }

    /// Drops subscriber `id` and what it had pending.
    pub fn unsubscribe_events(&mut self, id: u64)
        requires
            old(self).wf(),
        ensures
            final(self).wf(),
            final(self).events().capacity == old(self).events().capacity,
            final(self).events().next_id == old(self).events().next_id,
            !final(self).events().has(id),
            forall|i: int| 0 <= i < old(self).events().queues.len() && old(self).events().queues[i].id == id
                ==> final(self).events().queues == old(self).events().queues.remove(i),
            !old(self).events().has(id) ==> final(self).events() == old(self).events(),
    {
        self.bus.unsubscribe(id)
    }

    /// Checks a creation before it is written: the display name must not be
    /// empty.
    pub fn validate_create(display_name: &str) -> (r: Result<(), ServiceError>)
        ensures
            r == (if display_name@.len() == 0 { Err(ServiceError::InvalidInput) } else { Ok(()) }),
    {
        if display_name.is_empty() {
            Err(ServiceError::InvalidInput)
        } else {
            Ok(())
        }
    }

    /// Completes the creation of `user_id`'s profile once the repository has
    /// answered with `written`: on success publishes `ProfileCreated` and
    /// returns the record; on any failure publishes nothing.
    pub fn create_profile(
        &mut self,
        user_id: i64,
        display_name: &str,
        written: Result<Profile, RepoError>,
    ) -> (r: Result<Profile, ServiceError>)
        requires
            old(self).wf(),
        ensures
            final(self).wf(),
            r == create_outcome(user_id, display_name@, written),
            r matches Ok(p) ==> final(self).events() == old(self).events().published(WsEvent::ProfileCreated(p)),
            r is Err ==> final(self).events() == old(self).events(),
    {
        if display_name.is_empty() {
            return Err(ServiceError::InvalidInput);
        }
        match written {
            Err(RepoError::UniqueViolation) => Err(ServiceError::Conflict),
            Err(RepoError::Storage) => Err(ServiceError::StorageFailure),
            Ok(p) => {
                if p.user_id == user_id {
                    let e = WsEvent::ProfileCreated(p.duplicate());
                    self.bus.publish(&e);
                    Ok(p)
                } else {
                    Err(ServiceError::StorageFailure)
                }
            },
        }
    }

    /// Completes an update of profile `id` with `patch` once the repository
    /// has answered with `written`. A patch that sets nothing changes
    /// nothing and publishes nothing: the repository only read the record.
    /// A committed change publishes `ProfileUpdated` with the new record; a
    /// missing profile is an absent result, not an error.
    pub fn update_profile(
        &mut self,
        id: i64,
        patch: &UpdateProfileRequest,
        written: Result<Option<Profile>, RepoError>,
    ) -> (r: Result<Option<Profile>, ServiceError>)
        requires
            old(self).wf(),
        ensures
            final(self).wf(),
            r == update_outcome(id, *patch, written),
            update_publishes(*patch, r) ==> final(self).events() == old(self).events().published(
                WsEvent::ProfileUpdated(r->Ok_0->Some_0),
            ),
            !update_publishes(*patch, r) ==> final(self).events() == old(self).events(),
    {
        match written {
            Err(_) => Err(ServiceError::StorageFailure),
            Ok(None) => Ok(None),
            Ok(Some(p)) => {
                if p.id == id {
                    if !patch.is_empty() {
                        let e = WsEvent::ProfileUpdated(p.duplicate());
                        self.bus.publish(&e);
                    }
                    Ok(Some(p))
                } else {
                    Err(ServiceError::StorageFailure)
                }
            },
        }
    }

    /// A read of profile `id`, given what the repository returned. Publishes
    /// nothing.
    pub fn get_profile_by_id(
        &self,
        id: i64,
        fetched: Result<Option<Profile>, RepoError>,
    ) -> (r: Result<Option<Profile>, ServiceError>)
        ensures
            r == read_outcome(|p: Profile| p.id == id, fetched),
    {
        match fetched {
            Err(_) => Err(ServiceError::StorageFailure),
            Ok(None) => Ok(None),
            Ok(Some(p)) => if p.id == id { Ok(Some(p)) } else { Err(ServiceError::StorageFailure) },
        }
    }

    /// A read of the profile that `user_id` owns, given what the repository
    /// returned. Publishes nothing.
    pub fn get_profile_by_user_id(
        &self,
        user_id: i64,
        fetched: Result<Option<Profile>, RepoError>,
    ) -> (r: Result<Option<Profile>, ServiceError>)
        ensures
            r == read_outcome(|p: Profile| p.user_id == user_id, fetched),
    {
        match fetched {
            Err(_) => Err(ServiceError::StorageFailure),
            Ok(None) => Ok(None),
            Ok(Some(p)) => if p.user_id == user_id { Ok(Some(p)) } else { Err(ServiceError::StorageFailure) },
        }
    }

    /// All profiles, given what the repository returned. Publishes nothing.
    pub fn list_profiles(
        &self,
        fetched: Result<Vec<Profile>, RepoError>,
    ) -> (r: Result<Vec<Profile>, ServiceError>)
        ensures
            fetched matches Ok(v) ==> r == Ok::<Vec<Profile>, ServiceError>(v),
            fetched is Err ==> r == Err::<Vec<Profile>, ServiceError>(ServiceError::StorageFailure),
    {
        match fetched {
            Ok(v) => Ok(v),
            Err(_) => Err(ServiceError::StorageFailure),
        }
    }
}

} // verus!
