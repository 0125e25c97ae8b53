use vstd::prelude::*;

verus! {

/// A user's public profile record, as stored and as sent to live clients.
#[derive(Debug)]
pub struct Profile {
    pub id: i64,
    pub user_id: i64,
    pub display_name: String,
    pub bio: Option<String>,
    pub updated_at: String,
}

/// A copy of an optional string that keeps its contents.
pub fn copy_opt_string(s: &Option<String>) -> (r: Option<String>)
    ensures
        r == *s,
{
    match s {
        Some(v) => Some(v.clone()),
        None => None,
    }
}

impl Profile {
    /// A field-by-field copy of the record.
    pub fn duplicate(&self) -> (r: Profile)
        ensures
            r == *self,
    {
        Profile {
            id: self.id,
            user_id: self.user_id,
            display_name: self.display_name.clone(),
            bio: copy_opt_string(&self.bio),
            updated_at: self.updated_at.clone(),
        }
    }
}

/// A change notification: the full record after the write, and whether the
/// write created it or updated it.
#[derive(Debug)]
pub enum WsEvent {
    ProfileUpdated(Profile),
    ProfileCreated(Profile),
}

impl WsEvent {
    pub open spec fn spec_profile(&self) -> Profile {
        match self {
            WsEvent::ProfileUpdated(p) => *p,
            WsEvent::ProfileCreated(p) => *p,
        }
    }

    /// The record the event carries.
    pub fn profile(&self) -> (r: &Profile)
        ensures
            *r == self.spec_profile(),
    {
        match self {
            WsEvent::ProfileUpdated(p) => p,
            WsEvent::ProfileCreated(p) => p,
        }
    }

    /// True for the event of a creation.
    pub fn is_created(&self) -> (r: bool)
        ensures
            r == (self is ProfileCreated),
    {
        match self {
            WsEvent::ProfileUpdated(_) => false,
            WsEvent::ProfileCreated(_) => true,
        }
    }

    /// The type tag of the wire message. Clients upsert by id, so both
    /// kinds travel under the same tag.
    pub fn wire_type(&self) -> (r: &'static str)
        ensures
            r@ == "Profile"@,
    {
        proof { reveal_strlit("Profile"); }
        "Profile"
    }

    /// A copy of the event that keeps its kind and its record.
    pub fn duplicate(&self) -> (r: WsEvent)
        ensures
            r == *self,
    {
        match self {
            WsEvent::ProfileUpdated(p) => WsEvent::ProfileUpdated(p.duplicate()),
            WsEvent::ProfileCreated(p) => WsEvent::ProfileCreated(p.duplicate()),
        }
    }
}

/// A partial update of a profile: each field is changed only when present.
#[derive(Debug)]
pub struct UpdateProfileRequest {
    pub display_name: Option<String>,
    pub bio: Option<String>,
}

impl UpdateProfileRequest {
    pub open spec fn spec_is_empty(&self) -> bool {
        self.display_name is None && self.bio is None
    }

    /// True when the patch changes nothing.
    pub fn is_empty(&self) -> (r: bool)
        ensures
            r == self.spec_is_empty(),
    {
        self.display_name.is_none() && self.bio.is_none()
    }
}

} // verus!
