use vstd::prelude::*;
use crate::password::{argon2_accepts, argon2_hash, argon2_phc, argon2_verify, phc_parses, phc_well_formed};
use crate::service::{RepoError, ServiceError};
use crate::types::Profile;

verus! {

/// A failed request, as the client is told of it.
#[derive(Debug)]
pub enum AppError {
    NotFound(String),
    BadRequest(String),
    Unauthorized,
    /// A failure on the server's side; the text is for the log only.
    Internal(String),
}

impl AppError {
    pub open spec fn spec_status_code(&self) -> u16 {
        match self {
            AppError::NotFound(_) => 404,
            AppError::BadRequest(_) => 400,
            AppError::Unauthorized => 401,
            AppError::Internal(_) => 500,
        }
    }

    /// The HTTP status of the response.
    pub fn status_code(&self) -> (r: u16)
        ensures
            r == self.spec_status_code(),
    {
        match self {
            AppError::NotFound(_) => 404,
            AppError::BadRequest(_) => 400,
            AppError::Unauthorized => 401,
            AppError::Internal(_) => 500,
        }
    }

    /// The text the client is shown: the message of a missing resource or a
    /// bad request as it is, and fixed texts otherwise, so that internal
    /// details never reach the client.
    pub fn message(&self) -> (r: String)
        ensures
            self matches AppError::NotFound(m) ==> r@ == m@,
            self matches AppError::BadRequest(m) ==> r@ == m@,
            self is Unauthorized ==> r@ == "Unauthorized"@,
            self is Internal ==> r@ == "Internal server error"@,
    {
        proof {
            reveal_strlit("Unauthorized");
            reveal_strlit("Internal server error");
        }
        match self {
            AppError::NotFound(m) => m.clone(),
            AppError::BadRequest(m) => m.clone(),
            AppError::Unauthorized => "Unauthorized".to_owned(),
            AppError::Internal(_) => "Internal server error".to_owned(),
        }
    }

    /// The answer to a refused profile operation.
    pub fn from_service(e: ServiceError) -> (r: AppError)
        ensures
            e is InvalidInput ==> (r matches AppError::BadRequest(m) && m@ == "All fields are required"@),
            e is Conflict ==> (r matches AppError::BadRequest(m) && m@ == "Profile already exists"@),
            e is StorageFailure ==> r is Internal,
    {
        proof {
            reveal_strlit("All fields are required");
            reveal_strlit("Profile already exists");
        }
        match e {
            ServiceError::InvalidInput => AppError::BadRequest("All fields are required".to_owned()),
            ServiceError::Conflict => AppError::BadRequest("Profile already exists".to_owned()),
            ServiceError::StorageFailure => AppError::Internal("profile storage failed".to_owned()),
        }
    }

    /// The answer to a failed insertion of a user: a taken email is the
    /// client's mistake, anything else the server's.
    pub fn from_user_insert(e: RepoError) -> (r: AppError)
        ensures
            e is UniqueViolation ==> (r matches AppError::BadRequest(m) && m@ == "Email already registered"@),
            e is Storage ==> r is Internal,
    {
        proof {
            reveal_strlit("Email already registered");
        }
        match e {
            RepoError::UniqueViolation => AppError::BadRequest("Email already registered".to_owned()),
            RepoError::Storage => AppError::Internal("user storage failed".to_owned()),
        }
    }
}

/// A sign-up: the account's email and password, and the name its profile
/// starts with.
pub struct RegisterRequest {
    pub email: String,
    pub password: String,
    pub display_name: String,
}

impl RegisterRequest {
    /// The stored hash of the sign-up's password with the B64-encoded salt
    /// `salt`; a hash that cannot be made is the server's fault. The hash
    /// verifies for this password.
    pub fn password_hash(&self, salt: &str) -> (r: Result<String, AppError>)
        ensures
            r is Ok <==> argon2_phc(self.password@, salt@) is Some,
            r matches Ok(h) ==> {
                &&& argon2_phc(self.password@, salt@) == Some(h@)
                &&& phc_well_formed(h@)
                &&& argon2_accepts(self.password@, h@)
            },
            r matches Err(e) ==> e is Internal,
    {
        match argon2_hash(self.password.as_str(), salt) {
            Some(h) => Ok(h),
            None => Err(AppError::Internal("password hashing failed".to_owned())),
        }
    }

    /// Refuses a sign-up with an empty field.
    pub fn validate(&self) -> (r: Result<(), AppError>)
        ensures
            r is Ok <==> (self.email@.len() > 0 && self.password@.len() > 0 && self.display_name@.len() > 0),
            r matches Err(e) ==> (e matches AppError::BadRequest(m) && m@ == "All fields are required"@),
    {
        proof {
            reveal_strlit("All fields are required");
        }
        if self.email.as_str().is_empty() || self.password.as_str().is_empty() || self.display_name.as_str().is_empty() {
            Err(AppError::BadRequest("All fields are required".to_owned()))
        } else {
            Ok(())
        }
    }
}

/// A sign-in with email and password.
pub struct LoginRequest {
    pub email: String,
    pub password: String,
}

/// A stored account.
pub struct UserRow {
    pub id: i64,
    pub email: String,
    pub password_hash: String,
    pub created_at: String,
}

/// The answer to a successful sign-up or sign-in.
pub struct AuthResponse {
    pub user_id: i64,
    pub email: String,
    pub profile: Profile,
}

/// The answer of the health probe.
pub struct HealthResponse {
    pub status: &'static str,
    pub version: &'static str,
}

impl HealthResponse {
    /// A healthy server of the given version.
    pub fn healthy(version: &'static str) -> (r: HealthResponse)
        ensures
            r.status@ == "healthy"@,
            r.version == version,
    {
        proof {
            reveal_strlit("healthy");
        }
        HealthResponse { status: "healthy", version }
    }
}

/// The account that a sign-in names, given what the user lookup returned:
/// an unknown email is refused like a wrong password.
pub fn login_user(found: Result<Option<UserRow>, RepoError>) -> (r: Result<UserRow, AppError>)
    ensures
        found matches Ok(Some(u)) ==> r == Ok::<UserRow, AppError>(u),
        found matches Ok(None) ==> r matches Err(AppError::Unauthorized),
        found is Err ==> r matches Err(AppError::Internal(_)),
{
    match found {
        Ok(Some(u)) => Ok(u),
        Ok(None) => Err(AppError::Unauthorized),
        Err(_) => Err(AppError::Internal("user lookup failed".to_owned())),
    }
}

/// Checks a sign-in's password against the account's stored hash. A stored
/// hash that is not a PHC string is the server's fault.
pub fn check_password(user: &UserRow, password: &str) -> (r: Result<bool, AppError>)
    ensures
        r is Err <==> !phc_well_formed(user.password_hash@),
        r matches Err(e) ==> e is Internal,
        r matches Ok(b) ==> b == argon2_accepts(password@, user.password_hash@),
{
    let phc = user.password_hash.as_str();
    if !phc_parses(phc) {
        return Err(AppError::Internal("invalid password hash".to_owned()));
    }
    Ok(argon2_verify(password, phc))
}

/// The answer to a sign-in once the password was checked against the stored
/// hash and the account's profile was read.
pub fn login_response(
    user: UserRow,
    password_ok: bool,
    profile: Result<Option<Profile>, ServiceError>,
) -> (r: Result<AuthResponse, AppError>)
    ensures
        !password_ok ==> r matches Err(AppError::Unauthorized),
        password_ok && profile is Err ==> r matches Err(AppError::Internal(_)),
        password_ok ==> (profile matches Ok(None) ==> r matches Err(AppError::Internal(_))),
        password_ok ==> (profile matches Ok(Some(p)) ==> (r matches Ok(a) && a.user_id == user.id
            && a.email == user.email && a.profile == p)),
{
    if !password_ok {
        return Err(AppError::Unauthorized);
    }
    match profile {
        Ok(Some(p)) => Ok(AuthResponse { user_id: user.id, email: user.email, profile: p }),
        Ok(None) => Err(AppError::Internal("profile not found".to_owned())),
        Err(_) => Err(AppError::Internal("profile lookup failed".to_owned())),
    }
}

/// Whether the signed-in user may change `profile`: there must be a
/// session, the profile must exist, and it must be the user's own.
pub fn authorize_update(
    session_user: Option<i64>,
    profile: Result<Option<Profile>, ServiceError>,
) -> (r: Result<Profile, AppError>)
    ensures
        session_user is None ==> r matches Err(AppError::Unauthorized),
        session_user is Some && profile is Err ==> r matches Err(AppError::Internal(_)),
        session_user is Some ==> (profile matches Ok(None) ==> (r matches Err(AppError::NotFound(m))
            && m@ == "Profile not found"@)),
        session_user matches Some(u) ==> profile matches Ok(Some(p)) ==> if p.user_id == u {
            r == Ok::<Profile, AppError>(p)
        } else {
            r matches Err(AppError::Unauthorized)
        },
{
    proof {
        reveal_strlit("Profile not found");
    }
    let u = match session_user {
        Some(u) => u,
        None => return Err(AppError::Unauthorized),
    };
    match profile {
        Err(_) => Err(AppError::Internal("profile lookup failed".to_owned())),
        Ok(None) => Err(AppError::NotFound("Profile not found".to_owned())),
        Ok(Some(p)) => if p.user_id == u { Ok(p) } else { Err(AppError::Unauthorized) },
    }
}

/// A read that must find its record: absence is a missing resource.
pub fn require_found(found: Result<Option<Profile>, ServiceError>) -> (r: Result<Profile, AppError>)
    ensures
        found matches Ok(Some(p)) ==> r == Ok::<Profile, AppError>(p),
        found matches Ok(None) ==> (r matches Err(AppError::NotFound(m)) && m@ == "Profile not found"@),
        found is Err ==> r matches Err(AppError::Internal(_)),
{
    proof {
        reveal_strlit("Profile not found");
    }
    match found {
        Ok(Some(p)) => Ok(p),
        Ok(None) => Err(AppError::NotFound("Profile not found".to_owned())),
        Err(_) => Err(AppError::Internal("profile lookup failed".to_owned())),
    }
}

} // verus!
