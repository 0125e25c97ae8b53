use vstd::prelude::*;
use argon2::password_hash::SaltString;
use argon2::{Argon2, PasswordHash, PasswordHasher, PasswordVerifier};

verus! {

/// Whether `phc` is a password hash in the PHC string format.
pub uninterp spec fn phc_well_formed(phc: Seq<char>) -> bool;

/// Whether Argon2, with the parameters and salt that the PHC string `phc`
/// records, hashes `password` to the output that `phc` records.
pub uninterp spec fn argon2_accepts(password: Seq<char>, phc: Seq<char>) -> bool;

/// The PHC string that Argon2 with default settings makes of `password`
/// and the B64-encoded salt `salt`, if the salt is acceptable.
pub uninterp spec fn argon2_phc(password: Seq<char>, salt: Seq<char>) -> Option<Seq<char>>;

/// Relies on password_hash's `SaltString::from_b64` to read the salt and on
/// argon2's `Argon2::hash_password` (default settings) to hash with it: the
/// outcome depends on the two strings alone, and the PHC string it writes
/// records the parameters and salt that `verify_password` recomputes with.
#[verifier::external_body]
pub(crate) fn argon2_hash(password: &str, salt: &str) -> (r: Option<String>)
    ensures
        r is Some <==> argon2_phc(password@, salt@) is Some,
        r matches Some(h) ==> {
            &&& argon2_phc(password@, salt@) == Some(h@)
            &&& phc_well_formed(h@)
            &&& argon2_accepts(password@, h@)
        },
{
    let salt = SaltString::from_b64(salt).ok()?;
    Argon2::default().hash_password(password.as_bytes(), &salt).ok().map(|h| h.to_string())
}

/// Relies on password_hash's `PasswordHash::new`: whether the stored hash
/// parses as a PHC string depends on the string alone.
#[verifier::external_body]
pub(crate) fn phc_parses(phc: &str) -> (r: bool)
    ensures
        r == phc_well_formed(phc@),
{
    PasswordHash::new(phc).is_ok()
}

/// Relies on argon2's `Argon2::verify_password` (default settings): it
/// recomputes the hash of `password` with the parameters and salt of `phc`
/// and compares the outputs; the answer depends on the two strings alone.
#[verifier::external_body]
pub(crate) fn argon2_verify(password: &str, phc: &str) -> (r: bool)
    requires
        phc_well_formed(phc@),
    ensures
        r == argon2_accepts(password@, phc@),
{
    match PasswordHash::new(phc) {
        Ok(hash) => Argon2::default().verify_password(password.as_bytes(), &hash).is_ok(),
        Err(_) => false,
    }
}

} // verus!
