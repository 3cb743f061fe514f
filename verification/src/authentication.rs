//! Password checks against the stored Argon2 PHC strings.
use vstd::prelude::*;
use vstd::utf8::encode_utf8;

use crate::crypto::{argon2_check, argon2_hash, spec_argon2_check, spec_argon2_hash};

verus! {

/// A user's id with the PHC string of their password, as stored.
pub struct UserCredentials {
    pub id: i64,
    pub phc_string: String,
}

/// Whether the PHC string `phc` accepts `password`.
pub open spec fn password_accepts(phc: Seq<char>, password: Seq<char>) -> bool {
    spec_argon2_check(phc, encode_utf8(password)) == Some(true)
}

/// The user a password check signs in, given the check's outcome
/// (`None`: the stored PHC string does not parse; `Some(ok)`: whether the
/// password matched).
pub fn check_outcome(id: i64, check: Option<bool>) -> (r: Option<i64>)
    ensures
        r == (if check == Some(true) { Some(id) } else { None::<i64> }),
{
    match check {
        Some(true) => Some(id),
        _ => None,
    }
}

/// Check `password` against the stored credentials: the user's id when the
/// password matches the stored PHC string, `None` otherwise (also when the
/// stored string is not a PHC string).
pub fn verify_password_hash(credential: UserCredentials, password: &str) -> (r: Option<i64>)
    ensures
        r == (if password_accepts(credential.phc_string@, password@) {
            Some(credential.id)
        } else {
            None::<i64>
        }),
{
    let check = argon2_check(credential.phc_string.as_str(), password.as_bytes());
    check_outcome(credential.id, check)
}

/// The PHC string to store for a new password, hashed with Argon2 and the
/// given base64 salt; `None` when the salt is refused.  The string it
/// returns accepts that very password.
pub fn hash_new_password(password: &str, salt: &str) -> (r: Option<String>)
    ensures
        r is None <==> spec_argon2_hash(encode_utf8(password@), salt@) is None,
        r matches Some(phc) ==> Some(phc@) == spec_argon2_hash(encode_utf8(password@), salt@),
        r matches Some(phc) ==> password_accepts(phc@, password@),
{
    argon2_hash(password.as_bytes(), salt)
}

} // verus!
