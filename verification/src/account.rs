//! Decisions of the account mutations (login, logout, password change).
//!
//! Each mutation alternates store accesses with decisions; the decisions
//! are the functions here, the accesses are made by the server around them.
use vstd::prelude::*;
use vstd::utf8::encode_utf8;

use crate::authentication::{hash_new_password, password_accepts};
use crate::cookies::{sign_cookie_unchecked, signed_value, verified_value, Cookie, CookieView};
use crate::crypto::{spec_argon2_hash, spec_sha256};
use crate::session::UserCredential;
use crate::startup::{HmacSecret, SessionCookieName};

verus! {

/// Why an account mutation was refused.
#[derive(Clone, Copy, Debug, PartialEq, Eq, Structural)]
pub enum AccountError {
    AlreadyLoggedIn,
    AlreadyLoggedOut,
    NotLoggedIn,
    UserMismatch,
    PasswordHashFailed,
    Unimplemented,
}

impl AccountError {
    pub open spec fn spec_message(self) -> Seq<char> {
        match self {
            AccountError::AlreadyLoggedIn => "Already logged in"@,
            AccountError::AlreadyLoggedOut => "Already logged out"@,
            AccountError::NotLoggedIn => "You must log in first"@,
            AccountError::UserMismatch => "user id does not match session!"@,
            AccountError::PasswordHashFailed => "password hashing failed"@,
            AccountError::Unimplemented => "Unimplemented"@,
        }
    }

    /// The message the client sees.
    pub fn message(&self) -> (m: &'static str)
        ensures
            m@ == self.spec_message(),
    {
        match self {
            AccountError::AlreadyLoggedIn => "Already logged in",
            AccountError::AlreadyLoggedOut => "Already logged out",
            AccountError::NotLoggedIn => "You must log in first",
            AccountError::UserMismatch => "user id does not match session!",
            AccountError::PasswordHashFailed => "password hashing failed",
            AccountError::Unimplemented => "Unimplemented",
        }
    }
}

/// The view of the session cookie set at login.
pub open spec fn session_cookie_view(name: Seq<char>, key: Seq<u8>, session_json: Seq<char>) -> CookieView {
    CookieView {
        name,
        value: signed_value(key, session_json),
        http_only: true,
        secure: true,
        same_site_strict: true,
        expire_now: false,
    }
}

/// The view of the cookie that removes the session cookie.
pub open spec fn removal_cookie_view(name: Seq<char>) -> CookieView {
    CookieView {
        name,
        value: Seq::empty(),
        http_only: true,
        secure: true,
        same_site_strict: true,
        expire_now: true,
    }
}

/// The session cookie set at login: HTTP-only, secure, same-site strict,
/// holding the session's JSON signed with the server key.
pub fn session_cookie(name: &SessionCookieName, session_json: &str, key: &HmacSecret) -> (c: Cookie)
    ensures
        c@ == session_cookie_view(name.0@, encode_utf8(key.0@), session_json@),
        verified_value(encode_utf8(key.0@), c.value@) == Some(session_json@),
{
    let cookie = Cookie {
        name: name.0.clone(),
        value: session_json.to_owned(),
        http_only: true,
        secure: true,
        same_site_strict: true,
        expire_now: false,
    };
    sign_cookie_unchecked(cookie, key.0.as_str().as_bytes())
}

/// The cookie that removes the session cookie: same name and attributes,
/// empty value, expiring at once.
pub fn removal_cookie(name: &SessionCookieName) -> (c: Cookie)
    ensures
        c@ == removal_cookie_view(name.0@),
{
    Cookie {
        name: name.0.clone(),
        value: String::new(),
        http_only: true,
        secure: true,
        same_site_strict: true,
        expire_now: true,
    }
}

/// The removal cookie replaces the session cookie: it has the session
/// cookie's name and attributes, an empty value, and expires at once.
pub proof fn lemma_removal_replaces_session_cookie(name: Seq<char>, key: Seq<u8>, session_json: Seq<char>)
    ensures
        removal_cookie_view(name) == (CookieView {
            value: Seq::empty(),
            expire_now: true,
            ..session_cookie_view(name, key, session_json)
        }),
{
}

/// The next step of a login.
pub enum LoginStep {
    /// Check the submitted user name and password.
    CheckCredentials,
    /// Start a session for this user: set its cookie and store its token.
    IssueSession(i64),
    /// The mutation's answer.
    Finish(Result<bool, AccountError>),
}

/// A login is refused when the request already has a session; otherwise the
/// credentials are checked.
pub fn login_start(cred: &UserCredential) -> (step: LoginStep)
    ensures
        cred.spec_user_id() is Some ==> step == LoginStep::Finish(Err(AccountError::AlreadyLoggedIn)),
        cred.spec_user_id() is None ==> step == LoginStep::CheckCredentials,
{
    if cred.user_id().is_some() {
        LoginStep::Finish(Err(AccountError::AlreadyLoggedIn))
    } else {
        LoginStep::CheckCredentials
    }
}

/// After the credential check: a session for the user it names, or the
/// answer `false` when it named none.
pub fn login_checked(validated: Option<i64>) -> (step: LoginStep)
    ensures
        step == (match validated {
            Some(id) => LoginStep::IssueSession(id),
            None => LoginStep::Finish(Ok(false)),
        }),
{
    match validated {
        Some(id) => LoginStep::IssueSession(id),
        None => LoginStep::Finish(Ok(false)),
    }
}

/// What ending a session takes: the cookie that removes it from the
/// browser, and the stored token to delete for its user.
pub struct SessionRemoval {
    pub cookie: Cookie,
    pub user_id: i64,
    pub token_hash: Vec<u8>,
}

/// End the request's session: refused when there is none.
pub fn invalidate_session(cred: &UserCredential, name: &SessionCookieName) -> (r: Result<SessionRemoval, AccountError>)
    ensures
        cred@ is None ==> r == Err::<SessionRemoval, AccountError>(AccountError::AlreadyLoggedOut),
        cred@ matches Some(s) ==> (r matches Ok(p) && p.user_id == s.user_id
            && p.token_hash@ == spec_sha256(encode_utf8(s.secret))
            && p.cookie@ == removal_cookie_view(name.0@)),
{
    match cred.session() {
        Some(session) => Ok(SessionRemoval {
            cookie: removal_cookie(name),
            user_id: session.user_id,
            token_hash: session.token_hash(),
        }),
        None => Err(AccountError::AlreadyLoggedOut),
    }
}

/// What changing a password takes: the current session's token to delete,
/// and the new PHC string to store for the user.
pub struct PasswordChange {
    pub user_id: i64,
    pub token_hash: Vec<u8>,
    pub new_phc: String,
}

/// A password change needs a session; it is for the session's user.
pub fn change_password_start(cred: &UserCredential) -> (r: Result<i64, AccountError>)
    ensures
        r == (match cred@ {
            Some(s) => Ok(s.user_id),
            None => Err(AccountError::NotLoggedIn),
        }),
{
    match cred.session() {
        Some(session) => Ok(session.user_id),
        None => Err(AccountError::NotLoggedIn),
    }
}

/// After checking the current password (`validated` is the user it signed
/// in, if any): refused unless that is the session's own user; then the
/// session's token is dropped and the new password hashed with `salt`.
pub fn change_password_checked(
    cred: &UserCredential,
    validated: Option<i64>,
    new_password: &str,
    salt: &str,
) -> (r: Result<PasswordChange, AccountError>)
    ensures
        cred@ is None ==> r == Err::<PasswordChange, AccountError>(AccountError::NotLoggedIn),
        cred@ matches Some(s) ==> {
            let hashed = spec_argon2_hash(encode_utf8(new_password@), salt@);
            &&& validated != Some(s.user_id)
                ==> r == Err::<PasswordChange, AccountError>(AccountError::UserMismatch)
            &&& validated == Some(s.user_id) && hashed is None
                ==> r == Err::<PasswordChange, AccountError>(AccountError::PasswordHashFailed)
            &&& validated == Some(s.user_id) && hashed is Some ==> (r matches Ok(c)
                && c.user_id == s.user_id
                && c.token_hash@ == spec_sha256(encode_utf8(s.secret))
                && Some(c.new_phc@) == hashed
                && password_accepts(c.new_phc@, new_password@))
        },
{
    let session = match cred.session() {
        Some(session) => session,
        None => return Err(AccountError::NotLoggedIn),
    };
    match validated {
        Some(id) => {
            if id != session.user_id {
                return Err(AccountError::UserMismatch);
            }
        },
        None => return Err(AccountError::UserMismatch),
    }
    let token_hash = session.token_hash();
    match hash_new_password(new_password, salt) {
        Some(new_phc) => Ok(PasswordChange { user_id: session.user_id, token_hash, new_phc }),
        None => Err(AccountError::PasswordHashFailed),
    }
}

} // verus!
