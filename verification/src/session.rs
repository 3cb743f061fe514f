//! Sessions: what a signed session cookie carries, how its token is stored,
//! and the credential a request runs with.
use vstd::prelude::*;
use vstd::utf8::encode_utf8;

use crate::cookies::{verified_value, verify_cookie_unchecked, Cookie, CookieView};
use crate::crypto::{sha256_digest, spec_sha256};
use crate::startup::HmacSecret;

verus! {

/// The data stored (as JSON) in the session cookie.
pub struct SessionData {
    pub user_id: i64,
    pub secret: String,
}

pub struct SessionDataView {
    pub user_id: i64,
    pub secret: Seq<char>,
}

impl View for SessionData {
    type V = SessionDataView;

    open spec fn view(&self) -> SessionDataView {
        SessionDataView { user_id: self.user_id, secret: self.secret@ }
    }
}

impl SessionData {
    /// The session token as the session store keeps it: the SHA-256 digest
    /// of the secret's UTF-8 bytes (the secret itself is never stored).
    pub fn token_hash(&self) -> (h: Vec<u8>)
        ensures
            h@ == spec_sha256(encode_utf8(self.secret@)),
            h@.len() == 32,
    {
        sha256_digest(self.secret.as_str().as_bytes())
    }
}

/// The (verified) session cookie of a request, if any.
pub struct SessionCookie(pub Option<Cookie>);

/// The identity a request runs with: a verified session, or anonymous.
pub struct UserCredential(Option<SessionData>);

impl View for UserCredential {
    type V = Option<SessionDataView>;

    closed spec fn view(&self) -> Option<SessionDataView> {
        match self.0 {
            Some(s) => Some(s@),
            None => None,
        }
    }
}

impl UserCredential {
    pub fn new(session: Option<SessionData>) -> (c: Self)
        ensures
            c@ == (match session {
                Some(s) => Some(s@),
                None => None::<SessionDataView>,
            }),
    {
        UserCredential(session)
    }

    /// The credential of a request whose session cookie parsed to
    /// `session`: it names the session only when the session store
    /// confirmed the session (`active`), and is anonymous otherwise.
    pub fn from_verification(session: Option<SessionData>, active: bool) -> (c: Self)
        ensures
            c@ == (match session {
                Some(s) => if active { Some(s@) } else { None },
                None => None::<SessionDataView>,
            }),
    {
        if active {
            UserCredential::new(session)
        } else {
            UserCredential::new(None)
        }
    }

    /// No verified session.
    pub open spec fn spec_is_anonymous(&self) -> bool {
        self@ is None
    }

    /// The user the verified session belongs to.
    pub open spec fn spec_user_id(&self) -> Option<i64> {
        match self@ {
            Some(s) => Some(s.user_id),
            None => None,
        }
    }

    pub fn is_anonymous(&self) -> (r: bool)
        ensures
            r == self.spec_is_anonymous(),
    {
        self.0.is_none()
    }

    pub fn user_id(&self) -> (r: Option<i64>)
        ensures
            r == self.spec_user_id(),
    {
        match &self.0 {
            Some(s) => Some(s.user_id),
            None => None,
        }
    }

    pub fn session(&self) -> (r: Option<&SessionData>)
        ensures
            match r {
                Some(s) => self@ == Some(s@),
                None => self@ is None,
            },
    {
        self.0.as_ref()
    }
}

/// A credential names a user exactly when it is not anonymous, and that
/// user is the one its session belongs to.
pub proof fn lemma_user_id_iff_not_anonymous(c: UserCredential)
    ensures
        c.spec_user_id() is Some <==> !c.spec_is_anonymous(),
        c@ matches Some(s) ==> c.spec_user_id() == Some(s.user_id),
{
}

/// The session cookie of a request: the cookie found under the session
/// cookie's name, kept only when its signature verifies under `key`, with
/// its value replaced by the signed value.
pub fn get_session_cookie(found: Option<Cookie>, key: &HmacSecret) -> (c: SessionCookie)
    ensures
        match found {
            None => c.0 is None,
            Some(f) => match c.0 {
                Some(v) => verified_value(encode_utf8(key.0@), f.value@) == Some(v.value@)
                    && v@ == (CookieView { value: v.value@, ..f@ }),
                None => verified_value(encode_utf8(key.0@), f.value@) is None,
            },
        },
{
    match found {
        Some(cookie) => SessionCookie(verify_cookie_unchecked(cookie, key.0.as_str().as_bytes())),
        None => SessionCookie(None),
    }
}

} // verus!
