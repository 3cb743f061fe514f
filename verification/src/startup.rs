//! Values the server hands to every request.
use vstd::prelude::*;

verus! {

/// The key that session cookies are signed with.
#[derive(Clone)]
pub struct HmacSecret(pub String);

/// The name of the session cookie.
#[derive(Clone)]
pub struct SessionCookieName(pub String);

} // verus!
