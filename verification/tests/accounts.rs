use gqlforum::account::{
    change_password_checked, change_password_start, invalidate_session, login_checked,
    login_start, removal_cookie, session_cookie, AccountError, LoginStep,
};
use gqlforum::authentication::{hash_new_password, verify_password_hash, UserCredentials};
use gqlforum::cookies::verify_cookie_str_unchecked;
use gqlforum::session::{get_session_cookie, SessionData, UserCredential};
use gqlforum::startup::{HmacSecret, SessionCookieName};

fn signed_in(user_id: i64) -> UserCredential {
    UserCredential::new(Some(SessionData { user_id, secret: "abc".to_string() }))
}

const SALT: &str = "c29tZXNhbHR2YWx1ZQ";

#[test]
fn login_refused_when_signed_in() {
    assert!(matches!(
        login_start(&signed_in(5)),
        LoginStep::Finish(Err(AccountError::AlreadyLoggedIn))
    ));
    assert!(matches!(login_start(&UserCredential::new(None)), LoginStep::CheckCredentials));
}

#[test]
fn login_after_credential_check() {
    assert!(matches!(login_checked(Some(9)), LoginStep::IssueSession(9)));
    assert!(matches!(login_checked(None), LoginStep::Finish(Ok(false))));
}

#[test]
fn session_cookie_attributes_and_signature() {
    let name = SessionCookieName("gqlforum_session".to_string());
    let key = HmacSecret("hmac key".to_string());
    let json = "{\"user_id\":9,\"secret\":\"V1StGXR8_Z5jdHi6B-myT\"}";
    let c = session_cookie(&name, json, &key);
    assert_eq!(c.name, "gqlforum_session");
    assert!(c.http_only && c.secure && c.same_site_strict && !c.expire_now);
    assert_ne!(c.value, json);
    assert_eq!(verify_cookie_str_unchecked(&c.value, b"hmac key"), Some(json.to_string()));
}

#[test]
fn removal_cookie_expires_session_cookie() {
    let name = SessionCookieName("gqlforum_session".to_string());
    let c = removal_cookie(&name);
    assert_eq!(c.name, "gqlforum_session");
    assert_eq!(c.value, "");
    assert!(c.http_only && c.secure && c.same_site_strict && c.expire_now);
}

#[test]
fn logout_needs_a_session() {
    let name = SessionCookieName("s".to_string());
    let refused = invalidate_session(&UserCredential::new(None), &name);
    assert!(matches!(refused, Err(AccountError::AlreadyLoggedOut)));
    let removal = invalidate_session(&signed_in(4), &name).ok().unwrap();
    assert_eq!(removal.user_id, 4);
    assert_eq!(removal.token_hash.len(), 32);
    assert_eq!(removal.token_hash[0], 0xba);
    assert!(removal.cookie.expire_now);
}

#[test]
fn error_messages() {
    assert_eq!(AccountError::AlreadyLoggedIn.message(), "Already logged in");
    assert_eq!(AccountError::AlreadyLoggedOut.message(), "Already logged out");
    assert_eq!(AccountError::NotLoggedIn.message(), "You must log in first");
    assert_eq!(AccountError::UserMismatch.message(), "user id does not match session!");
    assert_eq!(AccountError::Unimplemented.message(), "Unimplemented");
}

#[test]
fn password_change_needs_a_session() {
    assert_eq!(change_password_start(&UserCredential::new(None)), Err(AccountError::NotLoggedIn));
    assert_eq!(change_password_start(&signed_in(2)), Ok(2));
    let r = change_password_checked(&UserCredential::new(None), Some(2), "new", SALT);
    assert!(matches!(r, Err(AccountError::NotLoggedIn)));
}

#[test]
fn password_change_needs_the_sessions_user() {
    let r = change_password_checked(&signed_in(2), Some(3), "new", SALT);
    assert!(matches!(r, Err(AccountError::UserMismatch)));
    let r = change_password_checked(&signed_in(2), None, "new", SALT);
    assert!(matches!(r, Err(AccountError::UserMismatch)));
}

#[test]
fn password_change_stores_a_hash_of_the_new_password() {
    let change = change_password_checked(&signed_in(2), Some(2), "correct horse", SALT).ok().unwrap();
    assert_eq!(change.user_id, 2);
    assert_eq!(change.token_hash.len(), 32);
    assert!(change.new_phc.starts_with("$argon2id$"));
    let cred = UserCredentials { id: 2, phc_string: change.new_phc.clone() };
    assert_eq!(verify_password_hash(cred, "correct horse"), Some(2));
    let cred = UserCredentials { id: 2, phc_string: change.new_phc };
    assert_eq!(verify_password_hash(cred, "wrong horse"), None);
}

#[test]
fn password_change_with_bad_salt() {
    let r = change_password_checked(&signed_in(2), Some(2), "new", "no");
    assert!(matches!(r, Err(AccountError::PasswordHashFailed)));
}

#[test]
fn password_checks() {
    let phc = hash_new_password("hunter2", SALT).unwrap();
    assert_eq!(verify_password_hash(UserCredentials { id: 11, phc_string: phc.clone() }, "hunter2"), Some(11));
    assert_eq!(verify_password_hash(UserCredentials { id: 11, phc_string: phc }, "hunter3"), None);
    let bad = UserCredentials { id: 11, phc_string: "not a phc string".to_string() };
    assert_eq!(verify_password_hash(bad, "hunter2"), None);
    assert!(hash_new_password("x", "!").is_none());
}

#[test]
fn login_cookie_is_accepted_on_the_next_request() {
    let name = SessionCookieName("gqlforum_session".to_string());
    let key = HmacSecret("hmac key".to_string());
    let json = "{\"user_id\":9,\"secret\":\"abc\"}";
    let set = session_cookie(&name, json, &key);
    let back = get_session_cookie(Some(set), &key).0.expect("signature verifies");
    assert_eq!(back.value, json);
    assert_eq!(back.name, "gqlforum_session");
}
