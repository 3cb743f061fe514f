use gqlforum::cookies::{sign_cookie_unchecked, Cookie};
use gqlforum::session::{get_session_cookie, SessionData, UserCredential};
use gqlforum::startup::HmacSecret;

fn data(user_id: i64, secret: &str) -> SessionData {
    SessionData { user_id, secret: secret.to_string() }
}

#[test]
fn anonymous_credential() {
    let c = UserCredential::new(None);
    assert!(c.is_anonymous());
    assert_eq!(c.user_id(), None);
    assert!(c.session().is_none());
}

#[test]
fn signed_in_credential() {
    let c = UserCredential::new(Some(data(42, "s3cret")));
    assert!(!c.is_anonymous());
    assert_eq!(c.user_id(), Some(42));
    let s = c.session().unwrap();
    assert_eq!(s.user_id, 42);
    assert_eq!(s.secret, "s3cret");
}

#[test]
fn credential_requires_confirmed_session() {
    let confirmed = UserCredential::from_verification(Some(data(3, "x")), true);
    assert_eq!(confirmed.user_id(), Some(3));
    let unconfirmed = UserCredential::from_verification(Some(data(3, "x")), false);
    assert!(unconfirmed.is_anonymous());
    let none = UserCredential::from_verification(None, true);
    assert!(none.is_anonymous());
}

#[test]
fn token_hash_is_sha256_of_secret() {
    let h = data(1, "abc").token_hash();
    let expected: Vec<u8> = vec![
        0xba, 0x78, 0x16, 0xbf, 0x8f, 0x01, 0xcf, 0xea, 0x41, 0x41, 0x40, 0xde, 0x5d, 0xae, 0x22,
        0x23, 0xb0, 0x03, 0x61, 0xa3, 0x96, 0x17, 0x7a, 0x9c, 0xb4, 0x10, 0xff, 0x61, 0xf2, 0x00,
        0x15, 0xad,
    ];
    assert_eq!(h, expected);
    assert_ne!(data(1, "abd").token_hash(), expected);
}

fn jar_cookie(value: String) -> Cookie {
    Cookie {
        name: "gqlforum_session".to_string(),
        value,
        http_only: true,
        secure: true,
        same_site_strict: true,
        expire_now: false,
    }
}

#[test]
fn session_cookie_from_jar() {
    let key = HmacSecret("k".to_string());
    let signed = sign_cookie_unchecked(jar_cookie("payload".to_string()), b"k");
    let found = get_session_cookie(Some(signed), &key);
    assert_eq!(found.0.unwrap().value, "payload");
    let forged = get_session_cookie(Some(jar_cookie("x".repeat(50))), &key);
    assert!(forged.0.is_none());
    assert!(get_session_cookie(None, &key).0.is_none());
}
