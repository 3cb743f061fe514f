use gqlforum::cookies::{
    sign_cookie_unchecked, verify_cookie_str_unchecked, verify_cookie_unchecked, Cookie,
    BASE64_DIGEST_LEN,
};
use hmac::{Hmac, Mac};
use sha2::Sha256;

fn cookie(value: &str) -> Cookie {
    Cookie {
        name: "session".to_string(),
        value: value.to_string(),
        http_only: true,
        secure: false,
        same_site_strict: true,
        expire_now: false,
    }
}

fn expected_digest(key: &[u8], value: &str) -> String {
    let mut mac = Hmac::<Sha256>::new_from_slice(key).unwrap();
    mac.update(value.as_bytes());
    base64::encode(mac.finalize().into_bytes())
}

#[test]
fn signed_value_is_digest_then_value() {
    let key = b"key";
    let signed = sign_cookie_unchecked(cookie("The quick brown fox jumps over the lazy dog"), key);
    // RFC-style known HMAC-SHA256 vector, base64 encoded.
    assert_eq!(
        &signed.value[..BASE64_DIGEST_LEN],
        "97yD9DBThCSxMpjmqm+xQ+9NWaFJRhdZl0edvC0aPNg="
    );
    assert_eq!(&signed.value[BASE64_DIGEST_LEN..], "The quick brown fox jumps over the lazy dog");
    assert_eq!(signed.name, "session");
    assert!(signed.http_only);
    assert!(!signed.secure);
    assert!(signed.same_site_strict);
    assert!(!signed.expire_now);
}

#[test]
fn signed_value_matches_independent_mac() {
    let key = b"server secret";
    let signed = sign_cookie_unchecked(cookie("{\"user_id\":7,\"secret\":\"abc\"}"), key);
    let expected = format!(
        "{}{}",
        expected_digest(key, "{\"user_id\":7,\"secret\":\"abc\"}"),
        "{\"user_id\":7,\"secret\":\"abc\"}"
    );
    assert_eq!(signed.value, expected);
}

#[test]
fn sign_then_verify_round_trip() {
    let key = b"server secret";
    for value in ["", "a", "plain value", "naïve ☕ 日本語", "{\"user_id\":1}"] {
        let signed = sign_cookie_unchecked(cookie(value), key);
        assert_eq!(verify_cookie_str_unchecked(&signed.value, key), Some(value.to_string()));
        let back = verify_cookie_unchecked(signed, key).expect("verifies");
        assert_eq!(back.value, value);
        assert_eq!(back.name, "session");
    }
}

#[test]
fn verify_rejects_tampered_value() {
    let key = b"server secret";
    let signed = sign_cookie_unchecked(cookie("{\"user_id\":7}"), key);
    let tampered = signed.value.replace("7", "1");
    assert_eq!(verify_cookie_str_unchecked(&tampered, key), None);
}

#[test]
fn verify_rejects_tampered_digest() {
    let key = b"server secret";
    let signed = sign_cookie_unchecked(cookie("value"), key);
    let mut chars: Vec<char> = signed.value.chars().collect();
    chars[0] = if chars[0] == 'A' { 'B' } else { 'A' };
    let tampered: String = chars.into_iter().collect();
    assert_eq!(verify_cookie_str_unchecked(&tampered, key), None);
}

#[test]
fn verify_rejects_other_key() {
    let signed = sign_cookie_unchecked(cookie("value"), b"one key");
    assert_eq!(verify_cookie_str_unchecked(&signed.value, b"another key"), None);
    assert!(verify_cookie_unchecked(signed, b"another key").is_none());
}

#[test]
fn verify_rejects_short_value() {
    assert_eq!(verify_cookie_str_unchecked("", b"k"), None);
    assert_eq!(verify_cookie_str_unchecked("too short to hold a digest", b"k"), None);
}

#[test]
fn verify_rejects_digest_cut_inside_a_character() {
    // 43 ASCII bytes followed by a two-byte character: byte 44 is not a
    // character boundary.
    let value = format!("{}é{}", "A".repeat(43), "rest");
    assert_eq!(verify_cookie_str_unchecked(&value, b"k"), None);
}

#[test]
fn verify_rejects_invalid_base64_digest() {
    let value = format!("{}{}", "!".repeat(44), "value");
    assert_eq!(verify_cookie_str_unchecked(&value, b"k"), None);
}

#[test]
fn verify_accepts_exactly_digest_without_value() {
    let key = b"k";
    let value = expected_digest(key, "");
    assert_eq!(verify_cookie_str_unchecked(&value, key), Some(String::new()));
}
