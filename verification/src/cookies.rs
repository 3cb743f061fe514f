//! Signed cookies: the value is prefixed with the base64 HMAC-SHA256 of the
//! value under the server key (the same layout as the `cookie` crate's
//! signed jar), and a cookie is accepted back only when that MAC matches.
use vstd::prelude::*;
use vstd::string::*;
use vstd::utf8::*;

use crate::crypto::{
    base64_decode, base64_encode, hmac_sha256, hmac_sha256_verify, spec_base64_decode,
    base64_text, lemma_base64_text_shape, spec_hmac_sha256,
};

verus! {

broadcast use vstd::string::group_string_axioms;

/// Length of the base64 text of a 32-byte HMAC-SHA256 tag.
pub const BASE64_DIGEST_LEN: usize = 44;

/// The parts of an HTTP cookie that the server decides.
pub struct Cookie {
    pub name: String,
    pub value: String,
    pub http_only: bool,
    pub secure: bool,
    /// `SameSite=Strict`.
    pub same_site_strict: bool,
    /// Expires at the moment the header is written (removes the cookie).
    pub expire_now: bool,
}

pub struct CookieView {
    pub name: Seq<char>,
    pub value: Seq<char>,
    pub http_only: bool,
    pub secure: bool,
    pub same_site_strict: bool,
    pub expire_now: bool,
}

impl View for Cookie {
    type V = CookieView;

    open spec fn view(&self) -> CookieView {
        CookieView {
            name: self.name@,
            value: self.value@,
            http_only: self.http_only,
            secure: self.secure,
            same_site_strict: self.same_site_strict,
            expire_now: self.expire_now,
        }
    }
}

/// Value of a cookie signed with `key`: base64 of the MAC, then the value.
pub open spec fn signed_value(key: Seq<u8>, value: Seq<char>) -> Seq<char> {
    base64_text(spec_hmac_sha256(key, encode_utf8(value))) + value
}

/// What a signed cookie value verifies to under `key`: the part after the
/// first `BASE64_DIGEST_LEN` bytes, provided those bytes end on a character
/// boundary and decode to the MAC of that part.
pub open spec fn verified_value(key: Seq<u8>, signed: Seq<char>) -> Option<Seq<char>> {
    let bytes = encode_utf8(signed);
    let n = BASE64_DIGEST_LEN as int;
    if is_char_boundary(bytes, n) && spec_base64_decode(bytes.subrange(0, n)) == Some(
        spec_hmac_sha256(key, bytes.subrange(n, bytes.len() as int)),
    ) {
        Some(decode_utf8(bytes.subrange(n, bytes.len() as int)))
    } else {
        None
    }
}

/// UTF-8 encoding distributes over concatenation.
proof fn lemma_encode_utf8_concat(a: Seq<char>, b: Seq<char>)
    ensures
        encode_utf8(a + b) == encode_utf8(a) + encode_utf8(b),
    decreases a.len(),
{
    if a.len() == 0 {
        assert(a + b =~= b);
        assert(encode_utf8(a) + encode_utf8(b) =~= encode_utf8(b));
    } else {
        assert((a + b).drop_first() =~= a.drop_first() + b);
        lemma_encode_utf8_concat(a.drop_first(), b);
        assert(encode_utf8(a + b) =~= encode_utf8(a) + encode_utf8(b));
    }
}

/// The byte right after an encoded prefix is a character boundary.
proof fn lemma_boundary_after_prefix(a: Seq<char>, b: Seq<char>)
    ensures
        is_char_boundary(encode_utf8(a + b), encode_utf8(a).len() as int),
        valid_utf8(encode_utf8(a + b)),
        encode_utf8(a + b).subrange(0, encode_utf8(a).len() as int) == encode_utf8(a),
        encode_utf8(a + b).subrange(encode_utf8(a).len() as int, encode_utf8(a + b).len() as int)
            == encode_utf8(b),
{
    broadcast use encode_utf8_valid_utf8;

    lemma_encode_utf8_concat(a, b);
    let bytes = encode_utf8(a + b);
    let n = encode_utf8(a).len() as int;
    assert(bytes.subrange(0, n) =~= encode_utf8(a));
    assert(bytes.subrange(n, bytes.len() as int) =~= encode_utf8(b));
    if b.len() == 0 {
        is_char_boundary_start_end_of_seq(bytes);
    } else {
        encode_utf8_first_scalar(b);
        assert(bytes[n] == encode_utf8(b)[0]);
        is_char_boundary_iff_is_leading_byte(bytes, n);
    }
}

/// A string is determined by its UTF-8 bytes.
proof fn lemma_chars_of_bytes(s: Seq<char>)
    ensures
        decode_utf8(encode_utf8(s)) == s,
{
    encode_utf8_decode_utf8(s);
}

/// Signing then verifying under the same key gives the value back.
proof fn lemma_signed_value_verifies(key: Seq<u8>, value: Seq<char>)
    requires
        spec_hmac_sha256(key, encode_utf8(value)).len() == 32,
        spec_base64_decode(
            encode_utf8(base64_text(spec_hmac_sha256(key, encode_utf8(value)))),
        ) == Some(spec_hmac_sha256(key, encode_utf8(value))),
    ensures
        verified_value(key, signed_value(key, value)) == Some(value),
{
    let e = base64_text(spec_hmac_sha256(key, encode_utf8(value)));
    lemma_base64_text_shape(spec_hmac_sha256(key, encode_utf8(value)));
    is_ascii_chars_encode_utf8(e);
    lemma_boundary_after_prefix(e, value);
    lemma_chars_of_bytes(value);
}

/// A value that verifies under `key` is made of a digest part and the value
/// it verifies to: the digest part is `BASE64_DIGEST_LEN` bytes whose base64
/// decoding is the HMAC-SHA256 of that value under `key`.
pub proof fn lemma_verified_value_carries_its_mac(key: Seq<u8>, signed: Seq<char>, value: Seq<char>)
    requires
        verified_value(key, signed) == Some(value),
    ensures
        exists|digest: Seq<u8>|
            digest.len() == BASE64_DIGEST_LEN && #[trigger] (digest + encode_utf8(value)) == encode_utf8(
                signed,
            ) && spec_base64_decode(digest) == Some(spec_hmac_sha256(key, encode_utf8(value))),
{
    broadcast use encode_utf8_valid_utf8;

    let bytes = encode_utf8(signed);
    let n = BASE64_DIGEST_LEN as int;
    let digest = bytes.subrange(0, n);
    let rest = bytes.subrange(n, bytes.len() as int);
    valid_utf8_split(bytes, n);
    decode_utf8_encode_utf8(rest);
    assert(encode_utf8(value) == rest);
    assert(digest + rest =~= bytes);
}

/// Sign the cookie's value with `key`: the new value is the base64 text of
/// the HMAC-SHA256 of the old value, followed by the old value.  Nothing
/// else about the cookie changes, and the result verifies under `key` to
/// the value it signed.
pub fn sign_cookie_unchecked(cookie: Cookie, key: &[u8]) -> (signed: Cookie)
    ensures
        signed@ == (CookieView { value: signed_value(key@, cookie.value@), ..cookie@ }),
        verified_value(key@, signed.value@) == Some(cookie.value@),
{
    let mac = hmac_sha256(key, cookie.value.as_str().as_bytes());
    let mut new_value = base64_encode(mac.as_slice());
    new_value.append(cookie.value.as_str());
    proof {
        lemma_signed_value_verifies(key@, cookie.value@);
    }
    Cookie { value: new_value, ..cookie }
}

/// Check a signed cookie value: `Some` with the unsigned value exactly
/// when the value verifies under `key` (see `verified_value`).
pub fn verify_cookie_str_unchecked(cookie_value: &str, key: &[u8]) -> (r: Option<String>)
    ensures
        match r {
            Some(v) => verified_value(key@, cookie_value@) == Some(v@),
            None => verified_value(key@, cookie_value@) is None,
        },
{
    proof {
        broadcast use encode_utf8_valid_utf8;
    }
    // Missing or invalid digest
    if !cookie_value.is_char_boundary(BASE64_DIGEST_LEN) {
        return None;
    }
    // Split [MAC | value] into its two parts.
    let (digest_str, value) = cookie_value.split_at(BASE64_DIGEST_LEN);
    proof {
        lemma_chars_of_bytes(value@);
        valid_utf8_split(cookie_value.spec_bytes(), BASE64_DIGEST_LEN as int);
    }
    let digest = match base64_decode(digest_str.as_bytes()) {
        Ok(d) => d,
        Err(_) => return None,
    };
    match hmac_sha256_verify(key, value.as_bytes(), digest.as_slice()) {
        Ok(()) => Some(value.to_string()),
        Err(_) => None,
    }
}

/// Verify a signed cookie: the same cookie with its value replaced by the
/// unsigned value, or `None` when the signature does not check out.
pub fn verify_cookie_unchecked(cookie: Cookie, key: &[u8]) -> (r: Option<Cookie>)
    ensures
        match r {
            Some(c) => verified_value(key@, cookie.value@) == Some(c.value@)
                && c@ == (CookieView { value: c.value@, ..cookie@ }),
            None => verified_value(key@, cookie.value@) is None,
        },
{
    match verify_cookie_str_unchecked(cookie.value.as_str(), key) {
        Some(value) => Some(Cookie { value, ..cookie }),
        None => None,
    }
}

} // verus!
