//! Trusted boundary to the hashing, MAC and encoding crates.
//!
//! Each wrapper here performs one operation of `hmac`, `sha2`, `base64` or
//! `argon2`; its contract is believed, not proved.  Results that take pages
//! to state are named by spec functions without bodies: every name is a
//! function of its arguments alone (all of these algorithms are
//! deterministic).  Base64 encoding is short enough to be stated in full.
use vstd::prelude::*;
use vstd::utf8::*;

use argon2::{Argon2, PasswordHash, PasswordHasher, PasswordVerifier};
use hmac::{Hmac, Mac};
use sha2::{Digest, Sha256};

verus! {

/// HMAC-SHA256 of `msg` under `key`.
pub uninterp spec fn spec_hmac_sha256(key: Seq<u8>, msg: Seq<u8>) -> Seq<u8>;

/// SHA-256 digest of `data`.
pub uninterp spec fn spec_sha256(data: Seq<u8>) -> Seq<u8>;

/// The character of a 6-bit value in the standard base64 alphabet.
pub open spec fn sextet_char(v: int) -> char {
    if v < 26 {
        ((65 + v) as u32) as char
    } else if v < 52 {
        ((97 + v - 26) as u32) as char
    } else if v < 62 {
        ((48 + v - 52) as u32) as char
    } else if v == 62 {
        '+'
    } else {
        '/'
    }
}

/// Standard base64 text of `data`, padded with `=` to whole groups of four.
pub open spec fn base64_text(data: Seq<u8>) -> Seq<char>
    decreases data.len(),
{
    if data.len() == 0 {
        Seq::empty()
    } else {
        let b0 = data[0] as int;
        let b1 = if data.len() > 1 { data[1] as int } else { 0 };
        let b2 = if data.len() > 2 { data[2] as int } else { 0 };
        let group = seq![
            sextet_char(b0 / 4),
            sextet_char((b0 % 4) * 16 + b1 / 16),
            if data.len() > 1 { sextet_char((b1 % 16) * 4 + b2 / 64) } else { '=' },
            if data.len() > 2 { sextet_char(b2 % 64) } else { '=' },
        ];
        if data.len() <= 3 {
            group
        } else {
            group + base64_text(data.skip(3))
        }
    }
}

/// Base64 text is ASCII, four characters for every (started) group of
/// three bytes.
pub proof fn lemma_base64_text_shape(data: Seq<u8>)
    ensures
        base64_text(data).len() == 4 * ((data.len() + 2) / 3),
        is_ascii_chars(base64_text(data)),
    decreases data.len(),
{
    if data.len() > 3 {
        lemma_base64_text_shape(data.skip(3));
    }
}

/// Bytes that standard, padded base64 `text` decodes to, if it is valid base64.
pub uninterp spec fn spec_base64_decode(text: Seq<u8>) -> Option<Seq<u8>>;

/// Outcome of checking `password` against the PHC string `phc` with Argon2:
/// `None` when `phc` is not a PHC string, else whether the password matches.
pub uninterp spec fn spec_argon2_check(phc: Seq<char>, password: Seq<u8>) -> Option<bool>;

/// PHC string that Argon2 (default parameters) computes for `password` with
/// the base64 salt `salt`; `None` when the salt is refused.
pub uninterp spec fn spec_argon2_hash(password: Seq<u8>, salt: Seq<char>) -> Option<Seq<char>>;

/// Error of `base64::decode`.
#[verifier::external_type_specification]
#[verifier::external_body]
pub struct ExDecodeError(base64::DecodeError);

/// Error of `Mac::verify_slice`.
#[verifier::external_type_specification]
#[verifier::external_body]
pub struct ExMacError(hmac::digest::MacError);

/// `Hmac::<Sha256>::new_from_slice(key)`, `update(msg)`, `finalize()`:
/// the tag is the HMAC-SHA256 of `msg` under `key`, 32 bytes long.
/// `new_from_slice` accepts keys of every length for HMAC, so the
/// `expect` never fires.
#[verifier::external_body]
pub(crate) fn hmac_sha256(key: &[u8], msg: &[u8]) -> (tag: Vec<u8>)
    ensures
        tag@ == spec_hmac_sha256(key@, msg@),
        tag@.len() == 32,
{
    let mut mac = Hmac::<Sha256>::new_from_slice(key).expect("HMAC accepts any key length");
    mac.update(msg);
    mac.finalize().into_bytes().to_vec()
}

/// `Mac::verify_slice` on an HMAC-SHA256 of `msg` under `key`: `Ok` exactly
/// when `tag` equals the whole computed tag (a tag of another length is
/// refused).
#[verifier::external_body]
pub(crate) fn hmac_sha256_verify(key: &[u8], msg: &[u8], tag: &[u8]) -> (r: Result<(), hmac::digest::MacError>)
    ensures
        r is Ok <==> tag@ == spec_hmac_sha256(key@, msg@),
{
    let mut mac = Hmac::<Sha256>::new_from_slice(key).expect("HMAC accepts any key length");
    mac.update(msg);
    mac.verify_slice(tag)
}

/// `Sha256::digest(data)`: the 32-byte SHA-256 digest of `data`.
#[verifier::external_body]
pub(crate) fn sha256_digest(data: &[u8]) -> (d: Vec<u8>)
    ensures
        d@ == spec_sha256(data@),
        d@.len() == 32,
{
    Sha256::digest(data).to_vec()
}

/// `base64::encode(data)` (standard alphabet, with padding): the text is
/// `base64_text(data)`, and it decodes back to `data`.  The encoder panics
/// only when the output length overflows, which the `requires` rules out.
#[verifier::external_body]
pub(crate) fn base64_encode(data: &[u8]) -> (text: String)
    requires
        data@.len() <= usize::MAX / 2,
    ensures
        text@ == base64_text(data@),
        spec_base64_decode(encode_utf8(text@)) == Some(data@),
{
    base64::encode(data)
}

/// `base64::decode(text)` (standard alphabet, with padding): `Ok` with the
/// decoded bytes exactly when the text is valid base64.  It panics only when
/// `text.len() + 3` overflows, which the `requires` rules out.
#[verifier::external_body]
pub(crate) fn base64_decode(text: &[u8]) -> (r: Result<Vec<u8>, base64::DecodeError>)
    requires
        text@.len() + 3 <= usize::MAX,
    ensures
        r is Ok <==> spec_base64_decode(text@) is Some,
        r matches Ok(bytes) ==> Some(bytes@) == spec_base64_decode(text@),
{
    base64::decode(text)
}

/// `PasswordHash::new(phc)` followed by `Argon2::default().verify_password`:
/// `None` when `phc` does not parse as a PHC string, else `Some(true)`
/// exactly when Argon2, run with the parameters and salt recorded in `phc`,
/// reproduces the recorded hash for `password`.
#[verifier::external_body]
pub(crate) fn argon2_check(phc: &str, password: &[u8]) -> (r: Option<bool>)
    ensures
        r == spec_argon2_check(phc@, password@),
{
    match PasswordHash::new(phc) {
        Ok(hash) => Some(Argon2::default().verify_password(password, &hash).is_ok()),
        Err(_) => None,
    }
}

/// `Argon2::default().hash_password(password, salt)` rendered as a PHC
/// string: `None` when the salt is refused.  Verifying the same password
/// against the PHC string it produced recomputes the same hash with the
/// recorded parameters, so the check succeeds.
#[verifier::external_body]
pub(crate) fn argon2_hash(password: &[u8], salt: &str) -> (r: Option<String>)
    ensures
        r matches Some(phc) ==> Some(phc@) == spec_argon2_hash(password@, salt@),
        r is None <==> spec_argon2_hash(password@, salt@) is None,
        r matches Some(phc) ==> spec_argon2_check(phc@, password@) == Some(true),
{
    match Argon2::default().hash_password(password, salt) {
        Ok(hash) => Some(hash.to_string()),
        Err(_) => None,
    }
}

} // verus!
