//! PIN hashing and the encodings of the stored hash. The hash is an Argon2
//! PHC string; it is sealed and kept as standard Base64 text.
use vstd::prelude::*;

use argon2::password_hash::{PasswordHash, PasswordHasher, PasswordVerifier, SaltString};
use argon2::Argon2;
use base64::engine::general_purpose::STANDARD;
use base64::Engine;
use rand_core::OsRng;

verus! {

/// The outcome of checking a PIN against a PHC string.
#[derive(Debug, Clone, Copy, PartialEq, Eq, Structural)]
pub enum PinCheck {
    /// The text is not a well-formed PHC string.
    Malformed,
    /// The PHC string is well formed and the PIN does not match it.
    Mismatch,
    /// The PIN matches the PHC string.
    Match,
}

/// What `argon2` answers when asked whether `pin` matches `phc`.
pub uninterp spec fn argon2_check(phc: Seq<char>, pin: Seq<char>) -> PinCheck;

/// The standard Base64 text of some bytes.
pub uninterp spec fn base64_text(bytes: Seq<u8>) -> Seq<char>;

/// The bytes that standard Base64 text decodes to, if it is valid.
pub uninterp spec fn base64_bytes(text: Seq<char>) -> Option<Seq<u8>>;

/// Hashes `pin` with Argon2 (default parameters) and a fresh random salt from
/// `OsRng`, and renders the PHC string. Calls `SaltString::generate` and
/// `PasswordHasher::hash_password`. The salt is random, so the text is not
/// stated; what is stated is what the argon2 documentation shows of every
/// hash: parsed back with `PasswordHash::new`, it verifies the same password.
/// `hash_password` refuses only passwords longer than `0xFFFF_FFFF` bytes
/// (`Error::PwdTooLong`; the generated salt and the default parameters are
/// always accepted), so a hash is produced for every shorter PIN.
#[verifier::external_body]
pub(crate) fn hash_pin(pin: &str) -> (r: Option<String>)
    ensures
        r matches Some(h) ==> argon2_check(h@, pin@) == PinCheck::Match,
        vstd::utf8::encode_utf8(pin@).len() <= 0xFFFF_FFFF ==> r is Some,
{
    let salt = SaltString::generate(&mut OsRng);
    match Argon2::default().hash_password(pin.as_bytes(), &salt) {
        Ok(hash) => Some(hash.to_string()),
        Err(_) => None,
    }
}

/// Parses `phc` with `PasswordHash::new` and, if that succeeds, checks `pin`
/// with `PasswordVerifier::verify_password` of the default Argon2 instance.
/// Both are deterministic, so the outcome is named as a function of the two
/// texts.
#[verifier::external_body]
pub(crate) fn check_pin(phc: &str, pin: &str) -> (r: PinCheck)
    ensures
        r == argon2_check(phc@, pin@),
{
    match PasswordHash::new(phc) {
        Err(_) => PinCheck::Malformed,
        Ok(parsed) => match Argon2::default().verify_password(pin.as_bytes(), &parsed) {
            Ok(()) => PinCheck::Match,
            Err(_) => PinCheck::Mismatch,
        },
    }
}

/// Encodes bytes with the standard Base64 alphabet and padding
/// (`base64::engine::general_purpose::STANDARD.encode`). The text is named;
/// the stated fact is the documented round trip: decoding it gives the bytes.
#[verifier::external_body]
pub(crate) fn base64_encode(bytes: &[u8]) -> (r: String)
    ensures
        r@ == base64_text(bytes@),
        base64_bytes(r@) == Some(bytes@),
{
    STANDARD.encode(bytes)
}

/// Decodes standard Base64 text (`STANDARD.decode`); on invalid text, the
/// decoder's error message (whose wording is not stated).
#[verifier::external_body]
pub(crate) fn base64_decode(text: &str) -> (r: Result<Vec<u8>, String>)
    ensures
        match r {
            Ok(v) => base64_bytes(text@) == Some(v@),
            Err(_) => base64_bytes(text@) is None,
        },
{
    match STANDARD.decode(text) {
        Ok(bytes) => Ok(bytes),
        Err(error) => Err(error.to_string()),
    }
}

/// Reads bytes as UTF-8 text with `std::str::from_utf8`: some text exactly
/// when the bytes are valid UTF-8, and then the decoded characters.
#[verifier::external_body]
pub(crate) fn utf8_text(bytes: &[u8]) -> (r: Option<&str>)
    ensures
        r is Some <==> vstd::utf8::valid_utf8(bytes@),
        r matches Some(s) ==> s@ == vstd::utf8::decode_utf8(bytes@),
{
    match std::str::from_utf8(bytes) {
        Ok(text) => Some(text),
        Err(_) => None,
    }
}

} // verus!
