//! Secrets in the configuration. The library keeps a secret in memory as its
//! own bytes: sealing here is the identity. Protection at rest is added where
//! the configuration file is written (with the operating system's data
//! protection, where it has one), on the Base64 text that the stored form
//! frames; `stored_text_of` and `blob_of_stored_text` convert between the
//! two.
use vstd::prelude::*;
use vstd::slice::slice_to_vec;

use crate::error::{Error, Result};
use crate::secret::{base64_bytes, base64_decode, base64_encode, base64_text};

verus! {

/// The stored form of a sealed secret.
pub open spec fn sealed_form(input: Seq<u8>) -> Seq<u8> {
    input
}

/// The secret recovered from a stored form.
pub open spec fn opened_form(stored: Seq<u8>) -> Seq<u8> {
    stored
}

/// Seals `input` for storage.
pub fn seal_bytes(input: &[u8]) -> (r: Result<Vec<u8>>)
    ensures
        r matches Ok(v) && v@ == sealed_form(input@),
{
    Ok(slice_to_vec(input))
}

/// Opens a sealed secret.
pub fn unseal_bytes(input: &[u8]) -> (r: Result<Vec<u8>>)
    ensures
        r matches Ok(v) && v@ == opened_form(input@),
{
    Ok(slice_to_vec(input))
}

/// The stored text of a blob: its standard Base64 text.
pub fn stored_text_of(blob: &[u8]) -> (r: String)
    ensures
        r@ == base64_text(blob@),
        base64_bytes(r@) == Some(blob@),
{
    base64_encode(blob)
}

/// The blob that stored text frames; `SecretUnseal` when the text is not
/// standard Base64.
pub fn blob_of_stored_text(text: &str) -> (r: Result<Vec<u8>>)
    ensures
        match base64_bytes(text@) {
            Some(b) => r matches Ok(v) && v@ == b,
            None => r matches Err(Error::SecretUnseal),
        },
{
    match base64_decode(text) {
        Ok(bytes) => Ok(bytes),
        Err(_) => Err(Error::SecretUnseal),
    }
}

/// Opening a sealed secret gives back the secret.
pub proof fn law_open_inverts_seal(secret: Seq<u8>)
    ensures
        opened_form(sealed_form(secret)) == secret,
{
}

} // verus!
