//! Proof-of-key checking.
//!
//! A client proves possession of its private key by signing the challenge the
//! server handed out.  The challenge text is signed as bytes; key and
//! signature arrive as standard base64 text.  Decoding and the curve check
//! are done by outside code behind trusted wrappers; the decision tree around
//! them is verified.

use base64::Engine;
use ed25519_dalek::{Signature, Verifier, VerifyingKey};
use vstd::prelude::*;
use vstd::string::StringSliceAdditionalSpecFns;

verus! {

/// What standard base64 text decodes to; `None` when the text is not valid
/// base64.  The result is a function of the text alone.
pub uninterp spec fn b64_decode_of(s: Seq<char>) -> Option<Seq<u8>>;

/// Whether 32 bytes are a valid ed25519 verifying key.
pub uninterp spec fn ed25519_key_valid(key: Seq<u8>) -> bool;

/// Whether a 64-byte signature by `key` checks out over `msg`.
pub uninterp spec fn ed25519_verifies(key: Seq<u8>, msg: Seq<u8>, sig: Seq<u8>) -> bool;

/// Relies on `base64::Engine::decode` with the standard alphabet
/// (`BASE64_STANDARD`): the result is a function of the input text alone.
#[verifier::external_body]
fn b64_decode(s: &str) -> (r: Option<Vec<u8>>)
    ensures
        match r {
            Some(v) => b64_decode_of(s@) == Some(v@),
            None => b64_decode_of(s@) is None,
        },
{
    base64::prelude::BASE64_STANDARD.decode(s).ok()
}

/// Relies on `ed25519_dalek::VerifyingKey::from_bytes` (whether 32 bytes are
/// a valid key is a function of the bytes), `Signature::from_bytes`
/// (infallible) and `Verifier::verify` (the outcome is a function of key,
/// message and signature bytes alone).  `None` means the key bytes are not a
/// valid key.
#[verifier::external_body]
fn ed25519_check(key: &[u8], msg: &[u8], sig: &[u8]) -> (r: Option<bool>)
    requires
        key@.len() == 32,
        sig@.len() == 64,
    ensures
        r is Some <==> ed25519_key_valid(key@),
        r is Some ==> r.unwrap() == ed25519_verifies(key@, msg@, sig@),
{
    let key: &[u8; 32] = key.try_into().unwrap();
    let sig: &[u8; 64] = sig.try_into().unwrap();
    match VerifyingKey::from_bytes(key) {
        Ok(vk) => Some(vk.verify(msg, &Signature::from_bytes(sig)).is_ok()),
        Err(_) => None,
    }
}

/// Why a proof-of-key exchange was rejected before the curve check.
#[derive(Clone, Copy, Debug, PartialEq, Eq)]
pub enum SigError {
    InvalidPublicKey,
    InvalidSignature,
}

/// What `verify_signature` returns, over the decoded views: the key must be
/// valid base64 for 32 bytes that parse as a key, the signature valid base64
/// for 64 bytes; then the outcome is the curve check.
pub open spec fn verify_signature_result(
    msg_bytes: Seq<u8>,
    sig_text: Seq<char>,
    key_text: Seq<char>,
) -> Result<bool, SigError> {
    match b64_decode_of(key_text) {
        None => Err(SigError::InvalidPublicKey),
        Some(kb) => if kb.len() != 32 {
            Err(SigError::InvalidPublicKey)
        } else {
            match b64_decode_of(sig_text) {
                None => Err(SigError::InvalidSignature),
                Some(sb) => if sb.len() != 64 {
                    Err(SigError::InvalidSignature)
                } else if !ed25519_key_valid(kb) {
                    Err(SigError::InvalidPublicKey)
                } else {
                    Ok(ed25519_verifies(kb, msg_bytes, sb))
                },
            }
        },
    }
}

/// Check a signature over the bytes of `message`, with key and signature
/// given as standard base64 text.
pub fn verify_signature(message: &str, signature: &str, key: &str) -> (r: Result<bool, SigError>)
    ensures
        r == verify_signature_result(message.spec_bytes(), signature@, key@),
{
    let kb = match b64_decode(key) {
        Some(v) => v,
        None => {
            return Err(SigError::InvalidPublicKey);
        },
    };
    if kb.len() != 32 {
        return Err(SigError::InvalidPublicKey);
    }
    let sb = match b64_decode(signature) {
        Some(v) => v,
        None => {
            return Err(SigError::InvalidSignature);
        },
    };
    if sb.len() != 64 {
        return Err(SigError::InvalidSignature);
    }
    match ed25519_check(kb.as_slice(), message.as_bytes(), sb.as_slice()) {
        Some(ok) => Ok(ok),
        None => Err(SigError::InvalidPublicKey),
    }
}

} // verus!
