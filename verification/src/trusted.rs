//! The calls that leave this library. Nothing here is proved: each contract
//! restates what the called code documents.
use hmac::{Hmac, Mac};
use sha2::Sha256;
use vstd::prelude::*;
use vstd::utf8::{decode_utf8, valid_utf8};

verus! {

/// The HMAC-SHA256 authentication tag of a message under a key.
pub uninterp spec fn hmac_sha256_tag(key: Seq<u8>, message: Seq<u8>) -> Seq<u8>;

/// Computes a message's authentication tag with `hmac::Hmac<sha2::Sha256>`:
/// `new_from_slice`, `update`, `finalize`.
///
/// The tag depends on the key and the message alone. HMAC takes a key of any
/// length, so the construction never fails.
#[verifier::external_body]
pub(crate) fn hmac_sha256(key: &[u8], message: &[u8]) -> (tag: Vec<u8>)
    ensures
        tag@ == hmac_sha256_tag(key@, message@),
{
    let mut mac = Hmac::<Sha256>::new_from_slice(key).expect("HMAC takes a key of any length");
    mac.update(message);
    mac.finalize().into_bytes().to_vec()
}

/// Reads the clock with `chrono::Utc::now` and hands back the whole seconds
/// since the Unix epoch and the nanoseconds within the second.
///
/// Nothing is claimed of the reading. A clock set before the epoch makes
/// `chrono` panic.
#[verifier::external_body]
pub(crate) fn current_time() -> (reading: (i64, u32)) {
    let now = chrono::Utc::now();
    (now.timestamp(), now.timestamp_subsec_nanos())
}

/// Draws a random identifier with `uuid::Uuid::new_v4`, as the 128-bit number
/// that `as_u128` gives. Nothing is claimed of the draw.
#[verifier::external_body]
pub(crate) fn random_uuid() -> (id: u128) {
    uuid::Uuid::new_v4().as_u128()
}

/// Turns bytes into text with `String::from_utf8`, which accepts exactly the
/// well-formed UTF-8 sequences and decodes them.
#[verifier::external_body]
pub(crate) fn string_from_utf8(bytes: Vec<u8>) -> (text: Option<String>)
    ensures
        text is Some <==> valid_utf8(bytes@),
        text matches Some(s) ==> s@ == decode_utf8(bytes@),
{
    match String::from_utf8(bytes) {
        Ok(text) => Some(text),
        Err(_) => None,
    }
}

} // verus!
