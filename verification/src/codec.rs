//! Base64 text, as the key file and the record files hold it.

use base64::engine::general_purpose::STANDARD;
use base64::Engine;
use vstd::prelude::*;

verus! {

/// The standard base64 text, with padding, that stands for `bytes`.
pub uninterp spec fn base64_text(bytes: Seq<u8>) -> Seq<char>;

/// The bytes that the standard base64 text `text` stands for, if it is
/// well-formed.
pub uninterp spec fn base64_bytes(text: Seq<char>) -> Option<Seq<u8>>;

/// Encodes `bytes` as base64 text.
///
/// Trusted: stands for `Engine::encode` of the `base64` crate on its
/// `STANDARD` engine. The contract names the text that it returns and claims
/// that decoding this text gives `bytes` back.
#[verifier::external_body]
pub(crate) fn base64_encode(bytes: &[u8]) -> (r: String)
    ensures
        r@ == base64_text(bytes@),
        base64_bytes(r@) == Some(bytes@),
{
    STANDARD.encode(bytes)
}

/// Decodes base64 text, or returns `None` where `text` is not well-formed.
///
/// Trusted: stands for `Engine::decode` of the `base64` crate on its
/// `STANDARD` engine. The contract names what it returns, with any decoding
/// error turned into `None`.
#[verifier::external_body]
pub(crate) fn base64_decode(text: &str) -> (r: Option<Vec<u8>>)
    ensures
        match r {
            Some(bytes) => base64_bytes(text@) == Some(bytes@),
            None => base64_bytes(text@) is None,
        },
{
    STANDARD.decode(text).ok()
}

} // verus!
