//! Preparing an image for sending: its media type and its base64 text.

use base64::Engine;
use vstd::prelude::*;

verus! {

/// The padded URL-safe base64 text of the bytes.
pub uninterp spec fn base64_url_of(b: Seq<u8>) -> Seq<char>;

/// The media type that `file_format` detects in the bytes.
pub uninterp spec fn media_type_of(b: Seq<u8>) -> Seq<char>;

/// The length of padded base64 text: four characters for each started group of three bytes.
pub open spec fn padded_base64_len(n: nat) -> nat {
    4 * ((n + 2) / 3)
}

/// Relies on `base64::engine::general_purpose::URL_SAFE` and `Engine::encode`: the
/// padded URL-safe base64 text of the bytes. `encode` panics only when the length of
/// its output does not fit in `usize`, which the bound excludes.
#[verifier::external_body]
pub(crate) fn encode_base64_url(b: &[u8]) -> (r: String)
    requires
        b@.len() <= usize::MAX / 2,
    ensures
        r@ == base64_url_of(b@),
        r@.len() == padded_base64_len(b@.len()),
{
    base64::engine::general_purpose::URL_SAFE.encode(b)
}

/// Relies on `file_format::FileFormat::from_bytes`, which detects a format from the
/// bytes alone, and `FileFormat::media_type`, which names it.
#[verifier::external_body]
pub(crate) fn detect_media_type(b: &[u8]) -> (r: String)
    ensures
        r@ == media_type_of(b@),
{
    file_format::FileFormat::from_bytes(b).media_type().to_string()
}

} // verus!
