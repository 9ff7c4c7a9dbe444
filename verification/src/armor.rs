//! Text armor: URL-safe base64 with padding, as carried in URL fragments,
//! request bodies and store identifiers.
use crate::codec::fail_with;
use crate::error::Error;
use vstd::prelude::*;
use vstd::utf8::encode_utf8;

verus! {

/// The URL-safe, padded base64 text of a byte string.
pub uninterp spec fn base64_text(bytes: Seq<u8>) -> Seq<char>;

/// The bytes that URL-safe, padded base64 input stands for, or `None` where
/// the input is not valid base64.
pub uninterp spec fn base64_bytes(text: Seq<u8>) -> Option<Seq<u8>>;

/// The UTF-8 bytes of a text.
pub open spec fn utf8(text: Seq<char>) -> Seq<u8> {
    encode_utf8(text)
}

/// Calls `base64::encode_config` with `base64::URL_SAFE`.
///
/// Trusted, as read from the encoder's source: the text depends on the input
/// alone, holds four characters for every three bytes started, and
/// `base64::decode_config` with the same configuration turns it back into the
/// input. The encoder gives up only where the text's length does not fit a
/// `usize`, which no slice in memory is long enough to cause.
#[verifier::external_body]
pub(crate) fn base64_encode(input: &[u8]) -> (text: String)
    ensures
        text@ == base64_text(input@),
        text@.len() == 4 * ((input@.len() + 2) / 3),
        base64_bytes(utf8(text@)) == Some(input@),
{
    base64::encode_config(input, base64::URL_SAFE)
}

/// Calls `base64::decode_config` with `base64::URL_SAFE`.
///
/// Trusted: the outcome depends on the input alone. Nothing is promised about
/// which inputs are accepted.
#[verifier::external_body]
pub(crate) fn base64_decode(input: &[u8]) -> (res: Result<Vec<u8>, base64::DecodeError>)
    ensures
        res matches Ok(bytes) ==> base64_bytes(input@) == Some(bytes@),
        res is Err ==> base64_bytes(input@) is None,
{
    base64::decode_config(input, base64::URL_SAFE)
}

/// Armors a blob for transport as text.
pub fn armor(blob: &[u8]) -> (text: String)
    ensures
        text@ == base64_text(blob@),
        text@.len() == 4 * ((blob@.len() + 2) / 3),
        base64_bytes(utf8(text@)) == Some(blob@),
{
    base64_encode(blob)
}

/// Recovers the bytes behind armored text; text that is not valid base64 is
/// a malformed blob.
pub fn unarmor(text: &[u8]) -> (res: Result<Vec<u8>, Error>)
    ensures
        match base64_bytes(text@) {
            Some(bytes) => res is Ok && res->Ok_0@ == bytes,
            None => res == Err::<Vec<u8>, Error>(Error::MalformedBlob),
        },
{
    fail_with(base64_decode(text), Error::MalformedBlob)
}

} // verus!
