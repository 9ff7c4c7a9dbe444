//! Key derivation: a passphrase is hashed with SHA-256 and the digest is the
//! 256-bit key. Deterministic and total; the empty passphrase is a valid input.
use vstd::prelude::*;
use vstd::string::StringSliceAdditionalSpecFns;

verus! {

/// Length of a SHA-256 digest and of a symmetric key, in bytes.
pub const KEY_LEN: usize = 32;

/// The SHA-256 digest of a byte string, as computed by `sha2::Sha256`.
pub uninterp spec fn sha256_digest(data: Seq<u8>) -> Seq<u8>;

/// Calls `sha2::Sha256::digest` (through the `Digest` trait) on `data` and
/// copies the 32-byte output into an array. Trusted: the output is the value
/// named [`sha256_digest`] of the input bytes; the hash reads nothing else.
#[verifier::external_body]
fn digest_bytes(data: &[u8]) -> (out: [u8; 32])
    ensures
        out@ == sha256_digest(data@),
{
    <sha2::Sha256 as sha2::Digest>::digest(data).into()
}

/// A 256-bit symmetric key.
#[derive(Debug)]
pub struct Key {
    inner_key: [u8; 32],
}

impl View for Key {
    type V = Seq<u8>;

    closed spec fn view(&self) -> Seq<u8> {
        self.inner_key@
    }
}

impl Key {
    /// Derives the key of a passphrase: the SHA-256 digest of its UTF-8 bytes.
    pub fn from(input: &str) -> (key: Key)
        ensures
            key@ == sha256_digest(input.spec_bytes()),
            key@.len() == KEY_LEN,
    {
        let hash = digest_bytes(input.as_bytes());
        Key { inner_key: hash }
    }

    /// The key bytes.
    pub fn as_ref(&self) -> (bytes: &[u8; 32])
        ensures
            bytes@ == self@,
    {
        &self.inner_key
    }

    /// A key is always 32 bytes long.
    pub proof fn lemma_len(&self)
        ensures
            self@.len() == KEY_LEN,
    {
    }
}

/// The SHA-256 digest of the UTF-8 bytes of `input`.
pub fn sha256(input: &str) -> (digest: [u8; 32])
    ensures
        digest@ == sha256_digest(input.spec_bytes()),
{
    digest_bytes(input.as_bytes())
}

} // verus!
