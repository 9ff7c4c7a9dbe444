//! One-time secret sharing.
//!
//! A payload is compressed, sealed under a key derived from a passphrase and
//! framed as `nonce || ciphertext`. The sealed blob travels in a URL fragment;
//! the passphrase is held by a key-value store under an identifier computed
//! from the fragment, and is handed out at most once.
//!
//! * [`error`]: the failure taxonomy and how it collapses at the HTTP boundary.
//! * [`key`]: key derivation from a passphrase (SHA-256).
//! * [`codec`]: the authenticated codec (gzip, AES-256-GCM-SIV, framing).
//! * [`armor`]: URL-safe base64 text armor.
//! * [`protocol`]: publishing and consuming a secret, on both sides of the wire.
//! * [`backend`]: a deterministic in-memory store with expiry and take-once.
//! * [`outside`]: the outside types that cross the trusted calls.
//!
//! The hash, the cipher, the compressor, the base64 codec and the random
//! source are outside code, called through small trusted functions whose doc
//! comments say what is believed of them. Everything else is verified.
pub mod armor;
pub mod backend;
pub mod codec;
pub mod error;
pub mod key;
pub mod outside;
pub mod protocol;

pub use armor::{armor, unarmor};
pub use backend::{CreateOutcome, FakeBackend};
pub use codec::{decode, encode, encode_with_nonce, fail_with, frame, load, random_bytes, store, unpack};
pub use error::{handle_rejection, Error, InvalidBase64, NotFound, RejectionCause, Reply, StatusCode};
pub use key::{sha256, sha256_digest, Key};
pub use protocol::{
    api_path, consume, decrypt, encrypt, identifier, publish, random_token, route, seal_text,
    secret_key, share_url, Page, Publication, Taken, SECRET_TTL_SECONDS,
};
