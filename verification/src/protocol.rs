//! The retrieval protocol.
//!
//! Publishing seals a payload under a key derived from a passphrase and yields
//! the fragment that carries the sealed blob, the identifier under which the
//! passphrase is stored, and the passphrase itself. Consuming takes what the
//! store handed out for the identifier, exactly once, and opens the fragment
//! with it. Talking to the store is the caller's part: the functions here
//! decide what is sent and what an answer means.
//!
//! The server never sees the payload. It keeps each passphrase sealed under a
//! server-wide key: [`encrypt`] prepares the value that is stored, [`decrypt`]
//! recovers what is handed out.
use crate::armor::{armor, base64_bytes, base64_decode, base64_text, unarmor, utf8};
use crate::codec::{bytes_view, decode, decoded, encode, encode_failure, encoded, nonce_of, random_bytes, NONCE_LEN};
use crate::error::{Error, InvalidBase64, NotFound};
use crate::key::{sha256, sha256_digest, Key};
use vstd::prelude::*;
use vstd::string::*;

verus! {

/// How long a stored passphrase lives before the store discards it: 24 hours.
pub const SECRET_TTL_SECONDS: u64 = 86400;

/// The key of a passphrase.
pub open spec fn derived_key(passphrase: Seq<char>) -> Seq<u8> {
    sha256_digest(utf8(passphrase))
}

/// The store identifier that belongs to a fragment: the base64 text of the
/// SHA-256 digest of the fragment's text.
pub open spec fn spec_identifier(content_handle: Seq<char>) -> Seq<char> {
    base64_text(sha256_digest(utf8(content_handle)))
}

/// `text` is the armor of twelve bytes.
pub open spec fn is_token(text: Seq<char>) -> bool {
    exists|seed: Seq<u8>| seed.len() == 12 && text == #[trigger] base64_text(seed)
}

/// `text` is the armor of a blob that encodes `plaintext` under `key`, and
/// that decodes to it.
pub open spec fn armored_encoding(text: Seq<char>, plaintext: Seq<u8>, key: Seq<u8>) -> bool {
    match base64_bytes(utf8(text)) {
        Some(blob) => {
            &&& text == base64_text(blob)
            &&& blob.len() >= NONCE_LEN
            &&& encoded(plaintext, key, nonce_of(blob)) == Ok::<Seq<u8>, Error>(blob)
            &&& decoded(blob, key) == Ok::<Seq<u8>, Error>(plaintext)
        },
        None => false,
    }
}

/// What the store answered to a take-once request.
#[derive(Debug, PartialEq, Eq)]
pub enum Taken {
    /// The value that was stored; it is gone from the store now.
    Value(String),
    /// Nothing under the identifier: never created, already taken, or expired.
    Absent,
    /// The store could not be reached.
    Unavailable,
}

/// What publishing a secret yields.
#[derive(Debug, PartialEq, Eq)]
pub struct Publication {
    /// The identifier under which the passphrase is to be stored.
    pub id: String,
    /// The armored blob; it travels in the URL fragment and never reaches the
    /// server.
    pub fragment: String,
    /// The passphrase to store under `id`.
    pub passphrase: String,
}

/// Which page a location shows.
#[derive(Debug, PartialEq, Eq)]
pub enum Page {
    /// No fragment: the page on which a secret is written.
    Compose,
    /// A fragment: the page that reveals the secret behind it.
    Reveal { id: String, payload: String },
}

/// A fresh random passphrase: the armor of twelve random bytes.
pub fn random_token() -> (token: String)
    ensures
        is_token(token@),
        token@.len() == 16,
{
    let seed = random_bytes();
    let token = armor(seed.as_slice());
    assert(seed@.len() == 12);
    assert(token@ == base64_text(seed@));
    token
}

/// The store identifier of a fragment.
pub fn identifier(content_handle: &str) -> (id: String)
    ensures
        id@ == spec_identifier(content_handle@),
{
    let digest = sha256(content_handle);
    armor(digest.as_slice())
}

/// Encodes `plaintext` under `key` and armors the blob.
pub fn seal_text(plaintext: &[u8], key: &Key) -> (res: Result<String, Error>)
    ensures
        res matches Ok(text) ==> armored_encoding(text@, plaintext@, key@),
        res matches Err(error) ==> encode_failure(plaintext@) == Some(error),
        res is Ok <==> encode_failure(plaintext@) is None,
{
    match encode(plaintext, key) {
        Ok(blob) => Ok(armor(blob.as_slice())),
        Err(error) => Err(error),
    }
}

/// What a publication must satisfy for `plaintext`.
pub open spec fn published(publication: Publication, plaintext: Seq<u8>) -> bool {
    &&& armored_encoding(
        publication.fragment@,
        plaintext,
        derived_key(publication.passphrase@),
    )
    &&& publication.id@ == spec_identifier(publication.fragment@)
    &&& consumed(Taken::Value(publication.passphrase), publication.fragment@) == Ok::<
        Seq<u8>,
        Error,
    >(plaintext)
}

/// Publishes `plaintext`.
///
/// Without a passphrase a random one is drawn. The payload is sealed under
/// the passphrase's key and armored into the fragment; the identifier is
/// computed from the fragment. The caller then stores the passphrase under
/// the identifier, with [`SECRET_TTL_SECONDS`] to live. Consuming the
/// fragment with the stored passphrase gives the plaintext back.
pub fn publish(plaintext: &[u8], passphrase: Option<String>) -> (res: Result<Publication, Error>)
    ensures
        res matches Ok(publication) ==> published(publication, plaintext@),
        res matches Ok(publication) ==> match passphrase {
            Some(given) => publication.passphrase@ == given@,
            None => is_token(publication.passphrase@),
        },
        res matches Err(error) ==> encode_failure(plaintext@) == Some(error),
        res is Ok <==> encode_failure(plaintext@) is None,
{
    let passphrase = match passphrase {
        Some(given) => given,
        None => random_token(),
    };
    let key = Key::from(passphrase.as_str());
    match seal_text(plaintext, &key) {
        Ok(fragment) => {
            let id = identifier(fragment.as_str());
            Ok(Publication { id, fragment, passphrase })
        },
        Err(error) => Err(error),
    }
}

/// What consuming a fragment yields, given the store's answer.
pub open spec fn consumed(taken: Taken, content_handle: Seq<char>) -> Result<Seq<u8>, Error> {
    match taken {
        Taken::Absent => Err(Error::NotFound),
        Taken::Unavailable => Err(Error::StoreUnavailable),
        Taken::Value(passphrase) => match base64_bytes(utf8(content_handle)) {
            None => Err(Error::MalformedBlob),
            Some(blob) => decoded(blob, derived_key(passphrase@)),
        },
    }
}

/// Consumes a fragment with what the store handed out for its identifier.
///
/// An absent record is `NotFound`, whatever made it absent; an unreachable
/// store is `StoreUnavailable`. Otherwise the fragment is unarmored and
/// decoded under the key of the passphrase that was taken. The take cannot
/// be repeated: a fragment that fails here has lost its secret.
pub fn consume(taken: Taken, content_handle: &str) -> (res: Result<Vec<u8>, Error>)
    ensures
        bytes_view(res) == consumed(taken, content_handle@),
{
    let passphrase = match taken.value() {
        Ok(passphrase) => passphrase,
        Err(error) => {
            return Err(error);
        },
    };
    let blob = match unarmor(content_handle.as_bytes()) {
        Ok(blob) => blob,
        Err(error) => {
            return Err(error);
        },
    };
    let key = Key::from(passphrase.as_str());
    decode(blob.as_slice(), &key)
}

impl Taken {
    /// The value that was handed out. An absent record is `NotFound`,
    /// whatever made it absent; an unreachable store is `StoreUnavailable`.
    pub fn value(self) -> (res: Result<String, Error>)
        ensures
            res == match self {
                Taken::Value(value) => Ok::<String, Error>(value),
                Taken::Absent => Err::<String, Error>(Error::NotFound),
                Taken::Unavailable => Err::<String, Error>(Error::StoreUnavailable),
            },
    {
        match self {
            Taken::Value(value) => Ok(value),
            Taken::Absent => Err(Error::NotFound),
            Taken::Unavailable => Err(Error::StoreUnavailable),
        }
    }

    /// Reads the body of an answer to a take-once request: a passphrase is
    /// always valid base64, so any other text means that nothing was handed
    /// out.
    pub fn from_response(text: String) -> (taken: Taken)
        ensures
            base64_bytes(utf8(text@)) is Some ==> taken == Taken::Value(text),
            base64_bytes(utf8(text@)) is None ==> taken == Taken::Absent,
    {
        match base64_decode(text.as_str().as_bytes()) {
            Ok(_) => Taken::Value(text),
            Err(_) => Taken::Absent,
        }
    }
}

/// Decides which page belongs to a location's hash: none for an empty hash;
/// otherwise the hash without its leading `#` is the fragment, and the
/// identifier is computed from it.
pub fn route(location_hash: &str) -> (page: Page)
    ensures
        match page {
            Page::Compose => location_hash@.len() == 0,
            Page::Reveal { id, payload } => {
                &&& location_hash@.len() > 0
                &&& payload@ == location_hash@.subrange(1, location_hash@.len() as int)
                &&& id@ == spec_identifier(payload@)
            },
        },
{
    let len: usize = location_hash.unicode_len();
    if len == 0 {
        Page::Compose
    } else {
        let payload = location_hash.substring_char(1, len);
        let id = identifier(payload);
        Page::Reveal { id, payload: payload.to_owned() }
    }
}

/// The URL that reveals a secret: the base, `/#`, and the fragment.
pub fn share_url(base_url: &str, fragment: &str) -> (url: String)
    ensures
        url@ == base_url@ + "/#"@ + fragment@,
{
    let mut url = base_url.to_owned();
    url.append("/#");
    url.append(fragment);
    url
}

/// The path of a secret on the server: `/api/` and the identifier.
pub fn api_path(id: &str) -> (path: String)
    ensures
        path@ == "/api/"@ + id@,
{
    let mut path = "/api/".to_owned();
    path.append(id);
    path
}

/// The server-wide key: derived from the configured secret, or from
/// `"super secret"` where none is configured.
pub fn secret_key(configured: Option<String>) -> (key: Key)
    ensures
        key@ == derived_key(
            match configured {
                Some(raw) => raw@,
                None => "super secret"@,
            },
        ),
{
    match configured {
        Some(raw) => Key::from(raw.as_str()),
        None => Key::from("super secret"),
    }
}

/// What sealing a request body for storage yields: the body must be valid
/// base64 and its bytes must be encodable.
pub open spec fn encryptable(secret: Seq<u8>) -> bool {
    match base64_bytes(secret) {
        Some(raw) => encode_failure(raw) is None,
        None => false,
    }
}

/// Prepares a posted secret for the store: the body is unarmored, sealed
/// under the server key and armored again. Any failure is `InvalidBase64`.
/// What comes out decrypts, under the same key, to the armor of the bytes
/// that were posted.
pub fn encrypt(id: String, secret: &[u8], key: &Key) -> (res: Result<(String, String), InvalidBase64>)
    ensures
        res is Ok <==> encryptable(secret@),
        res matches Ok(pair) ==> pair.0 == id && armored_encoding(
            pair.1@,
            base64_bytes(secret@)->Some_0,
            key@,
        ),
        res matches Ok(pair) ==> decrypted(pair.1@, key@) == Ok::<Seq<char>, NotFound>(
            base64_text(base64_bytes(secret@)->Some_0),
        ),
{
    let raw = match unarmor(secret) {
        Ok(raw) => raw,
        Err(_) => {
            return Err(InvalidBase64);
        },
    };
    match seal_text(raw.as_slice(), key) {
        Ok(encoded_secret) => Ok((id, encoded_secret)),
        Err(_) => Err(InvalidBase64),
    }
}

/// What recovering a stored value yields.
pub open spec fn decrypted(txt: Seq<char>, key: Seq<u8>) -> Result<Seq<char>, NotFound> {
    match base64_bytes(utf8(txt)) {
        None => Err(NotFound),
        Some(blob) => match decoded(blob, key) {
            Ok(secret) => Ok(base64_text(secret)),
            Err(_) => Err(NotFound),
        },
    }
}

/// Recovers a stored value for handing out: the text is unarmored, decoded
/// under the server key and armored again. Any failure is `NotFound`.
pub fn decrypt(txt: &str, key: &Key) -> (res: Result<String, NotFound>)
    ensures
        match decrypted(txt@, key@) {
            Ok(text) => res is Ok && res->Ok_0@ == text,
            Err(_) => res is Err,
        },
{
    let bytes = match unarmor(txt.as_bytes()) {
        Ok(bytes) => bytes,
        Err(_) => {
            return Err(NotFound);
        },
    };
    match decode(bytes.as_slice(), key) {
        Ok(out_bytes) => Ok(armor(out_bytes.as_slice())),
        Err(_) => Err(NotFound),
    }
}

} // verus!
