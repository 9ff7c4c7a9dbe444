//! The authenticated codec.
//!
//! Encoding compresses the plaintext (gzip, default level), seals the
//! compressed bytes with AES-256-GCM-SIV under a fresh 96-bit nonce and empty
//! associated data, and frames the result as `nonce || ciphertext || tag`.
//! Decoding splits the frame, authenticates and decrypts, and decompresses.
//!
//! The cipher and the compressor are outside code. Their results are named by
//! the uninterpreted functions below; everything around the calls (framing,
//! the order of the steps, which failure is reported when) is verified.
use crate::error::Error;
use crate::key::Key;
use aes_gcm_siv::aead::generic_array::GenericArray;
use aes_gcm_siv::aead::{Aead, NewAead};
use aes_gcm_siv::Aes256GcmSiv;
use flate2::bufread::{GzDecoder, GzEncoder};
use flate2::Compression;
use rand_core::{OsRng, RngCore};
use std::io::{BufReader, Read};
use vstd::prelude::*;

verus! {

/// Length of the nonce that leads every blob, in bytes.
pub const NONCE_LEN: usize = 12;

/// Length of the authentication tag that ends every blob, in bytes.
pub const TAG_LEN: usize = 16;

/// The cipher's limit on a message: 2^36 bytes. Its key stream counts
/// 16-byte blocks in 32 bits, so only messages shorter than this are sealed
/// or opened.
pub const MAX_MESSAGE_LEN: u64 = 0x10_0000_0000;

/// Ciphertext and tag that AES-256-GCM-SIV produces for `message` under `key`
/// and `nonce`, with empty associated data.
pub uninterp spec fn aead_seal(key: Seq<u8>, nonce: Seq<u8>, message: Seq<u8>) -> Seq<u8>;

/// The message AES-256-GCM-SIV recovers from `sealed` under `key` and `nonce`,
/// or `None` where it rejects the input.
pub uninterp spec fn aead_open(key: Seq<u8>, nonce: Seq<u8>, sealed: Seq<u8>) -> Option<Seq<u8>>;

/// The gzip stream the compressor produces for `data` at its default level,
/// or `None` where it reports a failure.
pub uninterp spec fn gzip(data: Seq<u8>) -> Option<Seq<u8>>;

/// The bytes the decompressor recovers from the first gzip member of `data`,
/// or `None` where it rejects the stream.
pub uninterp spec fn gunzip(data: Seq<u8>) -> Option<Seq<u8>>;

/// Calls `Aes256GcmSiv::new` and then `Aead::encrypt` with the message as the
/// whole payload (no associated data). The cipher's failure value carries no
/// detail and is dropped: a failed call is `None`.
///
/// Trusted, as read from the cipher's source: for a message shorter than 2^36
/// bytes the call succeeds and returns the message encrypted in place
/// followed by the 16-byte tag, a value that depends on key, nonce and
/// message alone, and which `Aead::decrypt` under the same key and nonce
/// turns back into the message. Longer messages are left out: at 2^36 bytes
/// the key stream's block counter runs over and the call panics.
#[verifier::external_body]
fn seal(key: &[u8; 32], nonce: &[u8; 12], message: &[u8]) -> (res: Option<Vec<u8>>)
    requires
        message@.len() < MAX_MESSAGE_LEN,
    ensures
        res is Some,
        res matches Some(sealed) ==> sealed@ == aead_seal(key@, nonce@, message@),
        res matches Some(sealed) ==> sealed@.len() == message@.len() + TAG_LEN,
        res matches Some(sealed) ==> aead_open(key@, nonce@, sealed@) == Some(message@),
{
    let cipher = Aes256GcmSiv::new(GenericArray::from_slice(key));
    cipher.encrypt(GenericArray::from_slice(nonce), message).ok()
}

/// Calls `Aes256GcmSiv::new` and then `Aead::decrypt` with `sealed` as the
/// whole payload (no associated data). The cipher's failure value carries no
/// detail and is dropped: a rejected input is `None`.
///
/// Trusted, as read from the cipher's source: the outcome depends on key,
/// nonce and input alone; on success the result is the input without its
/// last 16 bytes, decrypted, so an input shorter than the tag always fails.
/// Inputs whose body is 2^36 bytes or longer are left out: there the key
/// stream's block counter runs over and the call panics.
#[verifier::external_body]
fn unseal(key: &[u8; 32], nonce: &[u8; 12], sealed: &[u8]) -> (res: Option<Vec<u8>>)
    requires
        sealed@.len() < MAX_MESSAGE_LEN + TAG_LEN,
    ensures
        res matches Some(message) ==> aead_open(key@, nonce@, sealed@) == Some(message@),
        res matches Some(message) ==> message@.len() + TAG_LEN == sealed@.len(),
        res is None ==> aead_open(key@, nonce@, sealed@) is None,
{
    let cipher = Aes256GcmSiv::new(GenericArray::from_slice(key));
    cipher.decrypt(GenericArray::from_slice(nonce), sealed).ok()
}

/// Reads `flate2::bufread::GzEncoder` at `Compression::default()` to its end
/// over the given bytes.
///
/// Trusted: the stream depends on the input alone (the header carries no
/// time stamp and a fixed system byte), and `GzDecoder` recovers the input
/// from it. Success itself is not promised.
#[verifier::external_body]
fn deflate(data: &[u8]) -> (res: Result<Vec<u8>, std::io::Error>)
    ensures
        res matches Ok(packed) ==> gzip(data@) == Some(packed@),
        res matches Ok(packed) ==> gunzip(packed@) == Some(data@),
        res is Err ==> gzip(data@) is None,
{
    let mut encoder = GzEncoder::new(BufReader::new(data), Compression::default());
    let mut buffer = Vec::new();
    encoder.read_to_end(&mut buffer)?;
    Ok(buffer)
}

/// Copies `flate2::bufread::GzDecoder` over the given bytes to its end with
/// `std::io::copy`.
///
/// Trusted: the outcome depends on the input alone. Nothing is promised about
/// which inputs are accepted.
#[verifier::external_body]
fn inflate(data: &[u8]) -> (res: Result<Vec<u8>, std::io::Error>)
    ensures
        res matches Ok(plain) ==> gunzip(data@) == Some(plain@),
        res is Err ==> gunzip(data@) is None,
{
    let mut decoder = GzDecoder::new(data);
    let mut out = Vec::new();
    std::io::copy(&mut decoder, &mut out)?;
    Ok(out)
}

/// Twelve bytes from the operating system's random source, by
/// `OsRng.fill_bytes`. Nothing is known about the bytes, and two calls are
/// unrelated. The call panics where the system's random source fails.
#[verifier::external_body]
pub fn random_bytes() -> (bytes: [u8; 12]) {
    let mut bytes = [0u8; 12];
    OsRng.fill_bytes(&mut bytes);
    bytes
}

/// The nonce of a blob: its first twelve bytes.
pub open spec fn nonce_of(blob: Seq<u8>) -> Seq<u8> {
    blob.subrange(0, NONCE_LEN as int)
}

/// The sealed part of a blob: everything after the nonce.
pub open spec fn sealed_of(blob: Seq<u8>) -> Seq<u8> {
    blob.subrange(NONCE_LEN as int, blob.len() as int)
}

/// Why a plaintext cannot be encoded, if it cannot.
pub open spec fn encode_failure(plaintext: Seq<u8>) -> Option<Error> {
    match gzip(plaintext) {
        None => Some(Error::CompressionFailure),
        Some(packed) => if packed.len() >= MAX_MESSAGE_LEN {
            Some(Error::PayloadTooLarge)
        } else {
            None
        },
    }
}

/// The blob that encodes `plaintext` under `key` with the given nonce.
pub open spec fn encoded(plaintext: Seq<u8>, key: Seq<u8>, nonce: Seq<u8>) -> Result<
    Seq<u8>,
    Error,
> {
    match encode_failure(plaintext) {
        Some(error) => Err(error),
        None => Ok(nonce + aead_seal(key, nonce, gzip(plaintext)->Some_0)),
    }
}

/// A sealed part of this length can be handed to the cipher: it has room for
/// a tag, and its body is shorter than the cipher's limit.
pub open spec fn openable(len: nat) -> bool {
    TAG_LEN <= len < MAX_MESSAGE_LEN + TAG_LEN
}

/// What decoding `blob` under `key` yields.
pub open spec fn decoded(blob: Seq<u8>, key: Seq<u8>) -> Result<Seq<u8>, Error> {
    if blob.len() < NONCE_LEN {
        Err(Error::MalformedBlob)
    } else if !openable(sealed_of(blob).len()) {
        Err(Error::AuthenticationFailure)
    } else {
        unpacked(aead_open(key, nonce_of(blob), sealed_of(blob)))
    }
}

/// The mathematical value of a codec result.
pub open spec fn bytes_view(res: Result<Vec<u8>, Error>) -> Result<Seq<u8>, Error> {
    match res {
        Ok(bytes) => Ok(bytes@),
        Err(error) => Err(error),
    }
}

/// Keeps a success and replaces whatever failure an outside call reported by
/// the library's own `error`.
pub fn fail_with<T, E>(outcome: Result<T, E>, error: Error) -> (res: Result<T, Error>)
    ensures
        outcome matches Ok(value) ==> res == Ok::<T, Error>(value),
        outcome is Err ==> res == Err::<T, Error>(error),
{
    match outcome {
        Ok(value) => Ok(value),
        Err(_) => Err(error),
    }
}

/// Appends `bytes` to `writer`.
fn write_all(writer: &mut Vec<u8>, bytes: &[u8])
    ensures
        final(writer)@ == old(writer)@ + bytes@,
{
    let mut i: usize = 0;
    while i < bytes.len()
        invariant
            i <= bytes@.len(),
            writer@ == old(writer)@ + bytes@.subrange(0, i as int),
        decreases bytes@.len() - i,
    {
        writer.push(bytes[i]);
        i = i + 1;
    }
    assert(bytes@.subrange(0, i as int) == bytes@);
}

/// Writes a blob: the nonce, then the sealed bytes.
pub fn store(writer: &mut Vec<u8>, bytes: &[u8], nonce: &[u8; 12])
    ensures
        final(writer)@ == old(writer)@ + nonce@ + bytes@,
{
    write_all(writer, nonce.as_slice());
    write_all(writer, bytes);
}

/// Reads a blob: returns its nonce and appends the sealed rest to `buffer`.
/// A blob shorter than a nonce is malformed, and `buffer` is left as it was.
pub fn load(reader: &[u8], buffer: &mut Vec<u8>) -> (res: Result<[u8; 12], Error>)
    ensures
        reader@.len() < NONCE_LEN ==> res == Err::<[u8; 12], Error>(Error::MalformedBlob)
            && final(buffer)@ == old(buffer)@,
        reader@.len() >= NONCE_LEN ==> res is Ok && res->Ok_0@ == nonce_of(reader@)
            && final(buffer)@ == old(buffer)@ + sealed_of(reader@),
{
    if reader.len() < NONCE_LEN {
        return Err(Error::MalformedBlob);
    }
    let mut nonce = [0u8; 12];
    let mut i: usize = 0;
    while i < NONCE_LEN
        invariant
            i <= NONCE_LEN <= reader@.len(),
            forall|j: int| 0 <= j < i ==> nonce@[j] == reader@[j],
        decreases NONCE_LEN - i,
    {
        nonce[i] = reader[i];
        i = i + 1;
    }
    assert(nonce@ == nonce_of(reader@));
    let ghost before = buffer@;
    while i < reader.len()
        invariant
            NONCE_LEN <= i <= reader@.len(),
            buffer@ == before + reader@.subrange(NONCE_LEN as int, i as int),
        decreases reader@.len() - i,
    {
        buffer.push(reader[i]);
        i = i + 1;
    }
    Ok(nonce)
}

/// What follows sealing: sealed bytes are framed behind their nonce; had the
/// cipher refused, the compressed payload was too long for it.
pub fn frame(sealed: Option<Vec<u8>>, nonce: &[u8; 12]) -> (res: Result<Vec<u8>, Error>)
    ensures
        sealed is None ==> res == Err::<Vec<u8>, Error>(Error::PayloadTooLarge),
        sealed matches Some(bytes) ==> res is Ok && res->Ok_0@ == nonce@ + bytes@,
{
    match sealed {
        Some(bytes) => {
            let mut blob: Vec<u8> = Vec::new();
            store(&mut blob, bytes.as_slice(), nonce);
            Ok(blob)
        },
        None => Err(Error::PayloadTooLarge),
    }
}

/// What unpacking authenticated bytes yields.
pub open spec fn unpacked(opened: Option<Seq<u8>>) -> Result<Seq<u8>, Error> {
    match opened {
        None => Err(Error::AuthenticationFailure),
        Some(packed) => match gunzip(packed) {
            None => Err(Error::DecompressionFailure),
            Some(plaintext) => Ok(plaintext),
        },
    }
}

/// The mathematical value of what the cipher handed back.
pub open spec fn opened_view(opened: Option<Vec<u8>>) -> Option<Seq<u8>> {
    match opened {
        Some(bytes) => Some(bytes@),
        None => None,
    }
}

/// What follows opening: a refusal by the cipher is an authentication
/// failure, whatever its cause; authenticated bytes are decompressed.
pub fn unpack(opened: Option<Vec<u8>>) -> (res: Result<Vec<u8>, Error>)
    ensures
        bytes_view(res) == unpacked(opened_view(opened)),
{
    match opened {
        Some(packed) => fail_with(inflate(packed.as_slice()), Error::DecompressionFailure),
        None => Err(Error::AuthenticationFailure),
    }
}

/// Encodes `plaintext` under `key` with a nonce chosen by the caller.
///
/// The caller must never use one nonce twice under one key; [`encode`] draws
/// a fresh random nonce and is the function to use.
pub fn encode_with_nonce(plaintext: &[u8], key: &Key, nonce: &[u8; 12]) -> (res: Result<
    Vec<u8>,
    Error,
>)
    ensures
        bytes_view(res) == encoded(plaintext@, key@, nonce@),
        res matches Ok(blob) ==> nonce_of(blob@) == nonce@,
        res matches Ok(blob) ==> blob@.len() == gzip(plaintext@)->Some_0.len() + NONCE_LEN
            + TAG_LEN,
        res matches Ok(blob) ==> decoded(blob@, key@) == Ok::<Seq<u8>, Error>(plaintext@),
{
    let packed = match fail_with(deflate(plaintext), Error::CompressionFailure) {
        Ok(packed) => packed,
        Err(error) => {
            return Err(error);
        },
    };
    if packed.len() as u64 >= MAX_MESSAGE_LEN {
        return Err(Error::PayloadTooLarge);
    }
    let sealed = seal(key.as_ref(), nonce, packed.as_slice());
    let ghost sealed_bytes = opened_view(sealed);
    let res = frame(sealed, nonce);
    proof {
        if res is Ok {
            let blob = res->Ok_0@;
            assert(blob == nonce@ + sealed_bytes->Some_0);
            assert(nonce_of(blob) == nonce@);
            assert(sealed_of(blob) == sealed_bytes->Some_0);
        }
    }
    res
}

/// Encodes `plaintext` under `key`: compress, seal under a fresh random
/// nonce, frame.
///
/// The blob is the encoding of the plaintext under the nonce it carries, it
/// is 28 bytes longer than the compressed plaintext, and decoding it under
/// the same key gives the plaintext back. Encoding fails only where the
/// compressor fails or its output reaches the cipher's limit of 2^36 bytes.
pub fn encode(plaintext: &[u8], key: &Key) -> (res: Result<Vec<u8>, Error>)
    ensures
        res matches Ok(blob) ==> blob@.len() >= NONCE_LEN && encoded(
            plaintext@,
            key@,
            nonce_of(blob@),
        ) == Ok::<Seq<u8>, Error>(blob@),
        res matches Ok(blob) ==> blob@.len() == gzip(plaintext@)->Some_0.len() + NONCE_LEN
            + TAG_LEN,
        res matches Ok(blob) ==> decoded(blob@, key@) == Ok::<Seq<u8>, Error>(plaintext@),
        res matches Err(error) ==> encode_failure(plaintext@) == Some(error),
        res is Ok <==> encode_failure(plaintext@) is None,
{
    let nonce = random_bytes();
    encode_with_nonce(plaintext, key, &nonce)
}

/// Decodes `blob` under `key`: split, authenticate and decrypt, decompress.
///
/// A blob shorter than its nonce is `MalformedBlob`. One that has no room for
/// a tag behind the nonce, one too long for the cipher, and one the cipher
/// rejects, for whatever reason, are all `AuthenticationFailure`.
/// Authenticated bytes that do not decompress are `DecompressionFailure`.
pub fn decode(blob: &[u8], key: &Key) -> (res: Result<Vec<u8>, Error>)
    ensures
        bytes_view(res) == decoded(blob@, key@),
        blob@.len() < NONCE_LEN ==> res == Err::<Vec<u8>, Error>(Error::MalformedBlob),
        NONCE_LEN <= blob@.len() < NONCE_LEN + TAG_LEN ==> res == Err::<Vec<u8>, Error>(
            Error::AuthenticationFailure,
        ),
{
    let mut sealed: Vec<u8> = Vec::new();
    let nonce = match load(blob, &mut sealed) {
        Ok(nonce) => nonce,
        Err(error) => {
            return Err(error);
        },
    };
    assert(sealed@ == sealed_of(blob@));
    if sealed.len() < TAG_LEN || sealed.len() as u64 >= MAX_MESSAGE_LEN + 16 {
        return Err(Error::AuthenticationFailure);
    }
    unpack(unseal(key.as_ref(), &nonce, sealed.as_slice()))
}

} // verus!
