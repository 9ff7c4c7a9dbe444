use aes_gcm_siv::aead::generic_array::GenericArray;
use aes_gcm_siv::aead::{Aead, NewAead};
use aes_gcm_siv::Aes256GcmSiv;
use flate2::bufread::GzEncoder;
use flate2::Compression;
use secret_share::codec::{MAX_MESSAGE_LEN, NONCE_LEN, TAG_LEN};
use secret_share::{
    decode, encode, encode_with_nonce, fail_with, frame, load, random_bytes, store, unpack, Error,
    Key,
};
use std::io::Read;

fn gzip(data: &[u8]) -> Vec<u8> {
    let mut encoder = GzEncoder::new(data, Compression::default());
    let mut out = Vec::new();
    encoder.read_to_end(&mut out).unwrap();
    out
}

fn seal_directly(key: &Key, nonce: &[u8; 12], message: &[u8]) -> Vec<u8> {
    let cipher = Aes256GcmSiv::new(GenericArray::from_slice(key.as_ref()));
    cipher.encrypt(GenericArray::from_slice(nonce), message).unwrap()
}

#[test]
fn round_trip() {
    let in_text = "hallo bye";
    let password = "secret";

    let between_file = encode(in_text.as_bytes(), &Key::from(password)).unwrap();
    let out_file = decode(&between_file, &Key::from(password)).unwrap();

    let out_text = String::from_utf8(out_file).unwrap();
    assert_eq!(in_text, out_text);
}

#[test]
fn constants_match_the_cipher() {
    assert_eq!(NONCE_LEN, 12);
    assert_eq!(TAG_LEN, 16);
    assert_eq!(MAX_MESSAGE_LEN, 1u64 << 36);
    assert_eq!(MAX_MESSAGE_LEN, aes_gcm_siv::P_MAX);
}

#[test]
fn round_trip_of_binary_payload() {
    let key = Key::from("k");
    let payload: Vec<u8> = (0..=255u8).cycle().take(5000).collect();
    let blob = encode(&payload, &key).unwrap();
    assert_eq!(decode(&blob, &key), Ok(payload));
}

#[test]
fn empty_plaintext_round_trips() {
    let key = Key::from("");
    let blob = encode(&[], &key).unwrap();
    assert_eq!(blob.len(), gzip(&[]).len() + 28);
    assert_eq!(decode(&blob, &key), Ok(Vec::new()));
}

#[test]
fn blob_is_compressed_size_plus_28() {
    let key = Key::from("secret");
    let text = "the quick brown fox ".repeat(200);
    let blob = encode(text.as_bytes(), &key).unwrap();
    assert_eq!(blob.len(), gzip(text.as_bytes()).len() + 12 + 16);
    assert!(blob.len() < text.len());
}

#[test]
fn encode_with_nonce_is_nonce_then_sealed_gzip() {
    let key = Key::from("secret");
    let nonce = [7u8; 12];
    let blob = encode_with_nonce(b"hallo bye", &key, &nonce).unwrap();
    let mut expected = nonce.to_vec();
    expected.extend_from_slice(&seal_directly(&key, &nonce, &gzip(b"hallo bye")));
    assert_eq!(blob, expected);
    assert_ne!(&blob[12..], &b"hallo bye"[..]);
    assert_eq!(decode(&blob, &key), Ok(b"hallo bye".to_vec()));
}

#[test]
fn encode_with_nonce_is_deterministic() {
    let key = Key::from("secret");
    let nonce = [1u8, 2, 3, 4, 5, 6, 7, 8, 9, 10, 11, 12];
    let first = encode_with_nonce(b"payload", &key, &nonce).unwrap();
    let second = encode_with_nonce(b"payload", &key, &nonce).unwrap();
    assert_eq!(first, second);
    assert_eq!(&first[..12], &nonce[..]);
}

#[test]
fn two_encodings_differ_in_their_nonce_and_both_decode() {
    let key = Key::from("secret");
    let first = encode(b"same plaintext", &key).unwrap();
    let second = encode(b"same plaintext", &key).unwrap();
    assert_ne!(&first[..12], &second[..12]);
    assert_ne!(first, second);
    assert_eq!(decode(&first, &key), Ok(b"same plaintext".to_vec()));
    assert_eq!(decode(&second, &key), Ok(b"same plaintext".to_vec()));
}

#[test]
fn random_bytes_are_fresh() {
    assert_ne!(random_bytes(), random_bytes());
}

#[test]
fn short_blobs_are_malformed() {
    let key = Key::from("secret");
    for len in 0..12usize {
        let blob = vec![0xabu8; len];
        assert_eq!(decode(&blob, &key), Err(Error::MalformedBlob));
    }
}

#[test]
fn blobs_without_room_for_a_tag_fail_authentication() {
    let key = Key::from("secret");
    for len in 12..28usize {
        let blob = vec![0u8; len];
        assert_eq!(decode(&blob, &key), Err(Error::AuthenticationFailure));
    }
}

#[test]
fn flipping_any_bit_after_the_nonce_fails_authentication() {
    let key = Key::from("secret");
    let blob = encode(b"hallo bye", &key).unwrap();
    for position in 12..blob.len() {
        for bit in 0..8 {
            let mut tampered = blob.clone();
            tampered[position] ^= 1 << bit;
            assert_eq!(decode(&tampered, &key), Err(Error::AuthenticationFailure));
        }
    }
}

#[test]
fn flipping_a_nonce_bit_fails_authentication() {
    let key = Key::from("secret");
    let blob = encode(b"hallo bye", &key).unwrap();
    for position in 0..12 {
        let mut tampered = blob.clone();
        tampered[position] ^= 0x80;
        assert_eq!(decode(&tampered, &key), Err(Error::AuthenticationFailure));
    }
}

#[test]
fn truncated_blob_fails_authentication() {
    let key = Key::from("secret");
    let mut blob = encode(b"hallo bye", &key).unwrap();
    blob.pop();
    assert_eq!(decode(&blob, &key), Err(Error::AuthenticationFailure));
}

#[test]
fn wrong_key_is_rejected() {
    let blob = encode(b"hallo bye", &Key::from("secret")).unwrap();
    assert_eq!(decode(&blob, &Key::from("Secret")), Err(Error::AuthenticationFailure));
    assert_eq!(decode(&blob, &Key::from("")), Err(Error::AuthenticationFailure));
}

#[test]
fn authenticated_bytes_that_are_not_gzip_fail_decompression() {
    let key = Key::from("secret");
    let nonce = [9u8; 12];
    let mut blob = nonce.to_vec();
    blob.extend_from_slice(&seal_directly(&key, &nonce, b"not a gzip stream"));
    assert_eq!(decode(&blob, &key), Err(Error::DecompressionFailure));
}

#[test]
fn store_writes_nonce_then_bytes() {
    let mut out = vec![0xffu8];
    store(&mut out, &[1, 2, 3], &[9u8; 12]);
    assert_eq!(out, vec![0xff, 9, 9, 9, 9, 9, 9, 9, 9, 9, 9, 9, 9, 1, 2, 3]);
}

#[test]
fn load_splits_nonce_from_rest() {
    let blob: Vec<u8> = (0u8..20).collect();
    let mut rest = vec![0xeeu8];
    let nonce = load(&blob, &mut rest).unwrap();
    assert_eq!(nonce, [0, 1, 2, 3, 4, 5, 6, 7, 8, 9, 10, 11]);
    assert_eq!(rest, vec![0xee, 12, 13, 14, 15, 16, 17, 18, 19]);
}

#[test]
fn load_of_exactly_a_nonce_leaves_nothing() {
    let mut rest = Vec::new();
    assert_eq!(load(&[5u8; 12], &mut rest), Ok([5u8; 12]));
    assert!(rest.is_empty());
}

#[test]
fn load_rejects_short_input_and_leaves_buffer() {
    let mut rest = vec![1u8, 2];
    assert_eq!(load(&[0u8; 11], &mut rest), Err(Error::MalformedBlob));
    assert_eq!(rest, vec![1, 2]);
}

#[test]
fn load_inverts_store() {
    let mut blob = Vec::new();
    store(&mut blob, b"sealed bytes", &[3u8; 12]);
    let mut rest = Vec::new();
    assert_eq!(load(&blob, &mut rest), Ok([3u8; 12]));
    assert_eq!(rest, b"sealed bytes".to_vec());
}

#[test]
fn frame_puts_nonce_first_or_reports_too_large() {
    assert_eq!(frame(Some(vec![1, 2]), &[0u8; 12]), Ok(vec![0, 0, 0, 0, 0, 0, 0, 0, 0, 0, 0, 0, 1, 2]));
    assert_eq!(frame(None, &[0u8; 12]), Err(Error::PayloadTooLarge));
}

#[test]
fn unpack_maps_each_outcome() {
    assert_eq!(unpack(None), Err(Error::AuthenticationFailure));
    assert_eq!(unpack(Some(b"junk".to_vec())), Err(Error::DecompressionFailure));
    assert_eq!(unpack(Some(Vec::new())), Err(Error::DecompressionFailure));
    assert_eq!(unpack(Some(gzip(b"hallo bye"))), Ok(b"hallo bye".to_vec()));
}

#[test]
fn fail_with_keeps_success_and_replaces_failure() {
    let kept: Result<u8, ()> = Ok(3);
    assert_eq!(fail_with(kept, Error::CompressionFailure), Ok(3));
    let failed: Result<u8, String> = Err(String::from("disk on fire"));
    assert_eq!(fail_with(failed, Error::CompressionFailure), Err(Error::CompressionFailure));
}

#[test]
fn a_nonce_and_nothing_else_fails_authentication() {
    let key = Key::from("secret");
    assert_eq!(decode(&[0u8; 12], &key), Err(Error::AuthenticationFailure));
    assert_eq!(decode(&[0u8; 27], &key), Err(Error::AuthenticationFailure));
    assert_eq!(decode(&[0u8; 28], &key), Err(Error::AuthenticationFailure));
    assert_eq!(decode(&[0u8; 11], &key), Err(Error::MalformedBlob));
}

#[test]
fn empty_plaintext_encodes_to_at_least_28_bytes() {
    let blob = encode(b"", &Key::from("secret")).unwrap();
    assert!(blob.len() >= 28);
}
