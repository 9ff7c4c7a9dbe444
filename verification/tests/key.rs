use secret_share::key::KEY_LEN;
use secret_share::{sha256, Key};

#[test]
fn sha256_of_empty_input() {
    assert_eq!(
        sha256(""),
        [
            227, 176, 196, 66, 152, 252, 28, 20, 154, 251, 244, 200, 153, 111, 185, 36, 39, 174,
            65, 228, 100, 155, 147, 76, 164, 149, 153, 27, 120, 82, 184, 85
        ]
    );
}

#[test]
fn sha256_of_abc() {
    assert_eq!(
        sha256("abc"),
        [
            186, 120, 22, 191, 143, 1, 207, 234, 65, 65, 64, 222, 93, 174, 34, 35, 176, 3, 97,
            163, 150, 23, 122, 156, 180, 16, 255, 97, 242, 0, 21, 173
        ]
    );
}

#[test]
fn key_is_the_digest_of_the_passphrase() {
    let key = Key::from("secret");
    assert_eq!(
        key.as_ref(),
        &[
            43, 184, 13, 83, 123, 29, 163, 227, 139, 211, 3, 97, 170, 133, 86, 134, 189, 224, 234,
            205, 113, 98, 254, 246, 162, 95, 233, 123, 245, 39, 162, 91
        ]
    );
    assert_eq!(key.as_ref(), &sha256("secret"));
    assert_eq!(key.as_ref().len(), KEY_LEN);
}

#[test]
fn derivation_is_deterministic_and_total() {
    assert_eq!(Key::from("").as_ref(), Key::from("").as_ref());
    assert_eq!(Key::from("").as_ref(), &sha256(""));
    assert_eq!(Key::from("pass phrase").as_ref(), Key::from("pass phrase").as_ref());
    assert_ne!(Key::from("a").as_ref(), Key::from("b").as_ref());
}

#[test]
fn derivation_reads_utf8_bytes() {
    assert_eq!(Key::from("\u{e9}").as_ref(), &sha256("\u{e9}"));
    assert_ne!(Key::from("\u{e9}").as_ref(), Key::from("e").as_ref());
}
