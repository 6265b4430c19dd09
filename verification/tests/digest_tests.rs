use afirmflasher::digest::checksum;

#[test]
fn empty_input_has_known_digest() {
    assert_eq!(
        checksum(&[]),
        "e3b0c44298fc1c149afbf4c8996fb92427ae41e4649b934ca495991b7852b855"
    );
}

#[test]
fn known_digest_of_abc() {
    assert_eq!(
        checksum(b"abc"),
        "ba7816bf8f01cfea414140de5dae2223b00361a396177a9cb410ff61f20015ad"
    );
}

#[test]
fn digest_is_hex_lower_and_fixed_length() {
    let d = checksum(b"firmware image bytes");
    assert_eq!(d.len(), 64);
    assert!(d.chars().all(|c| c.is_ascii_hexdigit() && !c.is_ascii_uppercase()));
}

#[test]
fn digest_is_deterministic() {
    let bytes = b"same bytes, read twice without an intervening write";
    assert_eq!(checksum(bytes), checksum(bytes));
}

#[test]
fn different_bytes_give_different_digests() {
    assert_ne!(checksum(b"boot image v1"), checksum(b"boot image v2"));
}
