use buildsys::token::{append_token, token};
use sha2::{Digest, Sha512};

#[test]
fn token_is_digest_prefix() {
    // SHA-512("abc") begins with ddaf35a19361...
    assert_eq!(token("abc"), "ddaf35a19361");
}

#[test]
fn token_matches_reference_digest() {
    let root = "/home/user/checkout";
    let mut d = Sha512::new();
    d.update(root.as_bytes());
    let expected: String = hex::encode(d.finalize()).chars().take(12).collect();
    assert_eq!(token(root), expected);
}

#[test]
fn token_is_stable_and_root_dependent() {
    assert_eq!(token("/some/root"), token("/some/root"));
    assert_ne!(token("/some/root"), token("/other/root"));
    assert_eq!(token("/some/root").len(), 12);
}

#[test]
fn append_token_appends_hyphenated_suffix() {
    let tag = append_token("buildsys-pkg-foo-x86_64", "abc");
    assert_eq!(tag, "buildsys-pkg-foo-x86_64-ddaf35a19361");
}
