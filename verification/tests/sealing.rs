//! Key material for the encrypted volume, and the SSH owner-key match.

use sha2::Digest;
use tdx_identity::identity::{generate_encryption_key, ssh_key_matches_owner};

#[test]
fn key_material_is_hex_of_sha256_over_key_and_ppid() {
    let owner_pubkey = [5u8; 32];
    let ppid = vec![7u8; 16];
    let mut material: Vec<u8> = Vec::new();
    material.extend_from_slice(&owner_pubkey);
    material.extend_from_slice(&ppid);
    let expected = hex::encode(sha2::Sha256::digest(&material));
    assert_eq!(generate_encryption_key(&owner_pubkey, &ppid), expected);
    assert_eq!(generate_encryption_key(&owner_pubkey, &ppid).len(), 64);
}

#[test]
fn key_material_has_a_known_value() {
    // SHA-256 of the empty string, in lower-case hex.
    assert_eq!(
        generate_encryption_key(&[], &[]),
        "e3b0c44298fc1c149afbf4c8996fb92427ae41e4649b934ca495991b7852b855"
    );
}

#[test]
fn ssh_key_suffix_match_accepts_the_owner() {
    let owner = [9u8; 32];
    assert!(ssh_key_matches_owner(&owner, &owner));
    let mut with_header = vec![1u8, 2, 3];
    with_header.extend_from_slice(&owner);
    assert!(ssh_key_matches_owner(&with_header, &owner));
}

#[test]
fn ssh_key_suffix_match_rejects_strangers() {
    let owner = [9u8; 32];
    let mut other = [9u8; 32];
    other[31] = 8;
    assert!(!ssh_key_matches_owner(&other, &owner));
    assert!(!ssh_key_matches_owner(&owner[..31], &owner));
    assert!(!ssh_key_matches_owner(&[], &owner));
}
