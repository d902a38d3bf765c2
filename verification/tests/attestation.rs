//! The attestation hash: determinism, exact construction, and order
//! sensitivity.

use sha2::Digest;
use tdx_identity::report_data::create_attestation_hash;
use tdx_identity::types::IdentityInfo;

fn sample_identity(tag: u8) -> IdentityInfo {
    IdentityInfo {
        pubkey: [tag; 32],
        instance_signature: [tag.wrapping_add(1); 64],
        identity_signature: [tag.wrapping_add(2); 64],
    }
}

#[test]
fn hash_is_deterministic() {
    let pk = [7u8; 32];
    let ppid = vec![9u8; 16];
    let op = sample_identity(3);
    let ow = sample_identity(4);
    let h1 = create_attestation_hash(&pk, &ppid, Some(&op), Some(&ow));
    let h2 = create_attestation_hash(&pk, &ppid, Some(&op), Some(&ow));
    assert_eq!(h1, h2);
    assert_eq!(h1.len(), 64);
}

#[test]
fn hash_matches_sha512_of_concatenation() {
    let pk = [1u8; 32];
    let ppid = vec![2u8, 3, 4];
    let op = sample_identity(5);
    let mut message: Vec<u8> = Vec::new();
    message.extend_from_slice(&pk);
    message.extend_from_slice(&ppid);
    message.extend_from_slice(&op.pubkey);
    message.extend_from_slice(&op.instance_signature);
    message.extend_from_slice(&op.identity_signature);
    let expected: [u8; 64] = sha2::Sha512::digest(&message).into();
    let got = create_attestation_hash(&pk, &ppid, Some(&op), None);
    assert_eq!(got, expected);
}

#[test]
fn hash_depends_on_input_order() {
    let a = [1u8; 32];
    let b = vec![2u8; 32];
    let h1 = create_attestation_hash(&a, &b, None, None);
    let h2 = create_attestation_hash(&[2u8; 32], &vec![1u8; 32], None, None);
    assert_ne!(h1, h2);
}

#[test]
fn hash_distinguishes_operator_from_owner() {
    let pk = [1u8; 32];
    let ppid = vec![2u8; 8];
    let op = sample_identity(10);
    let ow = sample_identity(20);
    let h1 = create_attestation_hash(&pk, &ppid, Some(&op), Some(&ow));
    let h2 = create_attestation_hash(&pk, &ppid, Some(&ow), Some(&op));
    assert_ne!(h1, h2);
}

#[test]
fn lone_operator_and_lone_owner_contribute_alike() {
    // Absence contributes no bytes at all, so a bundle holding only an
    // operator hashes like one holding only an owner with the same bytes.
    let pk = [1u8; 32];
    let ppid = vec![2u8; 8];
    let op = sample_identity(10);
    let h1 = create_attestation_hash(&pk, &ppid, Some(&op), None);
    let h2 = create_attestation_hash(&pk, &ppid, None, Some(&op));
    assert_eq!(h1, h2);
}
