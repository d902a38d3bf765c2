//! The compact binary encoding of registry entries: round trips, and
//! rejection of byte strings that are not encodings.

use tdx_identity::codec::{decode_entry, encode_entry};
use tdx_identity::types::{IdentityInfo, RegistryEntry};

fn sample_identity(tag: u8) -> IdentityInfo {
    IdentityInfo {
        pubkey: [tag; 32],
        instance_signature: [tag.wrapping_add(1); 64],
        identity_signature: [tag.wrapping_add(2); 64],
    }
}

fn entries_equal(a: &RegistryEntry, b: &RegistryEntry) -> bool {
    let ids_equal = |x: &Option<IdentityInfo>, y: &Option<IdentityInfo>| match (x, y) {
        (None, None) => true,
        (Some(x), Some(y)) => {
            x.pubkey == y.pubkey && x.instance_signature[..] == y.instance_signature[..]
                && x.identity_signature[..] == y.identity_signature[..]
        },
        _ => false,
    };
    a.ppid == b.ppid && a.attestation_quote == b.attestation_quote
        && ids_equal(&a.operator, &b.operator) && ids_equal(&a.owner, &b.owner)
}

fn round_trips(entry: RegistryEntry) {
    let encoded = encode_entry(&entry);
    let decoded = decode_entry(&encoded).expect("an encoding must decode");
    assert!(entries_equal(&entry, &decoded));
}

#[test]
fn empty_entry_round_trips() {
    round_trips(RegistryEntry {
        ppid: vec![],
        attestation_quote: vec![],
        operator: None,
        owner: None,
    });
}

#[test]
fn operator_only_entry_round_trips() {
    round_trips(RegistryEntry {
        ppid: vec![1, 2, 3],
        attestation_quote: vec![4; 100],
        operator: Some(sample_identity(7)),
        owner: None,
    });
}

#[test]
fn full_entry_round_trips() {
    round_trips(RegistryEntry {
        ppid: (0..=255u8).collect(),
        attestation_quote: vec![9; 1000],
        operator: Some(sample_identity(7)),
        owner: Some(sample_identity(40)),
    });
}

#[test]
fn truncated_encoding_is_rejected() {
    let entry = RegistryEntry {
        ppid: vec![1, 2, 3],
        attestation_quote: vec![4, 5],
        operator: Some(sample_identity(1)),
        owner: None,
    };
    let encoded = encode_entry(&entry);
    assert!(decode_entry(&encoded[..encoded.len() - 1]).is_none());
}

#[test]
fn trailing_garbage_is_rejected() {
    let entry = RegistryEntry {
        ppid: vec![1],
        attestation_quote: vec![],
        operator: None,
        owner: None,
    };
    let mut encoded = encode_entry(&entry);
    encoded.push(0);
    assert!(decode_entry(&encoded).is_none());
}

#[test]
fn bad_presence_byte_is_rejected() {
    let entry = RegistryEntry {
        ppid: vec![1],
        attestation_quote: vec![2],
        operator: None,
        owner: None,
    };
    let mut encoded = encode_entry(&entry);
    let n = encoded.len();
    encoded[n - 2] = 9;
    assert!(decode_entry(&encoded).is_none());
}

#[test]
fn short_input_is_rejected() {
    assert!(decode_entry(&[]).is_none());
    assert!(decode_entry(&[0, 0, 0]).is_none());
}
