//! The registry: monotonic updates, shape and signature validation, and
//! attestation checking, against a real (temporary) store and mock quotes.

use ed25519_dalek::Signer;
use tdx_identity::registry::{get_instance, register, AppState, RegistryError};
use tdx_identity::report_data::create_attestation_hash;
use tdx_identity::types::{IdentityInfo, RegisterRequest};

fn keypair(seed: u8) -> ed25519_dalek::SigningKey {
    ed25519_dalek::SigningKey::from_bytes(&[seed; 32])
}

fn identity_for(user_seed: u8, instance_key: &ed25519_dalek::SigningKey) -> IdentityInfo {
    let user = keypair(user_seed);
    let pubkey = user.verifying_key().to_bytes();
    let instance_pub = instance_key.verifying_key().to_bytes();
    IdentityInfo {
        pubkey,
        instance_signature: user.sign(&instance_pub).to_bytes(),
        identity_signature: instance_key.sign(&pubkey).to_bytes(),
    }
}

fn quote_for(report: [u8; 64]) -> Vec<u8> {
    let ak = p256::ecdsa::SigningKey::from_slice(&[3u8; 32]).unwrap();
    let pck = p256::ecdsa::SigningKey::from_slice(&[4u8; 32]).unwrap();
    tdx_quote::Quote::mock(ak, pck, report, b"chain".to_vec()).as_bytes()
}

fn request_for(
    instance_key: &ed25519_dalek::SigningKey,
    ppid: Vec<u8>,
    operator: Option<IdentityInfo>,
    owner: Option<IdentityInfo>,
) -> RegisterRequest {
    let instance_pubkey = instance_key.verifying_key().to_bytes();
    let hash =
        create_attestation_hash(&instance_pubkey, &ppid, operator.as_ref(), owner.as_ref());
    RegisterRequest {
        instance_pubkey,
        ppid,
        attestation_quote: quote_for(hash),
        operator,
        owner,
    }
}

fn temp_state() -> AppState {
    AppState::new(sled::Config::new().temporary(true).open().unwrap())
}

#[test]
fn owner_without_operator_is_invalid() {
    let instance = keypair(1);
    let owner = identity_for(2, &instance);
    let req = request_for(&instance, vec![7; 16], None, Some(owner));
    let mut state = temp_state();
    match register(&mut state, &req, false) {
        Err(RegistryError::InvalidRequest(m)) => {
            assert_eq!(m, "Owner requires operator to be set")
        },
        _ => panic!("expected an invalid request"),
    }
}

#[test]
fn fresh_registration_is_stored_and_served() {
    let instance = keypair(1);
    let operator = identity_for(2, &instance);
    let req = request_for(&instance, vec![7; 16], Some(operator), None);
    let mut state = temp_state();
    assert!(register(&mut state, &req, false).is_ok());
    let key_hex = hex::encode(instance.verifying_key().to_bytes());
    let entry = get_instance(&state, &key_hex).expect("the entry must be served back");
    assert_eq!(entry.ppid, vec![7; 16]);
    assert_eq!(entry.operator.unwrap().pubkey, operator.pubkey);
    assert!(entry.owner.is_none());
}

#[test]
fn report_data_mismatch_is_unauthorized() {
    let instance = keypair(1);
    let operator = identity_for(2, &instance);
    let mut req = request_for(&instance, vec![7; 16], Some(operator), None);
    req.attestation_quote = quote_for([0u8; 64]);
    let mut state = temp_state();
    match register(&mut state, &req, false) {
        Err(RegistryError::Unauthorized(m)) => assert_eq!(m, "Attestation hash mismatch"),
        _ => panic!("expected unauthorized"),
    }
}

#[test]
fn truncated_quote_is_rejected() {
    let instance = keypair(1);
    let operator = identity_for(2, &instance);
    let mut req = request_for(&instance, vec![7; 16], Some(operator), None);
    // A real quote cut down to its header and part of its body must be
    // refused as unparseable, whatever its header says.
    req.attestation_quote.truncate(600);
    let mut state = temp_state();
    match register(&mut state, &req, false) {
        Err(RegistryError::Unauthorized(m)) => assert_eq!(m, "Failed to parse quote"),
        _ => panic!("expected unauthorized"),
    }
}

#[test]
fn ppid_mismatch_message_is_fixed() {
    // Register with the PPID check on and a quote that nests certification
    // data without an encrypted PPID: the failure must name the extraction,
    // not leak anything else.
    let instance = keypair(1);
    let operator = identity_for(2, &instance);
    let req = request_for(&instance, vec![7; 16], Some(operator), None);
    let mut state = temp_state();
    match register(&mut state, &req, true) {
        Err(RegistryError::Unauthorized(m)) => {
            assert_eq!(m, "Failed to extract quote ppid: The PPID is not encrypted")
        },
        _ => panic!("expected unauthorized"),
    }
}

#[test]
fn tampered_signature_is_unauthorized() {
    let instance = keypair(1);
    let mut operator = identity_for(2, &instance);
    operator.instance_signature[5] ^= 0x01;
    let req = request_for(&instance, vec![7; 16], Some(operator), None);
    let mut state = temp_state();
    assert!(matches!(register(&mut state, &req, false), Err(RegistryError::Unauthorized(_))));
}

#[test]
fn ppid_change_is_forbidden() {
    let instance = keypair(1);
    let operator = identity_for(2, &instance);
    let mut state = temp_state();
    let first = request_for(&instance, vec![7; 16], Some(operator), None);
    assert!(register(&mut state, &first, false).is_ok());
    let second = request_for(&instance, vec![8; 16], Some(operator), None);
    match register(&mut state, &second, false) {
        Err(RegistryError::Forbidden(m)) => {
            assert_eq!(m, "Cannot modify PPID of existing instance")
        },
        _ => panic!("expected forbidden"),
    }
}

#[test]
fn operator_change_is_forbidden() {
    let instance = keypair(1);
    let mut state = temp_state();
    let first = request_for(&instance, vec![7; 16], Some(identity_for(2, &instance)), None);
    assert!(register(&mut state, &first, false).is_ok());
    let second = request_for(&instance, vec![7; 16], Some(identity_for(9, &instance)), None);
    match register(&mut state, &second, false) {
        Err(RegistryError::Forbidden(m)) => {
            assert_eq!(m, "Cannot modify operator of existing instance")
        },
        _ => panic!("expected forbidden"),
    }
}

#[test]
fn adding_an_owner_is_accepted() {
    let instance = keypair(1);
    let operator = identity_for(2, &instance);
    let owner = identity_for(3, &instance);
    let mut state = temp_state();
    let first = request_for(&instance, vec![7; 16], Some(operator), None);
    assert!(register(&mut state, &first, false).is_ok());
    let second = request_for(&instance, vec![7; 16], Some(operator), Some(owner));
    assert!(register(&mut state, &second, false).is_ok());
    let key_hex = hex::encode(instance.verifying_key().to_bytes());
    let entry = get_instance(&state, &key_hex).unwrap();
    assert_eq!(entry.operator.unwrap().pubkey, operator.pubkey);
    assert_eq!(entry.owner.unwrap().pubkey, owner.pubkey);
}

#[test]
fn dropping_the_owner_is_forbidden() {
    let instance = keypair(1);
    let operator = identity_for(2, &instance);
    let owner = identity_for(3, &instance);
    let mut state = temp_state();
    let first = request_for(&instance, vec![7; 16], Some(operator), Some(owner));
    assert!(register(&mut state, &first, false).is_ok());
    let second = request_for(&instance, vec![7; 16], Some(operator), None);
    match register(&mut state, &second, false) {
        Err(RegistryError::Forbidden(m)) => {
            assert_eq!(m, "Cannot modify owner of existing instance")
        },
        _ => panic!("expected forbidden"),
    }
}

#[test]
fn repeating_a_registration_is_accepted() {
    let instance = keypair(1);
    let operator = identity_for(2, &instance);
    let mut state = temp_state();
    let req = request_for(&instance, vec![7; 16], Some(operator), None);
    assert!(register(&mut state, &req, false).is_ok());
    assert!(register(&mut state, &req, false).is_ok());
}

#[test]
fn lookup_rejects_bad_keys() {
    let state = temp_state();
    match get_instance(&state, "zz") {
        Err(RegistryError::InvalidRequest(m)) => {
            assert_eq!(m, "Invalid hex encoding for public key")
        },
        _ => panic!("expected invalid request"),
    }
    match get_instance(&state, "abcd") {
        Err(RegistryError::InvalidRequest(m)) => assert_eq!(m, "Public key must be 32 bytes"),
        _ => panic!("expected invalid request"),
    }
    let absent = hex::encode([1u8; 32]);
    match get_instance(&state, &absent) {
        Err(RegistryError::InvalidRequest(m)) => assert_eq!(m, "Instance not found"),
        _ => panic!("expected invalid request"),
    }
}

#[test]
fn registry_errors_carry_their_http_class() {
    let instance = keypair(1);
    let owner = identity_for(2, &instance);
    let req = request_for(&instance, vec![7; 16], None, Some(owner));
    let mut state = temp_state();
    assert_eq!(register(&mut state, &req, false).unwrap_err().http_status(), 400);
    let first = request_for(&instance, vec![7; 16], Some(identity_for(2, &instance)), None);
    assert!(register(&mut state, &first, false).is_ok());
    let second = request_for(&instance, vec![8; 16], Some(identity_for(2, &instance)), None);
    assert_eq!(register(&mut state, &second, false).unwrap_err().http_status(), 403);
}

#[test]
fn ppid_check_rejects_a_quote_without_encrypted_ppid() {
    let instance = keypair(1);
    let operator = identity_for(2, &instance);
    let req = request_for(&instance, vec![7; 16], Some(operator), None);
    let mut state = temp_state();
    // Mock quotes nest a PCK chain, not an encrypted PPID, so the full check
    // must refuse them.
    assert!(matches!(register(&mut state, &req, true), Err(RegistryError::Unauthorized(_))));
}
