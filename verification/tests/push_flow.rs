//! End to end: an enclave binds identities, builds its registration request
//! around a quote committing to the bundle, and the registry accepts and
//! serves it back.

use ed25519_dalek::Signer;
use tdx_identity::identity::{owner_identity, register_operator, AppState as EnclaveState,
    RegisterIdentityRequest};
use tdx_identity::registry::{get_instance, register, AppState as RegistryState};

fn keypair(seed: u8) -> ed25519_dalek::SigningKey {
    ed25519_dalek::SigningKey::from_bytes(&[seed; 32])
}

fn quote_for(report: [u8; 64]) -> Vec<u8> {
    let ak = p256::ecdsa::SigningKey::from_slice(&[3u8; 32]).unwrap();
    let pck = p256::ecdsa::SigningKey::from_slice(&[4u8; 32]).unwrap();
    tdx_quote::Quote::mock(ak, pck, report, b"chain".to_vec()).as_bytes()
}

#[test]
fn bound_identities_round_trip_through_the_registry() {
    let mut enclave =
        EnclaveState::new([1; 32], "token".to_string(), None, None, None, Some(vec![9; 16]));
    let mut registry = RegistryState::new(sled::Config::new().temporary(true).open().unwrap());

    // Operator binds and the enclave pushes the new bundle.
    let operator_key = keypair(2);
    let op_req = RegisterIdentityRequest {
        pubkey: operator_key.verifying_key().to_bytes(),
        signature: operator_key.sign(&enclave.instance_pubkey_bytes).to_bytes(),
    };
    let token = register_operator(&mut enclave, &op_req).unwrap();
    let push = enclave.build_register_request(quote_for(enclave.attestation_report_data()));
    register(&mut registry, &push, false).expect("the registry must accept the push");

    // Owner binds with the one-time token and the enclave pushes again.
    let owner_key = keypair(3);
    let ow_req = RegisterIdentityRequest {
        pubkey: owner_key.verifying_key().to_bytes(),
        signature: owner_key.sign(&enclave.instance_pubkey_bytes).to_bytes(),
    };
    let owner = owner_identity(&enclave, &ow_req, Some(&token)).unwrap();
    enclave.set_owner(owner);
    let push = enclave.build_register_request(quote_for(enclave.attestation_report_data()));
    register(&mut registry, &push, false).expect("the registry must accept the second push");

    // The registry serves the full bundle back under the hex key.
    let entry = get_instance(&registry, &enclave.instance_pubkey_hex()).unwrap();
    assert_eq!(entry.ppid, vec![9; 16]);
    assert_eq!(entry.operator.unwrap().pubkey, operator_key.verifying_key().to_bytes());
    assert_eq!(entry.owner.unwrap().pubkey, owner_key.verifying_key().to_bytes());
}
