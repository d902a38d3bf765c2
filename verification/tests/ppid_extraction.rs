//! Extraction of the encrypted PPID from certification-data blobs and from
//! whole quotes.

use tdx_identity::encrypted_ppid::{extract_encrypted_ppid, get_encrypted_ppid_from_quote,
    PpidError};

fn blob(cert_type: u16, payload: &[u8]) -> Vec<u8> {
    let mut b: Vec<u8> = Vec::new();
    b.push((cert_type & 0xff) as u8);
    b.push((cert_type >> 8) as u8);
    b.extend_from_slice(&(payload.len() as u32).to_le_bytes());
    b.extend_from_slice(payload);
    b
}

#[test]
fn cert_type_two_yields_256_byte_payload() {
    let payload: Vec<u8> = (0..=255u8).collect();
    let b = blob(2, &payload);
    assert_eq!(extract_encrypted_ppid(&b), Ok(payload));
}

#[test]
fn cert_type_three_yields_384_bytes() {
    let payload: Vec<u8> = (0..384).map(|i: usize| (i % 251) as u8).collect();
    let b = blob(3, &payload);
    assert_eq!(extract_encrypted_ppid(&b), Ok(payload));
}

#[test]
fn cert_type_three_takes_the_prefix_of_a_longer_payload() {
    let payload: Vec<u8> = (0..400).map(|i: usize| (i % 13) as u8).collect();
    let b = blob(3, &payload);
    assert_eq!(extract_encrypted_ppid(&b), Ok(payload[..384].to_vec()));
}

#[test]
fn cert_type_four_is_not_encrypted() {
    let payload = vec![1u8; 256];
    let b = blob(4, &payload);
    assert_eq!(extract_encrypted_ppid(&b), Err(PpidError::NotEncryptedPpid));
}

#[test]
fn four_byte_blob_is_too_short() {
    let b = vec![2u8, 0, 0, 0];
    assert_eq!(extract_encrypted_ppid(&b), Err(PpidError::InvalidDataLength));
}

#[test]
fn short_payload_is_an_invalid_length() {
    let payload = vec![1u8; 100];
    let b = blob(2, &payload);
    assert_eq!(extract_encrypted_ppid(&b), Err(PpidError::InvalidDataLength));
}

#[test]
fn garbage_quote_bytes_do_not_parse() {
    let b = vec![0u8; 64];
    assert_eq!(get_encrypted_ppid_from_quote(&b), Err(PpidError::QuoteParse));
}

#[test]
fn short_input_with_a_valid_header_is_rejected_not_parsed() {
    // 48 bytes that parse as a quote header (version 4, ECDSA-P256
    // attestation key, TDX TEE type) but carry no body at all must come
    // back as a parse failure.
    let mut b = vec![0u8; 48];
    b[0] = 4;
    b[2] = 2;
    b[4] = 0x81;
    assert_eq!(get_encrypted_ppid_from_quote(&b), Err(PpidError::QuoteParse));
}

#[test]
fn mock_quote_carries_no_encrypted_ppid() {
    let ak = p256::ecdsa::SigningKey::from_slice(&[1u8; 32]).unwrap();
    let pck = p256::ecdsa::SigningKey::from_slice(&[2u8; 32]).unwrap();
    let quote = tdx_quote::Quote::mock(ak, pck, [0u8; 64], b"chain".to_vec());
    let bytes = quote.as_bytes();
    // A mock quote nests a PCK certificate chain, not an encrypted PPID.
    assert_eq!(get_encrypted_ppid_from_quote(&bytes), Err(PpidError::NotEncryptedPpid));
}
