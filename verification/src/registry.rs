//! The registry: a persistent map from instance public key to registered
//! bundle, enforcing that a binding may only grow — the PPID is immutable,
//! and a bound operator or owner may never change or disappear — and that
//! every update arrives with a quote committing to the whole bundle.
//!
//! Persistence is a `sled` store behind trusted wrappers; entries are kept
//! under the instance public key in the crate's compact binary encoding.

use vstd::prelude::*;

use crate::codec::{decode_entry, encode_entry, spec_encode_entry, spec_encode_parts};
use crate::crypto::{ed25519_valid_pubkey, ed25519_verifies, PUBLIC_KEY_LENGTH};
use crate::encrypted_ppid::{get_encrypted_ppid_from_quote, spec_ppid_from_cert, PpidError};
use crate::hexcodec::{hex_decode, spec_hex_decodable, spec_hex_decode};
use crate::quote::{
    parse_quote_report_data, parseable_quote, quote_cert_data_of, quote_cert_type_of,
    quote_has_qe_cert, quote_report_data_of, MIN_QUOTE_LEN,
};
use crate::report_data::{reconstruct_attestation_hash, spec_attestation_hash};
use crate::types::{
    clone_bytes, identity_info_eq, slice_eq, IdentityInfo, RegisterRequest, RegistryEntry,
    UserType, verify_instance_signature,
};

verus! {

/// Errors the registry reports, by HTTP class: invalid request (400),
/// unauthorized (401), forbidden (403), internal (500).
#[derive(Debug)]
pub enum RegistryError {
    InvalidRequest(String),
    Unauthorized(String),
    Forbidden(String),
    Internal(String),
}

impl RegistryError {
    pub fn invalid_request(msg: String) -> (r: Self)
        ensures
            r == RegistryError::InvalidRequest(msg),
    {
        RegistryError::InvalidRequest(msg)
    }

    pub fn unauthorized(msg: String) -> (r: Self)
        ensures
            r == RegistryError::Unauthorized(msg),
    {
        RegistryError::Unauthorized(msg)
    }

    pub fn forbidden(msg: String) -> (r: Self)
        ensures
            r == RegistryError::Forbidden(msg),
    {
        RegistryError::Forbidden(msg)
    }

    pub fn internal(msg: String) -> (r: Self)
        ensures
            r == RegistryError::Internal(msg),
    {
        RegistryError::Internal(msg)
    }

    /// The HTTP status this error is reported with: 400 for invalid
    /// requests, 401 for unauthorized ones, 403 for monotonicity violations,
    /// 500 for internal ones.
    pub fn http_status(&self) -> (r: u16)
        ensures
            r == (match self {
                RegistryError::InvalidRequest(_) => 400u16,
                RegistryError::Unauthorized(_) => 401u16,
                RegistryError::Forbidden(_) => 403u16,
                RegistryError::Internal(_) => 500u16,
            }),
    {
        match self {
            RegistryError::InvalidRequest(_) => 400,
            RegistryError::Unauthorized(_) => 401,
            RegistryError::Forbidden(_) => 403,
            RegistryError::Internal(_) => 500,
        }
    }
}

/// Body of an error response.
pub struct ErrorResponse {
    pub error: String,
}

#[verifier::external_type_specification]
#[verifier::external_body]
pub struct ExDb(sled::Db);

/// What the store holds: the map from keys to stored byte values.
pub uninterp spec fn db_contents(db: sled::Db) -> Map<Seq<u8>, Seq<u8>>;

/// Registry state: the handle to the key-value store.
pub struct AppState {
    pub db: sled::Db,
}

/// Relies on `sled::Tree::insert`: on success the key maps to the value; on
/// an I/O error the write may or may not have happened.
#[verifier::external_body]
fn kv_insert(state: &mut AppState, key: &[u8], value: &[u8]) -> (r: Result<(), String>)
    ensures
        r is Ok ==> db_contents(final(state).db) == db_contents(old(state).db).insert(
            key@,
            value@,
        ),
        r is Err ==> db_contents(final(state).db) == db_contents(old(state).db) || db_contents(
            final(state).db,
        ) == db_contents(old(state).db).insert(key@, value@),
{
    match state.db.insert(key, value) {
        Ok(_) => Ok(()),
        Err(e) => Err(e.to_string()),
    }
}

/// Relies on `sled::Tree::get`: returns the stored value, `None` exactly
/// when the key is absent; I/O failures are `Err`.
#[verifier::external_body]
fn kv_get(state: &AppState, key: &[u8]) -> (r: Result<Option<Vec<u8>>, String>)
    ensures
        r matches Ok(Some(v)) ==> db_contents(state.db).contains_key(key@) && db_contents(
            state.db,
        )[key@] == v@,
        r matches Ok(None) ==> !db_contents(state.db).contains_key(key@),
{
    match state.db.get(key) {
        Ok(Some(v)) => Ok(Some(v.to_vec())),
        Ok(None) => Ok(None),
        Err(e) => Err(e.to_string()),
    }
}

impl AppState {
    /// Wrap an opened store.
    pub fn new(db: sled::Db) -> (r: Self)
        ensures
            r.db == db,
    {
        AppState { db }
    }

    /// Store the entry under the given key, in the compact binary encoding.
    pub fn insert(&mut self, key: &[u8], entry: &RegistryEntry) -> (r: Result<(), RegistryError>)
        ensures
            r is Ok ==> db_contents(final(self).db) == db_contents(old(self).db).insert(
                key@,
                spec_encode_entry(*entry),
            ),
            r matches Err(e) ==> e is Internal && (db_contents(final(self).db) == db_contents(
                old(self).db,
            ) || db_contents(final(self).db) == db_contents(old(self).db).insert(
                key@,
                spec_encode_entry(*entry),
            )),
    {
        let encoded = encode_entry(entry);
        match kv_insert(self, key, encoded.as_slice()) {
            Ok(()) => Ok(()),
            Err(m) => Err(RegistryError::Internal(m)),
        }
    }

    /// Retrieve the entry stored under the given key. `None` when the key is
    /// absent, the store fails, or the stored bytes are not an encoding.
    pub fn get(&self, key: &[u8]) -> (r: Option<RegistryEntry>)
        ensures
            r matches Some(e) ==> db_contents(self.db).contains_key(key@) && db_contents(
                self.db,
            )[key@] == spec_encode_entry(e),
            !db_contents(self.db).contains_key(key@) ==> r is None,
    {
        match kv_get(self, key) {
            Ok(Some(bytes)) => decode_entry(bytes.as_slice()),
            _ => None,
        }
    }
}

/// Both directions of a mutual signature check out: the identity's key is
/// valid and signed the instance key, and the instance key is valid and
/// signed the identity's key.
pub open spec fn identity_binding_ok(instance_pubkey: Seq<u8>, info: IdentityInfo) -> bool {
    &&& ed25519_valid_pubkey(info.pubkey@)
    &&& ed25519_verifies(info.pubkey@, instance_pubkey, info.instance_signature@)
    &&& ed25519_valid_pubkey(instance_pubkey)
    &&& ed25519_verifies(instance_pubkey, info.pubkey@, info.identity_signature@)
}

/// The request's shape is sound: an owner may only come with an operator.
pub open spec fn request_shape_ok(req: RegisterRequest) -> bool {
    !(req.owner is Some && req.operator is None)
}

/// Every identity present in the request carries a valid mutual signature.
pub open spec fn request_signatures_ok(req: RegisterRequest) -> bool {
    &&& (req.operator matches Some(op) ==> identity_binding_ok(req.instance_pubkey@, op))
    &&& (req.owner matches Some(ow) ==> identity_binding_ok(req.instance_pubkey@, ow))
}

/// The request's quote parses and its report data commits to exactly this
/// bundle.
pub open spec fn attestation_ok(req: RegisterRequest) -> bool {
    &&& parseable_quote(req.attestation_quote@)
    &&& quote_report_data_of(req.attestation_quote@) == spec_attestation_hash(
        req.instance_pubkey@,
        req.ppid@,
        req.operator,
        req.owner,
    )
}

/// The encrypted PPID extracted from the quote is exactly the request's.
pub open spec fn extracted_ppid_matches(quote: Seq<u8>, ppid: Seq<u8>) -> bool {
    &&& quote_has_qe_cert(quote)
    &&& spec_ppid_from_cert(quote_cert_type_of(quote), quote_cert_data_of(quote)) == Ok::<
        Seq<u8>,
        PpidError,
    >(ppid)
}

/// A new identity may appear where none was bound, and a bound identity may
/// only be repeated exactly.
pub open spec fn spec_matches_existing(
    existing: Option<IdentityInfo>,
    new: Option<IdentityInfo>,
) -> bool {
    match (existing, new) {
        (None, _) => true,
        (Some(e), Some(n)) => e == n,
        _ => false,
    }
}

/// The request does not change what the existing entry has bound.
pub open spec fn entry_monotonic_ok(existing: RegistryEntry, req: RegisterRequest) -> bool {
    &&& existing.ppid@ == req.ppid@
    &&& spec_matches_existing(existing.operator, req.operator)
    &&& spec_matches_existing(existing.owner, req.owner)
}

/// The request does not change what the stored bytes have bound, for any
/// reading of the stored bytes as an encoded entry.
pub open spec fn stored_bytes_monotonic_ok(stored: Seq<u8>, req: RegisterRequest) -> bool {
    forall|ppid: Seq<u8>, quote: Seq<u8>, op: Option<IdentityInfo>, ow: Option<IdentityInfo>|
        ppid.len() <= usize::MAX && quote.len() <= usize::MAX && stored
            == #[trigger] spec_encode_parts(ppid, quote, op, ow) ==> (ppid == req.ppid@
            && spec_matches_existing(op, req.operator) && spec_matches_existing(ow, req.owner))
}

/// The request does not change what the store has bound under its instance
/// key.
pub open spec fn monotonicity_ok(db: Map<Seq<u8>, Seq<u8>>, req: RegisterRequest) -> bool {
    db.contains_key(req.instance_pubkey@) ==> stored_bytes_monotonic_ok(
        db[req.instance_pubkey@],
        req,
    )
}

/// Everything the registry demands of a registration: shape, signatures,
/// attestation, the PPID check when enabled, and monotonicity over the
/// store.
pub open spec fn registration_acceptable(
    db: Map<Seq<u8>, Seq<u8>>,
    req: RegisterRequest,
    check_ppid: bool,
) -> bool {
    &&& request_shape_ok(req)
    &&& request_signatures_ok(req)
    &&& attestation_ok(req)
    &&& (check_ppid ==> extracted_ppid_matches(req.attestation_quote@, req.ppid@))
    &&& monotonicity_ok(db, req)
}

/// Verify one identity's mutual signatures: the identity signed the instance
/// key, and the instance signed the identity's key.
fn verify_identity_signatures(
    instance_pubkey: &[u8; 32],
    identity_info: &IdentityInfo,
    context: UserType,
) -> (r: Result<(), RegistryError>)
    ensures
        r is Ok <==> identity_binding_ok(instance_pubkey@, *identity_info),
        r matches Err(e) ==> e is Unauthorized,
{
    match verify_instance_signature(
        &identity_info.pubkey,
        instance_pubkey,
        &identity_info.instance_signature,
        context,
    ) {
        Ok(()) => {},
        Err(m) => {
            return Err(RegistryError::Unauthorized(m));
        },
    }
    match verify_instance_signature(
        instance_pubkey,
        &identity_info.pubkey,
        &identity_info.identity_signature,
        UserType::Instance,
    ) {
        Ok(()) => Ok(()),
        Err(m) => Err(RegistryError::Unauthorized(m)),
    }
}

/// Validate a registration request's shape and signatures: the operator and
/// owner, where present, must each have signed the instance key and carry
/// the instance's counter-signature, and an owner requires an operator.
pub fn validate_request(request: &RegisterRequest) -> (r: Result<(), RegistryError>)
    ensures
        r is Ok <==> request_shape_ok(*request) && request_signatures_ok(*request),
        r matches Err(e) ==> e is Unauthorized || (e matches RegistryError::InvalidRequest(m)
            && m@ == "Owner requires operator to be set"@),
        request.operator matches Some(op) && !identity_binding_ok(request.instance_pubkey@, op)
            ==> (r matches Err(e) && e is Unauthorized),
        (request.operator matches Some(op) ==> identity_binding_ok(request.instance_pubkey@, op))
            && !request_shape_ok(*request) ==> (r matches Err(e)
            && e matches RegistryError::InvalidRequest(m) && m@
            == "Owner requires operator to be set"@),
        request_shape_ok(*request) && r is Err ==> (r matches Err(e) && e is Unauthorized),
{
    if let Some(op) = &request.operator {
        verify_identity_signatures(&request.instance_pubkey, op, UserType::Operator)?;
    }
    if let Some(owner) = &request.owner {
        if request.operator.is_none() {
            return Err(
                RegistryError::InvalidRequest(
                    String::from_str("Owner requires operator to be set"),
                ),
            );
        }
        verify_identity_signatures(&request.instance_pubkey, owner, UserType::Owner)?;
    }
    Ok(())
}

/// Check that new registry data does not change what an existing entry has
/// bound: the PPID is immutable, and a bound operator or owner may only be
/// repeated exactly.
pub fn validate_existing_instance(
    existing: &RegistryEntry,
    request: &RegisterRequest,
) -> (r: Result<(), RegistryError>)
    ensures
        r is Ok <==> entry_monotonic_ok(*existing, *request),
        existing.ppid@ != request.ppid@ ==> (r matches Err(e)
            && e matches RegistryError::Forbidden(m) && m@
            == "Cannot modify PPID of existing instance"@),
        r matches Err(e) ==> e is Forbidden,
{
    if !slice_eq(existing.ppid.as_slice(), request.ppid.as_slice()) {
        return Err(
            RegistryError::Forbidden(String::from_str("Cannot modify PPID of existing instance")),
        );
    }
    if !matches_existing_identity(existing.operator.as_ref(), request.operator.as_ref()) {
        return Err(
            RegistryError::Forbidden(
                String::from_str("Cannot modify operator of existing instance"),
            ),
        );
    }
    if !matches_existing_identity(existing.owner.as_ref(), request.owner.as_ref()) {
        return Err(
            RegistryError::Forbidden(String::from_str("Cannot modify owner of existing instance")),
        );
    }
    Ok(())
}

/// Whether the new identity keeps what the existing one bound.
fn matches_existing_identity(existing: Option<&IdentityInfo>, new: Option<&IdentityInfo>) -> (r:
    bool)
    ensures
        r == spec_matches_existing(
            crate::report_data::opt_copied(existing),
            crate::report_data::opt_copied(new),
        ),
{
    match (existing, new) {
        (None, _) => true,
        (Some(e), Some(n)) => identity_info_eq(e, n),
        _ => false,
    }
}

/// Verify that a quote is well formed, attests to the given hash, and — when
/// `check_ppid` is set — carries an encrypted PPID equal to the given one.
/// Inputs too short to be a quote are rejected as unparseable before they
/// reach the parser.
pub fn verify_attestation(quote: &[u8], hash: &[u8; 64], ppid: &[u8], check_ppid: bool) -> (r:
    Result<(), RegistryError>)
    ensures
        r is Ok <==> parseable_quote(quote@) && quote_report_data_of(quote@) == hash@ && (
        check_ppid ==> extracted_ppid_matches(quote@, ppid@)),
        r matches Err(e) ==> e is Unauthorized,
        parseable_quote(quote@) && quote_report_data_of(quote@) != hash@ ==> (r matches Err(e)
            && e matches RegistryError::Unauthorized(m) && m@ == "Attestation hash mismatch"@),
        parseable_quote(quote@) && quote_report_data_of(quote@) == hash@ && check_ppid
            && quote_has_qe_cert(quote@) && (crate::encrypted_ppid::spec_ppid_from_cert(
            quote_cert_type_of(quote@),
            quote_cert_data_of(quote@),
        ) matches Ok(p) && p != ppid@) ==> (r matches Err(e) && e matches
            RegistryError::Unauthorized(m) && m@ == "PPID mismatch"@),
{
    if quote.len() < MIN_QUOTE_LEN {
        return Err(RegistryError::Unauthorized(String::from_str("Failed to parse quote")));
    }
    let report = match parse_quote_report_data(quote) {
        Some(report) => report,
        None => {
            return Err(RegistryError::Unauthorized(String::from_str("Failed to parse quote")));
        },
    };
    if !slice_eq(report.as_slice(), hash.as_slice()) {
        return Err(RegistryError::Unauthorized(String::from_str("Attestation hash mismatch")));
    }
    if check_ppid {
        let quote_ppid = match get_encrypted_ppid_from_quote(quote) {
            Ok(p) => p,
            Err(e) => {
                let mut m = String::from_str("Failed to extract quote ppid: ");
                m.append(e.message());
                return Err(RegistryError::Unauthorized(m));
            },
        };
        if !slice_eq(quote_ppid.as_slice(), ppid) {
            return Err(RegistryError::Unauthorized(String::from_str("PPID mismatch")));
        }
    }
    Ok(())
}

/// Register an instance: validate the request, verify its attestation, hold
/// it to the monotonic update rule against any existing entry, and store it.
/// `check_ppid` mirrors whether full TDX authentication is enabled; the
/// attestation hash is checked either way.
pub fn register(state: &mut AppState, request: &RegisterRequest, check_ppid: bool) -> (r: Result<
    (),
    RegistryError,
>)
    ensures
        r is Ok ==> registration_acceptable(db_contents(old(state).db), *request, check_ppid)
            && db_contents(final(state).db) == db_contents(old(state).db).insert(
            request.instance_pubkey@,
            spec_encode_parts(
                request.ppid@,
                request.attestation_quote@,
                request.operator,
                request.owner,
            ),
        ),
        !registration_acceptable(db_contents(old(state).db), *request, check_ppid) ==> r is Err,
        registration_acceptable(db_contents(old(state).db), *request, check_ppid) && r is Err
            ==> (r matches Err(e) && e is Internal),
        r matches Err(e) && !(e is Internal) ==> db_contents(final(state).db) == db_contents(
            old(state).db,
        ),
        !registration_acceptable(db_contents(old(state).db), *request, check_ppid)
            ==> db_contents(final(state).db) == db_contents(old(state).db),
        !request_shape_ok(*request) && (request.operator matches Some(op)
            ==> identity_binding_ok(request.instance_pubkey@, op)) ==> (r matches Err(e)
            && e matches RegistryError::InvalidRequest(m) && m@
            == "Owner requires operator to be set"@),
        request_shape_ok(*request) && !request_signatures_ok(*request) ==> (r matches Err(e)
            && e is Unauthorized),
        request_shape_ok(*request) && request_signatures_ok(*request) && !(attestation_ok(*request)
            && (check_ppid ==> extracted_ppid_matches(request.attestation_quote@, request.ppid@)))
            ==> (r matches Err(e) && e is Unauthorized),
        request_shape_ok(*request) && request_signatures_ok(*request) && attestation_ok(*request)
            && (check_ppid ==> extracted_ppid_matches(request.attestation_quote@, request.ppid@))
            && !monotonicity_ok(db_contents(old(state).db), *request) ==> (r matches Err(e) && (e
            is Forbidden || e is Internal)),
{
    validate_request(request)?;
    let hash = reconstruct_attestation_hash(request);
    verify_attestation(request.attestation_quote.as_slice(), &hash, request.ppid.as_slice(),
        check_ppid)?;
    let existing_bytes = match kv_get(state, request.instance_pubkey.as_slice()) {
        Ok(b) => b,
        Err(m) => {
            return Err(RegistryError::Internal(m));
        },
    };
    if let Some(bytes) = existing_bytes {
        if let Some(existing) = decode_entry(bytes.as_slice()) {
            proof {
                assert(*state == *old(state));
                if monotonicity_ok(db_contents(old(state).db), *request) {
                    assert(db_contents(old(state).db)[request.instance_pubkey@]
                        == spec_encode_parts(
                        existing.ppid@,
                        existing.attestation_quote@,
                        existing.operator,
                        existing.owner,
                    ));
                    assert(entry_monotonic_ok(existing, *request));
                }
            }
            validate_existing_instance(&existing, request)?;
        }
    }
    let entry = RegistryEntry {
        ppid: clone_bytes(&request.ppid),
        attestation_quote: clone_bytes(&request.attestation_quote),
        operator: request.operator,
        owner: request.owner,
    };
    let encoded = encode_entry(&entry);
    match kv_insert(state, request.instance_pubkey.as_slice(), encoded.as_slice()) {
        Ok(()) => Ok(()),
        Err(m) => Err(RegistryError::Internal(m)),
    }
}

/// Look up an instance's entry by the hex encoding of its public key.
/// The key must be valid hex for 32 bytes; an absent key, or one whose
/// stored bytes are no encoding, is reported as an invalid request (400,
/// for wire compatibility), while a store-read failure is internal. A
/// present, well-encoded entry is returned unless the read fails.
pub fn get_instance(state: &AppState, pubkey: &str) -> (r: Result<RegistryEntry, RegistryError>)
    ensures
        r matches Ok(e) ==> spec_hex_decodable(pubkey@) && db_contents(state.db).contains_key(
            spec_hex_decode(pubkey@),
        ) && db_contents(state.db)[spec_hex_decode(pubkey@)] == spec_encode_entry(e),
        !spec_hex_decodable(pubkey@) ==> (r matches Err(e)
            && e matches RegistryError::InvalidRequest(m) && m@
            == "Invalid hex encoding for public key"@),
        spec_hex_decodable(pubkey@) && spec_hex_decode(pubkey@).len() != 32 ==> (r matches Err(e)
            && e matches RegistryError::InvalidRequest(m) && m@ == "Public key must be 32 bytes"@),
        spec_hex_decodable(pubkey@) && spec_hex_decode(pubkey@).len() == 32 && !db_contents(
            state.db,
        ).contains_key(spec_hex_decode(pubkey@)) ==> (r matches Err(e) && ((e matches
            RegistryError::InvalidRequest(m) && m@ == "Instance not found"@) || e is Internal)),
        forall|ppid: Seq<u8>, quote: Seq<u8>, op: Option<IdentityInfo>, ow: Option<IdentityInfo>|
            ppid.len() <= usize::MAX && quote.len() <= usize::MAX && spec_hex_decodable(pubkey@)
                && spec_hex_decode(pubkey@).len() == 32 && db_contents(state.db).contains_key(
                spec_hex_decode(pubkey@),
            ) && db_contents(state.db)[spec_hex_decode(pubkey@)]
                == #[trigger] spec_encode_parts(ppid, quote, op, ow) ==> ((r matches Ok(e)
                && e.ppid@ == ppid && e.attestation_quote@ == quote && e.operator == op && e.owner
                == ow) || (r matches Err(e) && e is Internal)),
{
    let pubkey_bytes = match hex_decode(pubkey) {
        Ok(b) => b,
        Err(()) => {
            return Err(
                RegistryError::InvalidRequest(
                    String::from_str("Invalid hex encoding for public key"),
                ),
            );
        },
    };
    if pubkey_bytes.len() != PUBLIC_KEY_LENGTH {
        return Err(RegistryError::InvalidRequest(String::from_str("Public key must be 32 bytes")));
    }
    let stored = match kv_get(state, pubkey_bytes.as_slice()) {
        Ok(s) => s,
        Err(m) => {
            return Err(RegistryError::Internal(m));
        },
    };
    let bytes = match stored {
        Some(bytes) => bytes,
        None => {
            return Err(RegistryError::InvalidRequest(String::from_str("Instance not found")));
        },
    };
    match decode_entry(bytes.as_slice()) {
        Some(entry) => Ok(entry),
        None => Err(RegistryError::InvalidRequest(String::from_str("Instance not found"))),
    }
}

/// The monotonic update rule itself: a second registration that changes the
/// PPID, or changes or drops a bound operator or owner, is never acceptable;
/// one that only repeats what is bound and adds to it is.
pub proof fn lemma_registry_monotonic(existing: RegistryEntry, req: RegisterRequest)
    ensures
        existing.ppid@ != req.ppid@ ==> !entry_monotonic_ok(existing, req),
        existing.operator is Some && req.operator != existing.operator ==> !entry_monotonic_ok(
            existing,
            req,
        ),
        existing.owner is Some && req.owner != existing.owner ==> !entry_monotonic_ok(
            existing,
            req,
        ),
        existing.ppid@ == req.ppid@ && (existing.operator is Some ==> req.operator
            == existing.operator) && (existing.owner is Some ==> req.owner == existing.owner)
            ==> entry_monotonic_ok(existing, req),
{
}

} // verus!
