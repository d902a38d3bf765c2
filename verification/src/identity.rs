//! The per-enclave identity service: a one-way lifecycle state machine.
//!
//! The state binds an operator, then an owner (authorized by the one-time
//! owner token), then a workload configuration, and finally finalizes the
//! workload. Each handler validates its request and transitions the state;
//! the surrounding process performs the I/O the transition calls for
//! (persisting, mounting the encrypted volume, driving the container and the
//! SSH server, pushing to the registry).

use vstd::prelude::*;

use crate::crypto::{
    derive_public_key, ed25519_check, ed25519_pubkey_of, ed25519_sign, ed25519_valid_pubkey,
    ed25519_verifies, sign_message, SigCheck, SIGNATURE_LENGTH,
};
use crate::hexcodec::{hex_decode, hex_encode, spec_hex_decodable, spec_hex_decode,
    spec_hex_encode};
use crate::paths::{is_clean_path, sanitize_container_dir};
use crate::report_data::{create_attestation_hash, spec_attestation_hash};
use crate::types::{clone_bytes, IdentityInfo, RegisterRequest, UserType,
    verify_instance_signature};

verus! {

/// Errors the identity service reports, by HTTP class: invalid request
/// (400), unauthorized (401), internal (500), registry (a downstream
/// registry failure, 400).
#[derive(Debug)]
pub enum IdentityError {
    InvalidRequest(String),
    Unauthorized(String),
    Internal(String),
    Registry(String),
}

impl IdentityError {
    pub fn invalid_request(msg: String) -> (r: Self)
        ensures
            r == IdentityError::InvalidRequest(msg),
    {
        IdentityError::InvalidRequest(msg)
    }

    pub fn unauthorized(msg: String) -> (r: Self)
        ensures
            r == IdentityError::Unauthorized(msg),
    {
        IdentityError::Unauthorized(msg)
    }

    pub fn internal(msg: String) -> (r: Self)
        ensures
            r == IdentityError::Internal(msg),
    {
        IdentityError::Internal(msg)
    }

    pub fn registry(msg: String) -> (r: Self)
        ensures
            r == IdentityError::Registry(msg),
    {
        IdentityError::Registry(msg)
    }

    /// The HTTP status this error is reported with: 400 for invalid requests
    /// and registry failures, 401 for unauthorized ones, 500 for internal
    /// ones.
    pub fn http_status(&self) -> (r: u16)
        ensures
            r == (match self {
                IdentityError::InvalidRequest(_) => 400u16,
                IdentityError::Unauthorized(_) => 401u16,
                IdentityError::Internal(_) => 500u16,
                IdentityError::Registry(_) => 400u16,
            }),
    {
        match self {
            IdentityError::InvalidRequest(_) => 400,
            IdentityError::Unauthorized(_) => 401,
            IdentityError::Internal(_) => 500,
            IdentityError::Registry(_) => 400,
        }
    }
}

/// A workload configuration: the image to run, the directories persisted
/// onto the encrypted volume, the port to publish once finalized, and
/// whether the workload has been finalized.
#[derive(Debug)]
pub struct WorkloadConfig {
    pub image: String,
    pub persist_dirs: Vec<String>,
    pub port: u16,
    pub finalized: bool,
}

/// Two configurations hold the same data.
pub open spec fn config_eq(a: WorkloadConfig, b: WorkloadConfig) -> bool {
    &&& a.image == b.image
    &&& a.persist_dirs@ == b.persist_dirs@
    &&& a.port == b.port
    &&& a.finalized == b.finalized
}

impl WorkloadConfig {
    /// A copy of this configuration.
    pub fn duplicate(&self) -> (r: WorkloadConfig)
        ensures
            config_eq(r, *self),
    {
        let dirs = self.persist_dirs.clone();
        proof {
            assert(dirs@ =~= self.persist_dirs@);
        }
        WorkloadConfig {
            image: self.image.clone(),
            persist_dirs: dirs,
            port: self.port,
            finalized: self.finalized,
        }
    }
}

/// Body of an operator or owner registration request: the identity's public
/// key and its signature over the instance public key, already decoded from
/// hex.
pub struct RegisterIdentityRequest {
    pub pubkey: [u8; 32],
    pub signature: [u8; 64],
}

/// Body of a workload configuration request, already decoded.
pub struct ConfigureWorkloadRequest {
    pub instance_pubkey: [u8; 32],
    pub image: String,
    pub persist_dirs: Vec<String>,
    pub port: u16,
}

/// Body of a workload exposure request, already decoded.
pub struct ExposeWorkloadRequest {
    pub instance_pubkey: [u8; 32],
    pub image: String,
}

/// The identity service's state: the instance key and its public key, the
/// one-time owner token, the platform PPID, and the bound identities and
/// workload configuration.
pub struct AppState {
    pub workload_config: Option<WorkloadConfig>,
    pub owner: Option<IdentityInfo>,
    pub operator: Option<IdentityInfo>,
    pub owner_token: String,
    pub instance_key: [u8; 32],
    pub instance_pubkey_bytes: [u8; 32],
    pub ppid: Vec<u8>,
}

/// What boot recovery must start for a recovered state.
pub struct BootActions {
    /// Mount the encrypted volume: exactly when an owner is bound.
    pub mount_encrypted_fs: bool,
    /// Launch the workload container: exactly when an owner is bound and a
    /// workload is configured.
    pub launch_container: bool,
    /// Start the SSH server: exactly when a configured workload is not yet
    /// finalized (and an owner is bound).
    pub start_ssh: bool,
}

/// A workload may be (re)configured as long as no finalized configuration
/// exists.
pub open spec fn configure_allowed(s: AppState) -> bool {
    !(s.workload_config matches Some(c) && c.finalized)
}

/// A workload may be finalized exactly once, after it was configured.
pub open spec fn finalize_allowed(s: AppState) -> bool {
    s.workload_config matches Some(c) && !c.finalized
}

/// The fields no lifecycle transition ever changes.
pub open spec fn same_core(a: AppState, b: AppState) -> bool {
    &&& a.owner_token == b.owner_token
    &&& a.instance_key == b.instance_key
    &&& a.instance_pubkey_bytes == b.instance_pubkey_bytes
    &&& a.ppid == b.ppid
}

/// Every persisted directory is a clean absolute path.
pub open spec fn all_paths_clean(dirs: Seq<String>) -> bool {
    forall|i: int| 0 <= i < dirs.len() ==> is_clean_path(#[trigger] dirs[i]@)
}

impl AppState {
    /// Reconstruct the service's state from what boot recovery read off the
    /// disks: the instance key seed, the owner token, and the persisted
    /// operator, owner and workload configuration. The PPID comes from TDX
    /// when available and falls back to the instance public key otherwise.
    /// Reconstruction is a function of the persisted data alone.
    pub fn new(
        instance_key: [u8; 32],
        owner_token: String,
        operator: Option<IdentityInfo>,
        owner: Option<IdentityInfo>,
        workload_config: Option<WorkloadConfig>,
        tdx_ppid: Option<Vec<u8>>,
    ) -> (r: Self)
        ensures
            r.instance_key == instance_key,
            r.instance_pubkey_bytes@ == ed25519_pubkey_of(instance_key@),
            ed25519_valid_pubkey(r.instance_pubkey_bytes@),
            r.owner_token == owner_token,
            r.operator == operator,
            r.owner == owner,
            r.workload_config == workload_config,
            tdx_ppid matches Some(p) ==> r.ppid == p,
            tdx_ppid is None ==> r.ppid@ == ed25519_pubkey_of(instance_key@),
    {
        let instance_pubkey_bytes = derive_public_key(&instance_key);
        let ppid: Vec<u8> = match tdx_ppid {
            Some(p) => p,
            None => {
                let mut v: Vec<u8> = Vec::new();
                crate::types::append_bytes(&mut v, instance_pubkey_bytes.as_slice());
                proof {
                    assert(v@ =~= instance_pubkey_bytes@);
                }
                v
            },
        };
        AppState {
            workload_config,
            owner,
            operator,
            owner_token,
            instance_key,
            instance_pubkey_bytes,
            ppid,
        }
    }

    /// What must be running for this state: the encrypted volume is mounted
    /// exactly when an owner is bound; the container runs exactly when a
    /// workload is also configured; SSH is up exactly when that workload is
    /// not finalized. Repeating recovery on the same state starts the same
    /// things.
    pub fn boot_actions(&self) -> (r: BootActions)
        ensures
            r.mount_encrypted_fs == (self.owner is Some),
            r.launch_container == (self.owner is Some && self.workload_config is Some),
            r.start_ssh == (self.owner is Some && (self.workload_config matches Some(c)
                && !c.finalized)),
    {
        let has_owner = self.owner.is_some();
        let (has_config, unfinalized) = match &self.workload_config {
            Some(c) => (true, !c.finalized),
            None => (false, false),
        };
        BootActions {
            mount_encrypted_fs: has_owner,
            launch_container: has_owner && has_config,
            start_ssh: has_owner && has_config && unfinalized,
        }
    }

    /// Bind the operator in memory.
    pub fn set_operator(&mut self, operator: IdentityInfo)
        ensures
            final(self).operator == Some(operator),
            final(self).owner == old(self).owner,
            final(self).workload_config == old(self).workload_config,
            same_core(*final(self), *old(self)),
    {
        self.operator = Some(operator);
    }

    /// Bind the owner in memory. Replacing an already-bound owner is not
    /// prevented here; the registry's monotonic rule is the single source of
    /// truth and will reject the push.
    pub fn set_owner(&mut self, owner: IdentityInfo)
        ensures
            final(self).owner == Some(owner),
            final(self).operator == old(self).operator,
            final(self).workload_config == old(self).workload_config,
            same_core(*final(self), *old(self)),
    {
        self.owner = Some(owner);
    }

    /// Record a new workload configuration. Rejected once a configuration
    /// has been finalized: finalization is one-way.
    pub fn configure_workload(&mut self, config: &WorkloadConfig) -> (r: Result<
        (),
        IdentityError,
    >)
        ensures
            r is Ok <==> configure_allowed(*old(self)),
            r is Ok ==> (final(self).workload_config matches Some(c) && config_eq(c, *config)),
            r matches Err(e) ==> *final(self) == *old(self) && (e matches
                IdentityError::InvalidRequest(m) && m@ == "Workload config already finalized"@),
            final(self).operator == old(self).operator,
            final(self).owner == old(self).owner,
            same_core(*final(self), *old(self)),
    {
        match &self.workload_config {
            Some(c) if c.finalized => Err(
                IdentityError::InvalidRequest(
                    String::from_str("Workload config already finalized"),
                ),
            ),
            _ => {
                self.workload_config = Some(config.duplicate());
                Ok(())
            },
        }
    }

    /// Mark the configured workload as finalized. Rejected when nothing is
    /// configured or the workload is already finalized.
    pub fn finalize_workload(&mut self) -> (r: Result<(), IdentityError>)
        ensures
            r is Ok <==> finalize_allowed(*old(self)),
            r is Ok ==> (final(self).workload_config matches Some(c)
                && old(self).workload_config matches Some(oc) && c.image == oc.image
                && c.persist_dirs@ == oc.persist_dirs@ && c.port == oc.port && c.finalized),
            r matches Err(e) ==> *final(self) == *old(self) && (e matches
                IdentityError::InvalidRequest(m) && (m@ == "Workload not configured"@ || m@
                == "Workload config already finalized"@)),
            old(self).workload_config is None ==> (r matches Err(e) && e matches
                IdentityError::InvalidRequest(m) && m@ == "Workload not configured"@),
            final(self).operator == old(self).operator,
            final(self).owner == old(self).owner,
            same_core(*final(self), *old(self)),
    {
        match &self.workload_config {
            None => Err(IdentityError::InvalidRequest(String::from_str("Workload not configured"))),
            Some(c) if c.finalized => Err(
                IdentityError::InvalidRequest(
                    String::from_str("Workload config already finalized"),
                ),
            ),
            Some(c) => {
                let mut newc = c.duplicate();
                newc.finalized = true;
                self.workload_config = Some(newc);
                Ok(())
            },
        }
    }

    /// The attestation hash the next quote must commit to: the hash over the
    /// state's current bundle.
    pub fn attestation_report_data(&self) -> (r: [u8; 64])
        ensures
            r@ == spec_attestation_hash(
                self.instance_pubkey_bytes@,
                self.ppid@,
                self.operator,
                self.owner,
            ),
    {
        create_attestation_hash(
            self.instance_pubkey_bytes.as_slice(),
            self.ppid.as_slice(),
            self.operator.as_ref(),
            self.owner.as_ref(),
        )
    }

    /// The registration request that pushes this state to the registry,
    /// carrying a freshly created quote.
    pub fn build_register_request(&self, quote: Vec<u8>) -> (r: RegisterRequest)
        ensures
            r.instance_pubkey == self.instance_pubkey_bytes,
            r.ppid@ == self.ppid@,
            r.attestation_quote == quote,
            r.operator == self.operator,
            r.owner == self.owner,
    {
        RegisterRequest {
            instance_pubkey: self.instance_pubkey_bytes,
            ppid: clone_bytes(&self.ppid),
            attestation_quote: quote,
            operator: self.operator,
            owner: self.owner,
        }
    }

    /// The hex encoding of the instance public key, as served to callers.
    pub fn instance_pubkey_hex(&self) -> (r: String)
        ensures
            r@ == spec_hex_encode(self.instance_pubkey_bytes@),
    {
        hex_encode(self.instance_pubkey_bytes.as_slice())
    }
}

/// Validate that the presented owner token matches the stored one. The
/// token is required and must match exactly.
pub fn validate_owner_token(token_header: Option<&String>, owner_token: &String) -> (r: Result<
    (),
    IdentityError,
>)
    ensures
        r is Ok <==> (token_header matches Some(t) && t@ == owner_token@),
        token_header is None ==> (r matches Err(e) && e matches IdentityError::Unauthorized(m)
            && m@ == "Missing token header"@),
        token_header matches Some(t) && t@ != owner_token@ ==> (r matches Err(e) && e matches
            IdentityError::Unauthorized(m) && m@ == "Invalid owner token"@),
{
    match token_header {
        None => Err(IdentityError::Unauthorized(String::from_str("Missing token header"))),
        Some(token) => {
            if *token == *owner_token {
                Ok(())
            } else {
                Err(IdentityError::Unauthorized(String::from_str("Invalid owner token")))
            }
        },
    }
}

/// Whether a hex signature header authenticates a payload under a public
/// key: it decodes to 64 bytes, the key is valid, and strict verification
/// accepts it.
pub open spec fn signature_header_ok(sig_hex: Option<&String>, payload: Seq<u8>, pubkey: Seq<u8>)
    -> bool {
    &&& sig_hex matches Some(s)
    &&& spec_hex_decodable(sig_hex->0@)
    &&& spec_hex_decode(sig_hex->0@).len() == 64
    &&& ed25519_valid_pubkey(pubkey)
    &&& ed25519_verifies(pubkey, payload, spec_hex_decode(sig_hex->0@))
}

/// Validate that the hex signature from the request's signature header
/// verifies over the raw request body under the owner's public key.
pub fn validate_signature_header(
    sig_header: Option<&String>,
    payload: &[u8],
    owner_pubkey_bytes: &[u8; 32],
) -> (r: Result<(), IdentityError>)
    ensures
        r is Ok <==> signature_header_ok(sig_header, payload@, owner_pubkey_bytes@),
        r matches Err(e) ==> e is Unauthorized,
        sig_header is None ==> (r matches Err(e) && e matches IdentityError::Unauthorized(m) && m@
            == "Missing signature header"@),
{
    let sig_hex = match sig_header {
        None => {
            return Err(IdentityError::Unauthorized(String::from_str("Missing signature header")));
        },
        Some(s) => s,
    };
    let sig_bytes = match hex_decode(sig_hex.as_str()) {
        Ok(b) => b,
        Err(()) => {
            return Err(IdentityError::Unauthorized(String::from_str("Invalid signature format")));
        },
    };
    if sig_bytes.len() != SIGNATURE_LENGTH {
        return Err(IdentityError::Unauthorized(String::from_str("Invalid signature")));
    }
    let sig = crate::codec::read_array_64(sig_bytes.as_slice(), 0);
    proof {
        assert(sig@ =~= spec_hex_decode(sig_hex@));
    }
    match ed25519_check(owner_pubkey_bytes, payload, &sig) {
        SigCheck::Valid => Ok(()),
        _ => Err(IdentityError::Unauthorized(String::from_str("Invalid signature"))),
    }
}

/// Register the operator: allowed exactly once, with a valid signature over
/// the instance public key. On success the operator is bound, counter-signed
/// by the instance key, and the one-time owner token is returned for the
/// response.
pub fn register_operator(state: &mut AppState, request: &RegisterIdentityRequest) -> (r: Result<
    String,
    IdentityError,
>)
    ensures
        r is Ok <==> old(state).operator is None && ed25519_valid_pubkey(request.pubkey@)
            && ed25519_verifies(
            request.pubkey@,
            old(state).instance_pubkey_bytes@,
            request.signature@,
        ),
        r matches Ok(token) ==> token@ == old(state).owner_token@ && (final(state).operator matches Some(op) && op.pubkey == request.pubkey && op.instance_signature
            == request.signature && op.identity_signature@ == ed25519_sign(
            old(state).instance_key@,
            request.pubkey@,
        )) && final(state).owner == old(state).owner && final(state).workload_config == old(state).workload_config && same_core(*final(state), *old(state)),
        old(state).operator is Some ==> (r matches Err(e) && e matches
            IdentityError::InvalidRequest(m) && m@ == "Operator already registered"@),
        old(state).operator is None && r is Err ==> (r matches Err(e) && e is Unauthorized),
        r is Err ==> *final(state) == *old(state),
{
    if state.operator.is_some() {
        return Err(IdentityError::InvalidRequest(String::from_str("Operator already registered")));
    }
    match verify_instance_signature(
        &request.pubkey,
        &state.instance_pubkey_bytes,
        &request.signature,
        UserType::Operator,
    ) {
        Ok(()) => {},
        Err(m) => {
            return Err(IdentityError::Unauthorized(m));
        },
    }
    let identity_signature = sign_message(&state.instance_key, request.pubkey.as_slice());
    let operator = IdentityInfo {
        pubkey: request.pubkey,
        instance_signature: request.signature,
        identity_signature,
    };
    state.set_operator(operator);
    let token = state.owner_token.clone();
    Ok(token)
}

/// Validate an owner registration and produce the owner's identity bundle:
/// the presented token must match the stored one-time owner token, and the
/// signature must verify over the instance public key. The caller then
/// mounts the encrypted volume, binds the owner, and pushes to the registry.
pub fn owner_identity(
    state: &AppState,
    request: &RegisterIdentityRequest,
    token_header: Option<&String>,
) -> (r: Result<IdentityInfo, IdentityError>)
    ensures
        r is Ok <==> (token_header matches Some(t) && t@ == state.owner_token@)
            && ed25519_valid_pubkey(request.pubkey@) && ed25519_verifies(
            request.pubkey@,
            state.instance_pubkey_bytes@,
            request.signature@,
        ),
        r matches Ok(owner) ==> owner.pubkey == request.pubkey && owner.instance_signature
            == request.signature && owner.identity_signature@ == ed25519_sign(
            state.instance_key@,
            request.pubkey@,
        ),
        r matches Err(e) ==> e is Unauthorized,
        token_header is None ==> (r matches Err(e) && e matches IdentityError::Unauthorized(m)
            && m@ == "Missing token header"@),
{
    validate_owner_token(token_header, &state.owner_token)?;
    match verify_instance_signature(
        &request.pubkey,
        &state.instance_pubkey_bytes,
        &request.signature,
        UserType::Owner,
    ) {
        Ok(()) => {},
        Err(m) => {
            return Err(IdentityError::Unauthorized(m));
        },
    }
    let identity_signature = sign_message(&state.instance_key, request.pubkey.as_slice());
    Ok(
        IdentityInfo {
            pubkey: request.pubkey,
            instance_signature: request.signature,
            identity_signature,
        },
    )
}

/// What a successful configuration starts: the container for the new
/// configuration (no port published), and the SSH server bound to the
/// owner's public key.
pub struct ConfigureActions {
    pub container: WorkloadConfig,
    pub ssh_owner_pubkey: [u8; 32],
}

/// What a successful exposure does: stop the SSH server and relaunch the
/// container with the port published.
pub struct ExposeActions {
    pub stop_ssh: bool,
    pub container: WorkloadConfig,
}

/// Configure the workload: requires a bound owner, the owner's signature
/// over the raw request body, the service's own instance key in the
/// payload, clean persisted paths, and no finalized configuration. On
/// success the configuration is recorded unfinalized and the actions say to
/// launch it and start SSH for the owner.
#[verifier::loop_isolation(false)]
pub fn handle_configure(
    state: &mut AppState,
    raw_body: &[u8],
    sig_header: Option<&String>,
    payload: &ConfigureWorkloadRequest,
) -> (r: Result<ConfigureActions, IdentityError>)
    ensures
        r is Ok <==> old(state).owner is Some && signature_header_ok(
            sig_header,
            raw_body@,
            old(state).owner->0.pubkey@,
        ) && payload.instance_pubkey == old(state).instance_pubkey_bytes && all_paths_clean(
            payload.persist_dirs@,
        ) && configure_allowed(*old(state)),
        r matches Ok(actions) ==> (final(state).workload_config matches Some(c) && c.image
            == payload.image && c.persist_dirs@ == payload.persist_dirs@ && c.port == payload.port
            && !c.finalized && config_eq(actions.container, c) && actions.ssh_owner_pubkey == old(state).owner->0.pubkey && final(state).owner == old(state).owner && final(state).operator == old(state).operator && same_core(*final(state), *old(state))),
        r is Err ==> *final(state) == *old(state),
        old(state).owner is None ==> (r matches Err(e) && e matches IdentityError::Unauthorized(m)
            && m@ == "Owner not registered"@),
        old(state).owner is Some && signature_header_ok(
            sig_header,
            raw_body@,
            old(state).owner->0.pubkey@,
        ) && payload.instance_pubkey != old(state).instance_pubkey_bytes ==> (r matches Err(e)
            && e matches IdentityError::Unauthorized(m) && m@ == "Instance pubkey mismatch"@),
        old(state).owner is Some && signature_header_ok(
            sig_header,
            raw_body@,
            old(state).owner->0.pubkey@,
        ) && payload.instance_pubkey == old(state).instance_pubkey_bytes && !all_paths_clean(
            payload.persist_dirs@,
        ) ==> (r matches Err(e) && e matches IdentityError::InvalidRequest(m) && m@
            == "Invalid directory path"@),
{
    let owner = match &state.owner {
        None => {
            return Err(IdentityError::Unauthorized(String::from_str("Owner not registered")));
        },
        Some(o) => *o,
    };
    validate_signature_header(sig_header, raw_body, &owner.pubkey)?;
    if !crate::types::slice_eq(
        payload.instance_pubkey.as_slice(),
        state.instance_pubkey_bytes.as_slice(),
    ) {
        return Err(IdentityError::Unauthorized(String::from_str("Instance pubkey mismatch")));
    }
    proof {
        broadcast use vstd::array::group_array_axioms;

        assert(payload.instance_pubkey =~= state.instance_pubkey_bytes);
    }
    let n = payload.persist_dirs.len();
    let mut i: usize = 0;
    while i < n
        invariant
            n == payload.persist_dirs@.len(),
            i <= n,
            forall|j: int| 0 <= j < i ==> is_clean_path(#[trigger] payload.persist_dirs@[j]@),
        decreases n - i,
    {
        if sanitize_container_dir(payload.persist_dirs[i].as_str()).is_err() {
            return Err(IdentityError::InvalidRequest(String::from_str("Invalid directory path")));
        }
        i = i + 1;
    }
    let config = WorkloadConfig {
        image: payload.image.clone(),
        persist_dirs: payload.persist_dirs.clone(),
        port: payload.port,
        finalized: false,
    };
    proof {
        assert(config.persist_dirs@ =~= payload.persist_dirs@);
    }
    state.configure_workload(&config)?;
    let container = config.duplicate();
    Ok(ConfigureActions { container, ssh_owner_pubkey: owner.pubkey })
}

/// Expose the workload: requires a bound owner, the owner's signature over
/// the raw body, the service's own instance key, a configured workload whose
/// image matches the payload, and that the workload is not yet finalized. On
/// success the configuration is finalized and the actions say to stop SSH
/// and relaunch the container with the port published.
pub fn handle_expose(
    state: &mut AppState,
    raw_body: &[u8],
    sig_header: Option<&String>,
    payload: &ExposeWorkloadRequest,
) -> (r: Result<ExposeActions, IdentityError>)
    ensures
        r is Ok <==> old(state).owner is Some && signature_header_ok(
            sig_header,
            raw_body@,
            old(state).owner->0.pubkey@,
        ) && payload.instance_pubkey == old(state).instance_pubkey_bytes && (old(state).workload_config matches Some(c) && c.image@ == payload.image@ && !c.finalized),
        r matches Ok(actions) ==> (final(state).workload_config matches Some(c) && old(state).workload_config matches Some(oc) && c.image == oc.image && c.persist_dirs@
            == oc.persist_dirs@ && c.port == oc.port && c.finalized && actions.stop_ssh
            && config_eq(actions.container, c) && final(state).owner == old(state).owner && final(state).operator == old(state).operator && same_core(*final(state), *old(state))),
        r is Err ==> *final(state) == *old(state),
        old(state).owner is Some && signature_header_ok(
            sig_header,
            raw_body@,
            old(state).owner->0.pubkey@,
        ) && payload.instance_pubkey == old(state).instance_pubkey_bytes && old(state).workload_config is None ==> (r matches Err(e) && e matches
            IdentityError::InvalidRequest(m) && m@ == "Workload not configured"@),
        old(state).owner is Some && signature_header_ok(
            sig_header,
            raw_body@,
            old(state).owner->0.pubkey@,
        ) && payload.instance_pubkey == old(state).instance_pubkey_bytes && (old(state).workload_config matches Some(c) && c.image@ != payload.image@) ==> (r matches Err(e)
            && e matches IdentityError::Unauthorized(m) && m@
            == "Instance image mismatch with stored config"@),
{
    let owner = match &state.owner {
        None => {
            return Err(IdentityError::Unauthorized(String::from_str("Owner not registered")));
        },
        Some(o) => *o,
    };
    validate_signature_header(sig_header, raw_body, &owner.pubkey)?;
    if !crate::types::slice_eq(
        payload.instance_pubkey.as_slice(),
        state.instance_pubkey_bytes.as_slice(),
    ) {
        return Err(IdentityError::Unauthorized(String::from_str("Instance pubkey mismatch")));
    }
    proof {
        broadcast use vstd::array::group_array_axioms;

        assert(payload.instance_pubkey =~= state.instance_pubkey_bytes);
    }
    let image_matches = match &state.workload_config {
        None => {
            return Err(IdentityError::InvalidRequest(String::from_str("Workload not configured")));
        },
        Some(c) => c.image == payload.image,
    };
    if !image_matches {
        return Err(
            IdentityError::Unauthorized(
                String::from_str("Instance image mismatch with stored config"),
            ),
        );
    }
    state.finalize_workload()?;
    let container = match &state.workload_config {
        Some(c) => c.duplicate(),
        None => vstd::pervasive::unreached(),
    };
    Ok(ExposeActions { stop_ssh: true, container })
}

/// The key material that seals the encrypted volume: the hex encoding of
/// SHA-256 over the owner's public key followed by the PPID.
pub fn generate_encryption_key(owner_pubkey: &[u8], ppid: &[u8]) -> (r: String)
    ensures
        r@ == spec_hex_encode(crate::crypto::sha256_of(owner_pubkey@ + ppid@)),
{
    let mut material: Vec<u8> = Vec::new();
    crate::types::append_bytes(&mut material, owner_pubkey);
    crate::types::append_bytes(&mut material, ppid);
    let digest = crate::crypto::sha256(material.as_slice());
    hex_encode(digest.as_slice())
}

/// Whether an SSH client's presented public key belongs to the owner: its
/// raw bytes must end with the owner's 32-byte key (the wire format may
/// prefix a header).
pub fn ssh_key_matches_owner(presented: &[u8], owner_pubkey: &[u8; 32]) -> (r: bool)
    ensures
        r == (presented@.len() >= 32 && presented@.skip(presented@.len() - 32) == owner_pubkey@),
{
    if presented.len() < 32 {
        return false;
    }
    let n = presented.len();
    let start = n - 32;
    let tail: &[u8] = &presented[start..n];
    let r = crate::types::slice_eq(tail, owner_pubkey.as_slice());
    proof {
        assert(tail@ =~= presented@.skip(start as int));
    }
    r
}

/// Finalization is one-way: once a configuration is finalized, neither a new
/// configuration nor another finalization is allowed.
pub proof fn lemma_finalize_one_way(s: AppState)
    ensures
        s.workload_config matches Some(c) && c.finalized ==> !configure_allowed(s)
            && !finalize_allowed(s),
{
}

} // verus!
