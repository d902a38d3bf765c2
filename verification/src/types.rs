//! Shared data types: identity bundles exchanged between the enclave and the
//! registry, and the role tag used in error messages.

use vstd::prelude::*;

use crate::crypto::{ed25519_valid_pubkey, ed25519_verifies, ed25519_check, SigCheck};

verus! {

/// Role of the key being checked; used only to pick error messages.
#[derive(Clone, Copy)]
pub enum UserType {
    Operator,
    Owner,
    Instance,
}

impl UserType {
    /// The lower-case role name.
    pub open spec fn spec_str(self) -> Seq<char> {
        match self {
            UserType::Operator => "operator"@,
            UserType::Owner => "owner"@,
            UserType::Instance => "instance"@,
        }
    }

    /// The lower-case role name, for building error messages.
    pub fn as_str(self) -> (r: &'static str)
        ensures
            r@ == self.spec_str(),
    {
        match self {
            UserType::Operator => "operator",
            UserType::Owner => "owner",
            UserType::Instance => "instance",
        }
    }
}

/// Identifying information for an operator or owner: their public key plus
/// both directions of the mutual signature.
///
/// `instance_signature` is the identity's signature over the instance public
/// key; `identity_signature` is the instance's signature over the identity's
/// public key.
#[derive(Clone, Copy, Debug)]
pub struct IdentityInfo {
    pub pubkey: [u8; 32],
    pub instance_signature: [u8; 64],
    pub identity_signature: [u8; 64],
}

/// A request to the registry: the full bundle an instance attests to.
#[derive(Debug)]
pub struct RegisterRequest {
    pub instance_pubkey: [u8; 32],
    pub ppid: Vec<u8>,
    pub attestation_quote: Vec<u8>,
    pub operator: Option<IdentityInfo>,
    pub owner: Option<IdentityInfo>,
}

/// The data the registry stores for each instance public key.
#[derive(Debug)]
pub struct RegistryEntry {
    pub ppid: Vec<u8>,
    pub attestation_quote: Vec<u8>,
    pub operator: Option<IdentityInfo>,
    pub owner: Option<IdentityInfo>,
}

/// Byte-for-byte equality of two slices.
pub fn slice_eq(a: &[u8], b: &[u8]) -> (r: bool)
    ensures
        r == (a@ == b@),
{
    if a.len() != b.len() {
        return false;
    }
    let n = a.len();
    let mut i: usize = 0;
    while i < n
        invariant
            n == a@.len(),
            n == b@.len(),
            i <= n,
            forall|j: int| 0 <= j < i ==> a@[j] == b@[j],
        decreases n - i,
    {
        if a[i] != b[i] {
            return false;
        }
        i = i + 1;
    }
    proof {
        assert(a@ =~= b@);
    }
    true
}

/// A fresh vector with the same bytes.
pub fn clone_bytes(v: &Vec<u8>) -> (r: Vec<u8>)
    ensures
        r@ == v@,
{
    let r = v.clone();
    proof {
        assert(r@ =~= v@);
    }
    r
}

/// Append a slice's bytes to a vector.
pub fn append_bytes(dst: &mut Vec<u8>, src: &[u8])
    ensures
        final(dst)@ == old(dst)@ + src@,
{
    let n = src.len();
    let mut i: usize = 0;
    while i < n
        invariant
            n == src@.len(),
            i <= n,
            dst@ == old(dst)@ + src@.subrange(0, i as int),
        decreases n - i,
    {
        dst.push(src[i]);
        proof {
            assert(old(dst)@ + src@.subrange(0, i as int) + seq![src@[i as int]] =~= old(dst)@
                + src@.subrange(0, i + 1));
        }
        i = i + 1;
    }
    proof {
        assert(src@.subrange(0, n as int) =~= src@);
    }
}

/// Field-for-field equality of two identity bundles.
pub fn identity_info_eq(a: &IdentityInfo, b: &IdentityInfo) -> (r: bool)
    ensures
        r == (*a == *b),
{
    broadcast use vstd::array::group_array_axioms;

    let r = slice_eq(a.pubkey.as_slice(), b.pubkey.as_slice()) && slice_eq(
        a.instance_signature.as_slice(),
        b.instance_signature.as_slice(),
    ) && slice_eq(a.identity_signature.as_slice(), b.identity_signature.as_slice());
    proof {
        if a.pubkey@ == b.pubkey@ && a.instance_signature@ == b.instance_signature@
            && a.identity_signature@ == b.identity_signature@ {
            assert(a.pubkey =~= b.pubkey);
            assert(a.instance_signature =~= b.instance_signature);
            assert(a.identity_signature =~= b.identity_signature);
            assert(*a == *b);
        }
    }
    r
}

/// The message reported when a role's public key does not decode.
pub open spec fn invalid_key_message(role: Seq<char>) -> Seq<char> {
    "Invalid "@ + role + " public key"@
}

/// The message reported when a signature is rejected.
pub open spec fn invalid_sig_message(role: Seq<char>) -> Seq<char> {
    "Invalid "@ + role + " signature"@
}

/// Verify under strict Ed25519 that the holder of `identity_pubkey` signed
/// `instance_pubkey`. Succeeds exactly when `identity_pubkey` is a valid key
/// and `signature` verifies over `instance_pubkey` under it; `context` only
/// selects the error message.
pub fn verify_instance_signature(
    identity_pubkey: &[u8; 32],
    instance_pubkey: &[u8; 32],
    signature: &[u8; 64],
    context: UserType,
) -> (r: Result<(), String>)
    ensures
        r is Ok <==> ed25519_valid_pubkey(identity_pubkey@) && ed25519_verifies(
            identity_pubkey@,
            instance_pubkey@,
            signature@,
        ),
        !ed25519_valid_pubkey(identity_pubkey@) ==> (r matches Err(m) && m@ == invalid_key_message(
            context.spec_str(),
        )),
        ed25519_valid_pubkey(identity_pubkey@) && !ed25519_verifies(
            identity_pubkey@,
            instance_pubkey@,
            signature@,
        ) ==> (r matches Err(m) && m@ == invalid_sig_message(context.spec_str())),
{
    match ed25519_check(identity_pubkey, instance_pubkey.as_slice(), signature) {
        SigCheck::Valid => Ok(()),
        SigCheck::BadKey => {
            let mut m = String::from_str("Invalid ");
            m.append(context.as_str());
            m.append(" public key");
            Err(m)
        },
        SigCheck::Rejected => {
            let mut m = String::from_str("Invalid ");
            m.append(context.as_str());
            m.append(" signature");
            Err(m)
        },
    }
}

/// Mutual-signature round trip: a signature freshly produced by the
/// identity's own key over the instance public key always passes
/// `verify_instance_signature`, whichever role tag is passed — the role only
/// selects error messages.
pub fn check_mutual_signature_round_trip(
    identity_seed: &[u8; 32],
    instance_pubkey: &[u8; 32],
    role: UserType,
) -> (r: Result<(), String>)
    ensures
        r is Ok,
{
    let identity_pubkey = crate::crypto::derive_public_key(identity_seed);
    let signature = crate::crypto::sign_message(identity_seed, instance_pubkey.as_slice());
    verify_instance_signature(&identity_pubkey, instance_pubkey, &signature, role)
}

} // verus!
