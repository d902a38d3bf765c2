//! Construction of the attestation hash: the SHA-512 digest, over a fixed
//! concatenation of the identity bundle, that a quote's report data commits
//! to.

use vstd::prelude::*;

use crate::crypto::{sha512, sha512_of};
use crate::types::{append_bytes, IdentityInfo, RegisterRequest};

verus! {

/// The bytes an identity contributes to the attestation message:
/// public key, then its signature over the instance key, then the instance's
/// signature over it.
pub open spec fn identity_bytes(info: IdentityInfo) -> Seq<u8> {
    info.pubkey@ + info.instance_signature@ + info.identity_signature@
}

/// The bytes an optional identity contributes: nothing when absent.
pub open spec fn opt_identity_bytes(o: Option<IdentityInfo>) -> Seq<u8> {
    match o {
        Some(info) => identity_bytes(info),
        None => Seq::empty(),
    }
}

/// The exact byte string that is hashed: instance public key, PPID, then the
/// operator and owner contributions in that fixed order.
pub open spec fn attestation_message(
    instance_pubkey: Seq<u8>,
    ppid: Seq<u8>,
    operator: Option<IdentityInfo>,
    owner: Option<IdentityInfo>,
) -> Seq<u8> {
    instance_pubkey + ppid + opt_identity_bytes(operator) + opt_identity_bytes(owner)
}

/// The attestation hash: SHA-512 of the attestation message.
pub open spec fn spec_attestation_hash(
    instance_pubkey: Seq<u8>,
    ppid: Seq<u8>,
    operator: Option<IdentityInfo>,
    owner: Option<IdentityInfo>,
) -> Seq<u8> {
    sha512_of(attestation_message(instance_pubkey, ppid, operator, owner))
}

/// An optional identity, dereferenced.
pub open spec fn opt_copied(o: Option<&IdentityInfo>) -> Option<IdentityInfo> {
    match o {
        Some(info) => Some(*info),
        None => None,
    }
}

/// Creates the hash of the instance public key, PPID, and optional operator
/// and owner information that the attestation quote commits to.
pub fn create_attestation_hash(
    instance_pubkey_bytes: &[u8],
    ppid: &[u8],
    operator: Option<&IdentityInfo>,
    owner: Option<&IdentityInfo>,
) -> (r: [u8; 64])
    ensures
        r@ == spec_attestation_hash(
            instance_pubkey_bytes@,
            ppid@,
            opt_copied(operator),
            opt_copied(owner),
        ),
{
    let mut msg: Vec<u8> = Vec::new();
    append_bytes(&mut msg, instance_pubkey_bytes);
    append_bytes(&mut msg, ppid);
    if let Some(op) = operator {
        append_bytes(&mut msg, op.pubkey.as_slice());
        append_bytes(&mut msg, op.instance_signature.as_slice());
        append_bytes(&mut msg, op.identity_signature.as_slice());
    }
    if let Some(ow) = owner {
        append_bytes(&mut msg, ow.pubkey.as_slice());
        append_bytes(&mut msg, ow.instance_signature.as_slice());
        append_bytes(&mut msg, ow.identity_signature.as_slice());
    }
    proof {
        assert(msg@ =~= attestation_message(
            instance_pubkey_bytes@,
            ppid@,
            opt_copied(operator),
            opt_copied(owner),
        ));
    }
    sha512(msg.as_slice())
}

/// Reconstructs, from a request to the registry, the attestation hash that
/// the request's quote should carry as report data.
pub fn reconstruct_attestation_hash(request: &RegisterRequest) -> (r: [u8; 64])
    ensures
        r@ == spec_attestation_hash(
            request.instance_pubkey@,
            request.ppid@,
            request.operator,
            request.owner,
        ),
{
    create_attestation_hash(
        request.instance_pubkey.as_slice(),
        request.ppid.as_slice(),
        request.operator.as_ref(),
        request.owner.as_ref(),
    )
}

/// Hashing the same bundle twice gives the same 64-byte value: the
/// attestation hash is a function of the bundle alone.
pub proof fn lemma_attestation_hash_deterministic(
    pk1: Seq<u8>,
    ppid1: Seq<u8>,
    op1: Option<IdentityInfo>,
    ow1: Option<IdentityInfo>,
    pk2: Seq<u8>,
    ppid2: Seq<u8>,
    op2: Option<IdentityInfo>,
    ow2: Option<IdentityInfo>,
)
    requires
        pk1 == pk2,
        ppid1 == ppid2,
        op1 == op2,
        ow1 == ow2,
    ensures
        spec_attestation_hash(pk1, ppid1, op1, ow1) == spec_attestation_hash(
            pk2,
            ppid2,
            op2,
            ow2,
        ),
{
}

/// Two concatenations are equal piecewise once the first parts have the same
/// length.
proof fn lemma_concat_parts(a: Seq<u8>, b: Seq<u8>, c: Seq<u8>, d: Seq<u8>)
    requires
        a.len() == c.len(),
        a + b == c + d,
    ensures
        a == c,
        b == d,
{
    assert((a + b).len() == a.len() + b.len());
    assert((c + d).len() == c.len() + d.len());
    assert(b.len() == d.len());
    assert forall|i: int| 0 <= i < a.len() implies a[i] == c[i] by {
        assert((a + b)[i] == a[i]);
        assert((c + d)[i] == c[i]);
    }
    assert(a =~= c);
    assert forall|i: int| 0 <= i < b.len() implies b[i] == d[i] by {
        assert((a + b)[a.len() + i] == b[i]);
        assert((c + d)[c.len() + i] == d[i]);
    }
    assert(b =~= d);
}

/// An identity's contribution determines the identity.
pub proof fn lemma_identity_bytes_injective(x: IdentityInfo, y: IdentityInfo)
    requires
        identity_bytes(x) == identity_bytes(y),
    ensures
        x == y,
{
    broadcast use vstd::array::group_array_axioms;

    lemma_concat_parts(
        x.pubkey@ + x.instance_signature@,
        x.identity_signature@,
        y.pubkey@ + y.instance_signature@,
        y.identity_signature@,
    );
    lemma_concat_parts(x.pubkey@, x.instance_signature@, y.pubkey@, y.instance_signature@);
    assert(x.pubkey =~= y.pubkey);
    assert(x.instance_signature =~= y.instance_signature);
    assert(x.identity_signature =~= y.identity_signature);
}

/// The attestation message pins the bundle down: two bundles of the same
/// shape (equal instance-key and PPID lengths, operator and owner present in
/// both or in neither) with the same message are the same bundle. In
/// particular, within one shape, changing or reordering any field changes
/// the hashed bytes.
pub proof fn lemma_attestation_message_injective(
    pk1: Seq<u8>,
    ppid1: Seq<u8>,
    op1: Option<IdentityInfo>,
    ow1: Option<IdentityInfo>,
    pk2: Seq<u8>,
    ppid2: Seq<u8>,
    op2: Option<IdentityInfo>,
    ow2: Option<IdentityInfo>,
)
    requires
        pk1.len() == pk2.len(),
        ppid1.len() == ppid2.len(),
        op1 is Some <==> op2 is Some,
        ow1 is Some <==> ow2 is Some,
        attestation_message(pk1, ppid1, op1, ow1) == attestation_message(pk2, ppid2, op2, ow2),
    ensures
        pk1 == pk2,
        ppid1 == ppid2,
        op1 == op2,
        ow1 == ow2,
{
    lemma_concat_parts(
        pk1 + ppid1 + opt_identity_bytes(op1),
        opt_identity_bytes(ow1),
        pk2 + ppid2 + opt_identity_bytes(op2),
        opt_identity_bytes(ow2),
    );
    lemma_concat_parts(
        pk1 + ppid1,
        opt_identity_bytes(op1),
        pk2 + ppid2,
        opt_identity_bytes(op2),
    );
    lemma_concat_parts(pk1, ppid1, pk2, ppid2);
    if op1 is Some {
        lemma_identity_bytes_injective(op1->0, op2->0);
    }
    if ow1 is Some {
        lemma_identity_bytes_injective(ow1->0, ow2->0);
    }
}

} // verus!
