//! A compact binary encoding for registry entries, used to store them in the
//! registry's key-value store.
//!
//! Layout: the PPID and the quote each as an 8-byte little-endian length
//! followed by the bytes, then the operator and the owner each as a presence
//! byte (0 or 1) followed, when present, by their 160-byte identity bundle.
//! Decoding accepts exactly the encodings and returns the encoded parts.

use vstd::prelude::*;

use crate::report_data::identity_bytes;
use crate::types::{append_bytes, IdentityInfo, RegistryEntry};

verus! {

/// The 8-byte little-endian encoding of `n`.
pub open spec fn u64_le(n: u64) -> Seq<u8> {
    seq![
        n as u8,
        (n >> 8) as u8,
        (n >> 16) as u8,
        (n >> 24) as u8,
        (n >> 32) as u8,
        (n >> 40) as u8,
        (n >> 48) as u8,
        (n >> 56) as u8,
    ]
}

/// The value 8 little-endian bytes encode.
pub open spec fn le_to_u64(s: Seq<u8>) -> u64
    recommends
        s.len() == 8,
{
    (s[0] as u64) | ((s[1] as u64) << 8) | ((s[2] as u64) << 16) | ((s[3] as u64) << 24) | ((
    s[4] as u64) << 32) | ((s[5] as u64) << 40) | ((s[6] as u64) << 48) | ((s[7] as u64) << 56)
}

/// Decoding the little-endian encoding gives the value back.
pub proof fn lemma_u64_le_round_trip(n: u64)
    ensures
        u64_le(n).len() == 8,
        le_to_u64(u64_le(n)) == n,
{
    let s = u64_le(n);
    assert(s[0] == n as u8 && s[1] == (n >> 8) as u8 && s[2] == (n >> 16) as u8 && s[3] == (n
        >> 24) as u8 && s[4] == (n >> 32) as u8 && s[5] == (n >> 40) as u8 && s[6] == (n
        >> 48) as u8 && s[7] == (n >> 56) as u8);
    assert(((n as u8) as u64) | ((((n >> 8) as u8) as u64) << 8) | ((((n >> 16) as u8) as u64)
        << 16) | ((((n >> 24) as u8) as u64) << 24) | ((((n >> 32) as u8) as u64) << 32) | ((((n
        >> 40) as u8) as u64) << 40) | ((((n >> 48) as u8) as u64) << 48) | ((((n
        >> 56) as u8) as u64) << 56) == n) by (bit_vector);
}

/// Encoding the value 8 bytes decode to gives the bytes back.
pub proof fn lemma_le_to_u64_round_trip(s: Seq<u8>)
    requires
        s.len() == 8,
    ensures
        u64_le(le_to_u64(s)) == s,
{
    let b0 = s[0];
    let b1 = s[1];
    let b2 = s[2];
    let b3 = s[3];
    let b4 = s[4];
    let b5 = s[5];
    let b6 = s[6];
    let b7 = s[7];
    assert({
        let n = (b0 as u64) | ((b1 as u64) << 8) | ((b2 as u64) << 16) | ((b3 as u64) << 24) | ((
        b4 as u64) << 32) | ((b5 as u64) << 40) | ((b6 as u64) << 48) | ((b7 as u64) << 56);
        n as u8 == b0 && (n >> 8) as u8 == b1 && (n >> 16) as u8 == b2 && (n >> 24) as u8 == b3
            && (n >> 32) as u8 == b4 && (n >> 40) as u8 == b5 && (n >> 48) as u8 == b6 && (n
            >> 56) as u8 == b7
    }) by (bit_vector);
    assert(u64_le(le_to_u64(s)) =~= s);
}

/// What an optional identity contributes to the encoding: a presence byte,
/// then the 160-byte bundle when present.
pub open spec fn opt_identity_encoding(o: Option<IdentityInfo>) -> Seq<u8> {
    match o {
        None => seq![0u8],
        Some(info) => seq![1u8] + identity_bytes(info),
    }
}

/// The encoding of an entry's parts.
pub open spec fn spec_encode_parts(
    ppid: Seq<u8>,
    quote: Seq<u8>,
    operator: Option<IdentityInfo>,
    owner: Option<IdentityInfo>,
) -> Seq<u8> {
    u64_le(ppid.len() as u64) + (ppid + (u64_le(quote.len() as u64) + (quote + (
    opt_identity_encoding(operator) + opt_identity_encoding(owner)))))
}

/// The encoding of a registry entry.
pub open spec fn spec_encode_entry(e: RegistryEntry) -> Seq<u8> {
    spec_encode_parts(e.ppid@, e.attestation_quote@, e.operator, e.owner)
}

/// Append the 8-byte little-endian encoding of `n`.
fn push_u64_le(dst: &mut Vec<u8>, n: u64)
    ensures
        final(dst)@ == old(dst)@ + u64_le(n),
{
    dst.push(n as u8);
    dst.push((n >> 8) as u8);
    dst.push((n >> 16) as u8);
    dst.push((n >> 24) as u8);
    dst.push((n >> 32) as u8);
    dst.push((n >> 40) as u8);
    dst.push((n >> 48) as u8);
    dst.push((n >> 56) as u8);
    proof {
        assert(dst@ =~= old(dst)@ + u64_le(n));
    }
}

/// Read the 8 little-endian bytes at `off`.
fn read_u64_le(src: &[u8], off: usize) -> (r: u64)
    requires
        off + 8 <= src@.len(),
    ensures
        r == le_to_u64(src@.subrange(off as int, off + 8)),
{
    let r = (src[off] as u64) | ((src[off + 1] as u64) << 8u64) | ((src[off + 2] as u64) << 16u64)
        | ((src[off + 3] as u64) << 24u64) | ((src[off + 4] as u64) << 32u64) | ((src[off
        + 5] as u64) << 40u64) | ((src[off + 6] as u64) << 48u64) | ((src[off + 7] as u64)
        << 56u64);
    proof {
        let s = src@.subrange(off as int, off + 8);
        assert(s[0] == src@[off as int] && s[1] == src@[off + 1] && s[2] == src@[off + 2] && s[3]
            == src@[off + 3] && s[4] == src@[off + 4] && s[5] == src@[off + 5] && s[6] == src@[off
            + 6] && s[7] == src@[off + 7]);
    }
    r
}

/// Serialize an entry with the compact binary layout.
pub fn encode_entry(entry: &RegistryEntry) -> (r: Vec<u8>)
    ensures
        r@ == spec_encode_entry(*entry),
{
    let mut out: Vec<u8> = Vec::new();
    push_u64_le(&mut out, entry.ppid.len() as u64);
    append_bytes(&mut out, entry.ppid.as_slice());
    push_u64_le(&mut out, entry.attestation_quote.len() as u64);
    append_bytes(&mut out, entry.attestation_quote.as_slice());
    match &entry.operator {
        None => out.push(0),
        Some(info) => {
            out.push(1);
            append_bytes(&mut out, info.pubkey.as_slice());
            append_bytes(&mut out, info.instance_signature.as_slice());
            append_bytes(&mut out, info.identity_signature.as_slice());
        },
    }
    match &entry.owner {
        None => out.push(0),
        Some(info) => {
            out.push(1);
            append_bytes(&mut out, info.pubkey.as_slice());
            append_bytes(&mut out, info.instance_signature.as_slice());
            append_bytes(&mut out, info.identity_signature.as_slice());
        },
    }
    proof {
        assert(out@ =~= spec_encode_entry(*entry));
    }
    out
}

/// The length an optional identity contributes past its presence byte.
pub open spec fn opt_identity_len(o: Option<IdentityInfo>) -> int {
    if o is Some {
        160int
    } else {
        0int
    }
}

/// Where each part of an encoding lies, for parts of bounded length.
proof fn lemma_parts_layout(
    bytes: Seq<u8>,
    ppid: Seq<u8>,
    quote: Seq<u8>,
    op: Option<IdentityInfo>,
    ow: Option<IdentityInfo>,
)
    requires
        ppid.len() <= usize::MAX,
        quote.len() <= usize::MAX,
        bytes == spec_encode_parts(ppid, quote, op, ow),
    ensures
        bytes.len() == 18 + ppid.len() + quote.len() + opt_identity_len(op) + opt_identity_len(
            ow,
        ),
        le_to_u64(bytes.subrange(0, 8)) == ppid.len(),
        bytes.subrange(8, 8 + ppid.len() as int) == ppid,
        le_to_u64(bytes.subrange(8 + ppid.len() as int, 16 + ppid.len() as int)) == quote.len(),
        bytes.subrange(
            16 + ppid.len() as int,
            16 + ppid.len() as int + quote.len() as int,
        ) == quote,
        bytes[16 + ppid.len() as int + quote.len() as int] == (if op is Some {
            1u8
        } else {
            0u8
        }),
        op matches Some(info) ==> bytes.subrange(
            17 + ppid.len() as int + quote.len() as int,
            17 + ppid.len() as int + quote.len() as int + 160,
        ) == identity_bytes(info),
        bytes[17 + ppid.len() as int + quote.len() as int + opt_identity_len(op)] == (if ow
            is Some {
            1u8
        } else {
            0u8
        }),
        ow matches Some(info) ==> bytes.subrange(
            18 + ppid.len() as int + quote.len() as int + opt_identity_len(op),
            18 + ppid.len() as int + quote.len() as int + opt_identity_len(op) + 160,
        ) == identity_bytes(info),
{
    let p = ppid.len() as int;
    let q = quote.len() as int;
    lemma_u64_le_round_trip(ppid.len() as u64);
    lemma_u64_le_round_trip(quote.len() as u64);
    assert(bytes.subrange(0, 8) =~= u64_le(ppid.len() as u64));
    assert(bytes.subrange(8, 8 + p) =~= ppid);
    assert(bytes.subrange(8 + p, 16 + p) =~= u64_le(quote.len() as u64));
    assert(bytes.subrange(16 + p, 16 + p + q) =~= quote);
    assert(bytes[16 + p + q] == opt_identity_encoding(op)[0]);
    if op is Some {
        let info = op->0;
        assert(bytes.subrange(17 + p + q, 17 + p + q + 160) =~= identity_bytes(info));
    }
    assert(bytes[17 + p + q + opt_identity_len(op)] == opt_identity_encoding(ow)[0]);
    if ow is Some {
        let info = ow->0;
        assert(bytes.subrange(
            18 + p + q + opt_identity_len(op),
            18 + p + q + opt_identity_len(op) + 160,
        ) =~= identity_bytes(info));
    }
}

/// An identity whose component arrays hold the three segments of its bundle
/// is that identity.
proof fn lemma_identity_from_bytes(
    seg: Seq<u8>,
    info: IdentityInfo,
    pk: [u8; 32],
    isig: [u8; 64],
    idsig: [u8; 64],
)
    requires
        seg == identity_bytes(info),
        pk@ == seg.subrange(0, 32),
        isig@ == seg.subrange(32, 96),
        idsig@ == seg.subrange(96, 160),
    ensures
        pk == info.pubkey,
        isig == info.instance_signature,
        idsig == info.identity_signature,
{
    broadcast use vstd::array::group_array_axioms;

    assert(pk@ =~= info.pubkey@);
    assert(isig@ =~= info.instance_signature@);
    assert(idsig@ =~= info.identity_signature@);
    assert(pk =~= info.pubkey);
    assert(isig =~= info.instance_signature);
    assert(idsig =~= info.identity_signature);
}

/// Copy 32 bytes at `off` into an array.
fn read_array_32(src: &[u8], off: usize) -> (r: [u8; 32])
    requires
        off + 32 <= src@.len(),
    ensures
        r@ == src@.subrange(off as int, off + 32),
{
    let srclen: usize = src.len();
    let mut r = [0u8; 32];
    let mut i: usize = 0;
    while i < 32
        invariant
            off + 32 <= src@.len() <= usize::MAX,
            i <= 32,
            forall|j: int| 0 <= j < i ==> r@[j] == src@[off + j],
        decreases 32 - i,
    {
        r[i] = src[off + i];
        i = i + 1;
    }
    proof {
        assert(r@ =~= src@.subrange(off as int, off + 32));
    }
    r
}

/// Copy 64 bytes at `off` into an array.
pub fn read_array_64(src: &[u8], off: usize) -> (r: [u8; 64])
    requires
        off + 64 <= src@.len(),
    ensures
        r@ == src@.subrange(off as int, off + 64),
{
    let srclen: usize = src.len();
    let mut r = [0u8; 64];
    let mut i: usize = 0;
    while i < 64
        invariant
            off + 64 <= src@.len() <= usize::MAX,
            i <= 64,
            forall|j: int| 0 <= j < i ==> r@[j] == src@[off + j],
        decreases 64 - i,
    {
        r[i] = src[off + i];
        i = i + 1;
    }
    proof {
        assert(r@ =~= src@.subrange(off as int, off + 64));
    }
    r
}

/// Read a 160-byte identity bundle at `off`.
fn read_identity(src: &[u8], off: usize) -> (r: IdentityInfo)
    requires
        off + 160 <= src@.len(),
    ensures
        r.pubkey@ == src@.subrange(off as int, off + 32),
        r.instance_signature@ == src@.subrange(off + 32, off + 96),
        r.identity_signature@ == src@.subrange(off + 96, off + 160),
{
    let srclen: usize = src.len();
    IdentityInfo {
        pubkey: read_array_32(src, off),
        instance_signature: read_array_64(src, off + 32),
        identity_signature: read_array_64(src, off + 96),
    }
}

/// Copy `src[from..to]` into a fresh vector.
fn copy_vec_range(src: &[u8], from: usize, to: usize) -> (r: Vec<u8>)
    requires
        from <= to <= src@.len(),
    ensures
        r@ == src@.subrange(from as int, to as int),
{
    let mut r: Vec<u8> = Vec::new();
    let mut i: usize = from;
    while i < to
        invariant
            from <= i <= to <= src@.len(),
            r@ == src@.subrange(from as int, i as int),
        decreases to - i,
    {
        r.push(src[i]);
        proof {
            assert(src@.subrange(from as int, i as int).push(src@[i as int]) =~= src@.subrange(
                from as int,
                i + 1,
            ));
        }
        i = i + 1;
    }
    r
}

/// Two bundles of parts with the same encoding are the same parts.
proof fn lemma_encode_parts_injective(
    ppid1: Seq<u8>,
    quote1: Seq<u8>,
    op1: Option<IdentityInfo>,
    ow1: Option<IdentityInfo>,
    ppid2: Seq<u8>,
    quote2: Seq<u8>,
    op2: Option<IdentityInfo>,
    ow2: Option<IdentityInfo>,
)
    requires
        ppid1.len() <= usize::MAX,
        quote1.len() <= usize::MAX,
        ppid2.len() <= usize::MAX,
        quote2.len() <= usize::MAX,
        spec_encode_parts(ppid1, quote1, op1, ow1) == spec_encode_parts(ppid2, quote2, op2, ow2),
    ensures
        ppid1 == ppid2,
        quote1 == quote2,
        op1 == op2,
        ow1 == ow2,
{
    let bytes = spec_encode_parts(ppid1, quote1, op1, ow1);
    lemma_parts_layout(bytes, ppid1, quote1, op1, ow1);
    lemma_parts_layout(bytes, ppid2, quote2, op2, ow2);
    assert(ppid1.len() == ppid2.len());
    assert(quote1.len() == quote2.len());
    let p = ppid1.len() as int;
    let q = quote1.len() as int;
    assert(op1 is Some <==> op2 is Some);
    if op1 is Some {
        crate::report_data::lemma_identity_bytes_injective(op1->0, op2->0);
    }
    assert(ow1 is Some <==> ow2 is Some);
    if ow1 is Some {
        crate::report_data::lemma_identity_bytes_injective(ow1->0, ow2->0);
    }
}

/// A byte string whose every part lies where the encoding puts it is that
/// encoding.
proof fn lemma_parts_stitch(
    bytes: Seq<u8>,
    ppid: Seq<u8>,
    quote: Seq<u8>,
    op: Option<IdentityInfo>,
    ow: Option<IdentityInfo>,
)
    requires
        ppid.len() <= usize::MAX,
        quote.len() <= usize::MAX,
        bytes.len() == 18 + ppid.len() + quote.len() + opt_identity_len(op) + opt_identity_len(
            ow,
        ),
        bytes.subrange(0, 8) == u64_le(ppid.len() as u64),
        bytes.subrange(8, 8 + ppid.len() as int) == ppid,
        bytes.subrange(8 + ppid.len() as int, 16 + ppid.len() as int) == u64_le(
            quote.len() as u64,
        ),
        bytes.subrange(
            16 + ppid.len() as int,
            16 + ppid.len() as int + quote.len() as int,
        ) == quote,
        bytes[16 + ppid.len() as int + quote.len() as int] == (if op is Some {
            1u8
        } else {
            0u8
        }),
        op matches Some(info) ==> bytes.subrange(
            17 + ppid.len() as int + quote.len() as int,
            17 + ppid.len() as int + quote.len() as int + 160,
        ) == identity_bytes(info),
        bytes[17 + ppid.len() as int + quote.len() as int + opt_identity_len(op)] == (if ow
            is Some {
            1u8
        } else {
            0u8
        }),
        ow matches Some(info) ==> bytes.subrange(
            18 + ppid.len() as int + quote.len() as int + opt_identity_len(op),
            18 + ppid.len() as int + quote.len() as int + opt_identity_len(op) + 160,
        ) == identity_bytes(info),
    ensures
        bytes == spec_encode_parts(ppid, quote, op, ow),
{
    let p = ppid.len() as int;
    let q = quote.len() as int;
    let enc = spec_encode_parts(ppid, quote, op, ow);
    assert forall|i: int| 0 <= i < bytes.len() implies bytes[i] == enc[i] by {
        if i < 8 {
            assert(bytes.subrange(0, 8)[i] == bytes[i]);
        } else if i < 8 + p {
            assert(bytes.subrange(8, 8 + p)[i - 8] == bytes[i]);
        } else if i < 16 + p {
            assert(bytes.subrange(8 + p, 16 + p)[i - 8 - p] == bytes[i]);
        } else if i < 16 + p + q {
            assert(bytes.subrange(16 + p, 16 + p + q)[i - 16 - p] == bytes[i]);
        } else if i == 16 + p + q {
        } else if op is Some && i < 17 + p + q + 160 {
            let info = op->0;
            assert(bytes.subrange(17 + p + q, 17 + p + q + 160)[i - 17 - p - q] == bytes[i]);
            assert(identity_bytes(info).len() == 160);
        } else if i == 17 + p + q + opt_identity_len(op) {
        } else {
            let info = ow->0;
            let start = 18 + p + q + opt_identity_len(op);
            assert(bytes.subrange(start, start + 160)[i - start] == bytes[i]);
            assert(identity_bytes(info).len() == 160);
        }
    }
    assert(bytes =~= enc);
}

/// Parse an entry from its compact binary encoding. Returns the encoded
/// parts for exactly the byte strings that are encodings, and nothing
/// otherwise.
#[verifier::rlimit(100)]
pub fn decode_entry(bytes: &[u8]) -> (r: Option<RegistryEntry>)
    ensures
        r matches Some(d) ==> bytes@ == spec_encode_entry(d) && d.ppid@.len() <= usize::MAX
            && d.attestation_quote@.len() <= usize::MAX,
        forall|ppid: Seq<u8>, quote: Seq<u8>, op: Option<IdentityInfo>, ow: Option<IdentityInfo>|
            ppid.len() <= usize::MAX && quote.len() <= usize::MAX && bytes@
                == #[trigger] spec_encode_parts(ppid, quote, op, ow) ==> (r matches Some(d)
                && d.ppid@ == ppid && d.attestation_quote@ == quote && d.operator == op && d.owner
                == ow),
{
    let ghost gb = bytes@;
    let r = decode_entry_inner(bytes);
    proof {
        assert forall|
            ppid: Seq<u8>,
            quote: Seq<u8>,
            op: Option<IdentityInfo>,
            ow: Option<IdentityInfo>,
        |
            ppid.len() <= usize::MAX && quote.len() <= usize::MAX && gb
                == #[trigger] spec_encode_parts(ppid, quote, op, ow) implies (r matches Some(d)
            && d.ppid@ == ppid && d.attestation_quote@ == quote && d.operator == op && d.owner
            == ow) by {
            if r is Some {
                let d = r->0;
                lemma_encode_parts_injective(
                    ppid,
                    quote,
                    op,
                    ow,
                    d.ppid@,
                    d.attestation_quote@,
                    d.operator,
                    d.owner,
                );
            }
        }
    }
    r
}

/// The parsing half of `decode_entry`: sound, and total on encodings.
#[verifier::rlimit(30)]
fn decode_entry_inner(bytes: &[u8]) -> (r: Option<RegistryEntry>)
    ensures
        r matches Some(d) ==> bytes@ == spec_encode_entry(d) && d.ppid@.len() <= usize::MAX
            && d.attestation_quote@.len() <= usize::MAX,
        (exists|ppid: Seq<u8>, quote: Seq<u8>, op: Option<IdentityInfo>, ow: Option<IdentityInfo>|
            ppid.len() <= usize::MAX && quote.len() <= usize::MAX && bytes@
                == #[trigger] spec_encode_parts(ppid, quote, op, ow)) ==> r is Some,
{
    let ghost gb = bytes@;
    let ghost witness_holds = exists|
        ppid: Seq<u8>,
        quote: Seq<u8>,
        op: Option<IdentityInfo>,
        ow: Option<IdentityInfo>,
    |
        ppid.len() <= usize::MAX && quote.len() <= usize::MAX && gb == #[trigger] spec_encode_parts(
            ppid,
            quote,
            op,
            ow,
        );
    proof {
        if witness_holds {
            let (ppid, quote, op, ow) = choose|
                ppid: Seq<u8>,
                quote: Seq<u8>,
                op: Option<IdentityInfo>,
                ow: Option<IdentityInfo>,
            |
                ppid.len() <= usize::MAX && quote.len() <= usize::MAX && gb
                    == #[trigger] spec_encode_parts(ppid, quote, op, ow);
            lemma_parts_layout(gb, ppid, quote, op, ow);
        }
    }
    let n = bytes.len();
    if n < 8 {
        return None;
    }
    let l1 = read_u64_le(bytes, 0);
    if l1 > (n - 8) as u64 {
        return None;
    }
    let p = l1 as usize;
    let ppid = copy_vec_range(bytes, 8, 8 + p);
    if n - 8 - p < 8 {
        return None;
    }
    let l2 = read_u64_le(bytes, 8 + p);
    if l2 > (n - 16 - p) as u64 {
        return None;
    }
    let q = l2 as usize;
    let quote = copy_vec_range(bytes, 16 + p, 16 + p + q);
    let mut off: usize = 16 + p + q;
    if n - off < 1 {
        return None;
    }
    let op_tag = bytes[off];
    let operator: Option<IdentityInfo> = if op_tag == 0 {
        off = off + 1;
        None
    } else if op_tag == 1 {
        if n - off - 1 < 160 {
            return None;
        }
        let info = read_identity(bytes, off + 1);
        off = off + 161;
        Some(info)
    } else {
        return None;
    };
    if n - off < 1 {
        return None;
    }
    let ow_tag = bytes[off];
    let owner: Option<IdentityInfo> = if ow_tag == 0 {
        off = off + 1;
        None
    } else if ow_tag == 1 {
        if n - off - 1 < 160 {
            return None;
        }
        let info = read_identity(bytes, off + 1);
        off = off + 161;
        Some(info)
    } else {
        return None;
    };
    if off != n {
        return None;
    }
    let entry = RegistryEntry { ppid, attestation_quote: quote, operator, owner };
    proof {
        lemma_le_to_u64_round_trip(gb.subrange(0, 8));
        lemma_le_to_u64_round_trip(gb.subrange(8 + p, 16 + p));
        assert(entry.ppid@.len() == p && entry.attestation_quote@.len() == q);
        assert(entry.ppid@.len() as u64 == l1 && entry.attestation_quote@.len() as u64 == l2);
        assert(gb.subrange(0, 8) == u64_le(entry.ppid@.len() as u64));
        assert(gb.subrange(8 + p, 16 + p) == u64_le(entry.attestation_quote@.len() as u64));
        if entry.operator is Some {
            let info = entry.operator->0;
            assert(gb.subrange(17 + p + q, 17 + p + q + 160) =~= identity_bytes(info));
        }
        if entry.owner is Some {
            let info = entry.owner->0;
            let start = 18 + p + q + opt_identity_len(entry.operator);
            assert(gb.subrange(start, start + 160) =~= identity_bytes(info));
        }
        lemma_parts_stitch(gb, entry.ppid@, entry.attestation_quote@, entry.operator, entry.owner);
    }
    Some(entry)
}

} // verus!
