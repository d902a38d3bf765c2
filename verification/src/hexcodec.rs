//! Lower-case hex encoding and decoding, taken from the `hex` crate behind
//! trusted wrappers whose contracts state the exact byte-for-byte result.

use vstd::prelude::*;

verus! {

/// The lower-case hex digit for a value below 16.
pub open spec fn hex_char_of(v: u8) -> char
    recommends
        v < 16,
{
    if v < 10 {
        ((v + 48) as u8) as char
    } else {
        ((v + 87) as u8) as char
    }
}

/// The lower-case hex encoding of `bytes`: two digits per byte, high nibble
/// first.
pub open spec fn spec_hex_encode(bytes: Seq<u8>) -> Seq<char>
    decreases bytes.len(),
{
    if bytes.len() == 0 {
        Seq::empty()
    } else {
        seq![hex_char_of(bytes[0] / 16), hex_char_of(bytes[0] % 16)] + spec_hex_encode(
            bytes.skip(1),
        )
    }
}

/// Whether `c` is a hex digit; both cases are accepted on decoding.
pub open spec fn is_hex_digit(c: char) -> bool {
    ('0' <= c && c <= '9') || ('a' <= c && c <= 'f') || ('A' <= c && c <= 'F')
}

/// The value of a hex digit.
pub open spec fn hex_val(c: char) -> u8
    recommends
        is_hex_digit(c),
{
    if '0' <= c && c <= '9' {
        ((c as u8) - 48) as u8
    } else if 'a' <= c && c <= 'f' {
        ((c as u8) - 87) as u8
    } else {
        ((c as u8) - 55) as u8
    }
}

/// Whether `s` decodes as hex: even length, hex digits throughout.
pub open spec fn spec_hex_decodable(s: Seq<char>) -> bool {
    s.len() % 2 == 0 && (forall|i: int| 0 <= i < s.len() ==> is_hex_digit(#[trigger] s[i]))
}

/// The bytes a hex string decodes to, one byte per digit pair.
pub open spec fn spec_hex_decode(s: Seq<char>) -> Seq<u8>
    recommends
        spec_hex_decodable(s),
    decreases s.len(),
{
    if s.len() < 2 {
        Seq::empty()
    } else {
        seq![(hex_val(s[0]) * 16 + hex_val(s[1])) as u8] + spec_hex_decode(s.skip(2))
    }
}

/// Relies on `hex::encode`: lower-case hex, two digits for each input byte,
/// high nibble first.
#[verifier::external_body]
pub fn hex_encode(bytes: &[u8]) -> (r: String)
    ensures
        r@ == spec_hex_encode(bytes@),
        r@.len() == 2 * bytes@.len(),
{
    hex::encode(bytes)
}

/// Relies on `hex::decode`: succeeds exactly on even-length strings of hex
/// digits (either case) and returns one byte per digit pair.
#[verifier::external_body]
pub fn hex_decode(s: &str) -> (r: Result<Vec<u8>, ()>)
    ensures
        r is Ok <==> spec_hex_decodable(s@),
        r matches Ok(v) ==> v@ == spec_hex_decode(s@),
{
    hex::decode(s).map_err(|_| ())
}

/// The hex encoding of a byte sequence is twice as long.
pub proof fn lemma_hex_encode_len(bytes: Seq<u8>)
    ensures
        spec_hex_encode(bytes).len() == 2 * bytes.len(),
    decreases bytes.len(),
{
    if bytes.len() > 0 {
        lemma_hex_encode_len(bytes.skip(1));
    }
}

/// Hex decoding undoes hex encoding: decoding the encoding of any byte
/// sequence gives the bytes back, and the encoding is always decodable.
pub proof fn lemma_hex_round_trip(bytes: Seq<u8>)
    ensures
        spec_hex_decodable(spec_hex_encode(bytes)),
        spec_hex_decode(spec_hex_encode(bytes)) == bytes,
    decreases bytes.len(),
{
    lemma_hex_encode_len(bytes);
    if bytes.len() == 0 {
        assert(spec_hex_decode(spec_hex_encode(bytes)) =~= bytes);
    } else {
        let enc = spec_hex_encode(bytes);
        lemma_hex_round_trip(bytes.skip(1));
        lemma_hex_encode_len(bytes.skip(1));
        assert(enc.skip(2) =~= spec_hex_encode(bytes.skip(1)));
        assert(hex_val(enc[0]) == bytes[0] / 16 && hex_val(enc[1]) == bytes[0] % 16) by {
            assert(bytes[0] / 16 < 16 && bytes[0] % 16 < 16);
        }
        assert(hex_val(enc[0]) * 16 + hex_val(enc[1]) == bytes[0]);
        assert(spec_hex_decode(enc) =~= bytes);
        assert(forall|i: int| 0 <= i < enc.len() ==> is_hex_digit(#[trigger] enc[i])) by {
            assert(forall|i: int|
                2 <= i < enc.len() ==> #[trigger] enc[i] == spec_hex_encode(bytes.skip(1))[i - 2]);
        }
    }
}

} // verus!
