//! Extraction of the encrypted PPID from a TDX quote's certification data.
//!
//! A raw certification-data blob carries a 6-byte header (2-byte
//! little-endian certificate type, 4-byte size) followed by the payload. The
//! encrypted PPID is the first 256 bytes of the payload for type 2
//! (RSA-2048-OAEP) or the first 384 bytes for type 3 (RSA-3072-OAEP); other
//! types do not carry an encrypted PPID.

use vstd::prelude::*;

use crate::quote::{
    parse_quote_qe_cert, parseable_quote, quote_cert_data_of, quote_cert_type_of,
    quote_has_qe_cert, MIN_QUOTE_LEN,
};

verus! {

/// Errors that can occur when extracting the encrypted PPID.
#[derive(Clone, Copy, Debug, PartialEq, Eq, Structural)]
pub enum PpidError {
    /// The certification data carries no encrypted PPID.
    NotEncryptedPpid,
    /// The certification data is too short for its type.
    InvalidDataLength,
    /// The quote's certification data is not of the QE-report kind.
    InvalidReportData,
    /// The quote bytes do not parse.
    QuoteParse,
}

impl PpidError {
    /// A short description, for error reporting.
    pub fn message(self) -> (r: &'static str)
        ensures
            r@ == self.spec_message(),
    {
        match self {
            PpidError::NotEncryptedPpid => "The PPID is not encrypted",
            PpidError::InvalidDataLength => "Invalid data length",
            PpidError::InvalidReportData => "Invalid report data",
            PpidError::QuoteParse => "Quote parse error",
        }
    }

    /// The description `message` returns.
    pub open spec fn spec_message(self) -> Seq<char> {
        match self {
            PpidError::NotEncryptedPpid => "The PPID is not encrypted"@,
            PpidError::InvalidDataLength => "Invalid data length"@,
            PpidError::InvalidReportData => "Invalid report data"@,
            PpidError::QuoteParse => "Quote parse error"@,
        }
    }
}

/// How many payload bytes the encrypted PPID takes for a certificate type:
/// 256 for RSA-2048, 384 for RSA-3072, none otherwise.
pub open spec fn ppid_len_for_type(cert_type: u16) -> Option<int> {
    if cert_type == 2 {
        Some(256int)
    } else if cert_type == 3 {
        Some(384int)
    } else {
        None
    }
}

/// The encrypted PPID carried by a certification payload of the given type.
pub open spec fn spec_ppid_from_cert(cert_type: u16, data: Seq<u8>) -> Result<Seq<u8>, PpidError> {
    match ppid_len_for_type(cert_type) {
        Some(n) => if data.len() >= n {
            Ok(data.subrange(0, n))
        } else {
            Err(PpidError::InvalidDataLength)
        },
        None => Err(PpidError::NotEncryptedPpid),
    }
}

/// The certificate type in a raw blob's header: 2 bytes, little endian.
pub open spec fn cert_type_of(cert_data: Seq<u8>) -> u16
    recommends
        cert_data.len() >= 2,
{
    (cert_data[0] + 256 * cert_data[1]) as u16
}

/// The encrypted PPID carried by a raw certification-data blob: strip the
/// 6-byte header, then take the payload's prefix for the header's type.
pub open spec fn spec_extract_ppid(cert_data: Seq<u8>) -> Result<Seq<u8>, PpidError> {
    if cert_data.len() < 6 {
        Err(PpidError::InvalidDataLength)
    } else {
        spec_ppid_from_cert(cert_type_of(cert_data), cert_data.skip(6))
    }
}

/// Copy `src[from..to]` into a fresh vector.
fn copy_range(src: &[u8], from: usize, to: usize) -> (r: Vec<u8>)
    requires
        from <= to <= src@.len(),
    ensures
        r@ == src@.subrange(from as int, to as int),
{
    let mut r: Vec<u8> = Vec::new();
    let mut i: usize = from;
    while i < to
        invariant
            from <= i <= to <= src@.len(),
            r@ == src@.subrange(from as int, i as int),
        decreases to - i,
    {
        r.push(src[i]);
        proof {
            assert(src@.subrange(from as int, i as int).push(src@[i as int]) =~= src@.subrange(
                from as int,
                i + 1,
            ));
        }
        i = i + 1;
    }
    r
}

/// Extracts the encrypted PPID from the payload of certification data nested
/// in a QE report, given its type tag.
pub fn ppid_from_cert(cert_type: u16, data: &[u8]) -> (r: Result<Vec<u8>, PpidError>)
    ensures
        r matches Ok(v) ==> spec_ppid_from_cert(cert_type, data@) matches Ok(s) && v@ == s,
        r matches Err(e) ==> spec_ppid_from_cert(cert_type, data@) == Err::<Seq<u8>, PpidError>(e),
{
    let n: usize = if cert_type == 2 {
        256
    } else if cert_type == 3 {
        384
    } else {
        return Err(PpidError::NotEncryptedPpid);
    };
    if data.len() < n {
        return Err(PpidError::InvalidDataLength);
    }
    Ok(copy_range(data, 0, n))
}

/// Manually extracts the encrypted PPID from a raw TDX certification-data
/// blob: a 6-byte header (2-byte little-endian type, 4-byte size), then the
/// payload.
pub fn extract_encrypted_ppid(cert_data: &[u8]) -> (r: Result<Vec<u8>, PpidError>)
    ensures
        r matches Ok(v) ==> spec_extract_ppid(cert_data@) matches Ok(s) && v@ == s,
        r matches Err(e) ==> spec_extract_ppid(cert_data@) == Err::<Seq<u8>, PpidError>(e),
{
    if cert_data.len() < 6 {
        return Err(PpidError::InvalidDataLength);
    }
    let cert_type: u16 = cert_data[0] as u16 + 256 * (cert_data[1] as u16);
    let payload_len = cert_data.len() - 6;
    let n: usize = if cert_type == 2 {
        256
    } else if cert_type == 3 {
        384
    } else {
        return Err(PpidError::NotEncryptedPpid);
    };
    if payload_len < n {
        return Err(PpidError::InvalidDataLength);
    }
    let r = copy_range(cert_data, 6, 6 + n);
    proof {
        assert(cert_data@.subrange(6, 6 + n) =~= cert_data@.skip(6).subrange(0, n as int));
    }
    Ok(r)
}

/// Extracts the encrypted PPID from a quote, given as raw bytes: the quote
/// must parse, carry QE-report certification data, and nest a payload whose
/// type carries an encrypted PPID. Inputs too short to be a quote are
/// rejected as unparseable before they reach the parser.
pub fn get_encrypted_ppid_from_quote(quote: &[u8]) -> (r: Result<Vec<u8>, PpidError>)
    ensures
        !parseable_quote(quote@) ==> r == Err::<Vec<u8>, PpidError>(PpidError::QuoteParse),
        parseable_quote(quote@) && !quote_has_qe_cert(quote@) ==> r == Err::<Vec<u8>, PpidError>(
            PpidError::InvalidReportData,
        ),
        parseable_quote(quote@) && quote_has_qe_cert(quote@) ==> {
            &&& (r matches Ok(v) ==> spec_ppid_from_cert(
                quote_cert_type_of(quote@),
                quote_cert_data_of(quote@),
            ) matches Ok(s) && v@ == s)
            &&& (r matches Err(e) ==> spec_ppid_from_cert(
                quote_cert_type_of(quote@),
                quote_cert_data_of(quote@),
            ) == Err::<Seq<u8>, PpidError>(e))
        },
{
    if quote.len() < MIN_QUOTE_LEN {
        return Err(PpidError::QuoteParse);
    }
    match parse_quote_qe_cert(quote) {
        None => Err(PpidError::QuoteParse),
        Some(None) => Err(PpidError::InvalidReportData),
        Some(Some(cert)) => ppid_from_cert(cert.0, cert.1.as_slice()),
    }
}

} // verus!
