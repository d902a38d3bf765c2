//! Access to parsed TDX quotes, taken from the `tdx-quote` crate behind
//! trusted wrappers.
//!
//! Parsing is a pure function of the quote bytes (the embedded ECDSA
//! signature check is deterministic), so what a parsed quote holds is given
//! names over the raw bytes.

use vstd::prelude::*;

verus! {

/// The fewest bytes the quote parser may safely be given: a version-5
/// header and body (the longest span `Quote::from_bytes` slices eagerly,
/// before checking the input reaches that far). Shorter inputs whose header
/// parses would make it panic; no real quote is this short, since the
/// signature section alone adds at least 138 bytes beyond it.
pub const MIN_QUOTE_LEN: usize = 696;

/// Whether `tdx_quote::Quote::from_bytes` accepts these bytes.
pub uninterp spec fn quote_parses(quote: Seq<u8>) -> bool;

/// Whether the bytes may be handed to the parser and parse as a quote: they
/// reach the parser's safe minimum and `Quote::from_bytes` accepts them.
/// Callers reject shorter inputs outright, which loses no quote.
pub open spec fn parseable_quote(quote: Seq<u8>) -> bool {
    quote.len() >= MIN_QUOTE_LEN && quote_parses(quote)
}

/// The 64-byte report data of the parsed quote
/// (`tdx_quote::Quote::report_input_data`).
pub uninterp spec fn quote_report_data_of(quote: Seq<u8>) -> Seq<u8>;

/// Whether the parsed quote's certification data is of the QE-report kind
/// (the only kind that nests further certification data), with nested data
/// of a kind the parser knows.
pub uninterp spec fn quote_has_qe_cert(quote: Seq<u8>) -> bool;

/// The Intel type tag of the certification data nested inside the QE report
/// (the `repr` discriminant of `tdx_quote::CertificationDataInner`).
pub uninterp spec fn quote_cert_type_of(quote: Seq<u8>) -> u16;

/// The payload of the certification data nested inside the QE report.
pub uninterp spec fn quote_cert_data_of(quote: Seq<u8>) -> Seq<u8>;

/// Relies on `tdx_quote::Quote::from_bytes` and `Quote::report_input_data`:
/// parsing succeeds or fails on the bytes alone, and the report data is the
/// parsed body's 64-byte `reportdata` field. `from_bytes` slices the signed
/// header-and-body span before checking the input is that long, so inputs
/// under `MIN_QUOTE_LEN` can make it panic and are kept out.
#[verifier::external_body]
pub fn parse_quote_report_data(quote: &[u8]) -> (r: Option<[u8; 64]>)
    requires
        quote@.len() >= MIN_QUOTE_LEN,
    ensures
        r is Some <==> quote_parses(quote@),
        r matches Some(d) ==> d@ == quote_report_data_of(quote@),
{
    match tdx_quote::Quote::from_bytes(quote) {
        Ok(q) => Some(q.report_input_data()),
        Err(_) => None,
    }
}

/// Relies on `tdx_quote::Quote::from_bytes` and the
/// `CertificationData::QeReportCertificationData` variant: hands out the type
/// tag and payload of the certification data nested inside the QE report.
/// `None` when the bytes do not parse; `Some(None)` when the quote carries
/// another kind of certification data. As above, inputs under
/// `MIN_QUOTE_LEN` can make `from_bytes` panic and are kept out.
#[verifier::external_body]
pub fn parse_quote_qe_cert(quote: &[u8]) -> (r: Option<Option<(u16, Vec<u8>)>>)
    requires
        quote@.len() >= MIN_QUOTE_LEN,
    ensures
        r is Some <==> quote_parses(quote@),
        r matches Some(inner) ==> (inner is Some <==> quote_parses(quote@) && quote_has_qe_cert(
            quote@,
        )),
        r matches Some(inner) && inner matches Some(cert) ==> cert.0 == quote_cert_type_of(quote@)
            && cert.1@ == quote_cert_data_of(quote@),
{
    let q = match tdx_quote::Quote::from_bytes(quote) { Ok(q) => q, Err(_) => return None };
    match q.certification_data {
        tdx_quote::CertificationData::QeReportCertificationData(qe) => Some(match qe.certification_data {
            tdx_quote::CertificationDataInner::PckIdPpidPlainCpusvnPcesvn(d) => Some((1, d)),
            tdx_quote::CertificationDataInner::PckIdPpidRSA2048CpusvnPcesvn(d) => Some((2, d)),
            tdx_quote::CertificationDataInner::PckIdPpidRSA3072CpusvnPcesvn(d) => Some((3, d)),
            tdx_quote::CertificationDataInner::PckLeafCert(d) => Some((4, d)),
            tdx_quote::CertificationDataInner::PckCertChain(d) => Some((5, d)),
            tdx_quote::CertificationDataInner::PlatformManifest(d) => Some((7, d)),
            _ => None,
        }),
        _ => Some(None),
    }
}

} // verus!
