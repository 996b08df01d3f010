//! The reasons for which attestation evidence is rejected.

use vstd::prelude::*;

verus! {

/// A rejection. Every failure is final for the call that reports it.
#[derive(Clone, Copy, Debug, PartialEq, Eq, Structural)]
pub enum ValidationError {
    /// The bytes are too short for the quote layout they announce.
    MalformedQuote,
    /// The quote header names a version other than 3.
    UnsupportedVersion,
    /// The attestation key is not an ECDSA P-256 key.
    UnsupportedKeyType,
    /// The certification data is not a PEM certificate chain.
    UnsupportedCertificationData,
    /// The quoting enclave was signed by another key than the expected one.
    QuotingEnclaveMismatch,
    /// The certification data does not hold exactly three certificates.
    CertificateCount,
    /// The leaf certificate is not an end-entity certificate.
    LeafCertificate,
    /// No path leads from the leaf certificate to the pinned root.
    InvalidChain,
    /// The quoting enclave did not vouch for the attestation key.
    HashMismatch,
    /// The attestation key did not sign the enclave report.
    ReportSignature,
    /// A signature does not verify under the certificate's key.
    BadSignature,
    /// The report signing certificate was not issued by the pinned authority.
    CaVerification,
    /// Bytes follow the quote.
    TrailingBytes,
    /// The attestation report is not JSON.
    ReportParsing,
    /// The report holds no timestamp.
    MissingTimestamp,
    /// The report's timestamp is not a date and a time.
    TimestampParsing,
    /// The report's timestamp lies before 1970 or beyond what `u64` milliseconds hold.
    TimestampRange,
    /// The report holds no quote status.
    MissingQuoteStatus,
    /// The report holds no quote body.
    MissingQuoteBody,
    /// The quote body is not base64.
    QuoteDecoding,
    /// The quote body is too short for a quote.
    QuoteLayout,
    /// The report signing certificate is not an end-entity certificate.
    BadDer,
    /// The certificate carries no Netscape comment.
    MissingNetscapeComment,
    /// The Netscape comment announces more bytes than the certificate holds.
    NetscapeBounds,
    /// The Netscape comment does not consist of three fields.
    NetscapePayload,
    /// The report signature is not base64.
    SignatureDecoding,
    /// The report signing certificate is not base64.
    CertDecoding,
    /// Collateral or a revocation list could not be decoded.
    Deserialization,
    /// Collateral is dated before 1970, which no count of milliseconds
    /// since then stands for.
    NegativeTimestamp,
}

impl ValidationError {
    /// The short tag under which the rejection is reported.
    pub open spec fn tag(self) -> Seq<char> {
        match self {
            ValidationError::MalformedQuote => "Failed to decode attestation report"@,
            ValidationError::UnsupportedVersion => "Only support for version 3"@,
            ValidationError::UnsupportedKeyType => "Only support for ECDSA-256"@,
            ValidationError::UnsupportedCertificationData => {
                "Only support for PEM formatted PCK Cert Chain"@
            },
            ValidationError::QuotingEnclaveMismatch => {
                "mrenclave values for quoting enclave don't match"@
            },
            ValidationError::CertificateCount => "Certificate chain must have 3 certificates"@,
            ValidationError::LeafCertificate => "Failed to parse leaf certificate"@,
            ValidationError::InvalidChain => "Invalid certificate chain"@,
            ValidationError::HashMismatch => "Hashes must match"@,
            ValidationError::ReportSignature => "Failed to verify report signature"@,
            ValidationError::BadSignature => "bad signature"@,
            ValidationError::CaVerification => "CA verification failed"@,
            ValidationError::TrailingBytes => "There should be no bytes left over after decoding"@,
            ValidationError::ReportParsing => "RA report parsing error"@,
            ValidationError::MissingTimestamp => {
                "Failed to fetch timestamp from attestation report"@
            },
            ValidationError::TimestampParsing => "RA report timestamp parsing error"@,
            ValidationError::TimestampRange => "Error converting report.timestamp to u64"@,
            ValidationError::MissingQuoteStatus => {
                "Failed to fetch isvEnclaveQuoteStatus from attestation report"@
            },
            ValidationError::MissingQuoteBody => {
                "Failed to parse isvEnclaveQuoteBody from attestation report"@
            },
            ValidationError::QuoteDecoding => "Quote Decoding Error"@,
            ValidationError::QuoteLayout => "could not decode quote"@,
            ValidationError::BadDer => "Bad der"@,
            ValidationError::MissingNetscapeComment => "Certificate does not contain 'ns_cmt_oid'"@,
            ValidationError::NetscapeBounds => "Index out of bounds"@,
            ValidationError::NetscapePayload => "Invalid netscape payload"@,
            ValidationError::SignatureDecoding => "Signature Decoding Error"@,
            ValidationError::CertDecoding => "Cert Decoding Error"@,
            ValidationError::Deserialization => "Deserialization failed"@,
            ValidationError::NegativeTimestamp => "no support for negative unix timestamps"@,
        }
    }

    /// The short tag under which the rejection is reported.
    pub fn message(&self) -> (r: &'static str)
        ensures
            r@ == self.tag(),
    {
        match self {
            ValidationError::MalformedQuote => "Failed to decode attestation report",
            ValidationError::UnsupportedVersion => "Only support for version 3",
            ValidationError::UnsupportedKeyType => "Only support for ECDSA-256",
            ValidationError::UnsupportedCertificationData => {
                "Only support for PEM formatted PCK Cert Chain"
            },
            ValidationError::QuotingEnclaveMismatch => {
                "mrenclave values for quoting enclave don't match"
            },
            ValidationError::CertificateCount => "Certificate chain must have 3 certificates",
            ValidationError::LeafCertificate => "Failed to parse leaf certificate",
            ValidationError::InvalidChain => "Invalid certificate chain",
            ValidationError::HashMismatch => "Hashes must match",
            ValidationError::ReportSignature => "Failed to verify report signature",
            ValidationError::BadSignature => "bad signature",
            ValidationError::CaVerification => "CA verification failed",
            ValidationError::TrailingBytes => "There should be no bytes left over after decoding",
            ValidationError::ReportParsing => "RA report parsing error",
            ValidationError::MissingTimestamp => {
                "Failed to fetch timestamp from attestation report"
            },
            ValidationError::TimestampParsing => "RA report timestamp parsing error",
            ValidationError::TimestampRange => "Error converting report.timestamp to u64",
            ValidationError::MissingQuoteStatus => {
                "Failed to fetch isvEnclaveQuoteStatus from attestation report"
            },
            ValidationError::MissingQuoteBody => {
                "Failed to parse isvEnclaveQuoteBody from attestation report"
            },
            ValidationError::QuoteDecoding => "Quote Decoding Error",
            ValidationError::QuoteLayout => "could not decode quote",
            ValidationError::BadDer => "Bad der",
            ValidationError::MissingNetscapeComment => "Certificate does not contain 'ns_cmt_oid'",
            ValidationError::NetscapeBounds => "Index out of bounds",
            ValidationError::NetscapePayload => "Invalid netscape payload",
            ValidationError::SignatureDecoding => "Signature Decoding Error",
            ValidationError::CertDecoding => "Cert Decoding Error",
            ValidationError::Deserialization => "Deserialization failed",
            ValidationError::NegativeTimestamp => "no support for negative unix timestamps",
        }
    }
}

} // verus!
