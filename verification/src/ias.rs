//! Verification of an attestation report of the Intel Attestation Service,
//! as an attestation certificate carries it in its Netscape comment.

use vstd::prelude::*;
use vstd::string::StringExecFns;
use vstd::utf8::encode_utf8;
use crate::bytes::{le_u64, read_array, str_equal};
use crate::error::ValidationError;
use crate::netscape::{netscape_comment, CertDer, NetscapeComment};
use crate::pem::{base64_decode, base64_decode_spec};
use crate::report::{build_mode_of, SgxQuote};
use crate::summary::{is_verdict, SgxReport, SgxReportView, SgxStatus};
use crate::x509::{
    can_be_hashed, cert_signature_valid, is_leaf_certificate, issued_by, verify_issued_by,
    report_signing_ca, verify_signature, ParsedLeaf, SignatureAlgorithm, TrustAnchor,
    TrustAnchorView, IAS_CA_SPKI, IAS_CA_SUBJECT, IAS_CERT_CHECK_TIME,
};

verus! {

/// Whether `serde_json` reads `text` as a JSON value.
pub uninterp spec fn json_well_formed(text: Seq<u8>) -> bool;

/// The string that the JSON value `text` holds under `key`; `None` where
/// the value is no object, has no such member, or the member is no string.
pub uninterp spec fn json_string_member(text: Seq<u8>, key: Seq<char>) -> Option<Seq<char>>;

/// The seconds since 1970 of the instant that `chrono` reads in `text` by
/// the format `format`; `None` where `text` does not follow the format or
/// names no instant.
pub uninterp spec fn timestamp_seconds(text: Seq<char>, format: Seq<char>) -> Option<i64>;

/// Whether `found` is the string `member`, or both are none.
pub open spec fn member_is(found: Option<String>, member: Option<Seq<char>>) -> bool {
    match found {
        Some(s) => member == Some(s@),
        None => member is None,
    }
}

/// `serde_json::from_slice` to a `serde_json::Value`, and the value's index
/// by each of `keys`: the strings under the keys, in the order of the keys,
/// or nothing where `text` is not JSON. Each string depends on `text` and
/// its key alone.
#[verifier::external_body]
fn json_string_members(text: &[u8], keys: &[&str]) -> (r: Option<Vec<Option<String>>>)
    ensures
        r is Some <==> json_well_formed(text@),
        r matches Some(found) ==> found@.len() == keys@.len() && forall|i: int|
            0 <= i < keys@.len() ==> member_is(
                #[trigger] found@[i],
                json_string_member(text@, keys@[i]@),
            ),
{
    let value: serde_json::Value = serde_json::from_slice(text).ok()?;
    Some(keys.iter().map(|key| match &value[*key] {
        serde_json::Value::String(s) => Some(s.clone()),
        _ => None,
    }).collect())
}

/// `chrono::DateTime::parse_from_str` and `timestamp`: the seconds since
/// 1970 of the instant that `text` names in the format `format`, or nothing
/// where it names none. The text carries its own offset from UTC, so the
/// result depends on the arguments alone.
#[verifier::external_body]
fn chrono_timestamp(text: &str, format: &str) -> (r: Option<i64>)
    ensures
        r == timestamp_seconds(text@, format@),
{
    chrono::DateTime::parse_from_str(text, format).ok().map(|instant| instant.timestamp())
}

/// The status that the service's word `status` stands for.
pub open spec fn status_of(status: Seq<char>) -> SgxStatus {
    if status == "OK"@ {
        SgxStatus::Okay
    } else if status == "GROUP_OUT_OF_DATE"@ {
        SgxStatus::GroupOutOfDate
    } else if status == "GROUP_REVOKED"@ {
        SgxStatus::GroupRevoked
    } else if status == "CONFIGURATION_NEEDED"@ {
        SgxStatus::ConfigurationNeeded
    } else {
        SgxStatus::Invalid
    }
}

/// The milliseconds in `seconds`; `None` where `seconds` is negative or the
/// milliseconds are more than `i64` holds.
pub open spec fn millis_of(seconds: i64) -> Option<u64> {
    if 0 <= seconds && seconds * 1000 <= i64::MAX {
        Some((seconds * 1000) as u64)
    } else {
        None
    }
}

/// The summary of the enclave whose EPID quote starts `quote`, as the
/// service judged it at `timestamp`.
pub open spec fn ias_summary(quote: Seq<u8>, status: SgxStatus, timestamp: u64) -> SgxReportView {
    SgxReportView {
        mr_enclave: quote.subrange(112, 144),
        pubkey: quote.subrange(368, 400),
        status,
        timestamp,
        build_mode: build_mode_of(le_u64(quote.subrange(96, 104))),
    }
}

/// What the attestation report `report` comes to. Its timestamp has no
/// time zone and is read as UTC; its quote body is an EPID quote in base64.
pub open spec fn report_verdict(report: Seq<u8>) -> Result<SgxReportView, ValidationError> {
    if !json_well_formed(report) {
        Err(ValidationError::ReportParsing)
    } else {
        match json_string_member(report, "timestamp"@) {
            None => Err(ValidationError::MissingTimestamp),
            Some(time) => match timestamp_seconds(time + "+0000"@, "%Y-%m-%dT%H:%M:%S%.f%z"@) {
                None => Err(ValidationError::TimestampParsing),
                Some(seconds) => match millis_of(seconds) {
                    None => Err(ValidationError::TimestampRange),
                    Some(timestamp) => match json_string_member(report, "isvEnclaveQuoteStatus"@) {
                        None => Err(ValidationError::MissingQuoteStatus),
                        Some(status) => match json_string_member(report, "isvEnclaveQuoteBody"@) {
                            None => Err(ValidationError::MissingQuoteBody),
                            Some(body) => match base64_decode_spec(encode_utf8(body)) {
                                None => Err(ValidationError::QuoteDecoding),
                                Some(quote) => if quote.len() < 432 {
                                    Err(ValidationError::QuoteLayout)
                                } else {
                                    Ok(ias_summary(quote, status_of(status), timestamp))
                                },
                            },
                        },
                    },
                },
            },
        }
    }
}

/// The status that the service's word `status` stands for; a word that is
/// none of the four known ones stands for `Invalid`.
pub fn parse_status(status: &str) -> (r: SgxStatus)
    ensures
        r == status_of(status@),
{
    if str_equal(status, "OK") {
        SgxStatus::Okay
    } else if str_equal(status, "GROUP_OUT_OF_DATE") {
        SgxStatus::GroupOutOfDate
    } else if str_equal(status, "GROUP_REVOKED") {
        SgxStatus::GroupRevoked
    } else if str_equal(status, "CONFIGURATION_NEEDED") {
        SgxStatus::ConfigurationNeeded
    } else {
        SgxStatus::Invalid
    }
}

/// The milliseconds since 1970 of `seconds` since 1970. It fails, with
/// `TimestampRange`, exactly where the instant lies before 1970 or its
/// milliseconds are more than `i64` holds.
pub fn timestamp_millis(seconds: i64) -> (r: Result<u64, ValidationError>)
    ensures
        r is Ok <==> millis_of(seconds) is Some,
        r matches Ok(ms) ==> millis_of(seconds) == Some(ms),
        r matches Err(e) ==> e == ValidationError::TimestampRange,
{
    if seconds < 0 || seconds > i64::MAX / 1000 {
        Err(ValidationError::TimestampRange)
    } else {
        Ok((seconds * 1000) as u64)
    }
}

/// The summary of the enclave of the EPID quote `quote_raw`, as the service
/// judged it at `timestamp`. It fails, with `QuoteLayout`, exactly where
/// the bytes are fewer than a quote has.
pub fn quote_summary(quote_raw: &[u8], status: SgxStatus, timestamp: u64) -> (r: Result<
    SgxReport,
    ValidationError,
>)
    ensures
        r is Ok <==> quote_raw@.len() >= 432,
        r matches Ok(report) ==> report@ == ias_summary(quote_raw@, status, timestamp),
        r matches Err(e) ==> e == ValidationError::QuoteLayout,
{
    let quote = match SgxQuote::decode(quote_raw) {
        Some(quote) => quote,
        None => {
            return Err(ValidationError::QuoteLayout);
        },
    };
    let report = SgxReport {
        mr_enclave: quote.report_body.mr_enclave,
        status,
        pubkey: read_array::<32>(quote.report_body.report_data.d.as_slice(), 0),
        timestamp,
        build_mode: quote.report_body.sgx_build_mode(),
    };
    assert(report.pubkey@ =~= quote_raw@.subrange(368, 400));
    assert(report.mr_enclave@ == quote_raw@.subrange(112, 144));
    Ok(report)
}

/// Reads an attestation report: the time at which the service judged the
/// platform, its judgement, and the quote it judged.
pub fn parse_report(report_raw: &[u8]) -> (r: Result<SgxReport, ValidationError>)
    ensures
        is_verdict(r, report_verdict(report_raw@)),
{
    let keys: [&str; 3] = ["timestamp", "isvEnclaveQuoteStatus", "isvEnclaveQuoteBody"];
    let members = match json_string_members(report_raw, keys.as_slice()) {
        Some(members) => members,
        None => {
            return Err(ValidationError::ReportParsing);
        },
    };
    assert(keys@[0]@ == "timestamp"@ && keys@[1]@ == "isvEnclaveQuoteStatus"@ && keys@[2]@
        == "isvEnclaveQuoteBody"@);
    assert(member_is(members@[0], json_string_member(report_raw@, "timestamp"@)));
    assert(member_is(members@[1], json_string_member(report_raw@, "isvEnclaveQuoteStatus"@)));
    assert(member_is(members@[2], json_string_member(report_raw@, "isvEnclaveQuoteBody"@)));
    let seconds: i64 = match &members[0] {
        Some(time) => {
            let time_fixed = time.clone().concat("+0000");
            match chrono_timestamp(time_fixed.as_str(), "%Y-%m-%dT%H:%M:%S%.f%z") {
                Some(seconds) => seconds,
                None => {
                    return Err(ValidationError::TimestampParsing);
                },
            }
        },
        None => {
            return Err(ValidationError::MissingTimestamp);
        },
    };
    let ra_timestamp: u64 = match timestamp_millis(seconds) {
        Ok(ms) => ms,
        Err(e) => {
            return Err(e);
        },
    };
    let ra_status = match &members[1] {
        Some(quote_status) => parse_status(quote_status.as_str()),
        None => {
            return Err(ValidationError::MissingQuoteStatus);
        },
    };
    match &members[2] {
        Some(quote_raw) => {
            let quote = match base64_decode(quote_raw.as_str().as_bytes()) {
                Some(quote) => quote,
                None => {
                    return Err(ValidationError::QuoteDecoding);
                },
            };
            quote_summary(quote.as_slice(), ra_status, ra_timestamp)
        },
        None => Err(ValidationError::MissingQuoteBody),
    }
}

/// What the verification of the attestation certificate `cert` comes to
/// where the signer of its report has to be issued by the authority `ca`
/// and be valid at `seconds` after 1970.
pub open spec fn ias_verdict_under(cert: Seq<u8>, ca: TrustAnchorView, seconds: u64) -> Result<
    SgxReportView,
    ValidationError,
> {
    match netscape_comment(cert) {
        Err(e) => Err(e),
        Ok(comment) => if !is_leaf_certificate(comment.sig_cert) {
            Err(ValidationError::BadDer)
        } else if !issued_by(comment.sig_cert, ca, seconds) {
            Err(ValidationError::CaVerification)
        } else if !(can_be_hashed(comment.attestation_raw) && cert_signature_valid(
            comment.sig_cert,
            SignatureAlgorithm::RsaPkcs1Sha256,
            comment.attestation_raw,
            comment.sig,
        )) {
            Err(ValidationError::BadSignature)
        } else {
            report_verdict(comment.attestation_raw)
        },
    }
}

/// What the verification of the attestation certificate `cert` comes to:
/// the signer of its report has to be issued by the Intel SGX Attestation
/// Report Signing CA and be valid on 2019-11-11 at 00:50:50 UTC.
pub open spec fn ias_verdict(cert: Seq<u8>) -> Result<SgxReportView, ValidationError> {
    ias_verdict_under(cert, report_signing_ca(), IAS_CERT_CHECK_TIME)
}

/// Verifies the attestation report in the certificate `cert_der` and
/// reports the enclave that it attests.
///
/// The certificate's Netscape comment has to hold a report, a signature
/// over it and the certificate of the signer. First the authority `ca` has
/// to have issued the signer's certificate, which has to be valid at
/// `valid_at`, in seconds since 1970; then the signature has to be an RSA
/// signature with SHA-256 of that certificate's key over the report. That
/// the sender holds the key which the attestation certificate was made for
/// is taken as checked already.
pub fn verify_ias_report_against(cert_der: &[u8], ca: &TrustAnchor, valid_at: u64) -> (r: Result<
    SgxReport,
    ValidationError,
>)
    ensures
        is_verdict(r, ias_verdict_under(cert_der@, ca@, valid_at)),
{
    let netscape = match NetscapeComment::try_from(CertDer(cert_der)) {
        Ok(netscape) => netscape,
        Err(e) => {
            return Err(e);
        },
    };
    let sig_cert = match ParsedLeaf::from_der(netscape.sig_cert.as_slice()) {
        Ok(sig_cert) => sig_cert,
        Err(e) => {
            return Err(e);
        },
    };
    match verify_issued_by(&sig_cert, ca, valid_at) {
        Ok(()) => {},
        Err(e) => {
            return Err(e);
        },
    }
    match verify_signature(
        &sig_cert,
        netscape.attestation_raw.as_slice(),
        netscape.sig.as_slice(),
        SignatureAlgorithm::RsaPkcs1Sha256,
    ) {
        Ok(()) => {},
        Err(e) => {
            return Err(e);
        },
    }
    parse_report(netscape.attestation_raw.as_slice())
}

/// Verifies the attestation report in the certificate `cert_der` against
/// the Intel SGX Attestation Report Signing CA, and reports the enclave
/// that it attests. The signer's certificate is checked as of 2019-11-11 at
/// 00:50:50 UTC, whatever the time is.
pub fn verify_ias_report(cert_der: &[u8]) -> (r: Result<SgxReport, ValidationError>)
    ensures
        is_verdict(r, ias_verdict(cert_der@)),
{
    let ca = TrustAnchor { subject: IAS_CA_SUBJECT.as_slice(), spki: IAS_CA_SPKI.as_slice() };
    verify_ias_report_against(cert_der, &ca, IAS_CERT_CHECK_TIME)
}

/// The bytes of the quote that the attestation report `report` carries.
pub open spec fn report_quote(report: Seq<u8>) -> Option<Seq<u8>> {
    match json_string_member(report, "isvEnclaveQuoteBody"@) {
        Some(body) => base64_decode_spec(encode_utf8(body)),
        None => None,
    }
}

/// Where an attestation report is accepted, the summary names the
/// measurement of the enclave in the quote that the report carries, the
/// first half of the enclave's report data as its key, and its build mode.
pub proof fn lemma_report_names_the_quote(report: Seq<u8>, quote: SgxQuote)
    requires
        report_verdict(report) is Ok,
        report_quote(report) matches Some(bytes) && quote.is_at_start(bytes),
    ensures
        report_verdict(report) matches Ok(summary) && summary.mr_enclave
            == quote.report_body.mr_enclave@ && summary.pubkey
            == quote.report_body.report_data.d@.subrange(0, 32) && summary.build_mode
            == build_mode_of(quote.report_body.attributes.flags),
{
    let bytes = report_quote(report).unwrap();
    assert(quote.report_body.report_data.d@.subrange(0, 32) =~= bytes.subrange(368, 400));
}

/// Where an attestation certificate is accepted, under whatever authority,
/// the summary is that of the report in its Netscape comment.
pub proof fn lemma_certificate_names_the_report(cert: Seq<u8>, ca: TrustAnchorView, seconds: u64)
    requires
        ias_verdict_under(cert, ca, seconds) is Ok,
    ensures
        netscape_comment(cert) matches Ok(comment) && ias_verdict_under(cert, ca, seconds)
            == report_verdict(comment.attestation_raw),
{
}

/// An attestation certificate is accepted only where the report in its
/// comment is signed by the certificate in its comment, and the authority
/// has issued that certificate.
pub proof fn lemma_accepted_report_is_signed(cert: Seq<u8>, ca: TrustAnchorView, seconds: u64)
    requires
        ias_verdict_under(cert, ca, seconds) is Ok,
    ensures
        netscape_comment(cert) matches Ok(comment) && is_leaf_certificate(comment.sig_cert)
            && cert_signature_valid(
            comment.sig_cert,
            SignatureAlgorithm::RsaPkcs1Sha256,
            comment.attestation_raw,
            comment.sig,
        ) && issued_by(comment.sig_cert, ca, seconds),
{
}

/// The authority is judged before the signature: where the signer of the
/// report is a certificate that the authority has not issued, that is the
/// fault that is reported, whatever the signature is.
pub proof fn lemma_authority_is_judged_first(cert: Seq<u8>, ca: TrustAnchorView, seconds: u64)
    requires
        netscape_comment(cert) matches Ok(comment) && is_leaf_certificate(comment.sig_cert)
            && !issued_by(comment.sig_cert, ca, seconds),
    ensures
        ias_verdict_under(cert, ca, seconds) == Err::<SgxReportView, ValidationError>(
            ValidationError::CaVerification,
        ),
{
}

} // verus!
