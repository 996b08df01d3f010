//! Verification of an ECDSA quote: the certificate chain of the platform,
//! the quoting enclave's word for the attestation key, and the attestation
//! key's signature over the report of the attested enclave.

use vstd::prelude::*;
use vstd::slice::slice_subrange;
use crate::asn1::{as_asn1, as_asn1_spec};
use crate::bytes::{bytes_equal, le_u16, le_u32, le_u64, read_array, read_vec};
use crate::error::ValidationError;
use crate::pem::{extract_certs, extract_certs_spec};
use crate::search::byte_strings;
use crate::primitives::QuotingEnclave;
use crate::quote::{
    dcap_quote_len, DcapQuote, ATTESTATION_KEY_OFFSET, ATTESTATION_KEY_SIZE,
    AUTHENTICATION_DATA_OFFSET, QE_REPORT_OFFSET, QE_REPORT_SIGNATURE_OFFSET,
    SIGNATURE_DATA_LEN_OFFSET,
};
use crate::report::{build_mode_of, lemma_is_at_shifted, SgxReportBody};
use crate::summary::{is_verdict, SgxReport, SgxReportView, SgxStatus};
use crate::x509::{
    cert_signature_valid, quote_chain_fault, sgx_root_ca, slice_views, verify_quote_chain,
    verify_signature, ParsedLeaf, SignatureAlgorithm, TrustAnchor, TrustAnchorView,
    DCAP_ROOT_SPKI, DCAP_ROOT_SUBJECT,
};

verus! {

/// The quote version that is understood.
pub const QUOTE_VERSION: u16 = 3;

/// The attestation key type of ECDSA with P-256.
pub const KEY_TYPE_ECDSA_P256: u16 = 2;

/// The certification data type of a PEM certificate chain.
pub const CERTIFICATION_PEM_CHAIN: u16 = 5;

/// Number of certificates in the chain: leaf, platform CA, root CA.
pub const CHAIN_LENGTH: usize = 3;

/// Number of bytes of authentication data that the quoting enclave's report
/// is taken to vouch for.
pub const AUTHENTICATION_DATA_SIZE: usize = 32;

/// The SHA-256 digest of `data`.
pub uninterp spec fn sha256(data: Seq<u8>) -> Seq<u8>;

/// Whether `signature`, as `r` and `s` of 32 bytes each, is an ECDSA
/// signature with SHA-256 over `message` under the P-256 key `public_key`,
/// an uncompressed point.
pub uninterp spec fn p256_signature_valid(
    public_key: Seq<u8>,
    message: Seq<u8>,
    signature: Seq<u8>,
) -> bool;

/// `ring::digest::digest` with `SHA256`: the digest of `data`. Data of 2^61
/// bytes or more, whose length in bits `ring` cannot write down, is left
/// out.
#[verifier::external_body]
fn ring_sha256(data: &[u8]) -> (r: Vec<u8>)
    requires
        data@.len() < 0x2000_0000_0000_0000,
    ensures
        r@ == sha256(data@),
{
    ring::digest::digest(&ring::digest::SHA256, data).as_ref().to_vec()
}

/// `ring::signature::UnparsedPublicKey::verify` with
/// `ECDSA_P256_SHA256_FIXED`: whether the signature verifies. The answer
/// depends on the arguments alone. A message of 2^61 bytes or more is left
/// out, as for the digest.
#[verifier::external_body]
fn ring_p256_verify(public_key: &[u8], message: &[u8], signature: &[u8]) -> (r: bool)
    requires
        message@.len() < 0x2000_0000_0000_0000,
    ensures
        r == p256_signature_valid(public_key@, message@, signature@),
{
    ring::signature::UnparsedPublicKey::new(&ring::signature::ECDSA_P256_SHA256_FIXED, public_key)
        .verify(message, signature).is_ok()
}

/// The version in the header of the quote `quote`.
pub open spec fn quote_version(quote: Seq<u8>) -> u16 {
    le_u16(quote.subrange(0, 2))
}

/// The attestation key type in the header of `quote`.
pub open spec fn quote_key_type(quote: Seq<u8>) -> u16 {
    le_u16(quote.subrange(2, 4))
}

/// Header and report body of the attested enclave: what the attestation
/// key signs.
pub open spec fn quote_isv_report(quote: Seq<u8>) -> Seq<u8> {
    quote.subrange(0, 432)
}

/// The attribute flags of the attested enclave.
pub open spec fn quote_flags(quote: Seq<u8>) -> u64 {
    le_u64(quote.subrange(96, 104))
}

/// The measurement of the attested enclave.
pub open spec fn quote_mr_enclave(quote: Seq<u8>) -> Seq<u8> {
    quote.subrange(112, 144)
}

/// The first half of the report data of the attested enclave.
pub open spec fn quote_pubkey(quote: Seq<u8>) -> Seq<u8> {
    quote.subrange(368, 400)
}

/// The signature of the attestation key over header and report body.
pub open spec fn quote_isv_signature(quote: Seq<u8>) -> Seq<u8> {
    quote.subrange(436, 500)
}

/// The attestation key: the coordinates of a point.
pub open spec fn quote_attestation_key(quote: Seq<u8>) -> Seq<u8> {
    quote.subrange(500, 564)
}

/// The report of the quoting enclave: what the certified key signs.
pub open spec fn quote_qe_report(quote: Seq<u8>) -> Seq<u8> {
    quote.subrange(564, 948)
}

/// The measurement of the key that signed the quoting enclave.
pub open spec fn quote_qe_mr_signer(quote: Seq<u8>) -> Seq<u8> {
    quote.subrange(692, 724)
}

/// The report data of the quoting enclave.
pub open spec fn quote_qe_report_data(quote: Seq<u8>) -> Seq<u8> {
    quote.subrange(884, 948)
}

/// The signature of the certified key over the quoting enclave's report.
pub open spec fn quote_qe_signature(quote: Seq<u8>) -> Seq<u8> {
    quote.subrange(948, 1012)
}

/// The 32 bytes behind the size of the authentication data.
pub open spec fn quote_authentication_bytes(quote: Seq<u8>) -> Seq<u8> {
    quote.subrange(1014, 1046)
}

/// The size that the authentication data announces.
pub open spec fn quote_authentication_size(quote: Seq<u8>) -> int {
    le_u16(quote.subrange(1012, 1014)) as int
}

/// The type of the certification data.
pub open spec fn quote_certification_type(quote: Seq<u8>) -> u16 {
    le_u16(
        quote.subrange(
            1014 + quote_authentication_size(quote),
            1016 + quote_authentication_size(quote),
        ),
    )
}

/// The certification data.
pub open spec fn quote_certification_data(quote: Seq<u8>) -> Seq<u8> {
    let at = 1016 + quote_authentication_size(quote);
    quote.subrange(at + 4, at + 4 + le_u32(quote.subrange(at, at + 4)))
}

/// What the quoting enclave's report has to hold for the attestation key:
/// the digest of the key and the 32 bytes of authentication data.
pub open spec fn quote_key_digest(quote: Seq<u8>) -> Seq<u8> {
    sha256(quote_attestation_key(quote) + quote_authentication_bytes(quote))
}

/// Why a quote with these fields is not taken up; `None` where it is. The
/// fields are looked at in this order: version, key type, certification data
/// type, signer of the quoting enclave.
pub open spec fn policy_fault(
    version: u16,
    key_type: u16,
    certification_type: u16,
    qe_mr_signer: Seq<u8>,
    expected_mr_signer: Seq<u8>,
) -> Option<ValidationError> {
    if version != 3 {
        Some(ValidationError::UnsupportedVersion)
    } else if key_type != 2 {
        Some(ValidationError::UnsupportedKeyType)
    } else if certification_type != 5 {
        Some(ValidationError::UnsupportedCertificationData)
    } else if expected_mr_signer != qe_mr_signer {
        Some(ValidationError::QuotingEnclaveMismatch)
    } else {
        None
    }
}

/// Why the certificates and signatures of a quote that was taken up do not
/// hold; `None` where they do. They are checked in this order: the number of
/// certificates, the chain, the quoting enclave's word for the attestation
/// key, the attestation key's signature, the certified key's signature.
pub open spec fn evidence_fault(
    quote: Seq<u8>,
    verification_time: u64,
    root: TrustAnchorView,
) -> Option<ValidationError> {
    let certs = extract_certs_spec(quote_certification_data(quote));
    if certs.len() != 3 {
        Some(ValidationError::CertificateCount)
    } else if quote_chain_fault(certs[0], certs.subrange(1, 3), verification_time, root)
        is Some {
        quote_chain_fault(certs[0], certs.subrange(1, 3), verification_time, root)
    } else if !key_is_bound(quote, quote_qe_report_data(quote)) {
        Some(ValidationError::HashMismatch)
    } else if !report_is_signed(quote, quote_attestation_key(quote), quote_isv_signature(quote)) {
        Some(ValidationError::ReportSignature)
    } else if !qe_report_is_signed(quote, certs[0], quote_qe_signature(quote)) {
        Some(ValidationError::BadSignature)
    } else {
        None
    }
}

/// The summary of the enclave that the quote `quote` attests.
pub open spec fn quote_summary(quote: Seq<u8>, verification_time: u64) -> SgxReportView {
    SgxReportView {
        mr_enclave: quote_mr_enclave(quote),
        pubkey: quote_pubkey(quote),
        status: SgxStatus::Okay,
        timestamp: verification_time,
        build_mode: build_mode_of(quote_flags(quote)),
    }
}

/// What the verification of `quote` at `verification_time`, in milliseconds
/// since 1970, comes to, where the quoting enclave is expected to be signed
/// by the key with measurement `mr_signer` and the chain has to lead to
/// `root`.
pub open spec fn dcap_verdict_under(
    quote: Seq<u8>,
    verification_time: u64,
    mr_signer: Seq<u8>,
    root: TrustAnchorView,
) -> Result<SgxReportView, ValidationError> {
    if dcap_quote_len(quote) is None {
        Err(ValidationError::MalformedQuote)
    } else {
        match policy_fault(
            quote_version(quote),
            quote_key_type(quote),
            quote_certification_type(quote),
            quote_qe_mr_signer(quote),
            mr_signer,
        ) {
            Some(e) => Err(e),
            None => match evidence_fault(quote, verification_time, root) {
                Some(e) => Err(e),
                None => if dcap_quote_len(quote) != Some(quote.len() as int) {
                    Err(ValidationError::TrailingBytes)
                } else {
                    Ok(quote_summary(quote, verification_time))
                },
            },
        }
    }
}

/// What the verification of `quote` at `verification_time`, in milliseconds
/// since 1970, comes to, where the quoting enclave is expected to be signed
/// by the key with measurement `mr_signer`: the chain has to lead to the
/// Intel SGX Root CA.
pub open spec fn dcap_verdict(quote: Seq<u8>, verification_time: u64, mr_signer: Seq<u8>) -> Result<
    SgxReportView,
    ValidationError,
> {
    dcap_verdict_under(quote, verification_time, mr_signer, sgx_root_ca())
}

/// Checks that a quote is one that is taken up: version 3, an ECDSA P-256
/// attestation key, a PEM chain for certification data, and a quoting
/// enclave signed by the key with measurement `mr_signer`.
pub fn check_quote_policy(quote: &DcapQuote, mr_signer: &[u8; 32]) -> (r: Result<
    (),
    ValidationError,
>)
    ensures
        r is Ok <==> policy_fault(
            quote.header.version,
            quote.header.attestation_key_type,
            quote.quote_signature_data.qe_certification_data.certification_data_type,
            quote.quote_signature_data.qe_report.mr_signer@,
            mr_signer@,
        ) is None,
        r matches Err(e) ==> policy_fault(
            quote.header.version,
            quote.header.attestation_key_type,
            quote.quote_signature_data.qe_certification_data.certification_data_type,
            quote.quote_signature_data.qe_report.mr_signer@,
            mr_signer@,
        ) == Some(e),
{
    if quote.header.version != QUOTE_VERSION {
        return Err(ValidationError::UnsupportedVersion);
    }
    if quote.header.attestation_key_type != KEY_TYPE_ECDSA_P256 {
        return Err(ValidationError::UnsupportedKeyType);
    }
    if quote.quote_signature_data.qe_certification_data.certification_data_type
        != CERTIFICATION_PEM_CHAIN {
        return Err(ValidationError::UnsupportedCertificationData);
    }
    if !bytes_equal(
        mr_signer.as_slice(),
        quote.quote_signature_data.qe_report.mr_signer.as_slice(),
    ) {
        return Err(ValidationError::QuotingEnclaveMismatch);
    }
    Ok(())
}

/// Whether the report of the quoting enclave vouches for the attestation
/// key of `quote`: the first half of its report data is the digest of the
/// key and the 32 bytes behind the size of the authentication data.
pub open spec fn key_is_bound(quote: Seq<u8>, qe_report_data: Seq<u8>) -> bool {
    quote.len() >= 1046 && quote_key_digest(quote) == qe_report_data.subrange(0, 32)
}

/// Verifies the quoting enclave's word for the attestation key: the first
/// half of the report data of `qe_report` has to be the SHA-256 digest of
/// the attestation key and the 32 bytes of authentication data, both as
/// they stand in `dcap_quote`. It fails, with `HashMismatch`, exactly
/// where it is not, or `dcap_quote` ends before the data does.
pub fn verify_key_binding(dcap_quote: &[u8], qe_report: &SgxReportBody) -> (r: Result<
    (),
    ValidationError,
>)
    ensures
        r is Ok <==> key_is_bound(dcap_quote@, qe_report.report_data.d@),
        r matches Err(e) ==> e == ValidationError::HashMismatch,
{
    if dcap_quote.len() < AUTHENTICATION_DATA_OFFSET + AUTHENTICATION_DATA_SIZE {
        return Err(ValidationError::HashMismatch);
    }
    let mut hash_data = read_vec(dcap_quote, ATTESTATION_KEY_OFFSET, ATTESTATION_KEY_SIZE);
    hash_data.extend_from_slice(
        slice_subrange(
            dcap_quote,
            AUTHENTICATION_DATA_OFFSET,
            AUTHENTICATION_DATA_OFFSET + AUTHENTICATION_DATA_SIZE,
        ),
    );
    assert(hash_data@ =~= quote_attestation_key(dcap_quote@) + quote_authentication_bytes(
        dcap_quote@,
    ));
    let digest = ring_sha256(hash_data.as_slice());
    if bytes_equal(digest.as_slice(), slice_subrange(qe_report.report_data.d.as_slice(), 0, 32)) {
        Ok(())
    } else {
        Err(ValidationError::HashMismatch)
    }
}

/// Whether `signature` is one of the attestation key `key` over header and
/// report body of `quote`. The key is a point on P-256 by its two
/// coordinates.
pub open spec fn report_is_signed(quote: Seq<u8>, key: Seq<u8>, signature: Seq<u8>) -> bool {
    quote.len() >= 432 && p256_signature_valid(
        seq![4u8] + key,
        quote_isv_report(quote),
        signature,
    )
}

/// Verifies the attestation key's signature over the first 432 bytes of
/// `dcap_quote`: header and report body. It fails, with `ReportSignature`,
/// exactly where `signature` is none, or `dcap_quote` is shorter.
pub fn verify_report_signature(
    dcap_quote: &[u8],
    attestation_key: &[u8; 64],
    signature: &[u8; 64],
) -> (r: Result<(), ValidationError>)
    ensures
        r is Ok <==> report_is_signed(dcap_quote@, attestation_key@, signature@),
        r matches Err(e) ==> e == ValidationError::ReportSignature,
{
    if dcap_quote.len() < SIGNATURE_DATA_LEN_OFFSET {
        return Err(ValidationError::ReportSignature);
    }
    let mut public_key: Vec<u8> = Vec::new();
    public_key.push(4);
    public_key.extend_from_slice(attestation_key.as_slice());
    assert(public_key@ =~= seq![4u8] + attestation_key@);
    if ring_p256_verify(
        public_key.as_slice(),
        slice_subrange(dcap_quote, 0, SIGNATURE_DATA_LEN_OFFSET),
        signature.as_slice(),
    ) {
        Ok(())
    } else {
        Err(ValidationError::ReportSignature)
    }
}

/// Whether `signature`, as `r` and `s`, is one of the key of the
/// certificate `leaf` over the report of the quoting enclave in `quote`.
pub open spec fn qe_report_is_signed(quote: Seq<u8>, leaf: Seq<u8>, signature: Seq<u8>) -> bool {
    quote.len() >= 948 && cert_signature_valid(
        leaf,
        SignatureAlgorithm::EcdsaP256Sha256,
        quote_qe_report(quote),
        as_asn1_spec(signature),
    )
}

/// Verifies the signature of the leaf certificate's key over the report of
/// the quoting enclave, bytes 564 to 948 of `dcap_quote`. It fails, with
/// `BadSignature`, exactly where `signature` is none, or `dcap_quote` is
/// shorter.
pub fn verify_qe_report_signature(
    dcap_quote: &[u8],
    leaf_cert: &ParsedLeaf,
    signature: &[u8; 64],
) -> (r: Result<(), ValidationError>)
    ensures
        r is Ok <==> qe_report_is_signed(dcap_quote@, leaf_cert@, signature@),
        r matches Err(e) ==> e == ValidationError::BadSignature,
{
    if dcap_quote.len() < QE_REPORT_SIGNATURE_OFFSET {
        return Err(ValidationError::BadSignature);
    }
    let asn1_signature = as_asn1(signature.as_slice());
    verify_signature(
        leaf_cert,
        slice_subrange(dcap_quote, QE_REPORT_OFFSET, QE_REPORT_SIGNATURE_OFFSET),
        asn1_signature.as_slice(),
        SignatureAlgorithm::EcdsaP256Sha256,
    )
}

/// Checks that the quote, which took `taken` bytes, is all of `dcap_quote`.
/// It fails, with `TrailingBytes`, exactly where bytes are left over.
pub fn check_no_bytes_left(dcap_quote: &[u8], taken: usize) -> (r: Result<(), ValidationError>)
    ensures
        r is Ok <==> taken == dcap_quote@.len(),
        r matches Err(e) ==> e == ValidationError::TrailingBytes,
{
    if taken == dcap_quote.len() {
        Ok(())
    } else {
        Err(ValidationError::TrailingBytes)
    }
}

/// The summary of the enclave that `quote` attests: its measurement, the
/// first half of its report data as its key, and its build mode. The status
/// is `Okay`: what the platform's state allows is judged elsewhere.
pub fn quote_report(quote: &DcapQuote, verification_time: u64) -> (r: SgxReport)
    ensures
        r.mr_enclave@ == quote.body.mr_enclave@,
        r.pubkey@ == quote.body.report_data.d@.subrange(0, 32),
        r.status == SgxStatus::Okay,
        r.timestamp == verification_time,
        r.build_mode == build_mode_of(quote.body.attributes.flags),
{
    SgxReport {
        mr_enclave: quote.body.mr_enclave,
        status: SgxStatus::Okay,
        pubkey: read_array::<32>(quote.body.report_data.d.as_slice(), 0),
        timestamp: verification_time,
        build_mode: quote.body.sgx_build_mode(),
    }
}

/// Verifies the quote `dcap_quote` at `verification_time`, in milliseconds
/// since 1970, and reports the enclave that it attests.
///
/// The quote has to be of version 3 with an ECDSA P-256 attestation key and
/// a PEM chain of three certificates, and its quoting enclave has to be
/// signed by the key that `qe` names. The chain has to lead to `root`. The
/// report of the quoting enclave, signed by the leaf certificate's key, has
/// to hold the digest of the attestation key and the authentication data;
/// the attestation key has to have signed header and report body. Nothing
/// may follow the quote.
pub fn verify_dcap_quote_against(
    dcap_quote: &[u8],
    verification_time: u64,
    qe: QuotingEnclave,
    root: &TrustAnchor,
) -> (r: Result<SgxReport, ValidationError>)
    ensures
        is_verdict(
            r,
            dcap_verdict_under(dcap_quote@, verification_time, qe.mrsigner@, root@),
        ),
{
    let ghost bytes = dcap_quote@;
    let (quote, taken) = match DcapQuote::decode(dcap_quote) {
        Some(decoded) => decoded,
        None => {
            return Err(ValidationError::MalformedQuote);
        },
    };
    let block = &quote.quote_signature_data;
    proof {
        let a = block.qe_authentication_data.size as int;
        assert(a == quote_authentication_size(bytes));
        assert(block.qe_certification_data.certification_data_type == quote_certification_type(
            bytes,
        ));
        assert(block.qe_certification_data.certification_data@ == quote_certification_data(
            bytes,
        ));
        assert(block.qe_report.mr_signer@ == quote_qe_mr_signer(bytes));
        assert(block.qe_report.report_data.d@ == quote_qe_report_data(bytes));
        assert(quote.body.report_data.d@.subrange(0, 32) =~= quote_pubkey(bytes));
        assert(quote.body.mr_enclave@ == quote_mr_enclave(bytes));
        assert(quote.body.attributes.flags == quote_flags(bytes));
    }
    match check_quote_policy(&quote, &qe.mrsigner) {
        Ok(()) => {},
        Err(e) => {
            return Err(e);
        },
    }
    let certs = extract_certs(block.qe_certification_data.certification_data.as_slice());
    if certs.len() != CHAIN_LENGTH {
        return Err(ValidationError::CertificateCount);
    }
    let mut intermediates: Vec<&[u8]> = Vec::new();
    intermediates.push(certs[1].as_slice());
    intermediates.push(certs[2].as_slice());
    assert(slice_views(intermediates@) =~= byte_strings(certs@).subrange(1, 3));
    let leaf_cert = match verify_quote_chain(
        certs[0].as_slice(),
        intermediates.as_slice(),
        verification_time,
        root,
    ) {
        Ok(leaf) => leaf,
        Err(e) => {
            return Err(e);
        },
    };
    match verify_key_binding(dcap_quote, &block.qe_report) {
        Ok(()) => {},
        Err(e) => {
            return Err(e);
        },
    }
    match verify_report_signature(
        dcap_quote,
        &block.ecdsa_attestation_key,
        &block.isv_enclave_report_signature,
    ) {
        Ok(()) => {},
        Err(e) => {
            return Err(e);
        },
    }
    match verify_qe_report_signature(dcap_quote, &leaf_cert, &block.qe_report_signature) {
        Ok(()) => {},
        Err(e) => {
            return Err(e);
        },
    }
    match check_no_bytes_left(dcap_quote, taken) {
        Ok(()) => {},
        Err(e) => {
            return Err(e);
        },
    }
    let report = quote_report(&quote, verification_time);
    assert(report@ == quote_summary(bytes, verification_time));
    Ok(report)
}

/// Verifies the quote `dcap_quote` at `verification_time`, in milliseconds
/// since 1970, against the Intel SGX Root CA, and reports the enclave that
/// it attests. The quoting enclave has to be signed by the key that `qe`
/// names.
pub fn verify_dcap_quote(dcap_quote: &[u8], verification_time: u64, qe: QuotingEnclave) -> (r:
    Result<SgxReport, ValidationError>)
    ensures
        is_verdict(r, dcap_verdict(dcap_quote@, verification_time, qe.mrsigner@)),
{
    let root = TrustAnchor {
        subject: DCAP_ROOT_SUBJECT.as_slice(),
        spki: DCAP_ROOT_SPKI.as_slice(),
    };
    verify_dcap_quote_against(dcap_quote, verification_time, qe, &root)
}

/// Bytes behind a quote that is accepted make it a quote that is rejected
/// for the bytes that are left over.
pub proof fn lemma_trailing_bytes_rejected(
    quote: Seq<u8>,
    trailing: Seq<u8>,
    verification_time: u64,
    mr_signer: Seq<u8>,
    root: TrustAnchorView,
)
    requires
        dcap_verdict_under(quote, verification_time, mr_signer, root) is Ok,
        trailing.len() > 0,
    ensures
        dcap_verdict_under(quote + trailing, verification_time, mr_signer, root) == Err::<
            SgxReportView,
            ValidationError,
        >(ValidationError::TrailingBytes),
{
    let longer = quote + trailing;
    let n = quote.len() as int;
    assert(dcap_quote_len(quote) == Some(n));
    assert forall|a: int, b: int| 0 <= a <= b <= n implies #[trigger] longer.subrange(a, b)
        == quote.subrange(a, b) by {
        assert(longer.subrange(a, b) =~= quote.subrange(a, b));
    }
    let auth = quote_authentication_size(quote);
    assert(quote_authentication_size(longer) == auth);
    assert(dcap_quote_len(longer) == Some(n));
    assert(quote_certification_type(longer) == quote_certification_type(quote));
    assert(quote_certification_data(longer) == quote_certification_data(quote));
    assert(evidence_fault(quote, verification_time, root) is None);
    assert(n >= 1046);
    assert(quote_key_digest(longer) == quote_key_digest(quote));
    assert(evidence_fault(longer, verification_time, root) is None);
}

/// Where the encoding of a quote is accepted, the summary names the
/// measurement of the quote's enclave, the first half of its report data as
/// its key, and its build mode.
pub proof fn lemma_summary_of_encoded_quote(
    quote: DcapQuote,
    verification_time: u64,
    mr_signer: Seq<u8>,
    root: TrustAnchorView,
)
    requires
        dcap_verdict_under(quote.encoding(), verification_time, mr_signer, root) is Ok,
    ensures
        dcap_verdict_under(quote.encoding(), verification_time, mr_signer, root) matches Ok(
            summary,
        ) && summary.mr_enclave == quote.body.mr_enclave@ && summary.pubkey
            == quote.body.report_data.d@.subrange(0, 32) && summary.build_mode == build_mode_of(
            quote.body.attributes.flags,
        ) && summary.timestamp == verification_time && summary.status == SgxStatus::Okay,
{
    let encoded = quote.encoding();
    let header = quote.header.encoding();
    let body = quote.body.encoding();
    quote.body.lemma_encoding_holds();
    quote.header.lemma_encoding_holds();
    assert(encoded.subrange(48, 432) =~= body) by {
        reveal(DcapQuote::encoding);
    }
    assert(encoded.len() >= 432) by {
        reveal(DcapQuote::encoding);
    }
    lemma_is_at_shifted(quote.body, encoded, 48);
    assert(quote.body.report_data.d@.subrange(0, 32) =~= quote_pubkey(encoded));
}

/// A quote is accepted only where every part of it is vouched for: its
/// chain leads to the root, the quoting enclave's report holds the digest of
/// the attestation key, the attestation key has signed header and report
/// body as they stand in the quote, and the leaf certificate's key has
/// signed the quoting enclave's report as it stands in the quote. So a
/// change to a signed stretch is accepted only with a signature over the
/// changed bytes.
pub proof fn lemma_accepted_quote_is_signed(
    quote: Seq<u8>,
    verification_time: u64,
    mr_signer: Seq<u8>,
    root: TrustAnchorView,
)
    requires
        dcap_verdict_under(quote, verification_time, mr_signer, root) is Ok,
    ensures
        quote_version(quote) == 3,
        quote_key_type(quote) == 2,
        quote_certification_type(quote) == 5,
        quote_qe_mr_signer(quote) == mr_signer,
        extract_certs_spec(quote_certification_data(quote)).len() == 3,
        quote_chain_fault(
            extract_certs_spec(quote_certification_data(quote))[0],
            extract_certs_spec(quote_certification_data(quote)).subrange(1, 3),
            verification_time,
            root,
        ) is None,
        key_is_bound(quote, quote_qe_report_data(quote)),
        report_is_signed(quote, quote_attestation_key(quote), quote_isv_signature(quote)),
        qe_report_is_signed(
            quote,
            extract_certs_spec(quote_certification_data(quote))[0],
            quote_qe_signature(quote),
        ),
        dcap_quote_len(quote) == Some(quote.len() as int),
{
}

/// Whether byte `at` of a quote stands in a stretch that is signed or is a
/// signature: header and report body, the signature over them, the report
/// of the quoting enclave, or the signature over it.
pub open spec fn is_signed_offset(at: int) -> bool {
    0 <= at < 432 || 436 <= at < 500 || 564 <= at < 1012
}

/// A quote that is accepted and then changed in its signed stretches or its
/// signatures, in one bit or in more, is rejected. Left out are the changes
/// that forge: those after which the attestation key's signature verifies
/// over a changed header, report body or signature, or the leaf
/// certificate's key's signature verifies over a changed report of the
/// quoting enclave or signature. That there are none to be found is what
/// ECDSA is trusted for; nothing here proves it.
pub proof fn lemma_changed_quote_is_rejected(
    quote: Seq<u8>,
    changed: Seq<u8>,
    verification_time: u64,
    mr_signer: Seq<u8>,
    root: TrustAnchorView,
)
    requires
        dcap_verdict_under(quote, verification_time, mr_signer, root) is Ok,
        changed.len() == quote.len(),
        changed != quote,
        forall|at: int|
            0 <= at < quote.len() && !is_signed_offset(at) ==> #[trigger] changed[at]
                == quote[at],
        quote_isv_report(changed) != quote_isv_report(quote) || quote_isv_signature(changed)
            != quote_isv_signature(quote) ==> !p256_signature_valid(
            seq![4u8] + quote_attestation_key(quote),
            quote_isv_report(changed),
            quote_isv_signature(changed),
        ),
        quote_qe_report(changed) != quote_qe_report(quote) || quote_qe_signature(changed)
            != quote_qe_signature(quote) ==> !cert_signature_valid(
            extract_certs_spec(quote_certification_data(quote))[0],
            SignatureAlgorithm::EcdsaP256Sha256,
            quote_qe_report(changed),
            as_asn1_spec(quote_qe_signature(changed)),
        ),
    ensures
        dcap_verdict_under(changed, verification_time, mr_signer, root) is Err,
{
    let n = quote.len() as int;
    assert(dcap_quote_len(quote) == Some(n));
    assert(n >= 1046);
    assert(quote_attestation_key(changed) =~= quote_attestation_key(quote));
    assert forall|a: int, b: int| 1012 <= a <= b <= n implies #[trigger] changed.subrange(a, b)
        == quote.subrange(a, b) by {
        assert(changed.subrange(a, b) =~= quote.subrange(a, b));
    }
    assert(quote_authentication_size(changed) == quote_authentication_size(quote));
    assert(quote_certification_data(changed) == quote_certification_data(quote));
    if quote_isv_report(changed) == quote_isv_report(quote) && quote_isv_signature(changed)
        == quote_isv_signature(quote) && quote_qe_report(changed) == quote_qe_report(quote)
        && quote_qe_signature(changed) == quote_qe_signature(quote) {
        assert forall|at: int| 0 <= at < n implies changed[at] == quote[at] by {
            if at < 432 {
                assert(quote_isv_report(changed)[at] == quote_isv_report(quote)[at]);
            } else if 436 <= at < 500 {
                assert(quote_isv_signature(changed)[at - 436] == quote_isv_signature(quote)[at
                    - 436]);
            } else if 564 <= at < 948 {
                assert(quote_qe_report(changed)[at - 564] == quote_qe_report(quote)[at - 564]);
            } else if 948 <= at < 1012 {
                assert(quote_qe_signature(changed)[at - 948] == quote_qe_signature(quote)[at
                    - 948]);
            }
        }
        assert(changed =~= quote);
    }
    if dcap_verdict_under(changed, verification_time, mr_signer, root) is Ok {
        lemma_accepted_quote_is_signed(changed, verification_time, mr_signer, root);
    }
}

} // verus!
