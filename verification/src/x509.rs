//! Certificates: the pinned authorities, the path from a leaf certificate to
//! one of them, and signatures under a certificate's key.

use vstd::prelude::*;
use vstd::slice::slice_to_vec;
use crate::error::ValidationError;

verus! {

/// Subject of the Intel SGX Attestation Report Signing CA.
pub const IAS_CA_SUBJECT: [u8; 126] = [
    49, 11, 48, 9, 6, 3, 85, 4, 6, 19, 2, 85, 83, 49, 11, 48, 9, 6, 3, 85, 4, 8, 12, 2, 67, 65,
    49, 20, 48, 18, 6, 3, 85, 4, 7, 12, 11, 83, 97, 110, 116, 97, 32, 67, 108, 97, 114, 97, 49,
    26, 48, 24, 6, 3, 85, 4, 10, 12, 17, 73, 110, 116, 101, 108, 32, 67, 111, 114, 112, 111,
    114, 97, 116, 105, 111, 110, 49, 48, 48, 46, 6, 3, 85, 4, 3, 12, 39, 73, 110, 116, 101, 108,
    32, 83, 71, 88, 32, 65, 116, 116, 101, 115, 116, 97, 116, 105, 111, 110, 32, 82, 101, 112,
    111, 114, 116, 32, 83, 105, 103, 110, 105, 110, 103, 32, 67, 65,
];

/// Public key of the Intel SGX Attestation Report Signing CA: an RSA key of 3072 bits.
pub const IAS_CA_SPKI: [u8; 418] = [
    48, 13, 6, 9, 42, 134, 72, 134, 247, 13, 1, 1, 1, 5, 0, 3, 130, 1, 143, 0, 48, 130, 1, 138,
    2, 130, 1, 129, 0, 159, 60, 100, 126, 181, 119, 60, 187, 81, 45, 39, 50, 192, 215, 65, 94,
    187, 85, 160, 250, 158, 222, 46, 100, 145, 153, 230, 130, 29, 185, 16, 213, 49, 119, 55, 9,
    119, 70, 106, 106, 94, 71, 134, 204, 210, 221, 235, 212, 20, 157, 106, 47, 99, 37, 82, 157,
    209, 12, 201, 135, 55, 176, 119, 156, 26, 7, 226, 156, 71, 161, 174, 0, 73, 72, 71, 108, 72,
    159, 69, 165, 161, 93, 122, 200, 236, 198, 172, 198, 69, 173, 180, 61, 135, 103, 157, 245,
    156, 9, 59, 197, 162, 233, 105, 108, 84, 120, 84, 27, 151, 158, 117, 75, 87, 57, 20, 190,
    85, 211, 47, 244, 192, 157, 223, 39, 33, 153, 52, 205, 153, 5, 39, 179, 249, 46, 215, 143,
    191, 41, 36, 106, 190, 203, 113, 36, 14, 243, 156, 45, 113, 7, 180, 71, 84, 90, 127, 251,
    16, 235, 6, 10, 104, 169, 133, 128, 33, 158, 54, 145, 9, 82, 104, 56, 146, 214, 165, 226,
    168, 8, 3, 25, 62, 64, 117, 49, 64, 78, 54, 179, 21, 98, 55, 153, 170, 130, 80, 116, 64,
    151, 84, 162, 223, 232, 245, 175, 213, 254, 99, 30, 31, 194, 175, 56, 8, 144, 111, 40, 167,
    144, 217, 221, 159, 224, 96, 147, 155, 18, 87, 144, 197, 128, 93, 3, 125, 245, 106, 153, 83,
    27, 150, 222, 105, 222, 51, 237, 34, 108, 193, 32, 125, 16, 66, 181, 201, 171, 127, 64, 79,
    199, 17, 192, 254, 71, 105, 251, 149, 120, 177, 220, 14, 196, 105, 234, 26, 37, 224, 255,
    153, 20, 136, 110, 242, 105, 155, 35, 91, 180, 132, 125, 214, 255, 64, 182, 6, 230, 23, 7,
    147, 194, 251, 152, 179, 20, 88, 127, 156, 253, 37, 115, 98, 223, 234, 177, 11, 59, 210,
    217, 118, 115, 161, 164, 189, 68, 196, 83, 170, 244, 127, 193, 242, 211, 208, 243, 132, 247,
    74, 6, 248, 156, 8, 159, 13, 166, 205, 183, 252, 238, 232, 201, 130, 26, 142, 84, 242, 92,
    4, 22, 209, 140, 70, 131, 154, 95, 128, 18, 251, 221, 61, 199, 77, 37, 98, 121, 173, 194,
    192, 213, 90, 255, 111, 6, 34, 66, 93, 27, 2, 3, 1, 0, 1,
];

/// Subject of the Intel SGX Root CA.
pub const DCAP_ROOT_SUBJECT: [u8; 104] = [
    49, 26, 48, 24, 6, 3, 85, 4, 3, 12, 17, 73, 110, 116, 101, 108, 32, 83, 71, 88, 32, 82, 111,
    111, 116, 32, 67, 65, 49, 26, 48, 24, 6, 3, 85, 4, 10, 12, 17, 73, 110, 116, 101, 108, 32,
    67, 111, 114, 112, 111, 114, 97, 116, 105, 111, 110, 49, 20, 48, 18, 6, 3, 85, 4, 7, 12, 11,
    83, 97, 110, 116, 97, 32, 67, 108, 97, 114, 97, 49, 11, 48, 9, 6, 3, 85, 4, 8, 12, 2, 67,
    65, 49, 11, 48, 9, 6, 3, 85, 4, 6, 19, 2, 85, 83,
];

/// Public key of the Intel SGX Root CA: a point on P-256.
pub const DCAP_ROOT_SPKI: [u8; 89] = [
    48, 19, 6, 7, 42, 134, 72, 206, 61, 2, 1, 6, 8, 42, 134, 72, 206, 61, 3, 1, 7, 3, 66, 0, 4,
    11, 169, 196, 192, 192, 200, 97, 147, 163, 254, 35, 214, 176, 44, 218, 16, 168, 187, 212,
    232, 142, 72, 180, 69, 133, 97, 163, 110, 112, 85, 37, 245, 103, 145, 142, 46, 220, 136,
    228, 13, 134, 11, 208, 204, 78, 226, 106, 172, 201, 136, 229, 5, 169, 83, 85, 140, 69, 63,
    107, 9, 4, 174, 115, 148,
];

/// The instant, in seconds since 1970, at which the report signing
/// certificate is checked against its authority: 2019-11-11T00:50:50Z.
pub const IAS_CERT_CHECK_TIME: u64 = 1573419050;

/// The largest number of bytes that a digest can be taken of: the length in
/// bits has to fit in 64 bits.
pub const MAX_HASHED_LEN: u64 = 0x1fff_ffff_ffff_ffff;

/// Whether a digest can be taken of `data`.
pub open spec fn can_be_hashed(data: Seq<u8>) -> bool {
    data.len() <= MAX_HASHED_LEN
}

/// Whether a digest can be taken of each of `items`.
pub open spec fn all_can_be_hashed(items: Seq<Seq<u8>>) -> bool {
    forall|i: int| 0 <= i < items.len() ==> can_be_hashed(#[trigger] items[i])
}

/// Whether a digest can be taken of `data`.
pub fn fits_digest(data: &[u8]) -> (r: bool)
    ensures
        r == can_be_hashed(data@),
{
    data.len() as u64 <= MAX_HASHED_LEN
}

/// Whether a digest can be taken of each of `items`.
pub fn all_fit_digest(items: &[&[u8]]) -> (r: bool)
    ensures
        r == all_can_be_hashed(slice_views(items@)),
{
    let mut i: usize = 0;
    while i < items.len()
        invariant
            i <= items.len(),
            forall|j: int| 0 <= j < i ==> can_be_hashed(#[trigger] slice_views(items@)[j]),
        decreases items.len() - i,
    {
        if !fits_digest(items[i]) {
            assert(!can_be_hashed(slice_views(items@)[i as int]));
            return false;
        }
        i += 1;
    }
    true
}

/// A signature algorithm together with the keys it is accepted with.
#[derive(Clone, Copy, Debug, PartialEq, Eq, Structural)]
pub enum SignatureAlgorithm {
    /// ECDSA on P-256 with SHA-256.
    EcdsaP256Sha256,
    /// RSA PKCS#1 1.5 with SHA-256, keys of 2048 to 8192 bits.
    RsaPkcs1Sha256,
    /// RSA PKCS#1 1.5 with SHA-384, keys of 2048 to 8192 bits.
    RsaPkcs1Sha384,
    /// RSA PKCS#1 1.5 with SHA-512, keys of 2048 to 8192 bits.
    RsaPkcs1Sha512,
    /// RSA PKCS#1 1.5 with SHA-384, keys of 3072 to 8192 bits.
    RsaPkcs1Sha384Key3072,
}

/// Whether `webpki` reads `der` as an end-entity certificate.
pub uninterp spec fn end_entity_cert_parses(der: Seq<u8>) -> bool;

/// Whether `webpki` finds a path from the certificate `leaf` over
/// `intermediates` to the authority with the given subject and key, every
/// signature on it made with one of `algorithms` and every certificate on it
/// valid for a TLS server at `seconds` after 1970.
pub uninterp spec fn server_cert_chain_valid(
    leaf: Seq<u8>,
    intermediates: Seq<Seq<u8>>,
    algorithms: Seq<SignatureAlgorithm>,
    anchor_subject: Seq<u8>,
    anchor_spki: Seq<u8>,
    seconds: u64,
) -> bool;

/// Whether `webpki` accepts `signature` as one of the key of the
/// certificate `cert` over `message`, made with `algorithm`.
pub uninterp spec fn cert_signature_valid(
    cert: Seq<u8>,
    algorithm: SignatureAlgorithm,
    message: Seq<u8>,
    signature: Seq<u8>,
) -> bool;

/// The byte strings that a sequence of slices holds.
pub open spec fn slice_views(v: Seq<&[u8]>) -> Seq<Seq<u8>> {
    v.map_values(|x: &[u8]| x@)
}

/// `webpki::EndEntityCert::from`: whether `der` parses as an end-entity
/// certificate. The answer depends on `der` alone.
#[verifier::external_body]
fn webpki_parses(der: &[u8]) -> (r: bool)
    ensures
        r == end_entity_cert_parses(der@),
{
    webpki::EndEntityCert::from(der).is_ok()
}

/// `webpki::EndEntityCert::verify_is_valid_tls_server_cert` on the
/// certificate parsed from `leaf`, with one trust anchor that has no name
/// constraints: whether a path to the anchor exists. A leaf that does not
/// parse has none. The answer depends on the arguments alone. Digests are
/// taken of parts of the certificates, so certificates too long for one are
/// left out.
#[verifier::external_body]
fn webpki_chain_valid(
    leaf: &[u8],
    intermediates: &[&[u8]],
    algorithms: &[SignatureAlgorithm],
    subject: &[u8],
    spki: &[u8],
    seconds: u64,
) -> (r: bool)
    requires
        can_be_hashed(leaf@),
        all_can_be_hashed(slice_views(intermediates@)),
    ensures
        r == server_cert_chain_valid(
            leaf@,
            slice_views(intermediates@),
            algorithms@,
            subject@,
            spki@,
            seconds,
        ),
{
    let algs: Vec<&webpki::SignatureAlgorithm> = algorithms.iter().map(|a| match a {
        SignatureAlgorithm::EcdsaP256Sha256 => &webpki::ECDSA_P256_SHA256,
        SignatureAlgorithm::RsaPkcs1Sha256 => &webpki::RSA_PKCS1_2048_8192_SHA256,
        SignatureAlgorithm::RsaPkcs1Sha384 => &webpki::RSA_PKCS1_2048_8192_SHA384,
        SignatureAlgorithm::RsaPkcs1Sha512 => &webpki::RSA_PKCS1_2048_8192_SHA512,
        SignatureAlgorithm::RsaPkcs1Sha384Key3072 => &webpki::RSA_PKCS1_3072_8192_SHA384,
    }).collect();
    let anchors = [webpki::TrustAnchor { subject, spki, name_constraints: None }];
    let roots = webpki::TLSServerTrustAnchors(&anchors);
    let time = webpki::Time::from_seconds_since_unix_epoch(seconds);
    webpki::EndEntityCert::from(leaf).and_then(|cert|
        cert.verify_is_valid_tls_server_cert(&algs, &roots, intermediates, time)
    ).is_ok()
}

/// `webpki::EndEntityCert::verify_signature` on the certificate parsed from
/// `cert`: whether `signature` is one of the certificate's key over
/// `message`. A certificate that does not parse has signed nothing. The
/// answer depends on the arguments alone. A digest is taken of the message,
/// so a message too long for one is left out.
#[verifier::external_body]
fn webpki_signature_valid(
    cert: &[u8],
    algorithm: SignatureAlgorithm,
    message: &[u8],
    signature: &[u8],
) -> (r: bool)
    requires
        can_be_hashed(message@),
    ensures
        r == cert_signature_valid(cert@, algorithm, message@, signature@),
{
    let alg = match algorithm {
        SignatureAlgorithm::EcdsaP256Sha256 => &webpki::ECDSA_P256_SHA256,
        SignatureAlgorithm::RsaPkcs1Sha256 => &webpki::RSA_PKCS1_2048_8192_SHA256,
        SignatureAlgorithm::RsaPkcs1Sha384 => &webpki::RSA_PKCS1_2048_8192_SHA384,
        SignatureAlgorithm::RsaPkcs1Sha512 => &webpki::RSA_PKCS1_2048_8192_SHA512,
        SignatureAlgorithm::RsaPkcs1Sha384Key3072 => &webpki::RSA_PKCS1_3072_8192_SHA384,
    };
    webpki::EndEntityCert::from(cert).and_then(|c|
        c.verify_signature(alg, message, signature)
    ).is_ok()
}

/// Whether `der` is read as an end-entity certificate, and is short enough
/// for a digest to be taken of it.
pub open spec fn is_leaf_certificate(der: Seq<u8>) -> bool {
    can_be_hashed(der) && end_entity_cert_parses(der)
}

/// A certificate that has been read as an end-entity certificate: its DER
/// encoding, kept so that its key can verify signatures later.
pub struct ParsedLeaf {
    der: Vec<u8>,
}

impl View for ParsedLeaf {
    type V = Seq<u8>;

    /// The DER encoding of the certificate.
    closed spec fn view(&self) -> Seq<u8> {
        self.der@
    }
}

impl ParsedLeaf {
    #[verifier::type_invariant]
    spec fn parses(self) -> bool {
        is_leaf_certificate(self.der@)
    }

    /// Reads `der` as an end-entity certificate. It fails, with `BadDer`,
    /// exactly where `der` is none.
    pub fn from_der(der: &[u8]) -> (r: Result<ParsedLeaf, ValidationError>)
        ensures
            r is Ok <==> is_leaf_certificate(der@),
            r matches Ok(leaf) ==> leaf@ == der@,
            r matches Err(e) ==> e == ValidationError::BadDer,
    {
        if fits_digest(der) && webpki_parses(der) {
            Ok(ParsedLeaf { der: slice_to_vec(der) })
        } else {
            Err(ValidationError::BadDer)
        }
    }

    /// The DER encoding of the certificate, which every value of this type
    /// holds.
    pub fn as_der(&self) -> (r: &[u8])
        ensures
            r@ == self@,
            is_leaf_certificate(r@),
    {
        proof {
            use_type_invariant(self);
        }
        self.der.as_slice()
    }
}

/// The algorithm that signs the certificates of a quote's chain.
pub open spec fn dcap_chain_algorithms() -> Seq<SignatureAlgorithm> {
    seq![SignatureAlgorithm::EcdsaP256Sha256]
}

/// The algorithms that may sign a report signing certificate.
pub open spec fn ias_chain_algorithms() -> Seq<SignatureAlgorithm> {
    seq![
        SignatureAlgorithm::RsaPkcs1Sha256,
        SignatureAlgorithm::RsaPkcs1Sha384,
        SignatureAlgorithm::RsaPkcs1Sha512,
        SignatureAlgorithm::RsaPkcs1Sha384Key3072,
    ]
}

/// An authority that is trusted: the subject and the public key of its
/// certificate, each as the content of the DER sequence that holds it.
pub struct TrustAnchor<'a> {
    pub subject: &'a [u8],
    pub spki: &'a [u8],
}

/// A trusted authority as a mathematical value.
pub ghost struct TrustAnchorView {
    pub subject: Seq<u8>,
    pub spki: Seq<u8>,
}

impl<'a> View for TrustAnchor<'a> {
    type V = TrustAnchorView;

    open spec fn view(&self) -> TrustAnchorView {
        TrustAnchorView { subject: self.subject@, spki: self.spki@ }
    }
}

/// The Intel SGX Root CA, which the chain of a quote has to lead to.
pub open spec fn sgx_root_ca() -> TrustAnchorView {
    TrustAnchorView { subject: DCAP_ROOT_SUBJECT@, spki: DCAP_ROOT_SPKI@ }
}

/// The Intel SGX Attestation Report Signing CA, which has to have issued
/// the certificate of the signer of an attestation report.
pub open spec fn report_signing_ca() -> TrustAnchorView {
    TrustAnchorView { subject: IAS_CA_SUBJECT@, spki: IAS_CA_SPKI@ }
}

/// Why `leaf` is not accepted as a leaf under the authority `anchor` at
/// `seconds` after 1970; `None` where it is accepted.
pub open spec fn chain_fault(
    leaf: Seq<u8>,
    intermediates: Seq<Seq<u8>>,
    algorithms: Seq<SignatureAlgorithm>,
    anchor: TrustAnchorView,
    seconds: u64,
) -> Option<ValidationError> {
    if !is_leaf_certificate(leaf) {
        Some(ValidationError::LeafCertificate)
    } else if !all_can_be_hashed(intermediates) || !server_cert_chain_valid(
        leaf,
        intermediates,
        algorithms,
        anchor.subject,
        anchor.spki,
        seconds,
    ) {
        Some(ValidationError::InvalidChain)
    } else {
        None
    }
}

/// Why `leaf` is not accepted as the leaf of a quote's chain under the root
/// `root` at `verification_time`, in milliseconds since 1970; `None` where
/// it is accepted. The certificates are checked at the second in which the
/// instant lies.
pub open spec fn quote_chain_fault(
    leaf: Seq<u8>,
    intermediates: Seq<Seq<u8>>,
    verification_time: u64,
    root: TrustAnchorView,
) -> Option<ValidationError> {
    chain_fault(
        leaf,
        intermediates,
        dcap_chain_algorithms(),
        root,
        (verification_time / 1000) as u64,
    )
}

/// Why `leaf` is not accepted as the leaf of a quote's chain under the
/// Intel SGX Root CA at `verification_time`, in milliseconds since 1970;
/// `None` where it is accepted.
pub open spec fn certificate_chain_fault(
    leaf: Seq<u8>,
    intermediates: Seq<Seq<u8>>,
    verification_time: u64,
) -> Option<ValidationError> {
    quote_chain_fault(leaf, intermediates, verification_time, sgx_root_ca())
}

/// Verifies that a path leads from `leaf_cert` over `intermediate_certs` to
/// the authority `anchor`, every signature on it made with one of
/// `algorithms` and every certificate on it valid at `seconds` after 1970.
/// Nothing is fetched: the path is built from the certificates given. On
/// success the leaf is handed back, parsed.
pub fn verify_chain(
    leaf_cert: &[u8],
    intermediate_certs: &[&[u8]],
    anchor: &TrustAnchor,
    algorithms: &[SignatureAlgorithm],
    seconds: u64,
) -> (r: Result<ParsedLeaf, ValidationError>)
    ensures
        r is Ok <==> chain_fault(
            leaf_cert@,
            slice_views(intermediate_certs@),
            algorithms@,
            anchor@,
            seconds,
        ) is None,
        r matches Ok(leaf) ==> leaf@ == leaf_cert@,
        r matches Err(e) ==> chain_fault(
            leaf_cert@,
            slice_views(intermediate_certs@),
            algorithms@,
            anchor@,
            seconds,
        ) == Some(e),
{
    if !fits_digest(leaf_cert) || !webpki_parses(leaf_cert) {
        return Err(ValidationError::LeafCertificate);
    }
    if !all_fit_digest(intermediate_certs) {
        return Err(ValidationError::InvalidChain);
    }
    let valid = webpki_chain_valid(
        leaf_cert,
        intermediate_certs,
        algorithms,
        anchor.subject,
        anchor.spki,
        seconds,
    );
    if !valid {
        return Err(ValidationError::InvalidChain);
    }
    Ok(ParsedLeaf { der: slice_to_vec(leaf_cert) })
}

/// Verifies that a path leads from `leaf_cert` over `intermediate_certs` to
/// the root `root`, with ECDSA P-256 signatures throughout and every
/// certificate valid at `verification_time`, which is in milliseconds since
/// 1970. On success the leaf is handed back, parsed.
pub fn verify_quote_chain(
    leaf_cert: &[u8],
    intermediate_certs: &[&[u8]],
    verification_time: u64,
    root: &TrustAnchor,
) -> (r: Result<ParsedLeaf, ValidationError>)
    ensures
        r is Ok <==> quote_chain_fault(
            leaf_cert@,
            slice_views(intermediate_certs@),
            verification_time,
            root@,
        ) is None,
        r matches Ok(leaf) ==> leaf@ == leaf_cert@,
        r matches Err(e) ==> quote_chain_fault(
            leaf_cert@,
            slice_views(intermediate_certs@),
            verification_time,
            root@,
        ) == Some(e),
{
    let algorithms: [SignatureAlgorithm; 1] = [SignatureAlgorithm::EcdsaP256Sha256];
    assert(algorithms@ =~= dcap_chain_algorithms());
    verify_chain(
        leaf_cert,
        intermediate_certs,
        root,
        algorithms.as_slice(),
        verification_time / 1000,
    )
}

/// Verifies that a path leads from `leaf_cert` over `intermediate_certs` to
/// the Intel SGX Root CA, with ECDSA P-256 signatures throughout and every
/// certificate valid at `verification_time`, which is in milliseconds since
/// 1970. On success the leaf is handed back, parsed.
pub fn verify_certificate_chain(
    leaf_cert: &[u8],
    intermediate_certs: &[&[u8]],
    verification_time: u64,
) -> (r: Result<ParsedLeaf, ValidationError>)
    ensures
        r is Ok <==> certificate_chain_fault(
            leaf_cert@,
            slice_views(intermediate_certs@),
            verification_time,
        ) is None,
        r matches Ok(leaf) ==> leaf@ == leaf_cert@,
        r matches Err(e) ==> certificate_chain_fault(
            leaf_cert@,
            slice_views(intermediate_certs@),
            verification_time,
        ) == Some(e),
{
    let root = TrustAnchor {
        subject: DCAP_ROOT_SUBJECT.as_slice(),
        spki: DCAP_ROOT_SPKI.as_slice(),
    };
    verify_quote_chain(leaf_cert, intermediate_certs, verification_time, &root)
}

/// Whether the authority `anchor` issued the certificate `cert` itself,
/// with an RSA signature, and the certificate is valid at `seconds` after
/// 1970.
pub open spec fn issued_by(cert: Seq<u8>, anchor: TrustAnchorView, seconds: u64) -> bool {
    server_cert_chain_valid(
        cert,
        Seq::empty(),
        ias_chain_algorithms(),
        anchor.subject,
        anchor.spki,
        seconds,
    )
}

/// Whether the Intel SGX Attestation Report Signing CA issued the
/// certificate `cert` itself, with an RSA signature, and the certificate is
/// valid at `seconds` after 1970.
pub open spec fn server_cert_valid(cert: Seq<u8>, seconds: u64) -> bool {
    issued_by(cert, report_signing_ca(), seconds)
}

/// Verifies that the authority `anchor` issued the report signing
/// certificate itself, with an RSA signature, and that the certificate is
/// valid at `seconds` after 1970. It fails, with `CaVerification`, exactly
/// where that is not so.
pub fn verify_issued_by(sig_cert: &ParsedLeaf, anchor: &TrustAnchor, seconds: u64) -> (r: Result<
    (),
    ValidationError,
>)
    ensures
        r is Ok <==> issued_by(sig_cert@, anchor@, seconds),
        r matches Err(e) ==> e == ValidationError::CaVerification,
{
    let algorithms: [SignatureAlgorithm; 4] = [
        SignatureAlgorithm::RsaPkcs1Sha256,
        SignatureAlgorithm::RsaPkcs1Sha384,
        SignatureAlgorithm::RsaPkcs1Sha512,
        SignatureAlgorithm::RsaPkcs1Sha384Key3072,
    ];
    assert(algorithms@ =~= ias_chain_algorithms());
    let chain: Vec<&[u8]> = Vec::new();
    assert(slice_views(chain@) =~= Seq::<Seq<u8>>::empty());
    let valid = webpki_chain_valid(
        sig_cert.as_der(),
        chain.as_slice(),
        algorithms.as_slice(),
        anchor.subject,
        anchor.spki,
        seconds,
    );
    if valid {
        Ok(())
    } else {
        Err(ValidationError::CaVerification)
    }
}

/// Verifies that the report signing certificate was issued by the Intel SGX
/// Attestation Report Signing CA and is valid at `timestamp_valid_until`, in
/// seconds since 1970. It fails, with `CaVerification`, exactly where that
/// is not so.
pub fn verify_server_cert(sig_cert: &ParsedLeaf, timestamp_valid_until: u64) -> (r: Result<
    (),
    ValidationError,
>)
    ensures
        r is Ok <==> server_cert_valid(sig_cert@, timestamp_valid_until),
        r matches Err(e) ==> e == ValidationError::CaVerification,
{
    let anchor = TrustAnchor { subject: IAS_CA_SUBJECT.as_slice(), spki: IAS_CA_SPKI.as_slice() };
    verify_issued_by(sig_cert, &anchor, timestamp_valid_until)
}

/// Verifies that `signature` is a signature of the certificate's key over
/// `data`, made with `signature_algorithm`. It fails, with `BadSignature`,
/// exactly where it is none.
pub fn verify_signature(
    entity_cert: &ParsedLeaf,
    data: &[u8],
    signature: &[u8],
    signature_algorithm: SignatureAlgorithm,
) -> (r: Result<(), ValidationError>)
    ensures
        r is Ok <==> can_be_hashed(data@) && cert_signature_valid(
            entity_cert@,
            signature_algorithm,
            data@,
            signature@,
        ),
        r matches Err(e) ==> e == ValidationError::BadSignature,
{
    if fits_digest(data) && webpki_signature_valid(
        entity_cert.as_der(),
        signature_algorithm,
        data,
        signature,
    ) {
        Ok(())
    } else {
        Err(ValidationError::BadSignature)
    }
}

} // verus!
