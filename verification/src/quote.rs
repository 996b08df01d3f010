//! The ECDSA quote: a header, the report body of the attested enclave and
//! the signature block of the quoting enclave.

use vstd::prelude::*;
use crate::bytes::{
    le_u16, le_u32, lemma_bytes_of_le_u16, lemma_bytes_of_le_u32, lemma_le_u16_of_bytes,
    lemma_le_u32_of_bytes, lemma_subrange_join, lemma_subrange_of_subrange, read_array, read_u16,
    read_u32, read_vec, u16_le_bytes, u32_le_bytes,
};
use crate::report::{lemma_is_at_shifted, SgxReportBody};

verus! {

/// Number of bytes that a quote header occupies.
pub const DCAP_QUOTE_HEADER_SIZE: usize = 48;

/// Number of bytes of the attestation key: the two coordinates of a P-256 point.
pub const ATTESTATION_KEY_SIZE: usize = 64;

/// Offset of the length of the signature block.
pub const SIGNATURE_DATA_LEN_OFFSET: usize = 432;

/// Offset of the signature over header and report body.
pub const ISV_SIGNATURE_OFFSET: usize = 436;

/// Offset of the attestation key.
pub const ATTESTATION_KEY_OFFSET: usize = 500;

/// Offset of the report of the quoting enclave.
pub const QE_REPORT_OFFSET: usize = 564;

/// Offset of the signature over the report of the quoting enclave.
pub const QE_REPORT_SIGNATURE_OFFSET: usize = 948;

/// Offset of the bytes of the authentication data.
pub const AUTHENTICATION_DATA_OFFSET: usize = 1014;

/// The first 48 bytes of a quote.
#[derive(Clone, Copy, Debug)]
pub struct DcapQuoteHeader {
    /// (  0)
    pub version: u16,
    /// (  2)
    pub attestation_key_type: u16,
    /// (  4)
    pub reserved: u32,
    /// (  8)
    pub qe_svn: u16,
    /// ( 10)
    pub pce_svn: u16,
    /// ( 12)
    pub qe_vendor_id: [u8; 16],
    /// ( 28)
    pub user_data: [u8; 20],
}

/// Data of the quoting enclave's choice, which its report vouches for
/// together with the attestation key.
#[derive(Clone, Debug)]
pub struct QeAuthenticationData {
    pub size: u16,
    pub certification_data: Vec<u8>,
}

/// What certifies the key of the quoting enclave.
#[derive(Clone, Debug)]
pub struct QeCertificationData {
    pub certification_data_type: u16,
    pub size: u32,
    pub certification_data: Vec<u8>,
}

/// The signature block of a quote.
#[derive(Clone, Debug)]
pub struct EcdsaQuoteSignature {
    /// (436) Signature of the attestation key over header and report body.
    pub isv_enclave_report_signature: [u8; 64],
    /// (500)
    pub ecdsa_attestation_key: [u8; 64],
    /// (564)
    pub qe_report: SgxReportBody,
    /// (948) Signature of the certified key over the quoting enclave's report.
    pub qe_report_signature: [u8; 64],
    /// (1012)
    pub qe_authentication_data: QeAuthenticationData,
    pub qe_certification_data: QeCertificationData,
}

/// A quote.
#[derive(Clone, Debug)]
pub struct DcapQuote {
    /// (  0)
    pub header: DcapQuoteHeader,
    /// ( 48)
    pub body: SgxReportBody,
    /// (432)
    pub signature_data_len: u32,
    /// (436)
    pub quote_signature_data: EcdsaQuoteSignature,
}

impl DcapQuoteHeader {
    /// The 48 bytes that hold the header.
    #[verifier::opaque]
    pub open spec fn encoding(self) -> Seq<u8> {
        u16_le_bytes(self.version) + u16_le_bytes(self.attestation_key_type) + u32_le_bytes(
            self.reserved,
        ) + u16_le_bytes(self.qe_svn) + u16_le_bytes(self.pce_svn) + self.qe_vendor_id@
            + self.user_data@
    }

    /// Whether `bytes` holds this header at offset `at`, field by field.
    pub open spec fn is_at(self, bytes: Seq<u8>, at: int) -> bool {
        &&& 0 <= at
        &&& at + 48 <= bytes.len()
        &&& self.version == le_u16(bytes.subrange(at, at + 2))
        &&& self.attestation_key_type == le_u16(bytes.subrange(at + 2, at + 4))
        &&& self.reserved == le_u32(bytes.subrange(at + 4, at + 8))
        &&& self.qe_svn == le_u16(bytes.subrange(at + 8, at + 10))
        &&& self.pce_svn == le_u16(bytes.subrange(at + 10, at + 12))
        &&& self.qe_vendor_id@ == bytes.subrange(at + 12, at + 28)
        &&& self.user_data@ == bytes.subrange(at + 28, at + 48)
    }

    /// A header takes 48 bytes, and is read off its own encoding.
    pub proof fn lemma_encoding_holds(self)
        ensures
            self.encoding().len() == 48,
            self.is_at(self.encoding(), 0),
    {
        reveal(DcapQuoteHeader::encoding);
        let e = self.encoding();
        lemma_le_u16_of_bytes(self.version);
        lemma_le_u16_of_bytes(self.attestation_key_type);
        lemma_le_u32_of_bytes(self.reserved);
        lemma_le_u16_of_bytes(self.qe_svn);
        lemma_le_u16_of_bytes(self.pce_svn);
        assert(e.len() == 48);
        assert(e.subrange(0, 2) =~= u16_le_bytes(self.version));
        assert(e.subrange(2, 4) =~= u16_le_bytes(self.attestation_key_type));
        assert(e.subrange(4, 8) =~= u32_le_bytes(self.reserved));
        assert(e.subrange(8, 10) =~= u16_le_bytes(self.qe_svn));
        assert(e.subrange(10, 12) =~= u16_le_bytes(self.pce_svn));
        assert(e.subrange(12, 28) =~= self.qe_vendor_id@);
        assert(e.subrange(28, 48) =~= self.user_data@);
    }

    /// A header that is the stretch of `bytes` from `at` on is held by
    /// `bytes` at `at`.
    pub proof fn lemma_is_at_shifted(self, bytes: Seq<u8>, at: int)
        requires
            0 <= at,
            at + 48 <= bytes.len(),
            self.encoding() == bytes.subrange(at, at + 48),
        ensures
            self.is_at(bytes, at),
    {
        self.lemma_encoding_holds();
        lemma_subrange_of_subrange(bytes, at, 48);
    }

    /// The bytes that a header was read from are its encoding.
    pub proof fn lemma_encoding_of_read(self, bytes: Seq<u8>, at: int)
        requires
            self.is_at(bytes, at),
        ensures
            self.encoding() == bytes.subrange(at, at + 48),
    {
        reveal(DcapQuoteHeader::encoding);
        lemma_bytes_of_le_u16(bytes.subrange(at, at + 2));
        lemma_bytes_of_le_u16(bytes.subrange(at + 2, at + 4));
        lemma_bytes_of_le_u32(bytes.subrange(at + 4, at + 8));
        lemma_bytes_of_le_u16(bytes.subrange(at + 8, at + 10));
        lemma_bytes_of_le_u16(bytes.subrange(at + 10, at + 12));
        lemma_subrange_join(bytes, at, at + 2, at + 4);
        lemma_subrange_join(bytes, at, at + 4, at + 8);
        lemma_subrange_join(bytes, at, at + 8, at + 10);
        lemma_subrange_join(bytes, at, at + 10, at + 12);
        lemma_subrange_join(bytes, at, at + 12, at + 28);
        lemma_subrange_join(bytes, at, at + 28, at + 48);
    }

    /// Reads the header that starts at `at`.
    pub fn decode_at(input: &[u8], at: usize) -> (r: DcapQuoteHeader)
        requires
            at + 48 <= input.len(),
        ensures
            r.is_at(input@, at as int),
            r.encoding() == input@.subrange(at as int, at + 48),
    {
        let r = DcapQuoteHeader {
            version: read_u16(input, at),
            attestation_key_type: read_u16(input, at + 2),
            reserved: read_u32(input, at + 4),
            qe_svn: read_u16(input, at + 8),
            pce_svn: read_u16(input, at + 10),
            qe_vendor_id: read_array::<16>(input, at + 12),
            user_data: read_array::<20>(input, at + 28),
        };
        proof {
            r.lemma_encoding_of_read(input@, at as int);
        }
        r
    }

    /// Reads a header off the start of `input`; `None` where `input` is
    /// shorter than a header.
    pub fn decode(input: &[u8]) -> (r: Option<DcapQuoteHeader>)
        ensures
            r is Some <==> input@.len() >= 48,
            r matches Some(header) ==> header.is_at(input@, 0) && header.encoding()
                == input@.subrange(0, 48),
    {
        if input.len() < DCAP_QUOTE_HEADER_SIZE {
            None
        } else {
            Some(DcapQuoteHeader::decode_at(input, 0))
        }
    }
}

/// The number of bytes that authentication data at `at` announces: its size
/// field and what the field counts. `None` where `bytes` ends before that.
pub open spec fn authentication_data_len(bytes: Seq<u8>, at: int) -> Option<int> {
    if 0 <= at && at + 2 <= bytes.len() && at + 2 + le_u16(bytes.subrange(at, at + 2))
        <= bytes.len() {
        Some(2 + le_u16(bytes.subrange(at, at + 2)))
    } else {
        None
    }
}

/// The number of bytes that certification data at `at` announces: its type
/// and size fields and what the size field counts. `None` where `bytes` ends
/// before that.
pub open spec fn certification_data_len(bytes: Seq<u8>, at: int) -> Option<int> {
    if 0 <= at && at + 6 <= bytes.len() && at + 6 + le_u32(bytes.subrange(at + 2, at + 6))
        <= bytes.len() {
        Some(6 + le_u32(bytes.subrange(at + 2, at + 6)))
    } else {
        None
    }
}

impl QeAuthenticationData {
    /// Whether the size field counts the data.
    pub open spec fn wf(self) -> bool {
        self.size == self.certification_data@.len()
    }

    /// The bytes that hold the authentication data: the size, then the data.
    #[verifier::opaque]
    pub open spec fn encoding(self) -> Seq<u8> {
        u16_le_bytes(self.size) + self.certification_data@
    }

    /// Whether `bytes` holds this authentication data at offset `at`.
    pub open spec fn is_at(self, bytes: Seq<u8>, at: int) -> bool {
        &&& 0 <= at
        &&& at + 2 + self.size <= bytes.len()
        &&& self.size == le_u16(bytes.subrange(at, at + 2))
        &&& self.certification_data@ == bytes.subrange(at + 2, at + 2 + self.size)
    }

    /// Authentication data whose size counts it is read off its own
    /// encoding.
    pub proof fn lemma_encoding_holds(self)
        requires
            self.wf(),
        ensures
            self.encoding().len() == 2 + self.size,
            self.is_at(self.encoding(), 0),
            authentication_data_len(self.encoding(), 0) == Some(2 + self.size),
    {
        reveal(QeAuthenticationData::encoding);
        let e = self.encoding();
        lemma_le_u16_of_bytes(self.size);
        assert(e.subrange(0, 2) =~= u16_le_bytes(self.size));
        assert(e.subrange(2, 2 + self.size) =~= self.certification_data@);
    }

    /// Authentication data that is the stretch of `bytes` from `at` on is
    /// held by `bytes` at `at`.
    pub proof fn lemma_is_at_shifted(self, bytes: Seq<u8>, at: int)
        requires
            self.wf(),
            0 <= at,
            at + 2 + self.size <= bytes.len(),
            self.encoding() == bytes.subrange(at, at + 2 + self.size),
        ensures
            self.is_at(bytes, at),
            authentication_data_len(bytes, at) == Some(2 + self.size),
    {
        self.lemma_encoding_holds();
        lemma_subrange_of_subrange(bytes, at, 2 + self.size);
        let e = bytes.subrange(at, at + (2 + self.size));
        assert(e.subrange(0, 2) == bytes.subrange(at + 0, at + 2));
        assert(e.subrange(2, 2 + self.size) == bytes.subrange(at + 2, at + (2 + self.size)));
    }

    /// The bytes that authentication data was read from are its encoding.
    pub proof fn lemma_encoding_of_read(self, bytes: Seq<u8>, at: int)
        requires
            self.is_at(bytes, at),
        ensures
            self.wf(),
            self.encoding() == bytes.subrange(at, at + 2 + self.size),
    {
        reveal(QeAuthenticationData::encoding);
        lemma_bytes_of_le_u16(bytes.subrange(at, at + 2));
        lemma_subrange_join(bytes, at, at + 2, at + 2 + self.size);
    }

    /// Reads the authentication data that starts at `at`; `None` where `input`
    /// ends before the size field or before the data that the field announces.
    pub fn decode_at(input: &[u8], at: usize) -> (r: Option<QeAuthenticationData>)
        requires
            at <= input.len(),
        ensures
            r is Some <==> authentication_data_len(input@, at as int) is Some,
            r matches Some(data) ==> data.is_at(input@, at as int) && data.wf() && data.encoding()
                == input@.subrange(at as int, at + 2 + data.size),
    {
        if input.len() - at < 2 {
            return None;
        }
        let size: u16 = read_u16(input, at);
        if input.len() - at - 2 < size as usize {
            return None;
        }
        let data = QeAuthenticationData {
            size,
            certification_data: read_vec(input, at + 2, size as usize),
        };
        proof {
            data.lemma_encoding_of_read(input@, at as int);
        }
        Some(data)
    }

    /// Reads authentication data off the start of `input`, and says how many
    /// bytes it took.
    pub fn decode(input: &[u8]) -> (r: Option<(QeAuthenticationData, usize)>)
        ensures
            r is Some <==> authentication_data_len(input@, 0) is Some,
            r matches Some((data, taken)) ==> data.is_at(input@, 0) && data.wf() && taken == 2
                + data.size && data.encoding() == input@.subrange(0, taken as int),
    {
        match QeAuthenticationData::decode_at(input, 0) {
            Some(data) => {
                assert(2 + data.size <= input.len());
                let taken: usize = 2 + data.size as usize;
                Some((data, taken))
            },
            None => None,
        }
    }
}

impl QeCertificationData {
    /// Whether the size field counts the data.
    pub open spec fn wf(self) -> bool {
        self.size == self.certification_data@.len()
    }

    /// The bytes that hold the certification data: type, size, data.
    #[verifier::opaque]
    pub open spec fn encoding(self) -> Seq<u8> {
        u16_le_bytes(self.certification_data_type) + u32_le_bytes(self.size)
            + self.certification_data@
    }

    /// Whether `bytes` holds this certification data at offset `at`.
    pub open spec fn is_at(self, bytes: Seq<u8>, at: int) -> bool {
        &&& 0 <= at
        &&& at + 6 + self.size <= bytes.len()
        &&& self.certification_data_type == le_u16(bytes.subrange(at, at + 2))
        &&& self.size == le_u32(bytes.subrange(at + 2, at + 6))
        &&& self.certification_data@ == bytes.subrange(at + 6, at + 6 + self.size)
    }

    /// Certification data whose size counts it is read off its own
    /// encoding.
    pub proof fn lemma_encoding_holds(self)
        requires
            self.wf(),
        ensures
            self.encoding().len() == 6 + self.size,
            self.is_at(self.encoding(), 0),
            certification_data_len(self.encoding(), 0) == Some(6 + self.size),
    {
        reveal(QeCertificationData::encoding);
        let e = self.encoding();
        lemma_le_u16_of_bytes(self.certification_data_type);
        lemma_le_u32_of_bytes(self.size);
        assert(e.subrange(0, 2) =~= u16_le_bytes(self.certification_data_type));
        assert(e.subrange(2, 6) =~= u32_le_bytes(self.size));
        assert(e.subrange(6, 6 + self.size) =~= self.certification_data@);
    }

    /// Certification data that is the stretch of `bytes` from `at` on is
    /// held by `bytes` at `at`.
    pub proof fn lemma_is_at_shifted(self, bytes: Seq<u8>, at: int)
        requires
            self.wf(),
            0 <= at,
            at + 6 + self.size <= bytes.len(),
            self.encoding() == bytes.subrange(at, at + 6 + self.size),
        ensures
            self.is_at(bytes, at),
            certification_data_len(bytes, at) == Some(6 + self.size),
    {
        self.lemma_encoding_holds();
        lemma_subrange_of_subrange(bytes, at, 6 + self.size);
        let e = bytes.subrange(at, at + (6 + self.size));
        assert(e.subrange(0, 2) == bytes.subrange(at + 0, at + 2));
        assert(e.subrange(2, 6) == bytes.subrange(at + 2, at + 6));
        assert(e.subrange(6, 6 + self.size) == bytes.subrange(at + 6, at + (6 + self.size)));
    }

    /// The bytes that certification data was read from are its encoding.
    pub proof fn lemma_encoding_of_read(self, bytes: Seq<u8>, at: int)
        requires
            self.is_at(bytes, at),
        ensures
            self.wf(),
            self.encoding() == bytes.subrange(at, at + 6 + self.size),
    {
        reveal(QeCertificationData::encoding);
        lemma_bytes_of_le_u16(bytes.subrange(at, at + 2));
        lemma_bytes_of_le_u32(bytes.subrange(at + 2, at + 6));
        lemma_subrange_join(bytes, at, at + 2, at + 6);
        lemma_subrange_join(bytes, at, at + 6, at + 6 + self.size);
    }

    /// Reads the certification data that starts at `at`; `None` where `input`
    /// ends before the two leading fields or before the data that the size
    /// field announces. Nothing is allocated before the size is known to fit.
    pub fn decode_at(input: &[u8], at: usize) -> (r: Option<QeCertificationData>)
        requires
            at <= input.len(),
        ensures
            r is Some <==> certification_data_len(input@, at as int) is Some,
            r matches Some(data) ==> data.is_at(input@, at as int) && data.wf() && data.encoding()
                == input@.subrange(at as int, at + 6 + data.size),
    {
        if input.len() - at < 6 {
            return None;
        }
        let certification_data_type: u16 = read_u16(input, at);
        let size: u32 = read_u32(input, at + 2);
        if ((input.len() - at - 6) as u64) < size as u64 {
            return None;
        }
        let data = QeCertificationData {
            certification_data_type,
            size,
            certification_data: read_vec(input, at + 6, size as usize),
        };
        proof {
            data.lemma_encoding_of_read(input@, at as int);
        }
        Some(data)
    }

    /// Reads certification data off the start of `input`, and says how many
    /// bytes it took.
    pub fn decode(input: &[u8]) -> (r: Option<(QeCertificationData, usize)>)
        ensures
            r is Some <==> certification_data_len(input@, 0) is Some,
            r matches Some((data, taken)) ==> data.is_at(input@, 0) && data.wf() && taken == 6
                + data.size && data.encoding() == input@.subrange(0, taken as int),
    {
        match QeCertificationData::decode_at(input, 0) {
            Some(data) => {
                assert(6 + data.size <= input.len());
                let taken: usize = 6 + data.size as usize;
                Some((data, taken))
            },
            None => None,
        }
    }
}

/// The number of bytes that a signature block at `at` announces. `None`
/// where `bytes` ends before that.
pub open spec fn signature_block_len(bytes: Seq<u8>, at: int) -> Option<int> {
    if 0 <= at && at + 576 <= bytes.len() {
        match authentication_data_len(bytes, at + 576) {
            Some(a) => match certification_data_len(bytes, at + 576 + a) {
                Some(c) => Some(576 + a + c),
                None => None,
            },
            None => None,
        }
    } else {
        None
    }
}

/// The number of bytes that the quote at the start of `bytes` announces.
/// `None` where `bytes` ends before that.
pub open spec fn dcap_quote_len(bytes: Seq<u8>) -> Option<int> {
    match signature_block_len(bytes, 436) {
        Some(n) => Some(436 + n),
        None => None,
    }
}

impl EcdsaQuoteSignature {
    /// Whether the size fields count the data they stand before.
    pub open spec fn wf(self) -> bool {
        self.qe_authentication_data.wf() && self.qe_certification_data.wf()
    }

    /// The number of bytes that hold the signature block.
    pub open spec fn encoded_len(self) -> int {
        584 + self.qe_authentication_data.size + self.qe_certification_data.size
    }

    /// The bytes that hold the signature block.
    #[verifier::opaque]
    pub open spec fn encoding(self) -> Seq<u8> {
        self.isv_enclave_report_signature@ + self.ecdsa_attestation_key@
            + self.qe_report.encoding() + self.qe_report_signature@
            + self.qe_authentication_data.encoding() + self.qe_certification_data.encoding()
    }

    /// Whether `bytes` holds this signature block at offset `at`.
    pub open spec fn is_at(self, bytes: Seq<u8>, at: int) -> bool {
        &&& 0 <= at
        &&& at + self.encoded_len() <= bytes.len()
        &&& self.isv_enclave_report_signature@ == bytes.subrange(at, at + 64)
        &&& self.ecdsa_attestation_key@ == bytes.subrange(at + 64, at + 128)
        &&& self.qe_report.is_at(bytes, at + 128)
        &&& self.qe_report_signature@ == bytes.subrange(at + 512, at + 576)
        &&& self.qe_authentication_data.is_at(bytes, at + 576)
        &&& self.qe_certification_data.is_at(
            bytes,
            at + 578 + self.qe_authentication_data.size,
        )
    }

    /// A signature block whose sizes count their data takes as many bytes
    /// as its fields do, and is read off its own encoding.
    pub proof fn lemma_encoding_holds(self)
        requires
            self.wf(),
        ensures
            self.encoding().len() == self.encoded_len(),
            self.is_at(self.encoding(), 0),
    {
        reveal(EcdsaQuoteSignature::encoding);
        let e = self.encoding();
        let a = self.qe_authentication_data.size as int;
        let c = self.qe_certification_data.size as int;
        self.qe_report.lemma_encoding_holds();
        self.qe_authentication_data.lemma_encoding_holds();
        self.qe_certification_data.lemma_encoding_holds();
        assert(e.len() == 584 + a + c);
        assert(e.subrange(0, 64) =~= self.isv_enclave_report_signature@);
        assert(e.subrange(64, 128) =~= self.ecdsa_attestation_key@);
        assert(e.subrange(128, 512) =~= self.qe_report.encoding());
        assert(e.subrange(512, 576) =~= self.qe_report_signature@);
        assert(e.subrange(576, 578 + a) =~= self.qe_authentication_data.encoding());
        assert(e.subrange(578 + a, 584 + a + c) =~= self.qe_certification_data.encoding());
        lemma_is_at_shifted(self.qe_report, e, 128);
        self.qe_authentication_data.lemma_is_at_shifted(e, 576);
        self.qe_certification_data.lemma_is_at_shifted(e, 578 + a);
    }

    /// A signature block that is the stretch of `bytes` from `at` on is
    /// held by `bytes` at `at`.
    pub proof fn lemma_is_at_shifted(self, bytes: Seq<u8>, at: int)
        requires
            self.wf(),
            0 <= at,
            at + self.encoded_len() <= bytes.len(),
            self.encoding() == bytes.subrange(at, at + self.encoded_len()),
        ensures
            self.is_at(bytes, at),
    {
        let e = self.encoding();
        let a = self.qe_authentication_data.size as int;
        let c = self.qe_certification_data.size as int;
        self.lemma_encoding_holds();
        lemma_subrange_of_subrange(bytes, at, self.encoded_len());
        self.qe_report.lemma_encoding_of_read(e, 128);
        self.qe_authentication_data.lemma_encoding_of_read(e, 576);
        self.qe_certification_data.lemma_encoding_of_read(e, 578 + a);
        assert(e.subrange(128, 512) == bytes.subrange(at + 128, at + 512));
        assert(e.subrange(576, 578 + a) == bytes.subrange(at + 576, at + 578 + a));
        assert(e.subrange(578 + a, 584 + a + c) == bytes.subrange(
            at + 578 + a,
            at + 584 + a + c,
        ));
        lemma_is_at_shifted(self.qe_report, bytes, at + 128);
        self.qe_authentication_data.lemma_is_at_shifted(bytes, at + 576);
        self.qe_certification_data.lemma_is_at_shifted(bytes, at + 578 + a);
    }

    /// The bytes that a signature block was read from are its encoding.
    pub proof fn lemma_encoding_of_read(self, bytes: Seq<u8>, at: int)
        requires
            self.is_at(bytes, at),
        ensures
            self.wf(),
            self.encoding() == bytes.subrange(at, at + self.encoded_len()),
            signature_block_len(bytes, at) == Some(self.encoded_len()),
    {
        reveal(EcdsaQuoteSignature::encoding);
        let a = self.qe_authentication_data.size as int;
        let c = self.qe_certification_data.size as int;
        self.qe_report.lemma_encoding_of_read(bytes, at + 128);
        self.qe_authentication_data.lemma_encoding_of_read(bytes, at + 576);
        self.qe_certification_data.lemma_encoding_of_read(bytes, at + 578 + a);
        lemma_subrange_join(bytes, at, at + 64, at + 128);
        lemma_subrange_join(bytes, at, at + 128, at + 512);
        lemma_subrange_join(bytes, at, at + 512, at + 576);
        lemma_subrange_join(bytes, at, at + 576, at + 578 + a);
        lemma_subrange_join(bytes, at, at + 578 + a, at + 584 + a + c);
    }

    /// Reads the signature block that starts at `at`; `None` where `input`
    /// ends before a field or before the data that a size field announces.
    pub fn decode_at(input: &[u8], at: usize) -> (r: Option<EcdsaQuoteSignature>)
        requires
            at <= input.len(),
        ensures
            r is Some <==> signature_block_len(input@, at as int) is Some,
            r matches Some(block) ==> block.is_at(input@, at as int) && block.wf()
                && block.encoding() == input@.subrange(at as int, at + block.encoded_len()),
    {
        if input.len() - at < 576 {
            return None;
        }
        let qe_authentication_data = match QeAuthenticationData::decode_at(input, at + 576) {
            Some(data) => data,
            None => {
                return None;
            },
        };
        let certification_at: usize = at + 578 + qe_authentication_data.size as usize;
        let qe_certification_data = match QeCertificationData::decode_at(input, certification_at) {
            Some(data) => data,
            None => {
                return None;
            },
        };
        let block = EcdsaQuoteSignature {
            isv_enclave_report_signature: read_array::<64>(input, at),
            ecdsa_attestation_key: read_array::<64>(input, at + 64),
            qe_report: SgxReportBody::decode_at(input, at + 128),
            qe_report_signature: read_array::<64>(input, at + 512),
            qe_authentication_data,
            qe_certification_data,
        };
        proof {
            block.lemma_encoding_of_read(input@, at as int);
        }
        Some(block)
    }

    /// Reads a signature block off the start of `input`, and says how many
    /// bytes it took.
    pub fn decode(input: &[u8]) -> (r: Option<(EcdsaQuoteSignature, usize)>)
        ensures
            r is Some <==> signature_block_len(input@, 0) is Some,
            r matches Some((block, taken)) ==> block.is_at(input@, 0) && block.wf() && taken
                == block.encoded_len() && block.encoding() == input@.subrange(0, taken as int),
    {
        match EcdsaQuoteSignature::decode_at(input, 0) {
            Some(block) => {
                assert(576 + (2 + block.qe_authentication_data.size) + (6
                    + block.qe_certification_data.size) <= input.len());
                let taken: usize = 584 + block.qe_authentication_data.size as usize
                    + block.qe_certification_data.size as usize;
                Some((block, taken))
            },
            None => None,
        }
    }
}

impl DcapQuote {
    /// Whether the size fields count the data they stand before.
    pub open spec fn wf(self) -> bool {
        self.quote_signature_data.wf()
    }

    /// The number of bytes that hold the quote.
    pub open spec fn encoded_len(self) -> int {
        436 + self.quote_signature_data.encoded_len()
    }

    /// The bytes that hold the quote.
    #[verifier::opaque]
    pub open spec fn encoding(self) -> Seq<u8> {
        self.header.encoding() + self.body.encoding() + u32_le_bytes(self.signature_data_len)
            + self.quote_signature_data.encoding()
    }

    /// Whether `bytes` starts with this quote.
    pub open spec fn is_at_start(self, bytes: Seq<u8>) -> bool {
        &&& self.encoded_len() <= bytes.len()
        &&& self.header.is_at(bytes, 0)
        &&& self.body.is_at(bytes, 48)
        &&& self.signature_data_len == le_u32(bytes.subrange(432, 436))
        &&& self.quote_signature_data.is_at(bytes, 436)
    }

    /// A quote whose sizes count their data is read off its own encoding,
    /// which holds the quote and nothing more.
    pub proof fn lemma_encoding_holds(self)
        requires
            self.wf(),
        ensures
            self.encoding().len() == self.encoded_len(),
            self.is_at_start(self.encoding()),
            dcap_quote_len(self.encoding()) == Some(self.encoded_len()),
    {
        reveal(DcapQuote::encoding);
        let e = self.encoding();
        let n = self.quote_signature_data.encoded_len();
        self.header.lemma_encoding_holds();
        self.body.lemma_encoding_holds();
        self.quote_signature_data.lemma_encoding_holds();
        lemma_le_u32_of_bytes(self.signature_data_len);
        assert(e.len() == 436 + n);
        assert(e.subrange(0, 48) =~= self.header.encoding());
        assert(e.subrange(48, 432) =~= self.body.encoding());
        assert(e.subrange(432, 436) =~= u32_le_bytes(self.signature_data_len));
        assert(e.subrange(436, 436 + n) =~= self.quote_signature_data.encoding());
        self.header.lemma_is_at_shifted(e, 0);
        lemma_is_at_shifted(self.body, e, 48);
        self.quote_signature_data.lemma_is_at_shifted(e, 436);
        self.lemma_encoding_of_read(e);
    }

    /// The bytes that a quote was read from are its encoding.
    pub proof fn lemma_encoding_of_read(self, bytes: Seq<u8>)
        requires
            self.is_at_start(bytes),
        ensures
            self.wf(),
            self.encoding() == bytes.subrange(0, self.encoded_len()),
            dcap_quote_len(bytes) == Some(self.encoded_len()),
    {
        reveal(DcapQuote::encoding);
        self.header.lemma_encoding_of_read(bytes, 0);
        self.body.lemma_encoding_of_read(bytes, 48);
        self.quote_signature_data.lemma_encoding_of_read(bytes, 436);
        lemma_bytes_of_le_u32(bytes.subrange(432, 436));
        lemma_subrange_join(bytes, 0, 48, 432);
        lemma_subrange_join(bytes, 0, 432, 436);
        lemma_subrange_join(bytes, 0, 436, self.encoded_len());
    }

    /// Reads a quote off the start of `input`, and says how many bytes it
    /// took. `None` where `input` ends before a field or before the data that
    /// a size field announces. What follows the quote is not looked at.
    pub fn decode(input: &[u8]) -> (r: Option<(DcapQuote, usize)>)
        ensures
            r is Some <==> dcap_quote_len(input@) is Some,
            r matches Some((quote, taken)) ==> quote.is_at_start(input@) && quote.wf() && taken
                == quote.encoded_len() && Some(taken as int) == dcap_quote_len(input@)
                && quote.encoding() == input@.subrange(0, taken as int),
    {
        if input.len() < ISV_SIGNATURE_OFFSET {
            return None;
        }
        let quote_signature_data = match EcdsaQuoteSignature::decode_at(
            input,
            ISV_SIGNATURE_OFFSET,
        ) {
            Some(block) => block,
            None => {
                return None;
            },
        };
        assert(436 + quote_signature_data.encoded_len() <= input.len());
        let taken: usize = 1020 + quote_signature_data.qe_authentication_data.size as usize
            + quote_signature_data.qe_certification_data.size as usize;
        let quote = DcapQuote {
            header: DcapQuoteHeader::decode_at(input, 0),
            body: SgxReportBody::decode_at(input, DCAP_QUOTE_HEADER_SIZE),
            signature_data_len: read_u32(input, SIGNATURE_DATA_LEN_OFFSET),
            quote_signature_data,
        };
        proof {
            quote.lemma_encoding_of_read(input@);
        }
        Some((quote, taken))
    }
}

} // verus!
