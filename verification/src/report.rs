//! The enclave report body and the EPID quote that carries one.

use vstd::prelude::*;
use crate::bytes::{
    le_u16, le_u32, le_u64, lemma_bytes_of_le_u16, lemma_bytes_of_le_u32, lemma_bytes_of_le_u64,
    lemma_le_u16_of_bytes, lemma_le_u32_of_bytes, lemma_le_u64_of_bytes, lemma_subrange_join,
    lemma_subrange_of_subrange,
    read_array, read_u16, read_u32, read_u64, u16_le_bytes, u32_le_bytes, u64_le_bytes,
};
use crate::primitives::SgxBuildMode;

verus! {

/// Number of bytes that a report body occupies.
pub const REPORT_SIZE: usize = 384;

/// Number of bytes that an EPID quote occupies up to the end of its report body.
pub const SGX_QUOTE_SIZE: usize = 432;

/// The attribute flag of an enclave that may be debugged.
pub const SGX_FLAGS_DEBUG: u64 = 0x0000000000000002;

/// The data that the enclave itself put into its report.
#[derive(Clone, Copy, Debug)]
pub struct SgxReportData {
    pub d: [u8; 64],
}

/// The capabilities of an enclave.
#[derive(Clone, Copy, Debug)]
pub struct SGXAttributes {
    pub flags: u64,
    pub xfrm: u64,
}

/// What the processor states about an enclave, in the order and with the
/// offsets of the hardware's report layout.
#[derive(Clone, Copy, Debug)]
pub struct SgxReportBody {
    /// (  0) Security version of the processor.
    pub cpu_svn: [u8; 16],
    /// ( 16) Which fields of the state save area are in use.
    pub misc_select: [u8; 4],
    /// ( 20)
    pub reserved1: [u8; 12],
    /// ( 32) Extended product identifier.
    pub isv_ext_prod_id: [u8; 16],
    /// ( 48) Capabilities of the enclave.
    pub attributes: SGXAttributes,
    /// ( 64) Measurement of the enclave's contents.
    pub mr_enclave: [u8; 32],
    /// ( 96)
    pub reserved2: [u8; 32],
    /// (128) Measurement of the key that signed the enclave.
    pub mr_signer: [u8; 32],
    /// (160)
    pub reserved3: [u8; 32],
    /// (192) Configuration identifier.
    pub config_id: [u8; 64],
    /// (256) Product identifier.
    pub isv_prod_id: u16,
    /// (258) Security version of the enclave.
    pub isv_svn: u16,
    /// (260) Security version of the configuration.
    pub config_svn: u16,
    /// (262)
    pub reserved4: [u8; 42],
    /// (304) Family identifier.
    pub isv_family_id: [u8; 16],
    /// (320) Data provided by the enclave.
    pub report_data: SgxReportData,
}

impl SGXAttributes {
    /// The sixteen bytes that hold the attributes.
    pub open spec fn encoding(self) -> Seq<u8> {
        u64_le_bytes(self.flags) + u64_le_bytes(self.xfrm)
    }
}

impl SgxReportBody {
    /// The 384 bytes that hold the report body.
    #[verifier::opaque]
    pub open spec fn encoding(self) -> Seq<u8> {
        self.cpu_svn@ + self.misc_select@ + self.reserved1@ + self.isv_ext_prod_id@
            + self.attributes.encoding() + self.mr_enclave@ + self.reserved2@ + self.mr_signer@
            + self.reserved3@ + self.config_id@ + u16_le_bytes(self.isv_prod_id) + u16_le_bytes(
            self.isv_svn,
        ) + u16_le_bytes(self.config_svn) + self.reserved4@ + self.isv_family_id@
            + self.report_data.d@
    }

    /// Whether `bytes` holds this report body at offset `at`, field by field.
    pub open spec fn is_at(self, bytes: Seq<u8>, at: int) -> bool {
        &&& 0 <= at
        &&& at + 384 <= bytes.len()
        &&& self.cpu_svn@ == bytes.subrange(at, at + 16)
        &&& self.misc_select@ == bytes.subrange(at + 16, at + 20)
        &&& self.reserved1@ == bytes.subrange(at + 20, at + 32)
        &&& self.isv_ext_prod_id@ == bytes.subrange(at + 32, at + 48)
        &&& self.attributes.flags == le_u64(bytes.subrange(at + 48, at + 56))
        &&& self.attributes.xfrm == le_u64(bytes.subrange(at + 56, at + 64))
        &&& self.mr_enclave@ == bytes.subrange(at + 64, at + 96)
        &&& self.reserved2@ == bytes.subrange(at + 96, at + 128)
        &&& self.mr_signer@ == bytes.subrange(at + 128, at + 160)
        &&& self.reserved3@ == bytes.subrange(at + 160, at + 192)
        &&& self.config_id@ == bytes.subrange(at + 192, at + 256)
        &&& self.isv_prod_id == le_u16(bytes.subrange(at + 256, at + 258))
        &&& self.isv_svn == le_u16(bytes.subrange(at + 258, at + 260))
        &&& self.config_svn == le_u16(bytes.subrange(at + 260, at + 262))
        &&& self.reserved4@ == bytes.subrange(at + 262, at + 304)
        &&& self.isv_family_id@ == bytes.subrange(at + 304, at + 320)
        &&& self.report_data.d@ == bytes.subrange(at + 320, at + 384)
    }

    /// A report body is read off its own encoding.
    pub proof fn lemma_encoding_holds(self)
        ensures
            self.encoding().len() == 384,
            self.is_at(self.encoding(), 0),
    {
        reveal(SgxReportBody::encoding);
        let e = self.encoding();
        lemma_le_u64_of_bytes(self.attributes.flags);
        lemma_le_u64_of_bytes(self.attributes.xfrm);
        lemma_le_u16_of_bytes(self.isv_prod_id);
        lemma_le_u16_of_bytes(self.isv_svn);
        lemma_le_u16_of_bytes(self.config_svn);
        assert(e.len() == 384);
        assert(e.subrange(0, 16) =~= self.cpu_svn@);
        assert(e.subrange(16, 20) =~= self.misc_select@);
        assert(e.subrange(20, 32) =~= self.reserved1@);
        assert(e.subrange(32, 48) =~= self.isv_ext_prod_id@);
        assert(e.subrange(48, 56) =~= u64_le_bytes(self.attributes.flags));
        assert(e.subrange(56, 64) =~= u64_le_bytes(self.attributes.xfrm));
        assert(e.subrange(64, 96) =~= self.mr_enclave@);
        assert(e.subrange(96, 128) =~= self.reserved2@);
        assert(e.subrange(128, 160) =~= self.mr_signer@);
        assert(e.subrange(160, 192) =~= self.reserved3@);
        assert(e.subrange(192, 256) =~= self.config_id@);
        assert(e.subrange(256, 258) =~= u16_le_bytes(self.isv_prod_id));
        assert(e.subrange(258, 260) =~= u16_le_bytes(self.isv_svn));
        assert(e.subrange(260, 262) =~= u16_le_bytes(self.config_svn));
        assert(e.subrange(262, 304) =~= self.reserved4@);
        assert(e.subrange(304, 320) =~= self.isv_family_id@);
        assert(e.subrange(320, 384) =~= self.report_data.d@);
    }

    /// The bytes that a report body was read from are its encoding.
    pub proof fn lemma_encoding_of_read(self, bytes: Seq<u8>, at: int)
        requires
            self.is_at(bytes, at),
        ensures
            self.encoding() == bytes.subrange(at, at + 384),
    {
        lemma_bytes_of_le_u64(bytes.subrange(at + 48, at + 56));
        lemma_bytes_of_le_u64(bytes.subrange(at + 56, at + 64));
        lemma_bytes_of_le_u16(bytes.subrange(at + 256, at + 258));
        lemma_bytes_of_le_u16(bytes.subrange(at + 258, at + 260));
        lemma_bytes_of_le_u16(bytes.subrange(at + 260, at + 262));
        reveal(SgxReportBody::encoding);
        lemma_subrange_join(bytes, at + 48, at + 56, at + 64);
        lemma_subrange_join(bytes, at, at + 16, at + 20);
        lemma_subrange_join(bytes, at, at + 20, at + 32);
        lemma_subrange_join(bytes, at, at + 32, at + 48);
        lemma_subrange_join(bytes, at, at + 48, at + 64);
        lemma_subrange_join(bytes, at, at + 64, at + 96);
        lemma_subrange_join(bytes, at, at + 96, at + 128);
        lemma_subrange_join(bytes, at, at + 128, at + 160);
        lemma_subrange_join(bytes, at, at + 160, at + 192);
        lemma_subrange_join(bytes, at, at + 192, at + 256);
        lemma_subrange_join(bytes, at, at + 256, at + 258);
        lemma_subrange_join(bytes, at, at + 258, at + 260);
        lemma_subrange_join(bytes, at, at + 260, at + 262);
        lemma_subrange_join(bytes, at, at + 262, at + 304);
        lemma_subrange_join(bytes, at, at + 304, at + 320);
        lemma_subrange_join(bytes, at, at + 320, at + 384);
    }

    /// Reads the report body that starts at `at`.
    pub fn decode_at(input: &[u8], at: usize) -> (r: SgxReportBody)
        requires
            at + 384 <= input.len(),
        ensures
            r.is_at(input@, at as int),
            r.encoding() == input@.subrange(at as int, at + 384),
    {
        let r = SgxReportBody {
            cpu_svn: read_array::<16>(input, at),
            misc_select: read_array::<4>(input, at + 16),
            reserved1: read_array::<12>(input, at + 20),
            isv_ext_prod_id: read_array::<16>(input, at + 32),
            attributes: SGXAttributes {
                flags: read_u64(input, at + 48),
                xfrm: read_u64(input, at + 56),
            },
            mr_enclave: read_array::<32>(input, at + 64),
            reserved2: read_array::<32>(input, at + 96),
            mr_signer: read_array::<32>(input, at + 128),
            reserved3: read_array::<32>(input, at + 160),
            config_id: read_array::<64>(input, at + 192),
            isv_prod_id: read_u16(input, at + 256),
            isv_svn: read_u16(input, at + 258),
            config_svn: read_u16(input, at + 260),
            reserved4: read_array::<42>(input, at + 262),
            isv_family_id: read_array::<16>(input, at + 304),
            report_data: SgxReportData { d: read_array::<64>(input, at + 320) },
        };
        proof {
            r.lemma_encoding_of_read(input@, at as int);
        }
        r
    }

    /// Reads a report body off the start of `input`; `None` where `input` is
    /// shorter than a report body.
    pub fn decode(input: &[u8]) -> (r: Option<SgxReportBody>)
        ensures
            r is Some <==> input@.len() >= 384,
            r matches Some(body) ==> body.encoding() == input@.subrange(0, 384) && body.is_at(
                input@,
                0,
            ),
    {
        if input.len() < REPORT_SIZE {
            None
        } else {
            Some(SgxReportBody::decode_at(input, 0))
        }
    }

    /// Whether the enclave was built to be debugged: it was exactly where the
    /// debug flag is set among its attributes.
    pub fn sgx_build_mode(&self) -> (r: SgxBuildMode)
        ensures
            r == build_mode_of(self.attributes.flags),
            r == SgxBuildMode::Debug <==> (self.attributes.flags & 0x2) != 0,
    {
        let flags: u64 = self.attributes.flags;
        assert((flags & 0x2 == 0x2) <==> (flags & 0x2) != 0) by (bit_vector);
        if flags & SGX_FLAGS_DEBUG == SGX_FLAGS_DEBUG {
            SgxBuildMode::Debug
        } else {
            SgxBuildMode::Production
        }
    }
}

/// The build mode that attribute flags stand for.
pub open spec fn build_mode_of(flags: u64) -> SgxBuildMode {
    if (flags & 0x2) != 0 {
        SgxBuildMode::Debug
    } else {
        SgxBuildMode::Production
    }
}

/// An EPID quote up to the end of its report body, in the layout of the
/// quoting enclave.
#[derive(Clone, Copy, Debug)]
pub struct SgxQuote {
    /// (  0)
    pub version: u16,
    /// (  2)
    pub sign_type: u16,
    /// (  4)
    pub epid_group_id: u32,
    /// (  8)
    pub qe_svn: u16,
    /// ( 10)
    pub pce_svn: u16,
    /// ( 12)
    pub xeid: u32,
    /// ( 16)
    pub basename: [u8; 32],
    /// ( 48)
    pub report_body: SgxReportBody,
}

impl SgxQuote {
    /// The 432 bytes that hold the quote.
    pub open spec fn encoding(self) -> Seq<u8> {
        u16_le_bytes(self.version) + u16_le_bytes(self.sign_type) + u32_le_bytes(self.epid_group_id)
            + u16_le_bytes(self.qe_svn) + u16_le_bytes(self.pce_svn) + u32_le_bytes(self.xeid)
            + self.basename@ + self.report_body.encoding()
    }

    /// Whether `bytes` starts with this quote, field by field.
    pub open spec fn is_at_start(self, bytes: Seq<u8>) -> bool {
        &&& 432 <= bytes.len()
        &&& self.version == le_u16(bytes.subrange(0, 2))
        &&& self.sign_type == le_u16(bytes.subrange(2, 4))
        &&& self.epid_group_id == le_u32(bytes.subrange(4, 8))
        &&& self.qe_svn == le_u16(bytes.subrange(8, 10))
        &&& self.pce_svn == le_u16(bytes.subrange(10, 12))
        &&& self.xeid == le_u32(bytes.subrange(12, 16))
        &&& self.basename@ == bytes.subrange(16, 48)
        &&& self.report_body.is_at(bytes, 48)
    }

    /// A quote is read off its own encoding.
    pub proof fn lemma_encoding_holds(self)
        ensures
            self.encoding().len() == 432,
            self.is_at_start(self.encoding()),
    {
        let e = self.encoding();
        let b = self.report_body;
        b.lemma_encoding_holds();
        lemma_le_u16_of_bytes(self.version);
        lemma_le_u16_of_bytes(self.sign_type);
        lemma_le_u32_of_bytes(self.epid_group_id);
        lemma_le_u16_of_bytes(self.qe_svn);
        lemma_le_u16_of_bytes(self.pce_svn);
        lemma_le_u32_of_bytes(self.xeid);
        assert(e.len() == 432);
        assert(e.subrange(0, 2) =~= u16_le_bytes(self.version));
        assert(e.subrange(2, 4) =~= u16_le_bytes(self.sign_type));
        assert(e.subrange(4, 8) =~= u32_le_bytes(self.epid_group_id));
        assert(e.subrange(8, 10) =~= u16_le_bytes(self.qe_svn));
        assert(e.subrange(10, 12) =~= u16_le_bytes(self.pce_svn));
        assert(e.subrange(12, 16) =~= u32_le_bytes(self.xeid));
        assert(e.subrange(16, 48) =~= self.basename@);
        assert(e.subrange(48, 432) =~= b.encoding());
        lemma_is_at_shifted(b, e, 48);
    }

    /// Reads a quote off the start of `input`; `None` where `input` is shorter
    /// than a quote.
    pub fn decode(input: &[u8]) -> (r: Option<SgxQuote>)
        ensures
            r is Some <==> input@.len() >= 432,
            r matches Some(quote) ==> quote.is_at_start(input@) && quote.encoding()
                == input@.subrange(0, 432),
    {
        if input.len() < SGX_QUOTE_SIZE {
            return None;
        }
        let quote = SgxQuote {
            version: read_u16(input, 0),
            sign_type: read_u16(input, 2),
            epid_group_id: read_u32(input, 4),
            qe_svn: read_u16(input, 8),
            pce_svn: read_u16(input, 10),
            xeid: read_u32(input, 12),
            basename: read_array::<32>(input, 16),
            report_body: SgxReportBody::decode_at(input, 48),
        };
        proof {
            let bytes = input@;
            lemma_bytes_of_le_u16(bytes.subrange(0, 2));
            lemma_bytes_of_le_u16(bytes.subrange(2, 4));
            lemma_bytes_of_le_u32(bytes.subrange(4, 8));
            lemma_bytes_of_le_u16(bytes.subrange(8, 10));
            lemma_bytes_of_le_u16(bytes.subrange(10, 12));
            lemma_bytes_of_le_u32(bytes.subrange(12, 16));
            assert(quote.encoding() =~= bytes.subrange(0, 432));
        }
        Some(quote)
    }
}

/// A report body that is the stretch of `bytes` from `at` on is held by
/// `bytes` at `at`.
pub proof fn lemma_is_at_shifted(body: SgxReportBody, bytes: Seq<u8>, at: int)
    requires
        0 <= at,
        at + 384 <= bytes.len(),
        body.encoding() == bytes.subrange(at, at + 384),
    ensures
        body.is_at(bytes, at),
{
    body.lemma_encoding_holds();
    lemma_subrange_of_subrange(bytes, at, 384);
}

} // verus!
