//! What a successful verification reports about the attested enclave.

use vstd::prelude::*;
use crate::error::ValidationError;
use crate::primitives::SgxBuildMode;

verus! {

/// What the attestation service said of the platform that runs the enclave.
#[derive(Clone, Copy, Debug, PartialEq, Eq, Structural)]
pub enum SgxStatus {
    /// The service reported a status that is none of the others.
    Invalid,
    /// The service reported `OK`.
    Okay,
    GroupOutOfDate,
    GroupRevoked,
    ConfigurationNeeded,
}

impl Default for SgxStatus {
    fn default() -> (r: Self)
        ensures
            r == SgxStatus::Invalid,
    {
        SgxStatus::Invalid
    }
}

/// The summary of an attested enclave.
#[derive(Clone, Copy, Debug, PartialEq, Eq)]
pub struct SgxReport {
    /// Measurement of the enclave's contents.
    pub mr_enclave: [u8; 32],
    /// The key that the enclave put into the first half of its report data.
    pub pubkey: [u8; 32],
    pub status: SgxStatus,
    /// Unix timestamp in milliseconds.
    pub timestamp: u64,
    pub build_mode: SgxBuildMode,
}

/// A summary as a mathematical value.
pub ghost struct SgxReportView {
    pub mr_enclave: Seq<u8>,
    pub pubkey: Seq<u8>,
    pub status: SgxStatus,
    pub timestamp: u64,
    pub build_mode: SgxBuildMode,
}

impl View for SgxReport {
    type V = SgxReportView;

    open spec fn view(&self) -> SgxReportView {
        SgxReportView {
            mr_enclave: self.mr_enclave@,
            pubkey: self.pubkey@,
            status: self.status,
            timestamp: self.timestamp,
            build_mode: self.build_mode,
        }
    }
}

/// Whether the outcome `r` of a verification is the verdict `verdict`.
pub open spec fn is_verdict(
    r: Result<SgxReport, ValidationError>,
    verdict: Result<SgxReportView, ValidationError>,
) -> bool {
    match r {
        Ok(report) => verdict matches Ok(summary) && summary == report@,
        Err(e) => verdict matches Err(fault) && fault == e,
    }
}

impl Default for SgxReport {
    fn default() -> (r: Self)
        ensures
            r.mr_enclave@ == Seq::new(32, |i: int| 0u8),
            r.pubkey@ == Seq::new(32, |i: int| 0u8),
            r.status == SgxStatus::Invalid,
            r.timestamp == 0,
            r.build_mode == SgxBuildMode::Production,
    {
        let r = SgxReport {
            mr_enclave: [0u8; 32],
            pubkey: [0u8; 32],
            status: SgxStatus::Invalid,
            timestamp: 0,
            build_mode: SgxBuildMode::Production,
        };
        assert(r.mr_enclave@ =~= Seq::new(32, |i: int| 0u8));
        assert(r.pubkey@ =~= Seq::new(32, |i: int| 0u8));
        r
    }
}

} // verus!
