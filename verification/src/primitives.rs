//! Value types that attestation verdicts and accepted platform states are
//! reported in.

use vstd::prelude::*;

verus! {

/// Measurement of the key that signed an enclave.
pub type MrSigner = [u8; 32];

/// Measurement of the contents of an enclave.
pub type MrEnclave = [u8; 32];

/// Family, model, stepping, platform and custom SKU of a processor.
pub type Fmspc = [u8; 6];

/// Security versions of the sixteen components of a processor's TCB.
pub type Cpusvn = [u8; 16];

/// Security version of the provisioning certification enclave.
pub type Pcesvn = u16;

/// Whether an enclave was built with debugging enabled.
#[derive(Clone, Copy, Debug, PartialEq, Eq, Structural)]
pub enum SgxBuildMode {
    Debug,
    Production,
}

impl Default for SgxBuildMode {
    fn default() -> (r: Self)
        ensures
            r == SgxBuildMode::Production,
    {
        SgxBuildMode::Production
    }
}

/// A security version of the quoting enclave that is accepted.
#[derive(Clone, Copy, Debug, PartialEq, Eq, Structural)]
pub struct QeTcb {
    pub isvsvn: u16,
}

impl QeTcb {
    pub fn new(isvsvn: u16) -> (r: Self)
        ensures
            r.isvsvn == isvsvn,
    {
        QeTcb { isvsvn }
    }
}

/// The identity of the quoting enclave as it is kept for later checks:
/// validity window in Unix milliseconds, the expected measurements and the
/// accepted security versions.
#[derive(Clone, Debug, PartialEq, Eq)]
pub struct QuotingEnclave {
    pub issue_date: u64,
    pub next_update: u64,
    pub miscselect: [u8; 4],
    pub miscselect_mask: [u8; 4],
    pub attributes: [u8; 16],
    pub attributes_mask: [u8; 16],
    pub mrsigner: MrSigner,
    pub isvprodid: u16,
    pub tcb: Vec<QeTcb>,
}

impl QuotingEnclave {
    pub fn new(
        issue_date: u64,
        next_update: u64,
        miscselect: [u8; 4],
        miscselect_mask: [u8; 4],
        attributes: [u8; 16],
        attributes_mask: [u8; 16],
        mrsigner: MrSigner,
        isvprodid: u16,
        tcb: Vec<QeTcb>,
    ) -> (r: Self)
        ensures
            r.issue_date == issue_date,
            r.next_update == next_update,
            r.miscselect == miscselect,
            r.miscselect_mask == miscselect_mask,
            r.attributes == attributes,
            r.attributes_mask == attributes_mask,
            r.mrsigner == mrsigner,
            r.isvprodid == isvprodid,
            r.tcb == tcb,
    {
        QuotingEnclave {
            issue_date,
            next_update,
            miscselect,
            miscselect_mask,
            attributes,
            attributes_mask,
            mrsigner,
            isvprodid,
            tcb,
        }
    }
}

/// A platform state that is accepted: the security versions of the
/// processor's components and of the provisioning certification enclave.
#[derive(Clone, Copy, Debug, PartialEq, Eq)]
pub struct TcbVersionStatus {
    pub cpusvn: Cpusvn,
    pub pcesvn: Pcesvn,
}

impl TcbVersionStatus {
    pub fn new(cpusvn: Cpusvn, pcesvn: Pcesvn) -> (r: Self)
        ensures
            r.cpusvn == cpusvn,
            r.pcesvn == pcesvn,
    {
        TcbVersionStatus { cpusvn, pcesvn }
    }
}

/// The accepted platform states of one processor family, with the window in
/// Unix milliseconds in which they hold.
#[derive(Clone, Debug, PartialEq, Eq)]
pub struct TcbInfoOnChain {
    pub issue_date: u64,
    pub next_update: u64,
    pub tcb_levels: Vec<TcbVersionStatus>,
}

impl TcbInfoOnChain {
    pub fn new(issue_date: u64, next_update: u64, tcb_levels: Vec<TcbVersionStatus>) -> (r: Self)
        ensures
            r.issue_date == issue_date,
            r.next_update == next_update,
            r.tcb_levels == tcb_levels,
    {
        TcbInfoOnChain { issue_date, next_update, tcb_levels }
    }
}

} // verus!
