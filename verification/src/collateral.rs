//! The collateral that Intel publishes for the judgement of platforms: the
//! identity of the quoting enclave and, for each processor family, the
//! platform states with their standing. Instants are in milliseconds since
//! 1970.

use vstd::prelude::*;
use crate::asn1::{as_asn1, as_asn1_spec};
use crate::bytes::str_equal;
use crate::error::ValidationError;
use crate::primitives::{
    Fmspc, MrSigner, Pcesvn, QeTcb, QuotingEnclave, TcbInfoOnChain, TcbVersionStatus,
};
use crate::x509::{
    can_be_hashed, cert_signature_valid, verify_signature, ParsedLeaf, SignatureAlgorithm,
};

verus! {

/// The lowest security version of the quoting enclave that is not outdated.
pub const MIN_QE_ISVSVN: u16 = 6;

/// The security version of the quoting enclave at a TCB level.
pub struct Tcb {
    pub isvsvn: u16,
}

impl Tcb {
    /// Whether the version is recent enough: versions below 6 are outdated.
    pub fn is_valid(&self) -> (r: bool)
        ensures
            r == (self.isvsvn >= 6),
    {
        self.isvsvn >= MIN_QE_ISVSVN
    }
}

/// A TCB level of the quoting enclave with its standing.
pub struct TcbLevel {
    pub tcb: Tcb,
    /// When the level was defined. It plays no part in the judgement.
    pub tcb_date: i64,
    pub tcb_status: String,
    pub advisory_ids: Option<Vec<String>>,
}

impl TcbLevel {
    /// Whether a quoting enclave at this level is accepted: its version is
    /// recent enough and its standing is `UpToDate`.
    pub open spec fn accepted(self) -> bool {
        self.tcb.isvsvn >= 6 && self.tcb_status@ == "UpToDate"@
    }

    /// Whether a quoting enclave at this level is accepted.
    pub fn is_valid(&self) -> (r: bool)
        ensures
            r == self.accepted(),
    {
        self.tcb.is_valid() && str_equal(self.tcb_status.as_str(), "UpToDate")
    }
}

/// The security version of one component of a platform's TCB.
#[derive(Debug)]
pub struct TcbComponentV2(pub u8);

/// The security version of one component of a platform's TCB, with what
/// the component is.
#[derive(Debug)]
pub struct TcbComponentV3 {
    pub svn: u8,
    pub category: Option<String>,
    pub tcb_type: Option<String>,
}

/// The security versions of a platform's TCB, one field for each of the
/// sixteen components.
#[derive(Debug)]
pub struct TcbFullV2 {
    pub sgxtcbcomp01svn: TcbComponentV2,
    pub sgxtcbcomp02svn: TcbComponentV2,
    pub sgxtcbcomp03svn: TcbComponentV2,
    pub sgxtcbcomp04svn: TcbComponentV2,
    pub sgxtcbcomp05svn: TcbComponentV2,
    pub sgxtcbcomp06svn: TcbComponentV2,
    pub sgxtcbcomp07svn: TcbComponentV2,
    pub sgxtcbcomp08svn: TcbComponentV2,
    pub sgxtcbcomp09svn: TcbComponentV2,
    pub sgxtcbcomp10svn: TcbComponentV2,
    pub sgxtcbcomp11svn: TcbComponentV2,
    pub sgxtcbcomp12svn: TcbComponentV2,
    pub sgxtcbcomp13svn: TcbComponentV2,
    pub sgxtcbcomp14svn: TcbComponentV2,
    pub sgxtcbcomp15svn: TcbComponentV2,
    pub sgxtcbcomp16svn: TcbComponentV2,
    pub pcesvn: Pcesvn,
}

impl TcbFullV2 {
    /// The security versions of the sixteen components, the first component
    /// first.
    pub open spec fn components(self) -> Seq<u8> {
        seq![
            self.sgxtcbcomp01svn.0,
            self.sgxtcbcomp02svn.0,
            self.sgxtcbcomp03svn.0,
            self.sgxtcbcomp04svn.0,
            self.sgxtcbcomp05svn.0,
            self.sgxtcbcomp06svn.0,
            self.sgxtcbcomp07svn.0,
            self.sgxtcbcomp08svn.0,
            self.sgxtcbcomp09svn.0,
            self.sgxtcbcomp10svn.0,
            self.sgxtcbcomp11svn.0,
            self.sgxtcbcomp12svn.0,
            self.sgxtcbcomp13svn.0,
            self.sgxtcbcomp14svn.0,
            self.sgxtcbcomp15svn.0,
            self.sgxtcbcomp16svn.0,
        ]
    }

    /// The security versions of the sixteen components, the first component
    /// first.
    pub fn get_sgx_tcb_comp_svn_as_slice(&self) -> (r: [u8; 16])
        ensures
            r@ == self.components(),
    {
        let r: [u8; 16] = [
            self.sgxtcbcomp01svn.0,
            self.sgxtcbcomp02svn.0,
            self.sgxtcbcomp03svn.0,
            self.sgxtcbcomp04svn.0,
            self.sgxtcbcomp05svn.0,
            self.sgxtcbcomp06svn.0,
            self.sgxtcbcomp07svn.0,
            self.sgxtcbcomp08svn.0,
            self.sgxtcbcomp09svn.0,
            self.sgxtcbcomp10svn.0,
            self.sgxtcbcomp11svn.0,
            self.sgxtcbcomp12svn.0,
            self.sgxtcbcomp13svn.0,
            self.sgxtcbcomp14svn.0,
            self.sgxtcbcomp15svn.0,
            self.sgxtcbcomp16svn.0,
        ];
        assert(r@ =~= self.components());
        r
    }
}

/// The security versions of a platform's TCB, the sixteen components in
/// one array.
#[derive(Debug)]
pub struct TcbFullV3 {
    pub sgxtcbcomponents: [TcbComponentV3; 16],
    pub pcesvn: Pcesvn,
}

impl TcbFullV3 {
    /// The security versions of the sixteen components, in the order of the
    /// array.
    pub open spec fn components(self) -> Seq<u8> {
        Seq::new(16, |i: int| self.sgxtcbcomponents[i].svn)
    }

    /// The security versions of the sixteen components, in the order of the
    /// array.
    pub fn get_sgx_tcb_comp_svn_as_slice(&self) -> (r: [u8; 16])
        ensures
            r@ == self.components(),
    {
        let mut components: [u8; 16] = [0u8; 16];
        let mut i: usize = 0;
        while i < 16
            invariant
                i <= 16,
                forall|j: int| 0 <= j < i ==> components@[j] == self.sgxtcbcomponents[j].svn,
            decreases 16 - i,
        {
            components[i] = self.sgxtcbcomponents[i].svn;
            i += 1;
        }
        assert(components@ =~= self.components());
        components
    }
}

/// Whether platforms with the standing `status` are accepted: those that
/// are up to date, and those that are but for hardening in software.
pub open spec fn standing_accepted(status: Seq<char>) -> bool {
    status == "UpToDate"@ || status == "SWHardeningNeeded"@
}

/// Whether platforms with the standing `status` are accepted.
pub fn is_standing_accepted(status: &str) -> (r: bool)
    ensures
        r == standing_accepted(status@),
{
    str_equal(status, "UpToDate") || str_equal(status, "SWHardeningNeeded")
}

/// A TCB level of a platform with its standing, in version 2 of the
/// collateral.
#[derive(Debug)]
pub struct TcbLevelFullV2 {
    pub tcb: TcbFullV2,
    /// When the level was defined. It plays no part in the judgement.
    pub tcb_date: i64,
    pub tcb_status: String,
    pub advisory_ids: Option<Vec<String>>,
}

impl TcbLevelFullV2 {
    /// Whether a platform at this level is accepted: its standing is
    /// `UpToDate` or `SWHardeningNeeded`.
    pub fn is_valid(&self) -> (r: bool)
        ensures
            r == standing_accepted(self.tcb_status@),
    {
        is_standing_accepted(self.tcb_status.as_str())
    }
}

/// A TCB level of a platform with its standing, in version 3 of the
/// collateral.
#[derive(Debug)]
pub struct TcbLevelFullV3 {
    pub tcb: TcbFullV3,
    /// When the level was defined. It plays no part in the judgement.
    pub tcb_date: i64,
    pub tcb_status: String,
    pub advisory_ids: Option<Vec<String>>,
}

impl TcbLevelFullV3 {
    /// Whether a platform at this level is accepted: its standing is
    /// `UpToDate` or `SWHardeningNeeded`.
    pub fn is_valid(&self) -> (r: bool)
        ensures
            r == standing_accepted(self.tcb_status@),
    {
        is_standing_accepted(self.tcb_status.as_str())
    }
}

/// The identity of the quoting enclave as Intel publishes it.
pub struct EnclaveIdentity {
    pub id: String,
    pub version: u16,
    pub issue_date: i64,
    pub next_update: i64,
    pub tcb_evaluation_data_number: u16,
    pub miscselect: [u8; 4],
    pub miscselect_mask: [u8; 4],
    pub attributes: [u8; 16],
    pub attributes_mask: [u8; 16],
    pub mrsigner: MrSigner,
    pub isvprodid: u16,
    pub tcb_levels: Vec<TcbLevel>,
}

/// The accepted security version that a TCB level of the quoting enclave
/// stands for; none where the level is not accepted.
pub open spec fn accepted_qe_tcb(level: TcbLevel) -> Option<QeTcb> {
    if level.accepted() {
        Some(QeTcb { isvsvn: level.tcb.isvsvn })
    } else {
        None
    }
}

impl EnclaveIdentity {
    /// Whether the identity holds at `timestamp_millis`: it is an identity
    /// of the quoting enclave in version 2, and the instant lies after its
    /// issue and before its next update.
    pub open spec fn holds_at(self, timestamp_millis: i64) -> bool {
        self.id@ == "QE"@ && self.version == 2 && self.issue_date < timestamp_millis
            && timestamp_millis < self.next_update
    }

    /// Whether the identity holds at `timestamp_millis`.
    pub fn is_valid(&self, timestamp_millis: i64) -> (r: bool)
        ensures
            r == self.holds_at(timestamp_millis),
    {
        str_equal(self.id.as_str(), "QE") && self.version == 2 && self.issue_date
            < timestamp_millis && timestamp_millis < self.next_update
    }

    /// What is kept of the identity for later checks: its window, the
    /// expected measurements, and the security versions of the accepted
    /// levels in the order of the levels. It fails, with
    /// `NegativeTimestamp`, exactly for an identity that was issued before
    /// 1970 or is to be updated before 1970.
    pub fn to_quoting_enclave(&self) -> (r: Result<QuotingEnclave, ValidationError>)
        ensures
            r is Ok <==> self.issue_date >= 0 && self.next_update >= 0,
            r matches Ok(q) ==> q.issue_date == self.issue_date && q.next_update
                == self.next_update && q.miscselect == self.miscselect && q.miscselect_mask
                == self.miscselect_mask && q.attributes == self.attributes && q.attributes_mask
                == self.attributes_mask && q.mrsigner == self.mrsigner && q.isvprodid
                == self.isvprodid && q.tcb@ == self.tcb_levels@.filter_map(
                |level: TcbLevel| accepted_qe_tcb(level),
            ),
            r matches Err(e) ==> e == ValidationError::NegativeTimestamp,
    {
        if self.issue_date < 0 || self.next_update < 0 {
            return Err(ValidationError::NegativeTimestamp);
        }
        let ghost pick = |level: TcbLevel| accepted_qe_tcb(level);
        let mut valid_tcbs: Vec<QeTcb> = Vec::new();
        let mut i: usize = 0;
        assert(self.tcb_levels@.take(0).filter_map(pick) =~= Seq::<QeTcb>::empty());
        while i < self.tcb_levels.len()
            invariant
                i <= self.tcb_levels.len(),
                pick == (|level: TcbLevel| accepted_qe_tcb(level)),
                valid_tcbs@ == self.tcb_levels@.take(i as int).filter_map(pick),
            decreases self.tcb_levels.len() - i,
        {
            proof {
                self.tcb_levels@.lemma_filter_map_take_succ(pick, i as int);
            }
            if self.tcb_levels[i].is_valid() {
                valid_tcbs.push(QeTcb::new(self.tcb_levels[i].tcb.isvsvn));
            }
            i += 1;
        }
        assert(self.tcb_levels@.take(self.tcb_levels@.len() as int) =~= self.tcb_levels@);
        Ok(
            QuotingEnclave::new(
                self.issue_date as u64,
                self.next_update as u64,
                self.miscselect,
                self.miscselect_mask,
                self.attributes,
                self.attributes_mask,
                self.mrsigner,
                self.isvprodid,
                valid_tcbs,
            ),
        )
    }
}

/// The accepted platform states as plain values: for each, the security
/// versions of the components and that of the provisioning certification
/// enclave.
pub open spec fn tcb_values(levels: Seq<TcbVersionStatus>) -> Seq<(Seq<u8>, u16)> {
    levels.map_values(|level: TcbVersionStatus| (level.cpusvn@, level.pcesvn))
}

/// The platform state that a TCB level stands for; none where the level is
/// not accepted.
pub open spec fn accepted_state_v2(level: TcbLevelFullV2) -> Option<(Seq<u8>, u16)> {
    if standing_accepted(level.tcb_status@) {
        Some((level.tcb.components(), level.tcb.pcesvn))
    } else {
        None
    }
}

/// The platform state that a TCB level stands for; none where the level is
/// not accepted.
pub open spec fn accepted_state_v3(level: TcbLevelFullV3) -> Option<(Seq<u8>, u16)> {
    if standing_accepted(level.tcb_status@) {
        Some((level.tcb.components(), level.tcb.pcesvn))
    } else {
        None
    }
}

/// The standing of the platforms of one processor family, in version 2 of
/// the collateral.
#[derive(Debug)]
pub struct TcbInfoV2 {
    pub version: u8,
    pub issue_date: i64,
    pub next_update: i64,
    pub fmspc: Fmspc,
    pub pce_id: String,
    pub tcb_type: u16,
    pub tcb_evaluation_data_number: u16,
    pub tcb_levels: Vec<TcbLevelFullV2>,
}

impl TcbInfoV2 {
    /// Whether the collateral holds at `timestamp_millis`: it is of version
    /// 2, and the instant lies after its issue and before its next update.
    pub open spec fn holds_at(self, timestamp_millis: i64) -> bool {
        self.version == 2 && self.issue_date < timestamp_millis && timestamp_millis
            < self.next_update
    }

    /// Whether the collateral holds at `timestamp_millis`.
    pub fn is_valid(&self, timestamp_millis: i64) -> (r: bool)
        ensures
            r == self.holds_at(timestamp_millis),
    {
        self.version == 2 && self.issue_date < timestamp_millis && timestamp_millis
            < self.next_update
    }

    /// What is kept of the collateral: the processor family as the key, and
    /// under it the window and the states of the accepted levels, in the
    /// order of the levels. It fails, with `NegativeTimestamp`, exactly for
    /// collateral that was issued before 1970 or is to be updated before
    /// 1970.
    pub fn to_chain_tcb_info(&self) -> (r: Result<(Fmspc, TcbInfoOnChain), ValidationError>)
        ensures
            r is Ok <==> self.issue_date >= 0 && self.next_update >= 0,
            r matches Ok(kept) ==> kept.0 == self.fmspc && kept.1.issue_date == self.issue_date
                && kept.1.next_update == self.next_update && tcb_values(kept.1.tcb_levels@)
                == self.tcb_levels@.filter_map(|level: TcbLevelFullV2| accepted_state_v2(level)),
            r matches Err(e) ==> e == ValidationError::NegativeTimestamp,
    {
        if self.issue_date < 0 || self.next_update < 0 {
            return Err(ValidationError::NegativeTimestamp);
        }
        let ghost pick = |level: TcbLevelFullV2| accepted_state_v2(level);
        let mut valid_tcbs: Vec<TcbVersionStatus> = Vec::new();
        let mut i: usize = 0;
        assert(self.tcb_levels@.take(0).filter_map(pick) =~= Seq::<(Seq<u8>, u16)>::empty());
        assert(tcb_values(valid_tcbs@) =~= Seq::<(Seq<u8>, u16)>::empty());
        while i < self.tcb_levels.len()
            invariant
                i <= self.tcb_levels.len(),
                pick == (|level: TcbLevelFullV2| accepted_state_v2(level)),
                tcb_values(valid_tcbs@) == self.tcb_levels@.take(i as int).filter_map(pick),
            decreases self.tcb_levels.len() - i,
        {
            proof {
                self.tcb_levels@.lemma_filter_map_take_succ(pick, i as int);
            }
            let tcb = &self.tcb_levels[i];
            if tcb.is_valid() {
                let ghost before = valid_tcbs@;
                let components = tcb.tcb.get_sgx_tcb_comp_svn_as_slice();
                valid_tcbs.push(TcbVersionStatus::new(components, tcb.tcb.pcesvn));
                assert(tcb_values(valid_tcbs@) =~= tcb_values(before) + seq![
                    (tcb.tcb.components(), tcb.tcb.pcesvn),
                ]);
            }
            i += 1;
        }
        assert(self.tcb_levels@.take(self.tcb_levels@.len() as int) =~= self.tcb_levels@);
        Ok(
            (
                self.fmspc,
                TcbInfoOnChain::new(self.issue_date as u64, self.next_update as u64, valid_tcbs),
            ),
        )
    }
}

/// The standing of the platforms of one processor family, in version 3 of
/// the collateral.
#[derive(Debug)]
pub struct TcbInfoV3 {
    pub id: String,
    pub version: u8,
    pub issue_date: i64,
    pub next_update: i64,
    pub fmspc: Fmspc,
    pub pce_id: String,
    pub tcb_type: u16,
    pub tcb_evaluation_data_number: u16,
    pub tcb_levels: Vec<TcbLevelFullV3>,
}

impl TcbInfoV3 {
    /// Whether the collateral holds at `timestamp_millis`: it is on SGX and
    /// of version 3, and the instant lies after its issue and before its
    /// next update.
    pub open spec fn holds_at(self, timestamp_millis: i64) -> bool {
        self.id@ == "SGX"@ && self.version == 3 && self.issue_date < timestamp_millis
            && timestamp_millis < self.next_update
    }

    /// Whether the collateral holds at `timestamp_millis`.
    pub fn is_valid(&self, timestamp_millis: i64) -> (r: bool)
        ensures
            r == self.holds_at(timestamp_millis),
    {
        str_equal(self.id.as_str(), "SGX") && self.version == 3 && self.issue_date
            < timestamp_millis && timestamp_millis < self.next_update
    }

    /// What is kept of the collateral: the processor family as the key, and
    /// under it the window and the states of the accepted levels, in the
    /// order of the levels. It fails, with `NegativeTimestamp`, exactly for
    /// collateral that was issued before 1970 or is to be updated before
    /// 1970.
    pub fn to_chain_tcb_info(&self) -> (r: Result<(Fmspc, TcbInfoOnChain), ValidationError>)
        ensures
            r is Ok <==> self.issue_date >= 0 && self.next_update >= 0,
            r matches Ok(kept) ==> kept.0 == self.fmspc && kept.1.issue_date == self.issue_date
                && kept.1.next_update == self.next_update && tcb_values(kept.1.tcb_levels@)
                == self.tcb_levels@.filter_map(|level: TcbLevelFullV3| accepted_state_v3(level)),
            r matches Err(e) ==> e == ValidationError::NegativeTimestamp,
    {
        if self.issue_date < 0 || self.next_update < 0 {
            return Err(ValidationError::NegativeTimestamp);
        }
        let ghost pick = |level: TcbLevelFullV3| accepted_state_v3(level);
        let mut valid_tcbs: Vec<TcbVersionStatus> = Vec::new();
        let mut i: usize = 0;
        assert(self.tcb_levels@.take(0).filter_map(pick) =~= Seq::<(Seq<u8>, u16)>::empty());
        assert(tcb_values(valid_tcbs@) =~= Seq::<(Seq<u8>, u16)>::empty());
        while i < self.tcb_levels.len()
            invariant
                i <= self.tcb_levels.len(),
                pick == (|level: TcbLevelFullV3| accepted_state_v3(level)),
                tcb_values(valid_tcbs@) == self.tcb_levels@.take(i as int).filter_map(pick),
            decreases self.tcb_levels.len() - i,
        {
            proof {
                self.tcb_levels@.lemma_filter_map_take_succ(pick, i as int);
            }
            let tcb = &self.tcb_levels[i];
            if tcb.is_valid() {
                let ghost before = valid_tcbs@;
                let components = tcb.tcb.get_sgx_tcb_comp_svn_as_slice();
                valid_tcbs.push(TcbVersionStatus::new(components, tcb.tcb.pcesvn));
                assert(tcb_values(valid_tcbs@) =~= tcb_values(before) + seq![
                    (tcb.tcb.components(), tcb.tcb.pcesvn),
                ]);
            }
            i += 1;
        }
        assert(self.tcb_levels@.take(self.tcb_levels@.len() as int) =~= self.tcb_levels@);
        Ok(
            (
                self.fmspc,
                TcbInfoOnChain::new(self.issue_date as u64, self.next_update as u64, valid_tcbs),
            ),
        )
    }
}

/// The standing of the platforms of one processor family.
#[derive(Debug)]
pub enum TcbInfo {
    V2(TcbInfoV2),
    V3(TcbInfoV3),
}

impl TcbInfo {
    /// Whether the collateral was issued in 1970 or later and is to be
    /// updated in 1970 or later.
    pub open spec fn dated_since_epoch(self) -> bool {
        self.issue_date() >= 0 && self.next_update() >= 0
    }

    /// The processor family that the collateral is about.
    pub open spec fn fmspc(self) -> Fmspc {
        match self {
            TcbInfo::V3(v3) => v3.fmspc,
            TcbInfo::V2(v2) => v2.fmspc,
        }
    }

    /// When the collateral was issued.
    pub open spec fn issue_date(self) -> i64 {
        match self {
            TcbInfo::V3(v3) => v3.issue_date,
            TcbInfo::V2(v2) => v2.issue_date,
        }
    }

    /// When the collateral is to be updated.
    pub open spec fn next_update(self) -> i64 {
        match self {
            TcbInfo::V3(v3) => v3.next_update,
            TcbInfo::V2(v2) => v2.next_update,
        }
    }

    /// The accepted platform states, in the order of the levels.
    pub open spec fn accepted_states(self) -> Seq<(Seq<u8>, u16)> {
        match self {
            TcbInfo::V3(v3) => v3.tcb_levels@.filter_map(
                |level: TcbLevelFullV3| accepted_state_v3(level),
            ),
            TcbInfo::V2(v2) => v2.tcb_levels@.filter_map(
                |level: TcbLevelFullV2| accepted_state_v2(level),
            ),
        }
    }

    /// Whether the collateral holds at `timestamp_millis`, by the rule of
    /// its version.
    pub open spec fn holds_at(self, timestamp_millis: i64) -> bool {
        match self {
            TcbInfo::V3(v3) => v3.holds_at(timestamp_millis),
            TcbInfo::V2(v2) => v2.holds_at(timestamp_millis),
        }
    }

    /// The collateral out of two readings of the same text, one as version 2
    /// and one as version 3: the reading as version 2 where it succeeded, else
    /// the reading as version 3, and nothing where neither did.
    pub fn from_versions(v2: Option<TcbInfoV2>, v3: Option<TcbInfoV3>) -> (r: Option<TcbInfo>)
        ensures
            r == match (v2, v3) {
                (Some(info), _) => Some(TcbInfo::V2(info)),
                (None, Some(info)) => Some(TcbInfo::V3(info)),
                (None, None) => None,
            },
    {
        match v2 {
            Some(info) => Some(TcbInfo::V2(info)),
            None => match v3 {
                Some(info) => Some(TcbInfo::V3(info)),
                None => None,
            },
        }
    }

    /// What is kept of the collateral: the processor family as the key, and
    /// under it the window and the states of the accepted levels. It fails,
    /// with `NegativeTimestamp`, exactly for collateral that was issued
    /// before 1970 or is to be updated before 1970.
    pub fn to_chain_tcb_info(&self) -> (r: Result<(Fmspc, TcbInfoOnChain), ValidationError>)
        ensures
            r is Ok <==> self.dated_since_epoch(),
            r matches Ok(kept) ==> kept.0 == self.fmspc() && kept.1.issue_date
                == self.issue_date() && kept.1.next_update == self.next_update() && tcb_values(
                kept.1.tcb_levels@,
            ) == self.accepted_states(),
            r matches Err(e) ==> e == ValidationError::NegativeTimestamp,
    {
        match &self {
            TcbInfo::V3(v3) => v3.to_chain_tcb_info(),
            TcbInfo::V2(v2) => v2.to_chain_tcb_info(),
        }
    }

    /// Whether the collateral holds at `timestamp_millis`.
    pub fn is_valid(&self, timestamp_millis: i64) -> (r: bool)
        ensures
            r == self.holds_at(timestamp_millis),
    {
        match &self {
            TcbInfo::V3(v3) => v3.is_valid(timestamp_millis),
            TcbInfo::V2(v2) => v2.is_valid(timestamp_millis),
        }
    }
}

/// The standing of platforms together with Intel's signature over it.
pub struct TcbInfoSigned {
    pub tcb_info: TcbInfoV3,
    pub signature: String,
}

/// The identity of the quoting enclave together with Intel's signature
/// over it.
pub struct EnclaveIdentitySigned {
    pub enclave_identity: EnclaveIdentity,
    pub signature: String,
}

/// Verifies that `signature`, as `r` and `s` of 32 bytes each, is an ECDSA
/// P-256 signature of the certificate's key over the collateral `data`. It
/// fails, with `BadSignature`, exactly where it is none.
pub fn verify_collateral_signature(data: &[u8], signature: &[u8], certificate: &ParsedLeaf) -> (r:
    Result<(), ValidationError>)
    ensures
        r is Ok <==> can_be_hashed(data@) && cert_signature_valid(
            certificate@,
            SignatureAlgorithm::EcdsaP256Sha256,
            data@,
            as_asn1_spec(signature@),
        ),
        r matches Err(e) ==> e == ValidationError::BadSignature,
{
    let signature = as_asn1(signature);
    verify_signature(
        certificate,
        data,
        signature.as_slice(),
        SignatureAlgorithm::EcdsaP256Sha256,
    )
}

} // verus!
