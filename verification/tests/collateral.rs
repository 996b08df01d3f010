use sgx_verify::collateral::{
    EnclaveIdentity, Tcb, TcbComponentV2, TcbComponentV3, TcbFullV2, TcbFullV3, TcbInfo,
    TcbInfoV2, TcbInfoV3, TcbLevel, TcbLevelFullV2, TcbLevelFullV3,
};
use sgx_verify::error::ValidationError;
use sgx_verify::primitives::TcbVersionStatus;

// 2021-11-10T00:00:00Z
const TCB_DATE: i64 = 1636502400000;

fn level(isvsvn: u16, status: &str) -> TcbLevel {
    TcbLevel {
        tcb: Tcb { isvsvn },
        tcb_date: TCB_DATE,
        tcb_status: status.to_string(),
        advisory_ids: None,
    }
}

fn components_v2(svn: [u8; 16], pcesvn: u16) -> TcbFullV2 {
    TcbFullV2 {
        sgxtcbcomp01svn: TcbComponentV2(svn[0]),
        sgxtcbcomp02svn: TcbComponentV2(svn[1]),
        sgxtcbcomp03svn: TcbComponentV2(svn[2]),
        sgxtcbcomp04svn: TcbComponentV2(svn[3]),
        sgxtcbcomp05svn: TcbComponentV2(svn[4]),
        sgxtcbcomp06svn: TcbComponentV2(svn[5]),
        sgxtcbcomp07svn: TcbComponentV2(svn[6]),
        sgxtcbcomp08svn: TcbComponentV2(svn[7]),
        sgxtcbcomp09svn: TcbComponentV2(svn[8]),
        sgxtcbcomp10svn: TcbComponentV2(svn[9]),
        sgxtcbcomp11svn: TcbComponentV2(svn[10]),
        sgxtcbcomp12svn: TcbComponentV2(svn[11]),
        sgxtcbcomp13svn: TcbComponentV2(svn[12]),
        sgxtcbcomp14svn: TcbComponentV2(svn[13]),
        sgxtcbcomp15svn: TcbComponentV2(svn[14]),
        sgxtcbcomp16svn: TcbComponentV2(svn[15]),
        pcesvn,
    }
}

fn components_v3(svn: [u8; 16], pcesvn: u16) -> TcbFullV3 {
    TcbFullV3 {
        sgxtcbcomponents: svn.map(|svn| TcbComponentV3 {
            svn,
            category: Some("BIOS".to_string()),
            tcb_type: None,
        }),
        pcesvn,
    }
}

fn level_v2(svn: [u8; 16], pcesvn: u16, status: &str) -> TcbLevelFullV2 {
    TcbLevelFullV2 {
        tcb: components_v2(svn, pcesvn),
        tcb_date: TCB_DATE,
        tcb_status: status.to_string(),
        advisory_ids: Some(vec!["INTEL-SA-00334".to_string()]),
    }
}

fn level_v3(svn: [u8; 16], pcesvn: u16, status: &str) -> TcbLevelFullV3 {
    TcbLevelFullV3 {
        tcb: components_v3(svn, pcesvn),
        tcb_date: TCB_DATE,
        tcb_status: status.to_string(),
        advisory_ids: None,
    }
}

fn identity(id: &str, version: u16, issue_date: i64, next_update: i64) -> EnclaveIdentity {
    EnclaveIdentity {
        id: id.to_string(),
        version,
        issue_date,
        next_update,
        tcb_evaluation_data_number: 12,
        miscselect: [1, 2, 3, 4],
        miscselect_mask: [0xff; 4],
        attributes: [0x11; 16],
        attributes_mask: [0xfb; 16],
        mrsigner: [0x8c; 32],
        isvprodid: 1,
        tcb_levels: vec![
            level(6, "UpToDate"),
            level(5, "UpToDate"),
            level(7, "OutOfDate"),
            level(9, "UpToDate"),
            level(8, "Revoked"),
        ],
    }
}

fn info_v2(version: u8, issue_date: i64, next_update: i64) -> TcbInfoV2 {
    let mut first = [0u8; 16];
    first[0] = 14;
    first[1] = 14;
    first[5] = 128;
    let mut second = [0u8; 16];
    second[15] = 3;
    TcbInfoV2 {
        version,
        issue_date,
        next_update,
        fmspc: [0x00, 0xa0, 0x65, 0x51, 0x00, 0x00],
        pce_id: "0000".to_string(),
        tcb_type: 0,
        tcb_evaluation_data_number: 15,
        tcb_levels: vec![
            level_v2(first, 13, "SWHardeningNeeded"),
            level_v2([1; 16], 12, "ConfigurationAndSWHardeningNeeded"),
            level_v2(second, 11, "UpToDate"),
            level_v2([2; 16], 9, "OutOfDateConfigurationNeeded"),
        ],
    }
}

fn info_v3(id: &str, version: u8, issue_date: i64, next_update: i64) -> TcbInfoV3 {
    let mut first = [0u8; 16];
    for i in 0..16 {
        first[i] = i as u8 + 1;
    }
    TcbInfoV3 {
        id: id.to_string(),
        version,
        issue_date,
        next_update,
        fmspc: [0x00, 0x90, 0x6e, 0xd5, 0x00, 0x00],
        pce_id: "0000".to_string(),
        tcb_type: 0,
        tcb_evaluation_data_number: 16,
        tcb_levels: vec![
            level_v3([4; 16], 5, "OutOfDate"),
            level_v3(first, 13, "UpToDate"),
            level_v3([3; 16], 7, "SWHardeningNeeded"),
        ],
    }
}

#[test]
fn tcb_level_is_valid() {
    let t = level(6, "UpToDate");
    assert!(t.is_valid());

    let t = level(6, "OutOfDate");
    assert!(!t.is_valid());

    let t = level(5, "UpToDate");
    assert!(!t.is_valid());
}

#[test]
fn tcb_is_valid_from_version_six_on() {
    assert!(!Tcb { isvsvn: 0 }.is_valid());
    assert!(!Tcb { isvsvn: 5 }.is_valid());
    assert!(Tcb { isvsvn: 6 }.is_valid());
    assert!(Tcb { isvsvn: 7 }.is_valid());
    assert!(Tcb { isvsvn: u16::MAX }.is_valid());
}

#[test]
fn tcb_level_status_is_compared_exactly() {
    assert!(!level(6, "").is_valid());
    assert!(!level(6, "uptodate").is_valid());
    assert!(!level(6, "UpToDate ").is_valid());
    assert!(!level(6, "SWHardeningNeeded").is_valid());
    assert!(!level(6, "Revoked").is_valid());
}

#[test]
fn full_levels_accept_two_standings() {
    for status in ["UpToDate", "SWHardeningNeeded"] {
        assert!(level_v2([0; 16], 1, status).is_valid());
        assert!(level_v3([0; 16], 1, status).is_valid());
    }
    for status in [
        "OutOfDate",
        "Revoked",
        "ConfigurationNeeded",
        "ConfigurationAndSWHardeningNeeded",
        "OutOfDateConfigurationNeeded",
        "",
        "UpToDat",
        "UpToDatee",
        "swhardeningneeded",
    ] {
        assert!(!level_v2([0; 16], 1, status).is_valid(), "{}", status);
        assert!(!level_v3([0; 16], 1, status).is_valid(), "{}", status);
    }
}

#[test]
fn components_are_collected_in_their_order() {
    let mut svn = [0u8; 16];
    for i in 0..16 {
        svn[i] = 100 + i as u8;
    }
    assert_eq!(components_v2(svn, 1).get_sgx_tcb_comp_svn_as_slice(), svn);
    assert_eq!(components_v3(svn, 1).get_sgx_tcb_comp_svn_as_slice(), svn);
}

#[test]
fn enclave_identity_is_valid_inside_its_window() {
    let id = identity("QE", 2, 1000, 2000);
    assert!(id.is_valid(1001));
    assert!(id.is_valid(1999));
    assert!(!id.is_valid(1000));
    assert!(!id.is_valid(2000));
    assert!(!id.is_valid(999));
    assert!(!id.is_valid(2001));
    assert!(!id.is_valid(i64::MIN));
    assert!(!id.is_valid(i64::MAX));
}

#[test]
fn enclave_identity_has_to_be_of_the_quoting_enclave_in_version_two() {
    assert!(identity("QE", 2, 1000, 2000).is_valid(1500));
    assert!(!identity("QVE", 2, 1000, 2000).is_valid(1500));
    assert!(!identity("qe", 2, 1000, 2000).is_valid(1500));
    assert!(!identity("", 2, 1000, 2000).is_valid(1500));
    assert!(!identity("QE", 1, 1000, 2000).is_valid(1500));
    assert!(!identity("QE", 3, 1000, 2000).is_valid(1500));
    assert!(!identity("QE", 2, 2000, 1000).is_valid(1500));
}

#[test]
fn quoting_enclave_keeps_the_accepted_versions() {
    let id = identity("QE", 2, 1_686_000_000_000, 1_689_000_000_000);
    let qe = id.to_quoting_enclave().unwrap();
    assert_eq!(qe.issue_date, 1_686_000_000_000);
    assert_eq!(qe.next_update, 1_689_000_000_000);
    assert_eq!(qe.miscselect, [1, 2, 3, 4]);
    assert_eq!(qe.miscselect_mask, [0xff; 4]);
    assert_eq!(qe.attributes, [0x11; 16]);
    assert_eq!(qe.attributes_mask, [0xfb; 16]);
    assert_eq!(qe.mrsigner, [0x8c; 32]);
    assert_eq!(qe.isvprodid, 1);
    let versions: Vec<u16> = qe.tcb.iter().map(|tcb| tcb.isvsvn).collect();
    assert_eq!(versions, vec![6, 9]);
}

#[test]
fn quoting_enclave_without_accepted_levels_has_none() {
    let mut id = identity("QE", 2, 0, 0);
    id.tcb_levels = vec![level(5, "UpToDate"), level(6, "OutOfDate")];
    assert!(id.to_quoting_enclave().unwrap().tcb.is_empty());
    id.tcb_levels = vec![];
    let qe = id.to_quoting_enclave().unwrap();
    assert!(qe.tcb.is_empty());
    assert_eq!(qe.issue_date, 0);
}

#[test]
fn tcb_info_v2_is_valid_inside_its_window() {
    assert!(info_v2(2, 1000, 2000).is_valid(1500));
    assert!(!info_v2(2, 1000, 2000).is_valid(1000));
    assert!(!info_v2(2, 1000, 2000).is_valid(2000));
    assert!(!info_v2(3, 1000, 2000).is_valid(1500));
    assert!(!info_v2(1, 1000, 2000).is_valid(1500));
    assert!(!info_v2(0, 1000, 2000).is_valid(1500));
}

#[test]
fn tcb_info_v3_is_valid_inside_its_window() {
    assert!(info_v3("SGX", 3, 1000, 2000).is_valid(1500));
    assert!(!info_v3("SGX", 3, 1000, 2000).is_valid(1000));
    assert!(!info_v3("SGX", 3, 1000, 2000).is_valid(2000));
    assert!(!info_v3("SGX", 2, 1000, 2000).is_valid(1500));
    assert!(!info_v3("TDX", 3, 1000, 2000).is_valid(1500));
    assert!(!info_v3("sgx", 3, 1000, 2000).is_valid(1500));
}

#[test]
fn tcb_info_is_valid_by_the_rule_of_its_version() {
    assert!(TcbInfo::V2(info_v2(2, 1000, 2000)).is_valid(1500));
    assert!(!TcbInfo::V2(info_v2(3, 1000, 2000)).is_valid(1500));
    assert!(TcbInfo::V3(info_v3("SGX", 3, 1000, 2000)).is_valid(1500));
    assert!(!TcbInfo::V3(info_v3("SGX", 2, 1000, 2000)).is_valid(1500));
    assert!(!TcbInfo::V3(info_v3("SGX", 3, 1000, 2000)).is_valid(2500));
}

#[test]
fn chain_tcb_info_v2_keeps_the_accepted_levels() {
    // 2023-06-20T11:02:18Z and 2023-07-20T11:02:18Z
    let info = info_v2(2, 1687258938000, 1689850938000);
    let (fmspc, on_chain) = info.to_chain_tcb_info().unwrap();
    assert_eq!(fmspc, [0x00, 0xa0, 0x65, 0x51, 0x00, 0x00]);
    assert_eq!(on_chain.issue_date, 1687258938000);
    assert_eq!(on_chain.next_update, 1689850938000);
    assert_eq!(on_chain.tcb_levels.len(), 2);
    assert_eq!(on_chain.tcb_levels[0].cpusvn, [14, 14, 0, 0, 0, 128, 0, 0, 0, 0, 0, 0, 0, 0, 0, 0]);
    assert_eq!(on_chain.tcb_levels[0].pcesvn, 13);
    assert_eq!(on_chain.tcb_levels[1].cpusvn, [0, 0, 0, 0, 0, 0, 0, 0, 0, 0, 0, 0, 0, 0, 0, 3]);
    assert_eq!(on_chain.tcb_levels[1].pcesvn, 11);
}

#[test]
fn chain_tcb_info_v3_keeps_the_accepted_levels() {
    let info = info_v3("SGX", 3, 5, 6);
    let (fmspc, on_chain) = info.to_chain_tcb_info().unwrap();
    assert_eq!(fmspc, [0x00, 0x90, 0x6e, 0xd5, 0x00, 0x00]);
    assert_eq!(on_chain.issue_date, 5);
    assert_eq!(on_chain.next_update, 6);
    assert_eq!(on_chain.tcb_levels.len(), 2);
    assert_eq!(
        on_chain.tcb_levels[0].cpusvn,
        [1, 2, 3, 4, 5, 6, 7, 8, 9, 10, 11, 12, 13, 14, 15, 16]
    );
    assert_eq!(on_chain.tcb_levels[0].pcesvn, 13);
    assert_eq!(on_chain.tcb_levels[1].cpusvn, [3; 16]);
    assert_eq!(on_chain.tcb_levels[1].pcesvn, 7);
}

#[test]
fn chain_tcb_info_follows_the_version() {
    let (fmspc, on_chain) = TcbInfo::V2(info_v2(2, 1, 2)).to_chain_tcb_info().unwrap();
    assert_eq!(fmspc, [0x00, 0xa0, 0x65, 0x51, 0x00, 0x00]);
    assert_eq!(on_chain.tcb_levels.len(), 2);
    let (fmspc, on_chain) = TcbInfo::V3(info_v3("SGX", 3, 1, 2)).to_chain_tcb_info().unwrap();
    assert_eq!(fmspc, [0x00, 0x90, 0x6e, 0xd5, 0x00, 0x00]);
    assert_eq!(on_chain.tcb_levels[1].pcesvn, 7);
}

// Collateral of version 2 as Intel served it on 2023-06-20, in pieces.
const TCB_INFO_V2: [&str; 48] = [
    r#"{"version":2,"issueDate":"2023-06-20T11:02:18Z","nextUpdate":"2023-07-20T11:02:18Z","fmspc"#,
    r#"":"00A065510000","pceId":"0000","tcbType":0,"tcbEvaluationDataNumber":15,"tcbLevels":[{"tc"#,
    r#"b":{"sgxtcbcomp01svn":14,"sgxtcbcomp02svn":14,"sgxtcbcomp03svn":2,"sgxtcbcomp04svn":2,"sgx"#,
    r#"tcbcomp05svn":2,"sgxtcbcomp06svn":128,"sgxtcbcomp07svn":12,"sgxtcbcomp08svn":0,"sgxtcbcomp"#,
    r#"09svn":0,"sgxtcbcomp10svn":0,"sgxtcbcomp11svn":0,"sgxtcbcomp12svn":0,"sgxtcbcomp13svn":0,""#,
    r#"sgxtcbcomp14svn":0,"sgxtcbcomp15svn":0,"sgxtcbcomp16svn":0,"pcesvn":13},"tcbDate":"2023-02"#,
    r#"-15T00:00:00Z","tcbStatus":"SWHardeningNeeded"},{"tcb":{"sgxtcbcomp01svn":14,"sgxtcbcomp02"#,
    r#"svn":14,"sgxtcbcomp03svn":2,"sgxtcbcomp04svn":2,"sgxtcbcomp05svn":2,"sgxtcbcomp06svn":128,"#,
    r#""sgxtcbcomp07svn":0,"sgxtcbcomp08svn":0,"sgxtcbcomp09svn":0,"sgxtcbcomp10svn":0,"sgxtcbcom"#,
    r#"p11svn":0,"sgxtcbcomp12svn":0,"sgxtcbcomp13svn":0,"sgxtcbcomp14svn":0,"sgxtcbcomp15svn":0,"#,
    r#""sgxtcbcomp16svn":0,"pcesvn":13},"tcbDate":"2023-02-15T00:00:00Z","tcbStatus":"Configurati"#,
    r#"onAndSWHardeningNeeded"},{"tcb":{"sgxtcbcomp01svn":11,"sgxtcbcomp02svn":11,"sgxtcbcomp03sv"#,
    r#"n":2,"sgxtcbcomp04svn":2,"sgxtcbcomp05svn":2,"sgxtcbcomp06svn":128,"sgxtcbcomp07svn":4,"sg"#,
    r#"xtcbcomp08svn":0,"sgxtcbcomp09svn":0,"sgxtcbcomp10svn":0,"sgxtcbcomp11svn":0,"sgxtcbcomp12"#,
    r#"svn":0,"sgxtcbcomp13svn":0,"sgxtcbcomp14svn":0,"sgxtcbcomp15svn":0,"sgxtcbcomp16svn":0,"pc"#,
    r#"esvn":11},"tcbDate":"2021-11-10T00:00:00Z","tcbStatus":"OutOfDate"},{"tcb":{"sgxtcbcomp01s"#,
    r#"vn":11,"sgxtcbcomp02svn":11,"sgxtcbcomp03svn":2,"sgxtcbcomp04svn":2,"sgxtcbcomp05svn":2,"s"#,
    r#"gxtcbcomp06svn":128,"sgxtcbcomp07svn":4,"sgxtcbcomp08svn":0,"sgxtcbcomp09svn":0,"sgxtcbcom"#,
    r#"p10svn":0,"sgxtcbcomp11svn":0,"sgxtcbcomp12svn":0,"sgxtcbcomp13svn":0,"sgxtcbcomp14svn":0,"#,
    r#""sgxtcbcomp15svn":0,"sgxtcbcomp16svn":0,"pcesvn":10},"tcbDate":"2020-11-11T00:00:00Z","tcb"#,
    r#"Status":"OutOfDate"},{"tcb":{"sgxtcbcomp01svn":11,"sgxtcbcomp02svn":11,"sgxtcbcomp03svn":2"#,
    r#","sgxtcbcomp04svn":2,"sgxtcbcomp05svn":2,"sgxtcbcomp06svn":128,"sgxtcbcomp07svn":0,"sgxtcb"#,
    r#"comp08svn":0,"sgxtcbcomp09svn":0,"sgxtcbcomp10svn":0,"sgxtcbcomp11svn":0,"sgxtcbcomp12svn""#,
    r#":0,"sgxtcbcomp13svn":0,"sgxtcbcomp14svn":0,"sgxtcbcomp15svn":0,"sgxtcbcomp16svn":0,"pcesvn"#,
    r#"":11},"tcbDate":"2021-11-10T00:00:00Z","tcbStatus":"OutOfDateConfigurationNeeded"},{"tcb":"#,
    r#"{"sgxtcbcomp01svn":11,"sgxtcbcomp02svn":11,"sgxtcbcomp03svn":2,"sgxtcbcomp04svn":2,"sgxtcb"#,
    r#"comp05svn":2,"sgxtcbcomp06svn":128,"sgxtcbcomp07svn":0,"sgxtcbcomp08svn":0,"sgxtcbcomp09sv"#,
    r#"n":0,"sgxtcbcomp10svn":0,"sgxtcbcomp11svn":0,"sgxtcbcomp12svn":0,"sgxtcbcomp13svn":0,"sgxt"#,
    r#"cbcomp14svn":0,"sgxtcbcomp15svn":0,"sgxtcbcomp16svn":0,"pcesvn":10},"tcbDate":"2020-11-11T"#,
    r#"00:00:00Z","tcbStatus":"OutOfDateConfigurationNeeded"},{"tcb":{"sgxtcbcomp01svn":10,"sgxtc"#,
    r#"bcomp02svn":10,"sgxtcbcomp03svn":2,"sgxtcbcomp04svn":2,"sgxtcbcomp05svn":2,"sgxtcbcomp06sv"#,
    r#"n":128,"sgxtcbcomp07svn":4,"sgxtcbcomp08svn":0,"sgxtcbcomp09svn":0,"sgxtcbcomp10svn":0,"sg"#,
    r#"xtcbcomp11svn":0,"sgxtcbcomp12svn":0,"sgxtcbcomp13svn":0,"sgxtcbcomp14svn":0,"sgxtcbcomp15"#,
    r#"svn":0,"sgxtcbcomp16svn":0,"pcesvn":10},"tcbDate":"2020-06-10T00:00:00Z","tcbStatus":"OutO"#,
    r#"fDate"},{"tcb":{"sgxtcbcomp01svn":10,"sgxtcbcomp02svn":10,"sgxtcbcomp03svn":2,"sgxtcbcomp0"#,
    r#"4svn":2,"sgxtcbcomp05svn":2,"sgxtcbcomp06svn":128,"sgxtcbcomp07svn":0,"sgxtcbcomp08svn":0,"#,
    r#""sgxtcbcomp09svn":0,"sgxtcbcomp10svn":0,"sgxtcbcomp11svn":0,"sgxtcbcomp12svn":0,"sgxtcbcom"#,
    r#"p13svn":0,"sgxtcbcomp14svn":0,"sgxtcbcomp15svn":0,"sgxtcbcomp16svn":0,"pcesvn":10},"tcbDat"#,
    r#"e":"2020-06-10T00:00:00Z","tcbStatus":"OutOfDateConfigurationNeeded"},{"tcb":{"sgxtcbcomp0"#,
    r#"1svn":1,"sgxtcbcomp02svn":1,"sgxtcbcomp03svn":2,"sgxtcbcomp04svn":2,"sgxtcbcomp05svn":2,"s"#,
    r#"gxtcbcomp06svn":128,"sgxtcbcomp07svn":6,"sgxtcbcomp08svn":0,"sgxtcbcomp09svn":0,"sgxtcbcom"#,
    r#"p10svn":0,"sgxtcbcomp11svn":0,"sgxtcbcomp12svn":0,"sgxtcbcomp13svn":0,"sgxtcbcomp14svn":0,"#,
    r#""sgxtcbcomp15svn":0,"sgxtcbcomp16svn":0,"pcesvn":9},"tcbDate":"2019-11-13T00:00:00Z","tcbS"#,
    r#"tatus":"OutOfDate"},{"tcb":{"sgxtcbcomp01svn":1,"sgxtcbcomp02svn":1,"sgxtcbcomp03svn":2,"s"#,
    r#"gxtcbcomp04svn":2,"sgxtcbcomp05svn":2,"sgxtcbcomp06svn":128,"sgxtcbcomp07svn":0,"sgxtcbcom"#,
    r#"p08svn":0,"sgxtcbcomp09svn":0,"sgxtcbcomp10svn":0,"sgxtcbcomp11svn":0,"sgxtcbcomp12svn":0,"#,
    r#""sgxtcbcomp13svn":0,"sgxtcbcomp14svn":0,"sgxtcbcomp15svn":0,"sgxtcbcomp16svn":0,"pcesvn":9"#,
    r#"},"tcbDate":"2019-11-13T00:00:00Z","tcbStatus":"OutOfDateConfigurationNeeded"}]}"#,
];

fn millis_of(text: &str) -> i64 {
    chrono::DateTime::parse_from_rfc3339(text).unwrap().timestamp_millis()
}

fn number(value: &serde_json::Value) -> u64 {
    value.as_u64().unwrap()
}

fn text(value: &serde_json::Value) -> String {
    value.as_str().unwrap().to_string()
}

// Builds the collateral from its JSON, member by member.
fn read_tcb_info_v2(bytes: &[u8]) -> TcbInfoV2 {
    let json: serde_json::Value = serde_json::from_slice(bytes).unwrap();
    let mut fmspc = [0u8; 6];
    fmspc.copy_from_slice(&hex::decode(json["fmspc"].as_str().unwrap()).unwrap());
    let mut tcb_levels = Vec::new();
    for level in json["tcbLevels"].as_array().unwrap() {
        let mut svn = [0u8; 16];
        for i in 0..16 {
            svn[i] = number(&level["tcb"][format!("sgxtcbcomp{:02}svn", i + 1).as_str()]) as u8;
        }
        tcb_levels.push(TcbLevelFullV2 {
            tcb: components_v2(svn, number(&level["tcb"]["pcesvn"]) as u16),
            tcb_date: millis_of(level["tcbDate"].as_str().unwrap()),
            tcb_status: text(&level["tcbStatus"]),
            advisory_ids: None,
        });
    }
    TcbInfoV2 {
        version: number(&json["version"]) as u8,
        issue_date: millis_of(json["issueDate"].as_str().unwrap()),
        next_update: millis_of(json["nextUpdate"].as_str().unwrap()),
        fmspc,
        pce_id: text(&json["pceId"]),
        tcb_type: number(&json["tcbType"]) as u16,
        tcb_evaluation_data_number: number(&json["tcbEvaluationDataNumber"]) as u16,
        tcb_levels,
    }
}

#[test]
fn parse_tcb_info_v2() {
    let byte_slice = TCB_INFO_V2.concat().into_bytes();
    assert_eq!(byte_slice.len(), 4310);
    assert_eq!(&byte_slice[..12], &[123, 34, 118, 101, 114, 115, 105, 111, 110, 34, 58, 50]);
    let info = read_tcb_info_v2(&byte_slice);
    assert_eq!(info.version, 2);
    assert_eq!(info.fmspc, [0x00, 0xA0, 0x65, 0x51, 0x00, 0x00]);
    assert_eq!(info.tcb_levels.len(), 10);
    assert_eq!(info.issue_date, 1687258938000);
    assert_eq!(info.next_update, 1689850938000);
    assert!(info.is_valid(1688000000000));
    assert!(!info.is_valid(1689850938000));
    let (fmspc, on_chain) = TcbInfo::V2(info).to_chain_tcb_info().unwrap();
    assert_eq!(fmspc, [0x00, 0xA0, 0x65, 0x51, 0x00, 0x00]);
    assert_eq!(on_chain.issue_date, 1687258938000);
    assert_eq!(on_chain.next_update, 1689850938000);
    assert_eq!(
        on_chain.tcb_levels,
        vec![TcbVersionStatus::new([14, 14, 2, 2, 2, 128, 12, 0, 0, 0, 0, 0, 0, 0, 0, 0], 13)]
    );
}

#[test]
fn version_two_is_preferred_to_version_three() {
    let both = TcbInfo::from_versions(Some(info_v2(2, 1, 2)), Some(info_v3("SGX", 3, 1, 2)));
    assert!(matches!(both, Some(TcbInfo::V2(_))));
    let second = TcbInfo::from_versions(None, Some(info_v3("SGX", 3, 1, 2)));
    assert!(matches!(second, Some(TcbInfo::V3(_))));
    let first = TcbInfo::from_versions(Some(info_v2(2, 1, 2)), None);
    assert!(matches!(first, Some(TcbInfo::V2(_))));
    assert!(TcbInfo::from_versions(None, None).is_none());
}

#[test]
fn identity_dated_before_1970_has_no_quoting_enclave() {
    // 1969-12-31T23:59:59Z
    let e = identity("QE", 2, -1000, 2000).to_quoting_enclave().err();
    assert_eq!(e, Some(ValidationError::NegativeTimestamp));
    assert_eq!(
        ValidationError::NegativeTimestamp.message(),
        "no support for negative unix timestamps"
    );
    assert_eq!(
        identity("QE", 2, 1000, -1).to_quoting_enclave().err(),
        Some(ValidationError::NegativeTimestamp)
    );
    assert_eq!(
        identity("QE", 2, i64::MIN, i64::MIN).to_quoting_enclave().err(),
        Some(ValidationError::NegativeTimestamp)
    );
    assert!(identity("QE", 2, 0, 0).to_quoting_enclave().is_ok());
    let latest = identity("QE", 2, i64::MAX, i64::MAX).to_quoting_enclave().unwrap();
    assert_eq!(latest.issue_date, i64::MAX as u64);
    // The identity need not hold now, nor be one of the quoting enclave.
    assert!(identity("QVE", 7, 5000, 1000).to_quoting_enclave().is_ok());
}

#[test]
fn collateral_dated_before_1970_has_no_chain_tcb_info() {
    assert_eq!(
        info_v2(2, -1, 2000).to_chain_tcb_info().err(),
        Some(ValidationError::NegativeTimestamp)
    );
    assert_eq!(
        info_v2(2, 1000, -1).to_chain_tcb_info().err(),
        Some(ValidationError::NegativeTimestamp)
    );
    assert_eq!(
        info_v3("SGX", 3, -1, 2000).to_chain_tcb_info().err(),
        Some(ValidationError::NegativeTimestamp)
    );
    assert_eq!(
        info_v3("SGX", 3, 1000, i64::MIN).to_chain_tcb_info().err(),
        Some(ValidationError::NegativeTimestamp)
    );
    assert_eq!(
        TcbInfo::V2(info_v2(2, -1000, -1000)).to_chain_tcb_info().err(),
        Some(ValidationError::NegativeTimestamp)
    );
    assert_eq!(
        TcbInfo::V3(info_v3("SGX", 3, 0, -1)).to_chain_tcb_info().err(),
        Some(ValidationError::NegativeTimestamp)
    );
    assert!(TcbInfo::V3(info_v3("SGX", 3, 0, 0)).to_chain_tcb_info().is_ok());
    assert!(info_v2(9, 0, 0).to_chain_tcb_info().is_ok());
}
