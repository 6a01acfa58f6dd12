use security_service::alert::AlertStore;
use security_service::audit::{
    is_valid_address, AuditConfig, CodeLocation, SmartContractAuditor, VulnerabilityDetail,
};
use security_service::connector::SecurityError;
use security_service::scan::{
    calculate_security_score, find_pattern, scan_smart_contract, SecuritySeverity, Vulnerability,
};

fn vuln(severity: SecuritySeverity) -> Vulnerability {
    Vulnerability {
        severity,
        description: "d".to_string(),
        location: None,
        recommendation: "r".to_string(),
    }
}

fn auditor() -> SmartContractAuditor {
    SmartContractAuditor::new(AuditConfig {
        max_contract_size: 24576,
        scan_timeout_seconds: 300,
        min_security_score: 80,
    })
}

const ADDRESS: &str = "0x1234567890abcdef1234567890ABCDEF12345678";

#[test]
fn address_validation_wants_0x_and_forty_hex_digits() {
    assert!(is_valid_address(ADDRESS));
    assert!(!is_valid_address(""));
    assert!(!is_valid_address("0x123"));
    assert!(!is_valid_address("1x1234567890abcdef1234567890ABCDEF12345678"));
    assert!(!is_valid_address("0x1234567890abcdef1234567890ABCDEF1234567g"));
    assert!(!is_valid_address("0x1234567890abcdef1234567890ABCDEF123456789"));
}

#[test]
fn security_score_stays_within_bounds_and_empty_findings_score_100() {
    assert_eq!(calculate_security_score(&vec![]), 100);
    let pile: Vec<Vulnerability> = (0..20).map(|_| vuln(SecuritySeverity::Critical)).collect();
    let score = calculate_security_score(&pile);
    assert_eq!(score, 0);
    let mixed = vec![
        vuln(SecuritySeverity::Critical),
        vuln(SecuritySeverity::High),
        vuln(SecuritySeverity::Medium),
        vuln(SecuritySeverity::Low),
        vuln(SecuritySeverity::Info),
    ];
    let score = calculate_security_score(&mixed);
    assert_eq!(score, 100 - (30 + 20 + 12 + 6 + 2));
}

#[test]
fn single_critical_scores_strictly_below_single_low() {
    let critical = calculate_security_score(&vec![vuln(SecuritySeverity::Critical)]);
    let low = calculate_security_score(&vec![vuln(SecuritySeverity::Low)]);
    assert!(critical < low, "critical {critical} must score below low {low}");
    assert!(critical <= 100 && low <= 100);
}

#[test]
fn empty_bytecode_fails_contract_validation_for_any_address() {
    let mut auditor = auditor();
    let mut store = AlertStore::new();
    for (address, chain) in [(ADDRESS, 1u64), ("0x0000000000000000000000000000000000000000", 137)] {
        let result = auditor.audit_contract(address.to_string(), chain, &[], 7, 1, &mut store);
        assert!(
            matches!(result, Err(SecurityError::ContractValidation(_))),
            "empty bytecode at {address} must fail ContractValidation"
        );
    }
    assert_eq!(store.len(), 0);

    let direct = scan_smart_contract(ADDRESS.to_string(), &[], &auditor.patterns, 7);
    assert!(matches!(direct, Err(SecurityError::ContractValidation(_))));
}

#[test]
fn malformed_address_fails_contract_validation() {
    let mut auditor = auditor();
    let mut store = AlertStore::new();
    let result = auditor.audit_contract("not-an-address".to_string(), 1, &[0x60], 7, 1, &mut store);
    assert!(matches!(result, Err(SecurityError::ContractValidation(_))));
}

#[test]
fn find_pattern_reports_the_first_match() {
    assert_eq!(find_pattern(&[0x60, 0xff, 0x00, 0xff], &[0xff]), Some(1));
    assert_eq!(find_pattern(&[0x60, 0x00], &[0xff]), None);
    assert_eq!(find_pattern(&[1, 2, 3, 4], &[3, 4]), Some(2));
    assert_eq!(find_pattern(&[1, 2], &[1, 2, 3]), None);
}

#[test]
fn clean_bytecode_reports_score_100_and_no_alerts() {
    let mut auditor = auditor();
    let mut store = AlertStore::new();
    let code = [0x60u8, 0x00, 0x60, 0x00, 0x01];
    let report = auditor
        .audit_contract(ADDRESS.to_string(), 1, &code, 7, 2, &mut store)
        .unwrap();
    assert_eq!(report.security_score, 100);
    assert!(report.vulnerabilities.is_empty());
    assert!(report.recommendations.is_empty());
    assert_eq!(report.chain_id, 1);
    assert_eq!(report.audit_timestamp, 7);
    assert_eq!(report.metadata.bytecode_size, 5);
    assert_eq!(report.metadata.patterns_checked, 5);
    assert!(!report.metadata.size_limit_exceeded);
    assert_eq!(store.len(), 0);
}

#[test]
fn severe_findings_lower_the_score_and_raise_alerts() {
    let mut auditor = auditor();
    let mut store = AlertStore::new();
    // SELFDESTRUCT (0xff) at offset 2 and DELEGATECALL (0xf4) at offset 4.
    let code = [0x60u8, 0x00, 0xff, 0x00, 0xf4];
    let report = auditor
        .audit_contract(ADDRESS.to_string(), 1, &code, 7, 2, &mut store)
        .unwrap();
    assert_eq!(report.security_score, 100 - 30 - 20);
    assert_eq!(report.vulnerabilities.len(), 2);
    let first = &report.vulnerabilities[0];
    assert_eq!(first.severity, "critical");
    assert_eq!(first.location.as_ref().unwrap().byte_offset, 2);
    assert_eq!(first.risk_level, 120);
    let second = &report.vulnerabilities[1];
    assert_eq!(second.severity, "high");
    assert_eq!(second.location.as_ref().unwrap().byte_offset, 4);
    assert_eq!(second.risk_level, 96);
    assert_eq!(report.recommendations.len(), 2);

    // One alert per critical or high finding, attributed to the system.
    assert_eq!(store.len(), 2);
    assert_eq!(store.get(0).severity(), "critical");
    assert_eq!(store.get(1).severity(), "high");
    assert_eq!(store.get(0).status(), "new");
    assert_eq!(store.get(0).user_id(), "system");
    assert!(store.get(0).description().starts_with(ADDRESS));
}

#[test]
fn oversized_bytecode_is_annotated_and_counted_but_still_audited() {
    let mut auditor = SmartContractAuditor::new(AuditConfig {
        max_contract_size: 4,
        scan_timeout_seconds: 300,
        min_security_score: 80,
    });
    let mut store = AlertStore::new();
    let code = [0x60u8, 0x00, 0x60, 0x00, 0x01];
    assert_eq!(auditor.size_violations, 0);
    let report = auditor
        .audit_contract(ADDRESS.to_string(), 1, &code, 7, 2, &mut store)
        .unwrap();
    assert!(report.metadata.size_limit_exceeded);
    assert_eq!(auditor.size_violations, 1);
    assert_eq!(report.security_score, 100);
}

#[test]
fn risk_levels_grow_by_a_fifth_with_a_known_location() {
    let auditor = auditor();
    let located = |severity: &str| VulnerabilityDetail {
        severity: severity.to_string(),
        title: "t".to_string(),
        description: "d".to_string(),
        location: Some(CodeLocation {
            line_number: None,
            function_name: None,
            byte_offset: 0,
        }),
        risk_level: 0,
        remediation_steps: vec![],
    };
    let bare = |severity: &str| VulnerabilityDetail {
        location: None,
        ..located(severity)
    };
    assert_eq!(auditor.calculate_risk_level(&bare("critical")), 100);
    assert_eq!(auditor.calculate_risk_level(&bare("high")), 80);
    assert_eq!(auditor.calculate_risk_level(&bare("medium")), 60);
    assert_eq!(auditor.calculate_risk_level(&bare("low")), 40);
    assert_eq!(auditor.calculate_risk_level(&bare("info")), 20);
    assert_eq!(auditor.calculate_risk_level(&located("critical")), 120);
    assert_eq!(auditor.calculate_risk_level(&located("high")), 96);
    assert_eq!(auditor.calculate_risk_level(&located("medium")), 72);
    assert_eq!(auditor.calculate_risk_level(&located("low")), 48);
    assert_eq!(auditor.calculate_risk_level(&located("info")), 24);
}

#[test]
fn map_severity_uses_canonical_names() {
    let auditor = auditor();
    assert_eq!(auditor.map_severity(SecuritySeverity::Critical), "critical");
    assert_eq!(auditor.map_severity(SecuritySeverity::High), "high");
    assert_eq!(auditor.map_severity(SecuritySeverity::Medium), "medium");
    assert_eq!(auditor.map_severity(SecuritySeverity::Low), "low");
    assert_eq!(auditor.map_severity(SecuritySeverity::Info), "info");
}
