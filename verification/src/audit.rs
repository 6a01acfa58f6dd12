//! The contract-audit engine: address validation, the vulnerability-pattern
//! catalog, report generation, and alerts for severe findings.
//!
//! Fetching bytecode is network work and belongs to the embedding program;
//! the engine takes the fetched bytes and does everything after that.

use vstd::prelude::*;

use crate::alert::{severity_of, str_eq, AlertStore, Status, StatusTransition};
use crate::connector::{BlockchainSettings, SecurityError, SecurityRules};
use crate::scan::{
    finding_severity_name, finding_severity_str, scan_smart_contract, scan_findings, score_of,
    ContractAnalysis, SecuritySeverity, VulnPattern, Vulnerability,
};
use vstd::string::StringExecFns;

verus! {

/// Whether a character is a hexadecimal digit.
pub open spec fn is_hex_digit(c: char) -> bool {
    let u = c as u32;
    (48 <= u && u <= 57) || (97 <= u && u <= 102) || (65 <= u && u <= 70)
}

/// What a well-formed contract address is: `0x` followed by exactly forty
/// hexadecimal digits.
pub open spec fn valid_address(s: Seq<char>) -> bool {
    &&& s.len() == 42
    &&& s[0] == '0'
    &&& s[1] == 'x'
    &&& forall|i: int| 2 <= i < 42 ==> is_hex_digit(#[trigger] s[i])
}

/// Decides whether a character is a hexadecimal digit.
pub fn char_is_hex_digit(c: char) -> (r: bool)
    ensures
        r == is_hex_digit(c),
{
    let u = c as u32;
    (48 <= u && u <= 57) || (97 <= u && u <= 102) || (65 <= u && u <= 70)
}

/// Decides whether a string is a well-formed contract address.
pub fn is_valid_address(s: &str) -> (r: bool)
    ensures
        r == valid_address(s@),
{
    let n = s.unicode_len();
    if n != 42 {
        return false;
    }
    if s.get_char(0) != '0' || s.get_char(1) != 'x' {
        return false;
    }
    let mut i: usize = 2;
    while i < 42
        invariant
            s@.len() == 42,
            2 <= i <= 42,
            forall|j: int| 2 <= j < i ==> is_hex_digit(#[trigger] s@[j]),
        decreases 42 - i,
    {
        if !char_is_hex_digit(s.get_char(i)) {
            return false;
        }
        i += 1;
    }
    true
}

/// Audit policy: the size limit, the scan timeout, and the score below which
/// a contract is considered failing.
#[derive(Clone, Copy, Debug, PartialEq, Eq, Structural)]
pub struct AuditConfig {
    pub max_contract_size: usize,
    pub scan_timeout_seconds: u32,
    pub min_security_score: u32,
}

/// Where in the code a finding sits.
#[derive(Clone, Debug)]
pub struct CodeLocation {
    pub line_number: Option<u32>,
    pub function_name: Option<String>,
    pub byte_offset: u64,
}

/// One finding of an audit, ready for reporting.
#[derive(Clone, Debug)]
pub struct VulnerabilityDetail {
    pub severity: String,
    pub title: String,
    pub description: String,
    pub location: Option<CodeLocation>,
    pub risk_level: u32,
    pub remediation_steps: Vec<String>,
}

/// Observability data of one audit.
#[derive(Clone, Debug)]
pub struct AuditMetadata {
    pub duration_ms: u64,
    pub patterns_checked: u32,
    pub bytecode_size: usize,
    pub compiler_version: Option<String>,
    pub optimization_used: bool,
    pub size_limit_exceeded: bool,
}

/// The report of one contract audit.
#[derive(Clone, Debug)]
pub struct AuditReport {
    pub contract_address: String,
    pub chain_id: u64,
    pub security_score: u32,
    pub vulnerabilities: Vec<VulnerabilityDetail>,
    pub recommendations: Vec<String>,
    pub audit_timestamp: u64,
    pub metadata: AuditMetadata,
}

/// The base risk of a finding, by its severity name.
pub open spec fn risk_base(severity: Seq<char>) -> int {
    if severity == "critical"@ {
        100
    } else if severity == "high"@ {
        80
    } else if severity == "medium"@ {
        60
    } else if severity == "low"@ {
        40
    } else {
        20
    }
}

/// The risk level of a finding: its base risk, raised by a fifth when the
/// code location is known.
pub open spec fn risk_level_of(severity: Seq<char>, has_location: bool) -> int {
    if has_location {
        risk_base(severity) * 6 / 5
    } else {
        risk_base(severity)
    }
}

/// The contract-audit engine: the pattern catalog, the audit policy, and the
/// count of size violations seen.
pub struct SmartContractAuditor {
    pub config: AuditConfig,
    pub patterns: Vec<VulnPattern>,
    pub settings: BlockchainSettings,
    pub size_violations: u64,
}

impl SmartContractAuditor {
    /// The built-in vulnerability-pattern catalog: opcode-level signatures
    /// for self-destruction, delegated calls, authorization by transaction
    /// origin, external calls and legacy call-code use.
    pub fn initialize_patterns() -> (r: Vec<VulnPattern>)
        ensures
            r@.len() == 5,
            forall|i: int| 0 <= i < 5 ==> (#[trigger] r@[i]).signature@.len() > 0,
            r@[0].severity == SecuritySeverity::Critical,
            r@[1].severity == SecuritySeverity::High,
            r@[2].severity == SecuritySeverity::Medium,
            r@[3].severity == SecuritySeverity::Low,
            r@[4].severity == SecuritySeverity::Info,
    {
        let mut patterns: Vec<VulnPattern> = Vec::new();
        let mut sig_selfdestruct: Vec<u8> = Vec::new();
        sig_selfdestruct.push(0xff);
        patterns.push(
            VulnPattern {
                name: "selfdestruct".to_owned(),
                severity: SecuritySeverity::Critical,
                signature: sig_selfdestruct,
                description: "SELFDESTRUCT opcode is reachable".to_owned(),
                recommendation: "remove self-destruction or guard it behind governance".to_owned(),
            },
        );
        let mut sig_delegatecall: Vec<u8> = Vec::new();
        sig_delegatecall.push(0xf4);
        patterns.push(
            VulnPattern {
                name: "delegatecall".to_owned(),
                severity: SecuritySeverity::High,
                signature: sig_delegatecall,
                description: "DELEGATECALL hands control to foreign code".to_owned(),
                recommendation: "pin the delegate target and audit its storage layout".to_owned(),
            },
        );
        let mut sig_origin: Vec<u8> = Vec::new();
        sig_origin.push(0x32);
        patterns.push(
            VulnPattern {
                name: "tx-origin-auth".to_owned(),
                severity: SecuritySeverity::Medium,
                signature: sig_origin,
                description: "authorization may rest on the transaction origin".to_owned(),
                recommendation: "authorize by message sender, never by transaction origin"
                    .to_owned(),
            },
        );
        let mut sig_call: Vec<u8> = Vec::new();
        sig_call.push(0xf1);
        patterns.push(
            VulnPattern {
                name: "external-call".to_owned(),
                severity: SecuritySeverity::Low,
                signature: sig_call,
                description: "an external call can reenter before state settles".to_owned(),
                recommendation: "update state before external calls and check their results"
                    .to_owned(),
            },
        );
        let mut sig_callcode: Vec<u8> = Vec::new();
        sig_callcode.push(0xf2);
        patterns.push(
            VulnPattern {
                name: "callcode".to_owned(),
                severity: SecuritySeverity::Info,
                signature: sig_callcode,
                description: "the legacy CALLCODE opcode is present".to_owned(),
                recommendation: "prefer DELEGATECALL semantics reviewed for storage safety"
                    .to_owned(),
            },
        );
        patterns
    }

    /// Builds the engine: the built-in catalog, and connectivity settings
    /// whose analysis rules carry the configured size limit and score floor.
    pub fn new(config: AuditConfig) -> (r: SmartContractAuditor)
        ensures
            r.config == config,
            r.patterns@.len() == 5,
            r.settings.security_rules.max_contract_size == config.max_contract_size,
            r.settings.security_rules.minimum_security_score == config.min_security_score,
            r.size_violations == 0,
    {
        let settings = BlockchainSettings::new(None);
        let mut forbidden_opcodes: Vec<String> = Vec::new();
        forbidden_opcodes.push("SELFDESTRUCT".to_owned());
        forbidden_opcodes.push("DELEGATECALL".to_owned());
        let mut risk_patterns: Vec<String> = Vec::new();
        risk_patterns.push("reentrancy".to_owned());
        risk_patterns.push("overflow".to_owned());
        risk_patterns.push("unchecked-send".to_owned());
        let settings = settings.with_security_rules(
            SecurityRules {
                max_contract_size: config.max_contract_size,
                forbidden_opcodes,
                risk_patterns,
                minimum_security_score: config.min_security_score,
            },
        );
        SmartContractAuditor {
            config,
            patterns: Self::initialize_patterns(),
            settings,
            size_violations: 0,
        }
    }

    /// Maps a finding severity to its reporting name.
    pub fn map_severity(&self, severity: SecuritySeverity) -> (r: String)
        ensures
            r@ == finding_severity_name(severity),
    {
        finding_severity_str(severity).to_owned()
    }

    /// The risk level of a finding: the base risk of its severity, raised by
    /// a fifth when a code location is known.
    pub fn calculate_risk_level(&self, vulnerability: &VulnerabilityDetail) -> (r: u32)
        ensures
            r as int == risk_level_of(vulnerability.severity@, vulnerability.location is Some),
    {
        let base: u32 = if crate::alert::str_eq(vulnerability.severity.as_str(), "critical") {
            100
        } else if crate::alert::str_eq(vulnerability.severity.as_str(), "high") {
            80
        } else if crate::alert::str_eq(vulnerability.severity.as_str(), "medium") {
            60
        } else if crate::alert::str_eq(vulnerability.severity.as_str(), "low") {
            40
        } else {
            20
        };
        if vulnerability.location.is_some() {
            base * 6 / 5
        } else {
            base
        }
    }
}

/// What one finding looks like in the report.
pub open spec fn detail_matches(d: VulnerabilityDetail, f: Vulnerability) -> bool {
    &&& d.severity@ == finding_severity_name(f.severity)
    &&& d.title == f.description
    &&& d.description == f.description
    &&& (d.location is Some <==> f.location is Some)
    &&& (d.location matches Some(l) ==> (f.location matches Some(off) && l.byte_offset == off
        && l.line_number is None && l.function_name is None))
    &&& d.risk_level as int == risk_level_of(finding_severity_name(f.severity), f.location is Some)
    &&& d.remediation_steps@.len() == 1
    &&& d.remediation_steps@[0] == f.recommendation
}

/// The report details whose severity name triggers an alert.
pub open spec fn severe_details(details: Seq<VulnerabilityDetail>) -> Seq<VulnerabilityDetail>
    decreases details.len(),
{
    if details.len() == 0 {
        Seq::empty()
    } else {
        let prefix = severe_details(details.drop_last());
        if details.last().severity@ == "critical"@ || details.last().severity@ == "high"@ {
            prefix.push(details.last())
        } else {
            prefix
        }
    }
}

impl SmartContractAuditor {
    /// Turns a scan result into the full report: one detail per finding with
    /// its severity name, risk level and remediation, plus score,
    /// recommendations and observability metadata.
    pub fn generate_audit_report(
        &self,
        analysis: ContractAnalysis,
        chain_id: u64,
        duration_ms: u64,
        bytecode_size: usize,
    ) -> (r: AuditReport)
        requires
            self.patterns@.len() <= u32::MAX,
        ensures
            r.contract_address == analysis.address,
            r.chain_id == chain_id,
            r.security_score == analysis.security_score,
            r.audit_timestamp == analysis.audit_timestamp,
            r.vulnerabilities@.len() == analysis.vulnerabilities@.len(),
            forall|i: int|
                0 <= i < r.vulnerabilities@.len() ==> detail_matches(
                    #[trigger] r.vulnerabilities@[i],
                    analysis.vulnerabilities@[i],
                ),
            r.recommendations == analysis.recommendations,
            r.metadata.duration_ms == duration_ms,
            r.metadata.patterns_checked == self.patterns@.len(),
            r.metadata.bytecode_size == bytecode_size,
            r.metadata.size_limit_exceeded == (bytecode_size > self.config.max_contract_size),
    {
        let n = analysis.vulnerabilities.len();
        let mut details: Vec<VulnerabilityDetail> = Vec::new();
        let mut i: usize = 0;
        while i < n
            invariant
                n == analysis.vulnerabilities@.len(),
                0 <= i <= n,
                details@.len() == i,
                forall|j: int|
                    0 <= j < i ==> detail_matches(
                        #[trigger] details@[j],
                        analysis.vulnerabilities@[j],
                    ),
            decreases n - i,
        {
            let f = &analysis.vulnerabilities[i];
            let severity = self.map_severity(f.severity);
            let location = match f.location {
                Some(off) => Some(
                    CodeLocation { line_number: None, function_name: None, byte_offset: off },
                ),
                None => None,
            };
            let mut remediation_steps: Vec<String> = Vec::new();
            remediation_steps.push(f.recommendation.clone());
            let mut detail = VulnerabilityDetail {
                severity,
                title: f.description.clone(),
                description: f.description.clone(),
                location,
                risk_level: 0,
                remediation_steps,
            };
            let risk_level = self.calculate_risk_level(&detail);
            detail.risk_level = risk_level;
            details.push(detail);
            i += 1;
        }
        AuditReport {
            contract_address: analysis.address,
            chain_id,
            security_score: analysis.security_score,
            vulnerabilities: details,
            recommendations: analysis.recommendations,
            audit_timestamp: analysis.audit_timestamp,
            metadata: AuditMetadata {
                duration_ms,
                patterns_checked: self.patterns.len() as u32,
                bytecode_size,
                compiler_version: None,
                optimization_used: false,
                size_limit_exceeded: bytecode_size > self.config.max_contract_size,
            },
        }
    }

    /// Raises one alert per `critical` or `high` finding of the report. The
    /// report itself always stands, whatever happens to the alerts; every
    /// alert raised starts `new`, names the contract in its description, and
    /// is attributed to the system.
    pub fn process_security_alerts(&self, report: &AuditReport, store: &mut AlertStore) -> (r:
        Result<(), SecurityError>)
        requires
            old(store).wf(),
        ensures
            final(store).wf(),
            r is Ok,
            final(store)@.len() == old(store)@.len() + severe_details(
                report.vulnerabilities@,
            ).len(),
            forall|k: int|
                0 <= k < old(store)@.len() ==> final(store)@[k] == (#[trigger] old(store)@[k]),
            forall|k: int|
                0 <= k < severe_details(report.vulnerabilities@).len() ==> {
                    let d = severe_details(report.vulnerabilities@)[k];
                    let a = #[trigger] final(store)@[old(store)@.len() + k];
                    &&& severity_of(d.severity@) == Some(a@.severity)
                    &&& a@.status == Status::New
                    &&& a@.history =~= Seq::<StatusTransition>::empty()
                    &&& a@.user_id == "system"@
                    &&& a@.description == report.contract_address@ + ": "@ + d.title@
                },
    {
        let n = report.vulnerabilities.len();
        let mut i: usize = 0;
        while i < n
            invariant
                n == report.vulnerabilities@.len(),
                0 <= i <= n,
                store.wf(),
                store@.len() == old(store)@.len() + severe_details(
                    report.vulnerabilities@.take(i as int),
                ).len(),
                forall|k: int|
                    0 <= k < old(store)@.len() ==> store@[k] == (#[trigger] old(store)@[k]),
                forall|k: int|
                    0 <= k < severe_details(report.vulnerabilities@.take(i as int)).len() ==> {
                        let d = severe_details(report.vulnerabilities@.take(i as int))[k];
                        let a = #[trigger] store@[old(store)@.len() + k];
                        &&& severity_of(d.severity@) == Some(a@.severity)
                        &&& a@.status == Status::New
                        &&& a@.history =~= Seq::<StatusTransition>::empty()
                        &&& a@.user_id == "system"@
                        &&& a@.description == report.contract_address@ + ": "@ + d.title@
                    },
            decreases n - i,
        {
            proof {
                assert(report.vulnerabilities@.take(i + 1).drop_last() =~= report.vulnerabilities@
                    .take(i as int));
                assert(report.vulnerabilities@.take(i + 1).last() == report.vulnerabilities@[
                    i as int]);
            }
            let d = &report.vulnerabilities[i];
            if str_eq(d.severity.as_str(), "critical") || str_eq(d.severity.as_str(), "high") {
                let ghost pre: Seq<crate::alert::Alert> = store@;
                let ghost pre_severe = severe_details(report.vulnerabilities@.take(i as int));
                let description = report.contract_address.clone().concat(": ").concat(
                    d.title.as_str(),
                );
                let created = store.create(d.severity.clone(), description, "system".to_owned());
                proof {
                    assert(created is Ok);
                    assert(severe_details(report.vulnerabilities@.take(i + 1)) =~= pre_severe.push(
                        report.vulnerabilities@[i as int],
                    ));
                    assert(store@.drop_last() =~= pre);
                    assert forall|k: int| 0 <= k < pre.len() implies store@[k] == pre[k] by {
                        assert(store@.drop_last()[k] == store@[k]);
                    }
                    assert(store@[old(store)@.len() + pre_severe.len() as int] == store@.last());
                    assert forall|k: int|
                        0 <= k < severe_details(report.vulnerabilities@.take(i + 1)).len() implies {
                        let dd = severe_details(report.vulnerabilities@.take(i + 1))[k];
                        let a = #[trigger] store@[old(store)@.len() + k];
                        &&& severity_of(dd.severity@) == Some(a@.severity)
                        &&& a@.status == Status::New
                        &&& a@.history =~= Seq::<StatusTransition>::empty()
                        &&& a@.user_id == "system"@
                        &&& a@.description == report.contract_address@ + ": "@ + dd.title@
                    } by {
                        if k < pre_severe.len() {
                            assert(severe_details(report.vulnerabilities@.take(i + 1))[k]
                                == pre_severe[k]);
                            assert(store@[old(store)@.len() + k] == pre[old(store)@.len() + k]);
                        } else {
                            assert(k == pre_severe.len());
                            assert(severe_details(report.vulnerabilities@.take(i + 1))[k]
                                == report.vulnerabilities@[i as int]);
                            assert(store@[old(store)@.len() + k] == store@.last());
                        }
                    }
                }
            }
            i += 1;
        }
        proof {
            assert(report.vulnerabilities@.take(n as int) =~= report.vulnerabilities@);
        }
        Ok(())
    }

    /// Audits a contract from its fetched bytecode: a malformed address or
    /// empty code fails `ContractValidation` with nothing changed; otherwise
    /// the catalog is evaluated, oversized code is noted in the report and
    /// counted rather than aborting, one alert is raised per severe finding,
    /// and the report always carries score, findings, recommendations and
    /// scan metadata.
    pub fn audit_contract(
        &mut self,
        contract_address: String,
        chain_id: u64,
        code: &[u8],
        now_secs: u64,
        duration_ms: u64,
        store: &mut AlertStore,
    ) -> (r: Result<AuditReport, SecurityError>)
        requires
            old(store).wf(),
            old(self).patterns@.len() <= u32::MAX,
        ensures
            final(store).wf(),
            final(self).config == old(self).config,
            final(self).patterns == old(self).patterns,
            final(self).settings == old(self).settings,
            r is Ok <==> (valid_address(contract_address@) && code@.len() > 0),
            r matches Err(e) ==> (e matches SecurityError::ContractValidation(_) && *final(self)
                == *old(self) && final(store)@ == old(store)@),
            r matches Ok(report) ==> {
                let findings = scan_findings(code@, old(self).patterns@);
                &&& report.contract_address@ == contract_address@
                &&& report.chain_id == chain_id
                &&& report.security_score as int == score_of(findings)
                &&& report.security_score <= 100
                &&& report.audit_timestamp == now_secs
                &&& report.vulnerabilities@.len() == findings.len()
                &&& (forall|i: int|
                    0 <= i < findings.len() ==> detail_matches(
                        #[trigger] report.vulnerabilities@[i],
                        findings[i],
                    ))
                &&& report.recommendations@.len() == findings.len()
                &&& (forall|i: int|
                    0 <= i < findings.len() ==> report.recommendations@[i]@ == (
                    #[trigger] findings[i]).recommendation@)
                &&& report.metadata.duration_ms == duration_ms
                &&& report.metadata.patterns_checked == old(self).patterns@.len()
                &&& report.metadata.bytecode_size == code@.len()
                &&& report.metadata.size_limit_exceeded == (code@.len() > old(self).config.max_contract_size)
                &&& (code@.len() > old(self).config.max_contract_size ==> final(self).size_violations as int == vstd::math::min(
                    old(self).size_violations + 1,
                    u64::MAX as int,
                ))
                &&& (code@.len() <= old(self).config.max_contract_size ==> final(self).size_violations == old(self).size_violations)
                &&& final(store)@.len() == old(store)@.len() + severe_details(
                    report.vulnerabilities@,
                ).len()
                &&& (forall|k: int|
                    0 <= k < old(store)@.len() ==> final(store)@[k] == (#[trigger] old(store)@[k]))
            },
    {
        if !is_valid_address(contract_address.as_str()) {
            return Err(SecurityError::ContractValidation("malformed contract address".to_owned()));
        }
        let analysis = match scan_smart_contract(contract_address, code, &self.patterns, now_secs) {
            Ok(a) => a,
            Err(e) => {
                return Err(e);
            },
        };
        if code.len() > self.config.max_contract_size {
            self.size_violations = if self.size_violations < u64::MAX {
                self.size_violations + 1
            } else {
                self.size_violations
            };
        }
        let report = self.generate_audit_report(analysis, chain_id, duration_ms, code.len());
        match self.process_security_alerts(&report, store) {
            Ok(()) => {},
            Err(e) => {
                return Err(e);
            },
        }
        Ok(report)
    }
}

} // verus!
