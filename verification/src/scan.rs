//! Static analysis of contract bytecode: a pattern catalog is evaluated
//! against the code, findings are weighted by severity, and the security
//! score starts at 100 and falls by a per-severity deduction per finding,
//! clamped to the range from 0 to 100.

use vstd::prelude::*;

use crate::connector::SecurityError;

verus! {

/// The severity of a finding, ordered
/// `Info < Low < Medium < High < Critical`.
#[derive(Clone, Copy, Debug, PartialEq, Eq, Structural)]
pub enum SecuritySeverity {
    Critical,
    High,
    Medium,
    Low,
    Info,
}

/// The canonical name of a finding severity.
pub open spec fn finding_severity_name(sv: SecuritySeverity) -> Seq<char> {
    match sv {
        SecuritySeverity::Critical => "critical"@,
        SecuritySeverity::High => "high"@,
        SecuritySeverity::Medium => "medium"@,
        SecuritySeverity::Low => "low"@,
        SecuritySeverity::Info => "info"@,
    }
}

/// Renders a finding severity under its canonical name.
pub fn finding_severity_str(sv: SecuritySeverity) -> (r: &'static str)
    ensures
        r@ == finding_severity_name(sv),
{
    match sv {
        SecuritySeverity::Critical => "critical",
        SecuritySeverity::High => "high",
        SecuritySeverity::Medium => "medium",
        SecuritySeverity::Low => "low",
        SecuritySeverity::Info => "info",
    }
}

/// How many points one finding of each severity deducts from the score:
/// strictly more the more severe the finding.
pub open spec fn severity_weight(sv: SecuritySeverity) -> int {
    match sv {
        SecuritySeverity::Critical => 30,
        SecuritySeverity::High => 20,
        SecuritySeverity::Medium => 12,
        SecuritySeverity::Low => 6,
        SecuritySeverity::Info => 2,
    }
}

/// The deduction of one finding, as an executable value.
pub fn severity_weight_exec(sv: SecuritySeverity) -> (r: u32)
    ensures
        r as int == severity_weight(sv),
{
    match sv {
        SecuritySeverity::Critical => 30,
        SecuritySeverity::High => 20,
        SecuritySeverity::Medium => 12,
        SecuritySeverity::Low => 6,
        SecuritySeverity::Info => 2,
    }
}

/// One security finding of a bytecode scan.
#[derive(Clone, Debug)]
pub struct Vulnerability {
    pub severity: SecuritySeverity,
    pub description: String,
    /// The byte offset of the first match in the bytecode, where known.
    pub location: Option<u64>,
    pub recommendation: String,
}

/// One entry of the vulnerability-pattern catalog: a byte signature to
/// search for, and what to report when it is found.
#[derive(Clone, Debug)]
pub struct VulnPattern {
    pub name: String,
    pub severity: SecuritySeverity,
    pub signature: Vec<u8>,
    pub description: String,
    pub recommendation: String,
}

/// Whether the pattern bytes occur in the code starting at offset `i`.
pub open spec fn matches_at(code: Seq<u8>, pat: Seq<u8>, i: int) -> bool {
    &&& 0 <= i
    &&& i + pat.len() <= code.len()
    &&& forall|j: int| 0 <= j < pat.len() ==> code[i + j] == #[trigger] pat[j]
}

/// Whether the pattern bytes occur anywhere in the code.
pub open spec fn contains_pattern(code: Seq<u8>, pat: Seq<u8>) -> bool {
    exists|i: int| matches_at(code, pat, i)
}

/// Finds the first occurrence of the pattern bytes in the code.
pub fn find_pattern(code: &[u8], pat: &[u8]) -> (r: Option<usize>)
    ensures
        r matches Some(i) ==> matches_at(code@, pat@, i as int) && forall|k: int|
            0 <= k < i ==> !matches_at(code@, pat@, k),
        r is None ==> !contains_pattern(code@, pat@),
{
    let n = code.len();
    let m = pat.len();
    if m > n {
        proof {
            assert forall|i: int| !matches_at(code@, pat@, i) by {}
        }
        return None;
    }
    let mut i: usize = 0;
    while i <= n - m
        invariant
            m <= n,
            n == code@.len(),
            m == pat@.len(),
            0 <= i <= n - m + 1,
            forall|k: int| 0 <= k < i ==> !matches_at(code@, pat@, k),
        decreases n + 1 - i,
    {
        let mut j: usize = 0;
        let mut hit = true;
        while j < m
            invariant
                m <= n,
                n == code@.len(),
                m == pat@.len(),
                0 <= i <= n - m,
                0 <= j <= m,
                hit ==> forall|l: int| 0 <= l < j ==> code@[i + l] == #[trigger] pat@[l],
                !hit ==> !matches_at(code@, pat@, i as int),
            decreases m - j,
        {
            if code[i + j] != pat[j] {
                hit = false;
                j = m;
            } else {
                j += 1;
            }
        }
        if hit {
            return Some(i);
        }
        i += 1;
    }
    proof {
        assert forall|k: int| !matches_at(code@, pat@, k) by {
            if 0 <= k <= n - m {
                assert(!matches_at(code@, pat@, k));
            }
        }
    }
    None
}

/// The first offset at which the pattern occurs at or after `from`, if any.
pub open spec fn first_match_from(code: Seq<u8>, pat: Seq<u8>, from: int) -> Option<int>
    decreases vstd::math::max(0, code.len() - from),
{
    if from + pat.len() > code.len() || from < 0 {
        None
    } else if matches_at(code, pat, from) {
        Some(from)
    } else {
        first_match_from(code, pat, from + 1)
    }
}

/// The findings of a scan: one `Vulnerability` per catalog entry whose
/// signature occurs in the code, located at its first occurrence, in catalog
/// order.
pub open spec fn scan_findings(code: Seq<u8>, pats: Seq<VulnPattern>) -> Seq<Vulnerability>
    decreases pats.len(),
{
    if pats.len() == 0 {
        Seq::empty()
    } else {
        let prefix = scan_findings(code, pats.drop_last());
        let p = pats.last();
        if contains_pattern(code, p.signature@) {
            prefix.push(
                Vulnerability {
                    severity: p.severity,
                    description: p.description,
                    location: scan_location(code, p.signature@),
                    recommendation: p.recommendation,
                },
            )
        } else {
            prefix
        }
    }
}

/// Where a finding is located: the first occurrence of its signature.
pub open spec fn scan_location(code: Seq<u8>, pat: Seq<u8>) -> Option<u64> {
    match first_match_from(code, pat, 0) {
        Some(i) => Some(i as u64),
        None => None,
    }
}

/// First occurrences agree between the search and its specification.
proof fn lemma_first_match_from_correct(code: Seq<u8>, pat: Seq<u8>, from: int, found: int)
    requires
        0 <= from <= found,
        matches_at(code, pat, found),
        forall|k: int| from <= k < found ==> !matches_at(code, pat, k),
    ensures
        first_match_from(code, pat, from) == Some(found),
    decreases found - from,
{
    if from < found {
        lemma_first_match_from_correct(code, pat, from + 1, found);
    }
}

/// A pattern that occurs nowhere has no first occurrence.
proof fn lemma_first_match_from_none(code: Seq<u8>, pat: Seq<u8>, from: int)
    requires
        !contains_pattern(code, pat),
    ensures
        first_match_from(code, pat, from) is None,
    decreases code.len() - from,
{
    if pat.len() == 0 {
        assert(matches_at(code, pat, 0));
    } else if 0 <= from && from + pat.len() <= code.len() {
        assert(!matches_at(code, pat, from));
        lemma_first_match_from_none(code, pat, from + 1);
    }
}

/// Evaluates the whole catalog against the code: exactly the matching
/// entries produce findings, in catalog order, each located at the first
/// occurrence of its signature.
pub fn analyze_vulnerabilities(code: &[u8], patterns: &Vec<VulnPattern>) -> (r: Vec<Vulnerability>)
    ensures
        r@ =~= scan_findings(code@, patterns@),
{
    let n = patterns.len();
    let mut out: Vec<Vulnerability> = Vec::new();
    let mut i: usize = 0;
    while i < n
        invariant
            n == patterns@.len(),
            0 <= i <= n,
            out@ =~= scan_findings(code@, patterns@.take(i as int)),
        decreases n - i,
    {
        proof {
            assert(patterns@.take(i + 1).drop_last() =~= patterns@.take(i as int));
            assert(patterns@.take(i + 1).last() == patterns@[i as int]);
        }
        let p = &patterns[i];
        match find_pattern(code, p.signature.as_slice()) {
            Some(at) => {
                proof {
                    lemma_first_match_from_correct(code@, p.signature@, 0, at as int);
                }
                out.push(
                    Vulnerability {
                        severity: p.severity,
                        description: p.description.clone(),
                        location: Some(at as u64),
                        recommendation: p.recommendation.clone(),
                    },
                );
            },
            None => {
                proof {
                    lemma_first_match_from_none(code@, p.signature@, 0);
                }
            },
        }
        i += 1;
    }
    proof {
        assert(patterns@.take(n as int) =~= patterns@);
    }
    out
}

/// The total deduction of a list of findings.
pub open spec fn total_weight(vulns: Seq<Vulnerability>) -> int
    decreases vulns.len(),
{
    if vulns.len() == 0 {
        0
    } else {
        total_weight(vulns.drop_last()) + severity_weight(vulns.last().severity)
    }
}

/// The security score of a list of findings: 100 minus the total deduction,
/// clamped to the range from 0 to 100.
pub open spec fn score_of(vulns: Seq<Vulnerability>) -> int {
    vstd::math::max(0, 100 - total_weight(vulns))
}

/// Deductions are never negative.
pub proof fn lemma_total_weight_nonneg(vulns: Seq<Vulnerability>)
    ensures
        total_weight(vulns) >= 0,
    decreases vulns.len(),
{
    if vulns.len() > 0 {
        lemma_total_weight_nonneg(vulns.drop_last());
    }
}

/// The security score always lies between 0 and 100, and an empty finding
/// list scores exactly 100.
pub proof fn lemma_score_bounds(vulns: Seq<Vulnerability>)
    ensures
        0 <= score_of(vulns) <= 100,
        vulns.len() == 0 ==> score_of(vulns) == 100,
{
    lemma_total_weight_nonneg(vulns);
}

/// All else equal, a single critical finding scores strictly below a single
/// low finding.
pub proof fn lemma_single_critical_below_single_low(vc: Vulnerability, vl: Vulnerability)
    requires
        vc.severity == SecuritySeverity::Critical,
        vl.severity == SecuritySeverity::Low,
    ensures
        score_of(seq![vc]) < score_of(seq![vl]),
{
    reveal_with_fuel(total_weight, 2);
    assert(seq![vc].drop_last() =~= Seq::<Vulnerability>::empty());
    assert(seq![vl].drop_last() =~= Seq::<Vulnerability>::empty());
    assert(seq![vc].last() == vc);
    assert(seq![vl].last() == vl);
    assert(total_weight(seq![vc]) == 30);
    assert(total_weight(seq![vl]) == 6);
}

/// Computes the security score of a list of findings.
pub fn calculate_security_score(vulns: &Vec<Vulnerability>) -> (r: u32)
    ensures
        r as int == score_of(vulns@),
        r <= 100,
{
    let n = vulns.len();
    let mut score: u32 = 100;
    let mut i: usize = 0;
    while i < n
        invariant
            n == vulns@.len(),
            0 <= i <= n,
            score as int == score_of(vulns@.take(i as int)),
            score <= 100,
        decreases n - i,
    {
        proof {
            assert(vulns@.take(i + 1).drop_last() =~= vulns@.take(i as int));
            assert(vulns@.take(i + 1).last() == vulns@[i as int]);
            lemma_total_weight_nonneg(vulns@.take(i as int));
        }
        let w = severity_weight_exec(vulns[i].severity);
        score = if score > w {
            score - w
        } else {
            0
        };
        i += 1;
    }
    proof {
        assert(vulns@.take(n as int) =~= vulns@);
    }
    score
}

/// One remediation recommendation per finding, in finding order.
pub fn generate_recommendations(vulns: &Vec<Vulnerability>) -> (r: Vec<String>)
    ensures
        r@.len() == vulns@.len(),
        forall|i: int| 0 <= i < vulns@.len() ==> r@[i]@ == (#[trigger] vulns@[i]).recommendation@,
{
    let n = vulns.len();
    let mut out: Vec<String> = Vec::new();
    let mut i: usize = 0;
    while i < n
        invariant
            n == vulns@.len(),
            0 <= i <= n,
            out@.len() == i,
            forall|j: int| 0 <= j < i ==> out@[j]@ == (#[trigger] vulns@[j]).recommendation@,
        decreases n - i,
    {
        out.push(vulns[i].recommendation.clone());
        i += 1;
    }
    out
}


/// What a bytecode scan produced.
#[derive(Clone, Debug)]
pub struct ContractAnalysis {
    pub address: String,
    pub security_score: u32,
    pub vulnerabilities: Vec<Vulnerability>,
    pub recommendations: Vec<String>,
    pub audit_timestamp: u64,
}

/// Analyzes fetched contract bytecode: empty code means no contract is
/// deployed and fails `ContractValidation`; otherwise the catalog is
/// evaluated and the findings scored.
pub fn scan_smart_contract(
    contract_address: String,
    code: &[u8],
    patterns: &Vec<VulnPattern>,
    now_secs: u64,
) -> (r: Result<ContractAnalysis, SecurityError>)
    ensures
        r is Ok <==> code@.len() > 0,
        r matches Err(e) ==> e matches SecurityError::ContractValidation(_),
        r matches Ok(analysis) ==> {
            &&& analysis.address@ == contract_address@
            &&& analysis.vulnerabilities@ =~= scan_findings(code@, patterns@)
            &&& analysis.security_score as int == score_of(scan_findings(code@, patterns@))
            &&& analysis.security_score <= 100
            &&& analysis.recommendations@.len() == scan_findings(code@, patterns@).len()
            &&& (forall|i: int|
                0 <= i < analysis.recommendations@.len() ==> analysis.recommendations@[i]@ == (
                #[trigger] scan_findings(code@, patterns@)[i]).recommendation@)
            &&& analysis.audit_timestamp == now_secs
        },
{
    if code.len() == 0 {
        return Err(SecurityError::ContractValidation("contract not deployed".to_owned()));
    }
    let vulnerabilities = analyze_vulnerabilities(code, patterns);
    let security_score = calculate_security_score(&vulnerabilities);
    let recommendations = generate_recommendations(&vulnerabilities);
    Ok(
        ContractAnalysis {
            address: contract_address,
            security_score,
            vulnerabilities,
            recommendations,
            audit_timestamp: now_secs,
        },
    )
}

} // verus!