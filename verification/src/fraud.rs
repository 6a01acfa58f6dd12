//! The fraud-detection engine: request validation, a rule-based scoring
//! model, severity classification against configured thresholds, the bounded
//! analysis cache, and alerts for risky transactions.

use vstd::prelude::*;

use crate::alert::{severity_of, str_eq, AlertStore, Status};
use crate::cache::AnalysisCache;
use crate::config::{FraudDetectionConfig, SeverityThresholds};
use crate::connector::SecurityError;

verus! {

/// The most a risk score or confidence can be, in basis points: the ratio
/// one.
pub const MAX_SCORE_BP: u32 = 10_000;

/// How old a transaction may be and still be analyzed, in seconds.
pub const MAX_TRANSACTION_AGE_SECONDS: u64 = 3600;

/// The capacity of the analysis cache.
pub const ANALYSIS_CACHE_SIZE: usize = 10_000;

/// How many transactions one monitoring batch holds at most.
pub const ANALYSIS_BATCH_SIZE: usize = 100;

/// The result of analyzing one transaction; never changed once produced.
#[derive(Clone, Debug)]
pub struct FraudAnalysis {
    pub transaction_id: String,
    /// Fraud likelihood in basis points, between 0 and 10000.
    pub risk_score_bp: u32,
    /// Confidence in the estimate, in basis points.
    pub confidence_bp: u32,
    pub patterns_detected: Vec<String>,
    pub severity: String,
    pub timestamp_secs: i64,
    pub metadata: Vec<(String, String)>,
}

/// One request to analyze a transaction.
#[derive(Clone, Debug)]
pub struct FraudDetectionRequest {
    pub transaction_id: String,
    /// When the transaction was observed, in seconds since the epoch.
    pub timestamp_secs: i64,
    /// The alerting threshold for this request, if the caller supplies one.
    pub risk_threshold_bp: Option<u32>,
    /// The transaction's extracted numeric features, by position.
    pub features: Vec<u64>,
}

/// One rule of the scoring model: it fires when the feature at its position
/// reaches its bound, and then contributes its weight to the risk score.
#[derive(Clone, Debug)]
pub struct FeatureRule {
    pub name: String,
    pub feature_index: usize,
    pub min_value: u64,
    pub weight_bp: u32,
}

/// The swappable scoring model: a versioned list of rules.
#[derive(Clone, Debug)]
pub struct ScoringModel {
    pub version: u64,
    pub rules: Vec<FeatureRule>,
}

/// Whether a rule fires on the given features.
pub open spec fn rule_fires(rule: FeatureRule, features: Seq<u64>) -> bool {
    rule.feature_index < features.len() && features[rule.feature_index as int] >= rule.min_value
}

/// The sum of the weights of the rules that fire.
pub open spec fn raw_risk(rules: Seq<FeatureRule>, features: Seq<u64>) -> int
    decreases rules.len(),
{
    if rules.len() == 0 {
        0
    } else {
        raw_risk(rules.drop_last(), features) + if rule_fires(rules.last(), features) {
            rules.last().weight_bp as int
        } else {
            0int
        }
    }
}

/// The risk score: the summed weights of the firing rules, capped at one.
pub open spec fn risk_of(rules: Seq<FeatureRule>, features: Seq<u64>) -> int {
    vstd::math::min(MAX_SCORE_BP as int, raw_risk(rules, features))
}

/// How many rules fire.
pub open spec fn fired_count(rules: Seq<FeatureRule>, features: Seq<u64>) -> int
    decreases rules.len(),
{
    if rules.len() == 0 {
        0
    } else {
        fired_count(rules.drop_last(), features) + if rule_fires(rules.last(), features) {
            1int
        } else {
            0int
        }
    }
}

/// The confidence: half to start, a tenth more per firing rule, capped at
/// one.
pub open spec fn confidence_of(rules: Seq<FeatureRule>, features: Seq<u64>) -> int {
    vstd::math::min(MAX_SCORE_BP as int, 5000 + 1000 * fired_count(rules, features))
}

/// The names of the firing rules, in model order.
pub open spec fn patterns_of(rules: Seq<FeatureRule>, features: Seq<u64>) -> Seq<String>
    decreases rules.len(),
{
    if rules.len() == 0 {
        Seq::empty()
    } else {
        let prefix = patterns_of(rules.drop_last(), features);
        if rule_fires(rules.last(), features) {
            prefix.push(rules.last().name)
        } else {
            prefix
        }
    }
}

/// Sums of rule weights never fall below zero.
pub proof fn lemma_raw_risk_nonneg(rules: Seq<FeatureRule>, features: Seq<u64>)
    ensures
        raw_risk(rules, features) >= 0,
        fired_count(rules, features) >= 0,
    decreases rules.len(),
{
    if rules.len() > 0 {
        lemma_raw_risk_nonneg(rules.drop_last(), features);
    }
}

/// Risk scores and confidences always lie between zero and one.
pub proof fn lemma_scores_bounded(rules: Seq<FeatureRule>, features: Seq<u64>)
    ensures
        0 <= risk_of(rules, features) <= MAX_SCORE_BP,
        0 <= confidence_of(rules, features) <= MAX_SCORE_BP,
{
    lemma_raw_risk_nonneg(rules, features);
}

/// What one scoring pass produced.
#[derive(Clone, Debug)]
pub struct ScoreOutcome {
    pub risk_bp: u32,
    pub confidence_bp: u32,
    pub patterns: Vec<String>,
}

/// Scores a transaction's features through the model.
pub fn score_transaction(model: &ScoringModel, features: &Vec<u64>) -> (r: ScoreOutcome)
    ensures
        r.risk_bp as int == risk_of(model.rules@, features@),
        r.confidence_bp as int == confidence_of(model.rules@, features@),
        r.patterns@ =~= patterns_of(model.rules@, features@),
        r.risk_bp <= MAX_SCORE_BP,
        r.confidence_bp <= MAX_SCORE_BP,
{
    let n = model.rules.len();
    let mut raw: u64 = 0;
    let mut fired: u64 = 0;
    let mut patterns: Vec<String> = Vec::new();
    let mut i: usize = 0;
    while i < n
        invariant
            n == model.rules@.len(),
            0 <= i <= n,
            raw <= MAX_SCORE_BP as u64,
            raw as int == vstd::math::min(
                MAX_SCORE_BP as int,
                raw_risk(model.rules@.take(i as int), features@),
            ),
            fired as int == fired_count(model.rules@.take(i as int), features@),
            fired <= i,
            patterns@ =~= patterns_of(model.rules@.take(i as int), features@),
        decreases n - i,
    {
        proof {
            assert(model.rules@.take(i + 1).drop_last() =~= model.rules@.take(i as int));
            assert(model.rules@.take(i + 1).last() == model.rules@[i as int]);
            lemma_raw_risk_nonneg(model.rules@.take(i as int), features@);
        }
        let rule = &model.rules[i];
        let fires = rule.feature_index < features.len() && features[rule.feature_index]
            >= rule.min_value;
        if fires {
            let grown = raw + rule.weight_bp as u64;
            raw = if grown > MAX_SCORE_BP as u64 {
                MAX_SCORE_BP as u64
            } else {
                grown
            };
            fired = fired + 1;
            patterns.push(rule.name.clone());
        }
        i += 1;
    }
    proof {
        assert(model.rules@.take(n as int) =~= model.rules@);
        lemma_raw_risk_nonneg(model.rules@, features@);
    }
    let risk_bp: u32 = raw as u32;
    let confidence_bp: u32 = if fired >= 5 {
        MAX_SCORE_BP
    } else {
        5000 + 1000 * (fired as u32)
    };
    ScoreOutcome { risk_bp, confidence_bp, patterns }
}

/// The networks the monitoring loop sweeps.
pub open spec fn network_supported(name: Seq<char>) -> bool {
    name == "ethereum"@ || name == "binance"@ || name == "polygon"@
}

/// Decides whether a network name belongs to the monitored set.
pub fn is_supported_network(name: &str) -> (r: bool)
    ensures
        r == network_supported(name@),
{
    str_eq(name, "ethereum") || str_eq(name, "binance") || str_eq(name, "polygon")
}

/// The severity that a risk score classifies as, against the configured
/// thresholds.
pub open spec fn classified_severity(risk_bp: u32, t: SeverityThresholds) -> Seq<char> {
    if risk_bp >= t.high_bp {
        "critical"@
    } else if risk_bp >= t.medium_bp {
        "high"@
    } else if risk_bp >= t.low_bp {
        "medium"@
    } else {
        "low"@
    }
}

/// Classifies a risk score against the configured thresholds.
pub fn classify_severity(risk_bp: u32, t: &SeverityThresholds) -> (r: &'static str)
    ensures
        r@ == classified_severity(risk_bp, *t),
{
    if risk_bp >= t.high_bp {
        "critical"
    } else if risk_bp >= t.medium_bp {
        "high"
    } else if risk_bp >= t.low_bp {
        "medium"
    } else {
        "low"
    }
}

/// A classified severity always names one of the four alert severities.
pub proof fn lemma_classified_severity_is_valid(risk_bp: u32, t: SeverityThresholds)
    ensures
        severity_of(classified_severity(risk_bp, t)) is Some,
{
}

/// Whether a request is acceptable: a transaction id is present and the
/// transaction is not staler than the maximum age.
pub open spec fn request_valid(req: FraudDetectionRequest, now_secs: i64) -> bool {
    &&& req.transaction_id@.len() > 0
    &&& now_secs - req.timestamp_secs <= MAX_TRANSACTION_AGE_SECONDS
}

/// The alerting threshold of a request: its own, or the configured default.
pub open spec fn effective_threshold(req: FraudDetectionRequest, cfg: FraudDetectionConfig) -> u32 {
    match req.risk_threshold_bp {
        Some(t) => t,
        None => cfg.detection_threshold_bp,
    }
}

/// What a fresh analysis of a request looks like.
pub open spec fn analysis_of(
    req: FraudDetectionRequest,
    model: ScoringModel,
    t: SeverityThresholds,
    now_secs: i64,
    a: FraudAnalysis,
) -> bool {
    &&& a.transaction_id@ == req.transaction_id@
    &&& a.risk_score_bp as int == risk_of(model.rules@, req.features@)
    &&& a.confidence_bp as int == confidence_of(model.rules@, req.features@)
    &&& a.patterns_detected@ =~= patterns_of(model.rules@, req.features@)
    &&& a.severity@ == classified_severity(a.risk_score_bp, t)
    &&& a.timestamp_secs == now_secs
}

/// One batch's outcome: everything was looked at, nothing stopped the batch.
#[derive(Clone, Copy, Debug, PartialEq, Eq, Structural)]
pub struct BatchOutcome {
    pub processed: usize,
    pub flagged: usize,
    pub failures: usize,
}

/// How many requests of a batch are invalid at the given time.
pub open spec fn invalid_count(batch: Seq<FraudDetectionRequest>, now_secs: i64) -> int
    decreases batch.len(),
{
    if batch.len() == 0 {
        0
    } else {
        invalid_count(batch.drop_last(), now_secs) + if request_valid(batch.last(), now_secs) {
            0int
        } else {
            1int
        }
    }
}

/// A counter bumped by one, held at the top of its range.
fn bump64(x: u64) -> (r: u64)
    ensures
        r as int == vstd::math::min(x + 1, u64::MAX as int),
{
    if x < u64::MAX {
        x + 1
    } else {
        x
    }
}

/// The fraud-detection engine: configuration, thresholds, the active scoring
/// model, the bounded analysis cache, and its counters.
pub struct FraudDetectionService {
    pub config: FraudDetectionConfig,
    pub thresholds: SeverityThresholds,
    pub model: ScoringModel,
    pub cache: AnalysisCache,
    pub alerts_generated: u64,
    /// The risk score of the last analysis computed, for the gauge.
    pub last_risk_score_bp: u32,
    pub batch_errors: u64,
    pub monitoring_errors: u64,
    pub model_updates: u64,
}

impl FraudDetectionService {
    /// The engine is usable: its cache respects its bound.
    pub open spec fn wf(&self) -> bool {
        self.cache.wf()
    }

    /// Builds the engine around a configuration, thresholds and an initial
    /// model: refused when the detection threshold is no ratio, or the batch
    /// size is zero.
    pub fn new(
        config: FraudDetectionConfig,
        thresholds: SeverityThresholds,
        model: ScoringModel,
    ) -> (r: Result<FraudDetectionService, SecurityError>)
        ensures
            r is Ok <==> (config.detection_threshold_bp <= MAX_SCORE_BP && config.batch_size > 0),
            r matches Err(e) ==> e matches SecurityError::Validation(_),
            r matches Ok(s) ==> {
                &&& s.wf()
                &&& s.config == config
                &&& s.thresholds == thresholds
                &&& s.model == model
                &&& s.cache.entries() == crate::cache::no_entries()
                &&& s.cache.capacity() == ANALYSIS_CACHE_SIZE
                &&& s.cache.hits_spec() == 0
                &&& s.alerts_generated == 0
                &&& s.last_risk_score_bp == 0
                &&& s.batch_errors == 0
                &&& s.monitoring_errors == 0
                &&& s.model_updates == 0
            },
    {
        if config.detection_threshold_bp > MAX_SCORE_BP {
            return Err(SecurityError::Validation("detection threshold is no ratio".to_owned()));
        }
        if config.batch_size == 0 {
            return Err(SecurityError::Validation("batch size must be positive".to_owned()));
        }
        Ok(
            FraudDetectionService {
                config,
                thresholds,
                model,
                cache: AnalysisCache::new(ANALYSIS_CACHE_SIZE),
                alerts_generated: 0,
                last_risk_score_bp: 0,
                batch_errors: 0,
                monitoring_errors: 0,
                model_updates: 0,
            },
        )
    }

    /// Raises an alert for a risky analysis; the analysis stands either way.
    fn generate_alert(&mut self, analysis: &FraudAnalysis, store: &mut AlertStore)
        requires
            old(store).wf(),
            severity_of(analysis.severity@) is Some,
            old(self).wf(),
        ensures
            final(self).wf(),
            final(store).wf(),
            final(self).cache == old(self).cache,
            final(self).config == old(self).config,
            final(self).thresholds == old(self).thresholds,
            final(self).model == old(self).model,
            final(self).batch_errors == old(self).batch_errors,
            final(self).monitoring_errors == old(self).monitoring_errors,
            final(self).model_updates == old(self).model_updates,
            final(self).last_risk_score_bp == old(self).last_risk_score_bp,
            final(self).alerts_generated as int == vstd::math::min(
                old(self).alerts_generated + 1,
                u64::MAX as int,
            ),
            final(store)@.len() == old(store)@.len() + 1,
            final(store)@.drop_last() =~= old(store)@,
            severity_of(analysis.severity@) == Some(final(store)@.last()@.severity),
            final(store)@.last()@.status == Status::New,
            final(store)@.last()@.user_id == "system"@,
            final(store)@.last()@.description == "fraud detected: transaction "@
                + analysis.transaction_id@,
    {
        let description = "fraud detected: transaction ".to_owned().concat(
            analysis.transaction_id.as_str(),
        );
        let created = store.create(analysis.severity.clone(), description, "system".to_owned());
        proof {
            assert(created is Ok);
        }
        self.alerts_generated = bump64(self.alerts_generated);
    }

    /// Analyzes one transaction. An empty transaction id or a stale
    /// timestamp fails `Validation` with nothing changed. A cached analysis
    /// is returned unchanged and counts one cache hit. Otherwise the active
    /// model scores the features, the score classifies against the
    /// thresholds, the analysis is cached, and a score at or above the
    /// effective threshold raises one alert.
    pub fn detect_fraud(
        &mut self,
        request: &FraudDetectionRequest,
        store: &mut AlertStore,
        now_secs: i64,
    ) -> (r: Result<FraudAnalysis, SecurityError>)
        requires
            old(self).wf(),
            old(store).wf(),
        ensures
            final(self).wf(),
            final(store).wf(),
            final(self).config == old(self).config,
            final(self).thresholds == old(self).thresholds,
            final(self).model == old(self).model,
            final(self).batch_errors == old(self).batch_errors,
            final(self).monitoring_errors == old(self).monitoring_errors,
            final(self).model_updates == old(self).model_updates,
            r is Ok <==> request_valid(*request, now_secs),
            r matches Err(e) ==> (e matches SecurityError::Validation(_) && *final(self)
                == *old(self) && final(store)@ == old(store)@),
            (r is Ok && old(self).cache.entries().contains_key(request.transaction_id@)) ==> {
                &&& r == Ok::<FraudAnalysis, SecurityError>(
                    old(self).cache.entries()[request.transaction_id@],
                )
                &&& final(self).cache.entries() == old(self).cache.entries()
                &&& final(self).cache.hits_spec() as int == vstd::math::min(
                    old(self).cache.hits_spec() + 1,
                    u64::MAX as int,
                )
                &&& final(store)@ == old(store)@
                &&& final(self).alerts_generated == old(self).alerts_generated
                &&& final(self).last_risk_score_bp == old(self).last_risk_score_bp
            },
            (r is Ok && !old(self).cache.entries().contains_key(request.transaction_id@)) ==> {
                let risky = risk_of(old(self).model.rules@, request.features@) >= effective_threshold(
                    *request,
                    old(self).config,
                );
                &&& (r matches Ok(a) && analysis_of(
                    *request,
                    old(self).model,
                    old(self).thresholds,
                    now_secs,
                    a,
                ) && final(self).cache.entries().contains_key(request.transaction_id@)
                    && final(self).cache.entries()[request.transaction_id@] == a)
                &&& final(self).cache.misses_spec() as int == vstd::math::min(
                    old(self).cache.misses_spec() + 1,
                    u64::MAX as int,
                )
                &&& final(self).last_risk_score_bp as int == risk_of(
                    old(self).model.rules@,
                    request.features@,
                )
                &&& (risky ==> final(store)@.len() == old(store)@.len() + 1
                    && final(self).alerts_generated as int == vstd::math::min(
                    old(self).alerts_generated + 1,
                    u64::MAX as int,
                ) && severity_of(
                    classified_severity(
                        risk_of(old(self).model.rules@, request.features@) as u32,
                        old(self).thresholds,
                    ),
                ) == Some(final(store)@.last()@.severity) && final(store)@.last()@.status
                    == Status::New && final(store)@.last()@.description
                    == "fraud detected: transaction "@ + request.transaction_id@)
                &&& (!risky ==> final(store)@ == old(store)@
                    && final(self).alerts_generated == old(self).alerts_generated)
                &&& (forall|k: int|
                    0 <= k < old(store)@.len() ==> final(store)@[k] == (#[trigger] old(store)@[k]))
            },
    {
        if request.transaction_id.as_str().is_empty() {
            return Err(SecurityError::Validation("transaction id is empty".to_owned()));
        }
        if (now_secs as i128) - (request.timestamp_secs as i128) > MAX_TRANSACTION_AGE_SECONDS
            as i128 {
            return Err(SecurityError::Validation("transaction is stale".to_owned()));
        }
        if let Some(cached) = self.cache.lookup(request.transaction_id.as_str()) {
            return Ok(cached);
        }
        let outcome = score_transaction(&self.model, &request.features);
        let severity = classify_severity(outcome.risk_bp, &self.thresholds).to_owned();
        let analysis = FraudAnalysis {
            transaction_id: request.transaction_id.clone(),
            risk_score_bp: outcome.risk_bp,
            confidence_bp: outcome.confidence_bp,
            patterns_detected: outcome.patterns,
            severity,
            timestamp_secs: now_secs,
            metadata: Vec::new(),
        };
        proof {
            lemma_scores_bounded(self.model.rules@, request.features@);
        }
        self.cache.store(request.transaction_id.clone(), analysis);
        let stored = match self.cache.peek(request.transaction_id.as_str()) {
            Some(a) => a,
            None => {
                return Err(SecurityError::Validation("cache lost a fresh entry".to_owned()));
            },
        };
        self.last_risk_score_bp = stored.risk_score_bp;
        let threshold = match request.risk_threshold_bp {
            Some(t) => t,
            None => self.config.detection_threshold_bp,
        };
        if stored.risk_score_bp >= threshold {
            proof {
                lemma_classified_severity_is_valid(stored.risk_score_bp, self.thresholds);
            }
            self.generate_alert(&stored, store);
        }
        Ok(stored)
    }

    /// Swaps the active scoring model; nothing else moves.
    pub fn install_model(&mut self, model: ScoringModel)
        requires
            old(self).wf(),
        ensures
            final(self).wf(),
            final(self).model == model,
            final(self).model_updates as int == vstd::math::min(
                old(self).model_updates + 1,
                u64::MAX as int,
            ),
            final(self).config == old(self).config,
            final(self).thresholds == old(self).thresholds,
            final(self).cache == old(self).cache,
            final(self).alerts_generated == old(self).alerts_generated,
            final(self).batch_errors == old(self).batch_errors,
            final(self).monitoring_errors == old(self).monitoring_errors,
    {
        self.model = model;
        self.model_updates = bump64(self.model_updates);
    }

    /// Counts one failure of the monitoring loop; the loop itself goes on.
    pub fn record_monitoring_error(&mut self)
        requires
            old(self).wf(),
        ensures
            final(self).wf(),
            final(self).monitoring_errors as int == vstd::math::min(
                old(self).monitoring_errors + 1,
                u64::MAX as int,
            ),
            final(self).config == old(self).config,
            final(self).thresholds == old(self).thresholds,
            final(self).model == old(self).model,
            final(self).cache == old(self).cache,
            final(self).alerts_generated == old(self).alerts_generated,
            final(self).batch_errors == old(self).batch_errors,
            final(self).model_updates == old(self).model_updates,
    {
        self.monitoring_errors = bump64(self.monitoring_errors);
    }

    /// Processes one monitoring batch: every transaction is looked at, each
    /// failure is contained and counted, and the batch never fails as a
    /// whole.
    pub fn process_transaction_batch(
        &mut self,
        batch: &Vec<FraudDetectionRequest>,
        store: &mut AlertStore,
        now_secs: i64,
    ) -> (r: BatchOutcome)
        requires
            old(self).wf(),
            old(store).wf(),
        ensures
            final(self).wf(),
            final(store).wf(),
            final(self).config == old(self).config,
            final(self).thresholds == old(self).thresholds,
            final(self).model == old(self).model,
            r.processed == batch@.len(),
            r.failures as int == invalid_count(batch@, now_secs),
            r.flagged <= r.processed,
            final(self).batch_errors as int == vstd::math::min(
                old(self).batch_errors + invalid_count(batch@, now_secs),
                u64::MAX as int,
            ),
            final(store)@.len() >= old(store)@.len(),
    {
        let n = batch.len();
        let mut flagged: usize = 0;
        let mut failures: usize = 0;
        let mut i: usize = 0;
        while i < n
            invariant
                n == batch@.len(),
                0 <= i <= n,
                self.wf(),
                store.wf(),
                self.config == old(self).config,
                self.thresholds == old(self).thresholds,
                self.model == old(self).model,
                failures as int == invalid_count(batch@.take(i as int), now_secs),
                failures <= i,
                flagged <= i,
                self.batch_errors as int == vstd::math::min(
                    old(self).batch_errors + invalid_count(batch@.take(i as int), now_secs),
                    u64::MAX as int,
                ),
                store@.len() >= old(store)@.len(),
            decreases n - i,
        {
            proof {
                assert(batch@.take(i + 1).drop_last() =~= batch@.take(i as int));
                assert(batch@.take(i + 1).last() == batch@[i as int]);
                lemma_invalid_count_nonneg(batch@.take(i as int), now_secs);
            }
            let request = &batch[i];
            match self.detect_fraud(request, store, now_secs) {
                Ok(analysis) => {
                    let threshold = match request.risk_threshold_bp {
                        Some(t) => t,
                        None => self.config.detection_threshold_bp,
                    };
                    if analysis.risk_score_bp >= threshold {
                        flagged += 1;
                    }
                },
                Err(_) => {
                    failures += 1;
                    self.batch_errors = bump64(self.batch_errors);
                },
            }
            i += 1;
        }
        proof {
            assert(batch@.take(n as int) =~= batch@);
        }
        BatchOutcome { processed: n, flagged, failures }
    }
}

/// Invalid-request counts never fall below zero, and never exceed the batch.
pub proof fn lemma_invalid_count_nonneg(batch: Seq<FraudDetectionRequest>, now_secs: i64)
    ensures
        0 <= invalid_count(batch, now_secs) <= batch.len(),
    decreases batch.len(),
{
    if batch.len() > 0 {
        lemma_invalid_count_nonneg(batch.drop_last(), now_secs);
    }
}

} // verus!
