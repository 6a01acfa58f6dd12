use security_service::alert::AlertStore;
use security_service::config::{FraudDetectionConfig, SeverityThresholds};
use security_service::connector::SecurityError;
use security_service::fraud::{
    classify_severity, is_supported_network, score_transaction, FeatureRule, FraudDetectionRequest,
    FraudDetectionService, ScoringModel,
};

fn thresholds() -> SeverityThresholds {
    SeverityThresholds {
        high_bp: 9000,
        medium_bp: 7000,
        low_bp: 5000,
    }
}

fn config() -> FraudDetectionConfig {
    FraudDetectionConfig {
        model_path: "/models/fraud_detection".to_string(),
        detection_threshold_bp: 8500,
        batch_size: 100,
        update_interval_seconds: 3600,
    }
}

/// Two rules: large transfers weigh heavily, fresh counterparties a little.
fn model() -> ScoringModel {
    ScoringModel {
        version: 1,
        rules: vec![
            FeatureRule {
                name: "large-transfer".to_string(),
                feature_index: 0,
                min_value: 1_000_000,
                weight_bp: 9000,
            },
            FeatureRule {
                name: "fresh-counterparty".to_string(),
                feature_index: 1,
                min_value: 1,
                weight_bp: 2000,
            },
        ],
    }
}

fn engine() -> FraudDetectionService {
    FraudDetectionService::new(config(), thresholds(), model()).unwrap()
}

fn request(id: &str, features: Vec<u64>) -> FraudDetectionRequest {
    FraudDetectionRequest {
        transaction_id: id.to_string(),
        timestamp_secs: 1_000_000,
        risk_threshold_bp: None,
        features,
    }
}

#[test]
fn engine_construction_validates_its_configuration() {
    assert!(FraudDetectionService::new(config(), thresholds(), model()).is_ok());
    let mut bad = config();
    bad.detection_threshold_bp = 10_001;
    assert!(matches!(
        FraudDetectionService::new(bad, thresholds(), model()),
        Err(SecurityError::Validation(_))
    ));
    let mut bad = config();
    bad.batch_size = 0;
    assert!(FraudDetectionService::new(bad, thresholds(), model()).is_err());
}

#[test]
fn scoring_sums_the_firing_rules_and_caps_at_one() {
    let model = model();
    let quiet = score_transaction(&model, &vec![10, 0]);
    assert_eq!(quiet.risk_bp, 0);
    assert_eq!(quiet.confidence_bp, 5000);
    assert!(quiet.patterns.is_empty());

    let large = score_transaction(&model, &vec![2_000_000, 0]);
    assert_eq!(large.risk_bp, 9000);
    assert_eq!(large.confidence_bp, 6000);
    assert_eq!(large.patterns, vec!["large-transfer".to_string()]);

    let both = score_transaction(&model, &vec![2_000_000, 1]);
    assert_eq!(both.risk_bp, 10_000);
    assert_eq!(both.confidence_bp, 7000);
    assert_eq!(
        both.patterns,
        vec!["large-transfer".to_string(), "fresh-counterparty".to_string()]
    );

    // Features the rules cannot reach fire nothing.
    let short = score_transaction(&model, &vec![]);
    assert_eq!(short.risk_bp, 0);
}

#[test]
fn classification_follows_the_configured_tiers() {
    let t = thresholds();
    assert_eq!(classify_severity(9500, &t), "critical");
    assert_eq!(classify_severity(9000, &t), "critical");
    assert_eq!(classify_severity(8999, &t), "high");
    assert_eq!(classify_severity(7000, &t), "high");
    assert_eq!(classify_severity(6999, &t), "medium");
    assert_eq!(classify_severity(5000, &t), "medium");
    assert_eq!(classify_severity(4999, &t), "low");
    assert_eq!(classify_severity(0, &t), "low");
}

#[test]
fn empty_or_stale_requests_fail_validation() {
    let mut engine = engine();
    let mut store = AlertStore::new();
    let now = 1_000_100;

    let empty_id = request("", vec![0, 0]);
    assert!(matches!(
        engine.detect_fraud(&empty_id, &mut store, now),
        Err(SecurityError::Validation(_))
    ));

    let mut stale = request("tx-stale", vec![0, 0]);
    stale.timestamp_secs = now - 3601;
    assert!(matches!(
        engine.detect_fraud(&stale, &mut store, now),
        Err(SecurityError::Validation(_))
    ));

    let mut just_fresh = request("tx-fresh", vec![0, 0]);
    just_fresh.timestamp_secs = now - 3600;
    assert!(engine.detect_fraud(&just_fresh, &mut store, now).is_ok());
    assert_eq!(store.len(), 0);
}

#[test]
fn analyses_are_cached_and_hits_counted() {
    let mut engine = engine();
    let mut store = AlertStore::new();
    let now = 1_000_100;
    let req = request("tx-1", vec![10, 0]);

    let first = engine.detect_fraud(&req, &mut store, now).unwrap();
    assert_eq!(engine.cache.hit_count(), 0);
    assert_eq!(engine.cache.miss_count(), 1);
    assert_eq!(engine.cache.len(), 1);

    let second = engine.detect_fraud(&req, &mut store, now).unwrap();
    assert_eq!(engine.cache.hit_count(), 1);
    assert_eq!(engine.cache.miss_count(), 1);
    assert_eq!(engine.cache.len(), 1);
    assert_eq!(second.transaction_id, first.transaction_id);
    assert_eq!(second.risk_score_bp, first.risk_score_bp);
    assert_eq!(second.confidence_bp, first.confidence_bp);
    assert_eq!(second.timestamp_secs, first.timestamp_secs);
}

#[test]
fn risky_transactions_raise_one_alert_with_the_classified_severity() {
    let mut engine = engine();
    let mut store = AlertStore::new();
    let now = 1_000_100;

    // 9000 basis points crosses the default threshold of 8500 and
    // classifies as critical.
    let risky = request("tx-risky", vec![2_000_000, 0]);
    let analysis = engine.detect_fraud(&risky, &mut store, now).unwrap();
    assert_eq!(analysis.risk_score_bp, 9000);
    assert_eq!(analysis.severity, "critical");
    assert_eq!(store.len(), 1);
    assert_eq!(engine.alerts_generated, 1);
    assert_eq!(store.get(0).severity(), "critical");
    assert_eq!(store.get(0).user_id(), "system");
    assert!(store.get(0).description().contains("tx-risky"));

    // A caller-supplied threshold overrides the default.
    let mut tolerant = request("tx-tolerant", vec![2_000_000, 0]);
    tolerant.risk_threshold_bp = Some(9500);
    engine.detect_fraud(&tolerant, &mut store, now).unwrap();
    assert_eq!(store.len(), 1);
    assert_eq!(engine.alerts_generated, 1);

    // A cache hit raises no second alert.
    engine.detect_fraud(&risky, &mut store, now).unwrap();
    assert_eq!(store.len(), 1);
}

#[test]
fn quiet_transactions_raise_no_alert() {
    let mut engine = engine();
    let mut store = AlertStore::new();
    let analysis = engine
        .detect_fraud(&request("tx-quiet", vec![10, 0]), &mut store, 1_000_100)
        .unwrap();
    assert_eq!(analysis.risk_score_bp, 0);
    assert_eq!(analysis.severity, "low");
    assert!(analysis.patterns_detected.is_empty());
    assert_eq!(store.len(), 0);
    assert_eq!(engine.alerts_generated, 0);
}

#[test]
fn batch_processing_contains_failures_and_continues() {
    let mut engine = engine();
    let mut store = AlertStore::new();
    let now = 1_000_100;
    let batch = vec![
        request("tx-a", vec![10, 0]),
        request("", vec![10, 0]),
        request("tx-b", vec![2_000_000, 1]),
        FraudDetectionRequest {
            transaction_id: "tx-old".to_string(),
            timestamp_secs: 0,
            risk_threshold_bp: None,
            features: vec![],
        },
    ];
    let outcome = engine.process_transaction_batch(&batch, &mut store, now);
    assert_eq!(outcome.processed, 4);
    assert_eq!(outcome.failures, 2);
    assert_eq!(outcome.flagged, 1);
    assert_eq!(engine.batch_errors, 2);
    assert_eq!(store.len(), 1);

    engine.record_monitoring_error();
    assert_eq!(engine.monitoring_errors, 1);
}

#[test]
fn model_swaps_are_counted_and_take_effect() {
    let mut engine = engine();
    let mut store = AlertStore::new();
    let now = 1_000_100;

    let retrained = ScoringModel {
        version: 2,
        rules: vec![FeatureRule {
            name: "always".to_string(),
            feature_index: 0,
            min_value: 0,
            weight_bp: 10_000,
        }],
    };
    engine.install_model(retrained);
    assert_eq!(engine.model_updates, 1);
    assert_eq!(engine.model.version, 2);

    let analysis = engine
        .detect_fraud(&request("tx-new-model", vec![0]), &mut store, now)
        .unwrap();
    assert_eq!(analysis.risk_score_bp, 10_000);
    assert_eq!(analysis.severity, "critical");
}

#[test]
fn monitored_networks_are_exactly_the_supported_three() {
    assert!(is_supported_network("ethereum"));
    assert!(is_supported_network("binance"));
    assert!(is_supported_network("polygon"));
    assert!(!is_supported_network("solana"));
    assert!(!is_supported_network(""));
    assert!(!is_supported_network("Ethereum"));
}
